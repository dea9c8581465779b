//! PS/2 keyboard driver: scancode decoding and the modifier-key state
//! machine, built on one 8-bit port.

use crate::port::{Port, PortIo};
use vstd::prelude::*;

verus! {

/// Left-shift modifier bit.
pub const L_SHIFT: u8 = 0b1000_0000;

/// Right-shift modifier bit.
pub const R_SHIFT: u8 = 0b0100_0000;

/// Either shift bit.
pub const SHIFT: u8 = 0b1100_0000;

/// Right-ctrl modifier bit.
pub const R_CTRL: u8 = 0b0010_0000;

/// Left-ctrl modifier bit.
pub const L_CTRL: u8 = 0b0001_0000;

/// Either ctrl bit.
pub const CTRL: u8 = 0b0011_0000;

/// Right-alt modifier bit.
pub const R_ALT: u8 = 0b0000_1000;

/// Left-alt modifier bit.
pub const L_ALT: u8 = 0b0000_0100;

/// Either alt bit.
pub const ALT: u8 = 0b0000_1100;

/// Caps-lock modifier bit (a toggle, not a momentary key).
pub const CAPSLOCK: u8 = 0b0000_0010;

/// Num-lock modifier bit.
pub const NUMLOCK: u8 = 0b0000_0001;

/// The PS/2 keyboard's data port number.
pub const DATA_PORT_NUMBER: u16 = 0x60;

/// One unprocessed byte read from the keyboard data port: a make code for a
/// key press, or the same value with the high bit set (a break code) for the
/// release.
#[derive(Copy, Clone, Debug, PartialEq, Eq, Structural)]
pub struct Scancode(pub u8);

impl View for Scancode {
    type V = u8;

    open spec fn view(&self) -> u8 {
        self.0
    }
}

/// The printable ASCII byte a make code stands for, or `None` for every code
/// outside the four mapped ranges (0x01-0x0e, 0x0f-0x1c, 0x1e-0x28,
/// 0x2c-0x35), the space bar (0x39) aside - so for every break code too.
pub open spec fn spec_to_ascii(code: u8) -> Option<u8> {
    // Number row, 0x01-0x0e.
    if code == 0x01 { Some(0x1B) }
    else if code == 0x02 { Some(('1' as u8)) }
    else if code == 0x03 { Some(('2' as u8)) }
    else if code == 0x04 { Some(('3' as u8)) }
    else if code == 0x05 { Some(('4' as u8)) }
    else if code == 0x06 { Some(('5' as u8)) }
    else if code == 0x07 { Some(('6' as u8)) }
    else if code == 0x08 { Some(('7' as u8)) }
    else if code == 0x09 { Some(('8' as u8)) }
    else if code == 0x0a { Some(('9' as u8)) }
    else if code == 0x0b { Some(('0' as u8)) }
    else if code == 0x0c { Some(('-' as u8)) }
    else if code == 0x0d { Some(('=' as u8)) }
    else if code == 0x0e { Some(0x00) }
    // Top letter row, 0x0f-0x1c.
    else if code == 0x0f { Some(('\t' as u8)) }
    else if code == 0x10 { Some(('q' as u8)) }
    else if code == 0x11 { Some(('w' as u8)) }
    else if code == 0x12 { Some(('e' as u8)) }
    else if code == 0x13 { Some(('r' as u8)) }
    else if code == 0x14 { Some(('t' as u8)) }
    else if code == 0x15 { Some(('y' as u8)) }
    else if code == 0x16 { Some(('u' as u8)) }
    else if code == 0x17 { Some(('i' as u8)) }
    else if code == 0x18 { Some(('o' as u8)) }
    else if code == 0x19 { Some(('p' as u8)) }
    else if code == 0x1a { Some(('[' as u8)) }
    else if code == 0x1b { Some((']' as u8)) }
    else if code == 0x1c { Some(('\r' as u8)) }
    // Home letter row, 0x1e-0x28.
    else if code == 0x1e { Some(('a' as u8)) }
    else if code == 0x1f { Some(('s' as u8)) }
    else if code == 0x20 { Some(('d' as u8)) }
    else if code == 0x21 { Some(('f' as u8)) }
    else if code == 0x22 { Some(('g' as u8)) }
    else if code == 0x23 { Some(('h' as u8)) }
    else if code == 0x24 { Some(('j' as u8)) }
    else if code == 0x25 { Some(('k' as u8)) }
    else if code == 0x26 { Some(('l' as u8)) }
    else if code == 0x27 { Some((';' as u8)) }
    else if code == 0x28 { Some(('\'' as u8)) }
    // Bottom letter row, 0x2c-0x35.
    else if code == 0x2c { Some(('z' as u8)) }
    else if code == 0x2d { Some(('x' as u8)) }
    else if code == 0x2e { Some(('c' as u8)) }
    else if code == 0x2f { Some(('v' as u8)) }
    else if code == 0x30 { Some(('b' as u8)) }
    else if code == 0x31 { Some(('n' as u8)) }
    else if code == 0x32 { Some(('m' as u8)) }
    else if code == 0x33 { Some((',' as u8)) }
    else if code == 0x34 { Some(('.' as u8)) }
    else if code == 0x35 { Some(('/' as u8)) }
    // Space bar.
    else if code == 0x39 { Some((' ' as u8)) }
    else { None }
}

impl Scancode {
    /// Translates a make code to its printable ASCII byte; codes outside the
    /// mapped ranges - function keys, modifier keys, every break code - give
    /// `None`.
    pub fn to_ascii(&self) -> (r: Option<u8>)
        ensures
            r == spec_to_ascii(self@),
    {
        match self.0 {
            0x01 => Some(0x1B),
            0x02 => Some(('1' as u8)),
            0x03 => Some(('2' as u8)),
            0x04 => Some(('3' as u8)),
            0x05 => Some(('4' as u8)),
            0x06 => Some(('5' as u8)),
            0x07 => Some(('6' as u8)),
            0x08 => Some(('7' as u8)),
            0x09 => Some(('8' as u8)),
            0x0a => Some(('9' as u8)),
            0x0b => Some(('0' as u8)),
            0x0c => Some(('-' as u8)),
            0x0d => Some(('=' as u8)),
            0x0e => Some(0x00),
            0x0f => Some(('\t' as u8)),
            0x10 => Some(('q' as u8)),
            0x11 => Some(('w' as u8)),
            0x12 => Some(('e' as u8)),
            0x13 => Some(('r' as u8)),
            0x14 => Some(('t' as u8)),
            0x15 => Some(('y' as u8)),
            0x16 => Some(('u' as u8)),
            0x17 => Some(('i' as u8)),
            0x18 => Some(('o' as u8)),
            0x19 => Some(('p' as u8)),
            0x1a => Some(('[' as u8)),
            0x1b => Some((']' as u8)),
            0x1c => Some(('\r' as u8)),
            0x1e => Some(('a' as u8)),
            0x1f => Some(('s' as u8)),
            0x20 => Some(('d' as u8)),
            0x21 => Some(('f' as u8)),
            0x22 => Some(('g' as u8)),
            0x23 => Some(('h' as u8)),
            0x24 => Some(('j' as u8)),
            0x25 => Some(('k' as u8)),
            0x26 => Some(('l' as u8)),
            0x27 => Some((';' as u8)),
            0x28 => Some(('\'' as u8)),
            0x2c => Some(('z' as u8)),
            0x2d => Some(('x' as u8)),
            0x2e => Some(('c' as u8)),
            0x2f => Some(('v' as u8)),
            0x30 => Some(('b' as u8)),
            0x31 => Some(('n' as u8)),
            0x32 => Some(('m' as u8)),
            0x33 => Some((',' as u8)),
            0x34 => Some(('.' as u8)),
            0x35 => Some(('/' as u8)),
            0x39 => Some((' ' as u8)),
            _ => None,
        }
    }
}

/// A scancode translates to a character exactly on the four inclusive ranges
/// and the space bar; in particular every break code (high bit set)
/// translates to nothing.
pub proof fn lemma_to_ascii_domain(code: u8)
    ensures
        spec_to_ascii(code) is Some <==> (0x01 <= code <= 0x0e || 0x0f <= code <= 0x1c || 0x1e
            <= code <= 0x28 || 0x2c <= code <= 0x35 || code == 0x39),
        code >= 0x80 ==> spec_to_ascii(code) is None,
{
}

/// True when either shift bit is set.
pub open spec fn spec_is_shifted(bits: u8) -> bool {
    bits & SHIFT != 0
}

/// True when the caps-lock bit is set.
pub open spec fn spec_is_capslock(bits: u8) -> bool {
    bits & CAPSLOCK != 0
}

/// True when shift XOR caps-lock holds: caps-lock inverts shift's effect on
/// letters, as a physical keyboard does.
pub open spec fn spec_is_uppercase(bits: u8) -> bool {
    spec_is_shifted(bits) != spec_is_capslock(bits)
}

/// The modifier bits after one scancode: the four momentary make codes set
/// their bit, their break codes (make OR 0x80) clear it, the caps-lock make
/// code toggles its bit (its break code is deliberately not wired: caps-lock
/// is a toggle key), and every other code leaves the state alone.
pub open spec fn spec_update(bits: u8, code: u8) -> u8 {
    if code == 0x1D { bits | L_CTRL }
    else if code == 0x2A { bits | L_SHIFT }
    else if code == 0x36 { bits | R_SHIFT }
    else if code == 0x38 { bits | L_ALT }
    else if code == 0x3A { bits ^ CAPSLOCK }
    else if code == 0x9D { bits & !L_CTRL }
    else if code == 0xAA { bits & !L_SHIFT }
    else if code == 0xB6 { bits & !R_SHIFT }
    else if code == 0xB8 { bits & !L_ALT }
    else { bits }
}

/// The ASCII byte after the modifiers have their say: lowercase letters are
/// upcased when uppercase holds, digits 1-9 become their shifted punctuation
/// (the ASCII character 0x10 below the digit) when shifted, digit 0 becomes
/// ')' when shifted, and every other byte passes through unchanged.
pub open spec fn spec_modify(bits: u8, ascii: u8) -> u8 {
    if ('a' as u8) <= ascii && ascii <= ('z' as u8) && spec_is_uppercase(bits) {
        (ascii - ('a' as u8) + ('A' as u8)) as u8
    } else if ('1' as u8) <= ascii && ascii <= ('9' as u8) && spec_is_shifted(bits) {
        (ascii - ('1' as u8) + ('!' as u8)) as u8
    } else if ascii == ('0' as u8) && spec_is_shifted(bits) {
        (')' as u8)
    } else {
        ascii
    }
}

/// The modifier-key state: one bit per shift, ctrl and alt key, plus the
/// caps-lock and num-lock toggles. Mutated only by [`Modifiers::update`] (and
/// the raw bit operations it is built from).
#[derive(Copy, Clone, Debug, PartialEq, Eq, Structural)]
pub struct Modifiers {
    bits: u8,
}

impl View for Modifiers {
    type V = u8;

    closed spec fn view(&self) -> u8 {
        self.bits
    }
}

impl Modifiers {
    /// A cleared state: no modifier held, no toggle on.
    pub fn new() -> (r: Self)
        ensures
            r@ == 0,
    {
        Modifiers { bits: 0 }
    }

    /// The raw modifier bits.
    pub fn bits(&self) -> (r: u8)
        ensures
            r == self@,
    {
        self.bits
    }

    /// True when every bit of `mask` is set.
    pub fn contains(&self, mask: u8) -> (r: bool)
        ensures
            r == (self@ & mask == mask),
    {
        self.bits & mask == mask
    }

    /// Sets every bit of `mask`.
    pub fn insert(&mut self, mask: u8)
        ensures
            final(self)@ == (old(self)@ | mask),
    {
        self.bits = self.bits | mask;
    }

    /// Clears every bit of `mask`.
    pub fn remove(&mut self, mask: u8)
        ensures
            final(self)@ == (old(self)@ & !mask),
    {
        self.bits = self.bits & !mask;
    }

    /// Flips every bit of `mask`.
    pub fn toggle(&mut self, mask: u8)
        ensures
            final(self)@ == (old(self)@ ^ mask),
    {
        self.bits = self.bits ^ mask;
    }

    /// True when either shift key is held.
    pub fn is_shifted(&self) -> (r: bool)
        ensures
            r == spec_is_shifted(self@),
    {
        self.bits & SHIFT != 0
    }

    /// True exactly when shift XOR caps-lock holds, so caps-lock inverts
    /// shift's effect on letters.
    pub fn is_uppercase(&self) -> (r: bool)
        ensures
            r == spec_is_uppercase(self@),
    {
        let shifted = self.bits & SHIFT != 0;
        let caps = self.bits & CAPSLOCK != 0;
        shifted != caps
    }

    /// Steps the state machine by one scancode, as [`spec_update`] says.
    pub fn update(&mut self, scancode: Scancode)
        ensures
            final(self)@ == spec_update(old(self)@, scancode@),
    {
        match scancode.0 {
            0x1D => self.insert(L_CTRL),
            0x2A => self.insert(L_SHIFT),
            0x36 => self.insert(R_SHIFT),
            0x38 => self.insert(L_ALT),
            // Caps lock toggles on the leading edge; its break code does
            // nothing.
            0x3A => self.toggle(CAPSLOCK),
            0x9D => self.remove(L_CTRL),
            0xAA => self.remove(L_SHIFT),
            0xB6 => self.remove(R_SHIFT),
            0xB8 => self.remove(L_ALT),
            _ => {},
        }
    }

    /// Applies the state to an ASCII byte, as [`spec_modify`] says.
    pub fn modify(&self, ascii: u8) -> (r: u8)
        ensures
            r == spec_modify(self@, ascii),
    {
        if ('a' as u8) <= ascii && ascii <= ('z' as u8) && self.is_uppercase() {
            ascii - ('a' as u8) + ('A' as u8)
        } else if ('1' as u8) <= ascii && ascii <= ('9' as u8) && self.is_shifted() {
            ascii - ('1' as u8) + ('!' as u8)
        } else if ascii == ('0' as u8) && self.is_shifted() {
            (')' as u8)
        } else {
            ascii
        }
    }
}

/// The default modifier state is the cleared one.
impl Default for Modifiers {
    fn default() -> (r: Self)
        ensures
            r@ == 0,
    {
        Modifiers::new()
    }
}

/// Pressing caps lock twice restores the state it found, and its break code
/// (0xBA) changes nothing: the key is a toggle wired on the leading edge
/// only.
pub proof fn lemma_capslock_round_trip(bits: u8)
    ensures
        spec_update(spec_update(bits, 0x3A), 0x3A) == bits,
        spec_update(bits, 0xBA) == bits,
{
    assert((bits ^ CAPSLOCK) ^ CAPSLOCK == bits) by (bit_vector);
}

/// A momentary modifier's break code undoes its make code: make then break
/// leaves the bit cleared, whatever it was before.
pub proof fn lemma_shift_make_break(bits: u8)
    ensures
        spec_update(spec_update(bits, 0x2A), 0xAA) == (bits & !L_SHIFT),
        spec_update(spec_update(bits, 0x36), 0xB6) == (bits & !R_SHIFT),
{
    assert((bits | L_SHIFT) & !L_SHIFT == bits & !L_SHIFT) by (bit_vector);
    assert((bits | R_SHIFT) & !R_SHIFT == bits & !R_SHIFT) by (bit_vector);
}

/// The character one scancode produces out of a given modifier state: the
/// make code's ASCII byte with the *updated* modifiers applied, or nothing
/// for an unmapped code.
pub open spec fn spec_output(bits: u8, code: u8) -> Option<char> {
    match spec_to_ascii(code) {
        Some(ascii) => Some(spec_modify(spec_update(bits, code), ascii) as char),
        None => None,
    }
}

/// The PS/2 keyboard: one 8-bit data port and the modifier state fed from it.
///
/// One physical keyboard controller exists system-wide, so callers keep one
/// instance and take it by exclusive borrow; whoever owns it across contexts
/// guards it with their mutual-exclusion primitive.
pub struct Keyboard {
    /// Port the keyboard's data bytes are read from.
    data_port: Port<u8>,
    /// The keyboard's modifier keys.
    pub state: Modifiers,
}

impl Keyboard {
    /// The number of the data port this keyboard reads.
    pub closed spec fn spec_port(&self) -> u16 {
        self.data_port@
    }

    /// The modifier bits the keyboard currently holds.
    pub closed spec fn spec_state(&self) -> u8 {
        self.state@
    }

    /// A keyboard on the standard data port, modifiers cleared.
    pub fn new() -> (r: Self)
        ensures
            r.spec_port() == DATA_PORT_NUMBER,
            r.spec_state() == 0,
    {
        Keyboard { data_port: Port::new(DATA_PORT_NUMBER), state: Modifiers::new() }
    }

    /// One blocking read of the data port, wrapped as a scancode. Nothing is
    /// promised of the byte: it is whatever the controller latched, and the
    /// caller is expected to invoke this only once data availability was
    /// signalled.
    pub fn read_scancode<B: PortIo>(&self, io: &mut B) -> Scancode {
        Scancode(self.data_port.read(io))
    }

    /// Consumes one scancode: steps the modifier state, then translates the
    /// code, with the updated state applied, into an optional character -
    /// exactly [`spec_output`]. This is the whole of the driver's logic past
    /// the port read.
    pub fn process_scancode(&mut self, code: Scancode) -> (r: Option<char>)
        ensures
            final(self).spec_state() == spec_update(old(self).spec_state(), code@),
            final(self).spec_port() == old(self).spec_port(),
            r == spec_output(old(self).spec_state(), code@),
    {
        self.state.update(code);
        match code.to_ascii() {
            Some(ascii) => Some(self.state.modify(ascii) as char),
            None => None,
        }
    }
}

/// Reads one scancode from the keyboard and consumes it: the modifier state
/// steps by the code that came in, and the result is that code's character,
/// if it has one, as [`spec_output`] says - `None` for break codes, function
/// keys and every other unmapped code.
///
/// The exclusive borrow of the keyboard keeps the read, the state update and
/// the translation one atomic unit: no other caller can interleave.
pub fn read_char<B: PortIo>(keyboard: &mut Keyboard, io: &mut B) -> (r: Option<char>)
    ensures
        exists|code: u8|
            {
                &&& final(keyboard).spec_state() == spec_update(
                    old(keyboard).spec_state(),
                    code,
                )
                &&& r == spec_output(old(keyboard).spec_state(), code)
            },
        final(keyboard).spec_port() == old(keyboard).spec_port(),
{
    let code = keyboard.read_scancode(io);
    let r = keyboard.process_scancode(code);
    proof {
        assert(keyboard.spec_state() == spec_update(old(keyboard).spec_state(), code@)
            && r == spec_output(old(keyboard).spec_state(), code@));
    }
    r
}

} // verus!
