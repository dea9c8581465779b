//! Interrupt-descriptor-table gates for x86_64 long mode: the flags byte, the
//! 16-byte gate descriptor, and the 256-entry table the CPU dispatches from.

use vstd::prelude::*;

verus! {

/// The "descriptor present" bit of a gate's flags byte.
pub const PRESENT: u8 = 0b1000_0000;

/// Gate-type encoding of a task gate in the low nibble of the flags byte.
pub const TASK_GATE_32: u8 = 0b0000_0101;

/// Gate-type encoding of an interrupt gate in the low nibble of the flags
/// byte.
pub const INT_GATE_32: u8 = 0b0000_1110;

/// Gate-type encoding of a trap gate in the low nibble of the flags byte.
pub const TRAP_GATE_32: u8 = 0b0000_1111;

/// An 8-bit flag set describing a descriptor: presence, privilege, and gate
/// kind. Any byte is a meaningful flag set to the hardware, so the type
/// carries no invariant; equality is bitwise.
#[derive(Copy, Clone, Debug, PartialEq, Eq, Structural)]
pub struct GateFlags {
    bits: u8,
}

impl View for GateFlags {
    type V = u8;

    closed spec fn view(&self) -> u8 {
        self.bits
    }
}

impl GateFlags {
    /// Flags of a present trap gate.
    pub fn new_trap() -> (r: Self)
        ensures
            r@ == 0b1000_1111u8,
    {
        proof {
            assert(TRAP_GATE_32 | PRESENT == 0b1000_1111u8) by (bit_vector);
        }
        GateFlags { bits: TRAP_GATE_32 | PRESENT }
    }

    /// Flags of a present task gate.
    pub fn new_task() -> (r: Self)
        ensures
            r@ == 0b1000_0101u8,
    {
        proof {
            assert(TASK_GATE_32 | PRESENT == 0b1000_0101u8) by (bit_vector);
        }
        GateFlags { bits: TASK_GATE_32 | PRESENT }
    }

    /// Flags of a present interrupt gate.
    pub fn new_interrupt() -> (r: Self)
        ensures
            r@ == 0b1000_1110u8,
    {
        proof {
            assert(INT_GATE_32 | PRESENT == 0b1000_1110u8) by (bit_vector);
        }
        GateFlags { bits: INT_GATE_32 | PRESENT }
    }

    /// The raw flags byte.
    pub fn bits(&self) -> (r: u8)
        ensures
            r == self@,
    {
        self.bits
    }

    /// True when every bit of `mask` is set in the flags byte.
    pub fn contains(&self, mask: u8) -> (r: bool)
        ensures
            r == (self@ & mask == mask),
    {
        self.bits & mask == mask
    }

    /// Sets every bit of `mask`.
    pub fn insert(&mut self, mask: u8)
        ensures
            final(self)@ == (old(self)@ | mask),
    {
        self.bits = self.bits | mask;
    }

    /// Clears every bit of `mask`.
    pub fn remove(&mut self, mask: u8)
        ensures
            final(self)@ == (old(self)@ & !mask),
    {
        self.bits = self.bits & !mask;
    }

    /// Flips every bit of `mask`.
    pub fn toggle(&mut self, mask: u8)
        ensures
            final(self)@ == (old(self)@ ^ mask),
    {
        self.bits = self.bits ^ mask;
    }
}

/// A code-segment selector as the descriptor records it: the raw 16-bit value
/// that the boot code hands over. Which selector is current when a handler is
/// installed is the boot code's concern; this type only carries the value.
#[derive(Copy, Clone, Debug, PartialEq, Eq, Structural)]
pub struct Selector {
    bits: u16,
}

impl View for Selector {
    type V = u16;

    closed spec fn view(&self) -> u16 {
        self.bits
    }
}

impl Selector {
    /// Wraps a raw selector value.
    pub fn from_raw(bits: u16) -> (r: Self)
        ensures
            r@ == bits,
    {
        Selector { bits }
    }

    /// The raw selector value.
    pub fn bits(&self) -> (r: u16)
        ensures
            r == self@,
    {
        self.bits
    }
}

/// Bits 0-15 of a handler's entry-point address.
pub open spec fn offset_lower_part(addr: u64) -> u16 {
    (addr & 0xFFFF) as u16
}

/// Bits 16-31 of a handler's entry-point address.
pub open spec fn offset_mid_part(addr: u64) -> u16 {
    ((addr >> 16) & 0xFFFF) as u16
}

/// Bits 32-63 of a handler's entry-point address.
pub open spec fn offset_upper_part(addr: u64) -> u32 {
    ((addr >> 32) & 0xFFFF_FFFF) as u32
}

/// The entry-point address a gate's three offset fields encode together.
pub open spec fn gate_offset(g: Gate) -> u64 {
    (g.offset_lower as u64) | ((g.offset_mid as u64) << 16) | ((g.offset_upper as u64) << 32)
}

/// An installed gate's three offset fields join back to exactly the handler
/// address that was installed: the split loses nothing.
pub proof fn lemma_installed_gate_offset(g: Gate, handler: u64, selector: u16)
    requires
        is_installed_gate(g, handler, selector),
    ensures
        gate_offset(g) == handler,
{
    assert((((handler & 0xFFFF) as u16) as u64) | (((((handler >> 16) & 0xFFFF) as u16) as u64)
        << 16) | (((((handler >> 32) & 0xFFFF_FFFF) as u32) as u64) << 32) == handler)
        by (bit_vector);
}

/// An IDT entry, a "gate": the 16-byte descriptor the CPU's dispatch hardware
/// reads. The fields stand in the exact order and width of the hardware
/// layout; [`Gate::encode`] states that layout byte by byte.
///
/// The `zero` byte and the `reserved` word are fixed at zero by the hardware
/// specification.
#[derive(Copy, Clone, Debug, PartialEq, Eq, Structural)]
pub struct Gate {
    /// Bits 0-15 of the handler's entry-point address.
    pub offset_lower: u16,
    /// Code-segment selector (GDT or LDT).
    pub selector: Selector,
    /// Always zero.
    pub zero: u8,
    /// This descriptor's type and attributes.
    pub flags: GateFlags,
    /// Bits 16-31 of the handler's entry-point address.
    pub offset_mid: u16,
    /// Bits 32-63 of the handler's entry-point address.
    pub offset_upper: u32,
    /// Always zero; "reserved" in the hardware specification.
    pub reserved: u32,
}

/// A gate as the "absent" constructor builds it: null handler address,
/// selector zero, and - deliberately - the flags of a *present* interrupt
/// gate. See [`Gate::absent`].
pub open spec fn is_absent_gate(g: Gate) -> bool {
    &&& g.offset_lower == 0
    &&& g.selector@ == 0
    &&& g.zero == 0
    &&& g.flags@ == 0b1000_1110u8
    &&& g.offset_mid == 0
    &&& g.offset_upper == 0
    &&& g.reserved == 0
}

/// A gate as handler installation builds it: the address split across the
/// three offset fields, the given selector, present-interrupt-gate flags, and
/// the two fixed zero fields.
pub open spec fn is_installed_gate(g: Gate, handler: u64, selector: u16) -> bool {
    &&& g.offset_lower == offset_lower_part(handler)
    &&& g.selector@ == selector
    &&& g.zero == 0
    &&& g.flags@ == 0b1000_1110u8
    &&& g.offset_mid == offset_mid_part(handler)
    &&& g.offset_upper == offset_upper_part(handler)
    &&& g.reserved == 0
}

impl Gate {
    /// The descriptor every fresh table slot holds.
    ///
    /// Note the deliberate caveat: this is *not* a descriptor with the
    /// present bit cleared. It is a present interrupt gate with a null
    /// handler address and the boot (zero) selector - filler that keeps every
    /// slot a well-formed descriptor. Dispatching through such a slot is
    /// still undefined behaviour at the hardware level; a genuinely
    /// not-present descriptor would instead raise a defined
    /// General-Protection fault.
    pub fn absent() -> (r: Self)
        ensures
            is_absent_gate(r),
    {
        Gate {
            offset_lower: 0,
            selector: Selector::from_raw(0),
            zero: 0,
            flags: GateFlags::new_interrupt(),
            offset_mid: 0,
            offset_upper: 0,
            reserved: 0,
        }
    }

    /// Builds a gate for a plain interrupt handler whose entry point is
    /// `handler`: splits the address into the three offset fields, records
    /// the selector, and marks the result a present interrupt gate.
    ///
    /// The handler must follow the interrupt calling convention; that is
    /// established by whoever produced the entry point, not checked here.
    pub fn from_interrupt_handler(handler: u64, selector: Selector) -> (r: Self)
        ensures
            is_installed_gate(r, handler, selector@),
    {
        proof {
            assert(handler & 0xFFFF <= 0xFFFF && (handler >> 16) & 0xFFFF <= 0xFFFF && (handler
                >> 32) & 0xFFFF_FFFF <= 0xFFFF_FFFF) by (bit_vector);
        }
        Gate {
            offset_lower: (handler & 0xFFFF) as u16,
            selector,
            zero: 0,
            flags: GateFlags::new_interrupt(),
            offset_mid: ((handler >> 16) & 0xFFFF) as u16,
            offset_upper: ((handler >> 32) & 0xFFFF_FFFF) as u32,
            reserved: 0,
        }
    }

    /// Builds a gate for a handler that additionally receives the CPU-pushed
    /// error code. The descriptor bytes are identical to those of a plain
    /// interrupt handler's gate: the distinction lives in the handler's own
    /// entry stub, which must pop the extra stack word, not in the table.
    pub fn from_error_code_handler(handler: u64, selector: Selector) -> (r: Self)
        ensures
            is_installed_gate(r, handler, selector@),
    {
        Gate::from_interrupt_handler(handler, selector)
    }

    /// Replaces this gate with one pointing at `handler`: the slot moves from
    /// whatever it held to "installed".
    pub fn set_handler(&mut self, handler: u64, selector: Selector)
        ensures
            is_installed_gate(*final(self), handler, selector@),
    {
        *self = Gate::from_interrupt_handler(handler, selector);
    }

    /// Sets the trap-gate type bits in the flags byte, leaving every other
    /// field alone: applied after installation, it turns an interrupt gate
    /// into a trap gate.
    pub fn set_trap(&mut self)
        ensures
            final(self).flags@ == (old(self).flags@ | TRAP_GATE_32),
            final(self).offset_lower == old(self).offset_lower,
            final(self).selector == old(self).selector,
            final(self).zero == old(self).zero,
            final(self).offset_mid == old(self).offset_mid,
            final(self).offset_upper == old(self).offset_upper,
            final(self).reserved == old(self).reserved,
    {
        self.flags.insert(TRAP_GATE_32);
    }

    /// This descriptor's flags byte, as a flag set.
    pub fn flags(&self) -> (r: GateFlags)
        ensures
            r == self.flags,
    {
        self.flags
    }

    /// Replaces this descriptor's flags byte, leaving every other field alone.
    pub fn set_flags(&mut self, flags: GateFlags)
        ensures
            final(self).flags == flags,
            final(self).offset_lower == old(self).offset_lower,
            final(self).selector == old(self).selector,
            final(self).zero == old(self).zero,
            final(self).offset_mid == old(self).offset_mid,
            final(self).offset_upper == old(self).offset_upper,
            final(self).reserved == old(self).reserved,
    {
        self.flags = flags;
    }

    /// The 16 bytes of the descriptor exactly as the CPU reads them:
    /// little-endian fields in declaration order, no padding anywhere.
    pub open spec fn spec_bytes(self) -> Seq<u8> {
        seq![
            (self.offset_lower % 256) as u8,
            (self.offset_lower / 256) as u8,
            (self.selector@ % 256) as u8,
            (self.selector@ / 256) as u8,
            self.zero,
            self.flags@,
            (self.offset_mid % 256) as u8,
            (self.offset_mid / 256) as u8,
            (self.offset_upper % 256) as u8,
            (self.offset_upper / 256 % 256) as u8,
            (self.offset_upper / 65536 % 256) as u8,
            (self.offset_upper / 16777216) as u8,
            (self.reserved % 256) as u8,
            (self.reserved / 256 % 256) as u8,
            (self.reserved / 65536 % 256) as u8,
            (self.reserved / 16777216) as u8,
        ]
    }

    /// Writes the descriptor out as its 16 exact bytes, the wire format the
    /// external loader hands to the CPU.
    pub fn encode(&self) -> (r: Vec<u8>)
        ensures
            r@ == self.spec_bytes(),
            r@.len() == 16,
    {
        let mut r: Vec<u8> = Vec::new();
        r.push((self.offset_lower % 256) as u8);
        r.push((self.offset_lower / 256) as u8);
        let sel = self.selector.bits();
        r.push((sel % 256) as u8);
        r.push((sel / 256) as u8);
        r.push(self.zero);
        r.push(self.flags.bits());
        r.push((self.offset_mid % 256) as u8);
        r.push((self.offset_mid / 256) as u8);
        r.push((self.offset_upper % 256) as u8);
        r.push((self.offset_upper / 256 % 256) as u8);
        r.push((self.offset_upper / 65536 % 256) as u8);
        r.push((self.offset_upper / 16777216) as u8);
        r.push((self.reserved % 256) as u8);
        r.push((self.reserved / 256 % 256) as u8);
        r.push((self.reserved / 65536 % 256) as u8);
        r.push((self.reserved / 16777216) as u8);
        proof {
            assert(r@ =~= self.spec_bytes());
        }
        r
    }
}

/// The default gate is the "absent" filler, as a fresh table slot holds it.
impl Default for Gate {
    fn default() -> (r: Self)
        ensures
            is_absent_gate(r),
    {
        Gate::absent()
    }
}

/// The bytes of a run of gates laid out back to back: each descriptor's 16
/// bytes in order, with no padding between entries.
pub open spec fn table_bytes(gates: Seq<Gate>) -> Seq<u8>
    decreases gates.len(),
{
    if gates.len() == 0 {
        Seq::empty()
    } else {
        gates[0].spec_bytes() + table_bytes(gates.skip(1))
    }
}

/// Appending one gate to a run appends exactly its 16 bytes.
proof fn lemma_table_bytes_push(gates: Seq<Gate>, g: Gate)
    ensures
        table_bytes(gates.push(g)) == table_bytes(gates) + g.spec_bytes(),
    decreases gates.len(),
{
    if gates.len() == 0 {
        assert(gates.push(g)[0] == g);
        assert(gates =~= Seq::<Gate>::empty());
        assert(gates.push(g).skip(1) =~= Seq::<Gate>::empty());
        assert(table_bytes(Seq::<Gate>::empty()) == Seq::<u8>::empty());
        assert(table_bytes(gates.push(g)) =~= table_bytes(gates) + g.spec_bytes());
    } else {
        lemma_table_bytes_push(gates.skip(1), g);
        assert(gates.push(g).skip(1) =~= gates.skip(1).push(g));
        assert(gates.push(g)[0] == gates[0]);
        assert(table_bytes(gates.push(g)) == gates[0].spec_bytes() + (table_bytes(gates.skip(1))
            + g.spec_bytes()));
        assert(table_bytes(gates.push(g)) =~= table_bytes(gates) + g.spec_bytes());
    }
}

/// A run of gates takes 16 bytes per gate.
pub proof fn lemma_table_bytes_len(gates: Seq<Gate>)
    ensures
        table_bytes(gates).len() == 16 * gates.len(),
    decreases gates.len(),
{
    if gates.len() > 0 {
        lemma_table_bytes_len(gates.skip(1));
    }
}

/// The interrupt descriptor table: exactly 256 gates, indexed by interrupt
/// vector, each slot settable on its own. Kernel initialization populates it
/// before interrupts are enabled; an external loader then hands its memory to
/// the CPU.
pub struct Idt {
    entries: Vec<Gate>,
}

impl View for Idt {
    type V = Seq<Gate>;

    closed spec fn view(&self) -> Seq<Gate> {
        self.entries@
    }
}

impl Idt {
    /// A well-formed table holds one gate per interrupt vector, no more and
    /// no fewer. Every method keeps this.
    pub open spec fn wf(&self) -> bool {
        self@.len() == 256
    }

    /// A fresh table: all 256 slots hold the "absent" filler gate.
    pub fn new() -> (r: Self)
        ensures
            r.wf(),
            forall|i: int| 0 <= i < 256 ==> is_absent_gate(#[trigger] r@[i]),
    {
        let mut entries: Vec<Gate> = Vec::new();
        let mut i: usize = 0;
        while i < 256
            invariant
                i <= 256,
                entries@.len() == i,
                forall|k: int| 0 <= k < i ==> is_absent_gate(#[trigger] entries@[k]),
            decreases 256 - i,
        {
            entries.push(Gate::absent());
            i = i + 1;
        }
        Idt { entries }
    }

    /// The descriptor currently held by `vector`'s slot.
    pub fn gate(&self, vector: u8) -> (r: Gate)
        requires
            self.wf(),
        ensures
            r == self@[vector as int],
    {
        self.entries[vector as usize]
    }

    /// Installs `handler` into `vector`'s slot: the slot becomes an installed
    /// present interrupt gate for that address and selector; every other slot
    /// is untouched.
    pub fn set_handler(&mut self, vector: u8, handler: u64, selector: Selector)
        requires
            old(self).wf(),
        ensures
            final(self).wf(),
            is_installed_gate(final(self)@[vector as int], handler, selector@),
            forall|i: int|
                0 <= i < 256 && i != vector as int ==> final(self)@[i] == old(self)@[i],
    {
        let g = &mut self.entries[vector as usize];
        g.set_handler(handler, selector);
    }

    /// Flips `vector`'s slot to a trap gate, leaving its other fields and
    /// every other slot untouched.
    pub fn set_trap(&mut self, vector: u8)
        requires
            old(self).wf(),
        ensures
            final(self).wf(),
            final(self)@[vector as int].flags@ == (old(self)@[vector as int].flags@
                | TRAP_GATE_32),
            final(self)@[vector as int].offset_lower == old(self)@[vector as int].offset_lower,
            final(self)@[vector as int].selector == old(self)@[vector as int].selector,
            final(self)@[vector as int].zero == old(self)@[vector as int].zero,
            final(self)@[vector as int].offset_mid == old(self)@[vector as int].offset_mid,
            final(self)@[vector as int].offset_upper == old(self)@[vector as int].offset_upper,
            final(self)@[vector as int].reserved == old(self)@[vector as int].reserved,
            forall|i: int|
                0 <= i < 256 && i != vector as int ==> final(self)@[i] == old(self)@[i],
    {
        let g = &mut self.entries[vector as usize];
        g.set_trap();
    }

    /// The table's gates in vector order, for the loader.
    pub fn gates(&self) -> (r: &Vec<Gate>)
        ensures
            r@ == self@,
    {
        &self.entries
    }

    /// The table's whole memory image: 256 descriptors of 16 bytes each,
    /// back to back with no padding - 4096 bytes, exactly what the external
    /// loader hands to the CPU's table-load instruction.
    pub fn encode(&self) -> (r: Vec<u8>)
        requires
            self.wf(),
        ensures
            r@ == table_bytes(self@),
            r@.len() == 4096,
    {
        let mut r: Vec<u8> = Vec::new();
        let mut i: usize = 0;
        proof {
            assert(self@.take(0) =~= Seq::<Gate>::empty());
        }
        while i < 256
            invariant
                i <= 256,
                self.wf(),
                r@ == table_bytes(self@.take(i as int)),
            decreases 256 - i,
        {
            let mut chunk = self.entries[i].encode();
            proof {
                assert(self@.take(i as int).push(self@[i as int]) =~= self@.take(i as int + 1));
                lemma_table_bytes_push(self@.take(i as int), self@[i as int]);
            }
            r.append(&mut chunk);
            i = i + 1;
        }
        proof {
            assert(self@.take(256) =~= self@);
            lemma_table_bytes_len(self@);
        }
        r
    }
}

} // verus!
