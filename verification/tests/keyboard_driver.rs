use sos_kernel::keyboard::{read_char, Keyboard, Modifiers, Scancode, CAPSLOCK, L_SHIFT, SHIFT};
use sos_kernel::port::{Port, PortIo, ScriptedPortIo};

#[test]
fn port_records_its_number() {
    assert_eq!(Port::<u8>::new(0x60).number(), 0x60);
    assert_eq!(Port::<u16>::new(0x1F0).number(), 0x1F0);
    assert_eq!(Port::<u32>::new(0xCF8).number(), 0xCF8);
    assert_eq!(Port::<u64>::new(0x3F8).number(), 0x3F8);
}

#[test]
fn scripted_backend_hands_bytes_out_in_order() {
    let mut io = ScriptedPortIo::new(vec![0x10, 0x20]);
    let port = Port::<u8>::new(0x60);
    assert_eq!(port.read(&mut io), 0x10);
    assert_eq!(port.read(&mut io), 0x20);
    // A spent queue answers zero.
    assert_eq!(port.read(&mut io), 0x00);
}

#[test]
fn scripted_backend_records_writes() {
    let mut io = ScriptedPortIo::new(vec![]);
    let port = Port::<u8>::new(0x60);
    port.write(&mut io, 0x42);
    port.write(&mut io, 0x43);
    assert_eq!(io.written().as_slice(), &[0x42, 0x43]);
}

#[test]
fn letter_space_and_unmapped_scancodes() {
    assert_eq!(Scancode(0x1E).to_ascii(), Some(b'a'));
    assert_eq!(Scancode(0x39).to_ascii(), Some(b' '));
    // Ctrl's make code carries no printable character.
    assert_eq!(Scancode(0x1D).to_ascii(), None);
}

#[test]
fn the_four_mapped_ranges_are_exact() {
    assert_eq!(Scancode(0x00).to_ascii(), None);
    assert_eq!(Scancode(0x01).to_ascii(), Some(0x1B));
    assert_eq!(Scancode(0x0E).to_ascii(), Some(0x00));
    assert_eq!(Scancode(0x0F).to_ascii(), Some(b'\t'));
    assert_eq!(Scancode(0x10).to_ascii(), Some(b'q'));
    assert_eq!(Scancode(0x1C).to_ascii(), Some(b'\r'));
    assert_eq!(Scancode(0x28).to_ascii(), Some(b'\''));
    assert_eq!(Scancode(0x29).to_ascii(), None);
    assert_eq!(Scancode(0x2B).to_ascii(), None);
    assert_eq!(Scancode(0x2C).to_ascii(), Some(b'z'));
    assert_eq!(Scancode(0x35).to_ascii(), Some(b'/'));
    assert_eq!(Scancode(0x36).to_ascii(), None);
    assert_eq!(Scancode(0x3A).to_ascii(), None);
    // Break codes (make | 0x80) are never mapped.
    assert_eq!(Scancode(0x9E).to_ascii(), None);
    assert_eq!(Scancode(0xAA).to_ascii(), None);
}

#[test]
fn shift_make_then_break_restores_lowercase() {
    let mut m = Modifiers::new();
    m.update(Scancode(0x2A));
    assert_eq!(m.modify(b'a'), b'A');
    m.update(Scancode(0xAA));
    assert_eq!(m.modify(b'a'), b'a');
}

#[test]
fn right_shift_works_like_left_shift() {
    let mut m = Modifiers::new();
    m.update(Scancode(0x36));
    assert!(m.is_shifted());
    m.update(Scancode(0xB6));
    assert!(!m.is_shifted());
}

#[test]
fn capslock_toggles_on_make_codes_only() {
    let mut m = Modifiers::new();
    m.update(Scancode(0x3A));
    assert!(m.is_uppercase());
    // The break code is deliberately not wired: caps-lock is a toggle.
    m.update(Scancode(0xBA));
    assert!(m.is_uppercase());
    m.update(Scancode(0x3A));
    assert!(!m.is_uppercase());
}

#[test]
fn uppercase_is_shift_xor_capslock() {
    // Neither.
    let mut m = Modifiers::new();
    assert!(!m.is_uppercase());
    // Shift only.
    m.update(Scancode(0x2A));
    assert!(m.is_uppercase());
    // Shift and caps-lock together cancel out.
    m.update(Scancode(0x3A));
    assert!(!m.is_uppercase());
    // Caps-lock only.
    m.update(Scancode(0xAA));
    assert!(m.is_uppercase());
}

#[test]
fn shifted_digits_become_their_punctuation() {
    let mut m = Modifiers::new();
    m.update(Scancode(0x2A));
    assert_eq!(m.modify(b'1'), b'!');
    assert_eq!(m.modify(b'9'), b')');
    assert_eq!(m.modify(b'0'), b')');
    // Non-letter, non-digit bytes pass through even under shift.
    assert_eq!(m.modify(b'/'), b'/');
    assert_eq!(m.modify(b' '), b' ');
}

#[test]
fn unshifted_bytes_pass_through_unchanged() {
    let m = Modifiers::new();
    assert_eq!(m.modify(b'1'), b'1');
    assert_eq!(m.modify(b'0'), b'0');
    assert_eq!(m.modify(b'a'), b'a');
    assert_eq!(m.modify(b'-'), b'-');
}

#[test]
fn modifier_bit_operations() {
    let mut m = Modifiers::new();
    assert_eq!(m.bits(), 0);
    m.insert(L_SHIFT);
    assert!(m.contains(L_SHIFT));
    assert!(!m.contains(SHIFT));
    m.toggle(CAPSLOCK);
    assert_eq!(m.bits(), L_SHIFT | CAPSLOCK);
    m.remove(L_SHIFT);
    assert_eq!(m.bits(), CAPSLOCK);
    assert_eq!(Modifiers::default().bits(), 0);
}

#[test]
fn keyboard_starts_cleared_on_the_data_port() {
    let kb = Keyboard::new();
    assert_eq!(kb.state.bits(), 0);
    let mut io = ScriptedPortIo::new(vec![0x1E]);
    let code = kb.read_scancode(&mut io);
    assert_eq!(code.0, 0x1E);
}

#[test]
fn process_scancode_updates_state_then_translates() {
    let mut kb = Keyboard::new();
    assert_eq!(kb.process_scancode(Scancode(0x2A)), None);
    assert!(kb.state.is_shifted());
    assert_eq!(kb.process_scancode(Scancode(0x1E)), Some('A'));
}

#[test]
fn scancode_stream_yields_shift_then_release_characters() {
    let mut kb = Keyboard::new();
    let mut io = ScriptedPortIo::new(vec![0x2A, 0x1E, 0xAA, 0x1F]);
    let mut chars: Vec<char> = Vec::new();
    for _ in 0..4 {
        if let Some(c) = read_char(&mut kb, &mut io) {
            chars.push(c);
        }
    }
    assert_eq!(chars, vec!['A', 's']);
}
