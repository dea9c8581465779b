use sos_kernel::paddr::PAddr;

#[test]
fn from_and_back() {
    assert_eq!(PAddr::from_u64(0).as_u64(), 0);
    assert_eq!(PAddr::from_u64(0xdead_beef).as_u64(), 0xdead_beef);
    assert_eq!(PAddr::from_u64(u64::MAX).as_u64(), u64::MAX);
}

#[test]
fn add_matches_raw_sum() {
    let a = PAddr::from_u64(2);
    let b = PAddr::from_u64(3);
    assert_eq!(a.wrapping_add(b).as_u64(), 5);
    assert_eq!(a.wrapping_add_u64(3).as_u64(), 5);
    // By-reference operands are covered by copies of the same values.
    let ar = &a;
    assert_eq!(ar.wrapping_add(*&b).as_u64(), 5);
}

#[test]
fn add_wraps_modulo_2_pow_64() {
    let max = PAddr::from_u64(u64::MAX);
    assert_eq!(max.wrapping_add(PAddr::from_u64(1)).as_u64(), 0);
    assert_eq!(max.wrapping_add_u64(5).as_u64(), 4);
}

#[test]
fn sub_matches_raw_difference() {
    let a = PAddr::from_u64(5);
    assert_eq!(a.wrapping_sub(PAddr::from_u64(3)).as_u64(), 2);
    assert_eq!(a.wrapping_sub_u64(3).as_u64(), 2);
    assert_eq!(PAddr::from_u64(0).wrapping_sub_u64(1).as_u64(), u64::MAX);
}

#[test]
fn mul_matches_raw_product() {
    let a = PAddr::from_u64(7);
    assert_eq!(a.wrapping_mul(PAddr::from_u64(6)).as_u64(), 42);
    assert_eq!(a.wrapping_mul_u64(6).as_u64(), 42);
    assert_eq!(
        PAddr::from_u64(u64::MAX).wrapping_mul_u64(2).as_u64(),
        0xFFFF_FFFF_FFFF_FFFE
    );
}

#[test]
fn div_matches_raw_quotient() {
    let a = PAddr::from_u64(42);
    assert_eq!(a.div(PAddr::from_u64(6)).as_u64(), 7);
    assert_eq!(a.div_u64(5).as_u64(), 8);
    assert_eq!(PAddr::from_u64(7).div_u64(2).as_u64(), 3);
}

#[test]
fn shifts_match_raw_shifts() {
    let one = PAddr::from_u64(1);
    assert_eq!(one.shl_u64(4).as_u64(), 16);
    assert_eq!(one.shl(PAddr::from_u64(12)).as_u64(), 0x1000);
    assert_eq!(PAddr::from_u64(16).shr_u64(4).as_u64(), 1);
    assert_eq!(PAddr::from_u64(0x1000).shr(PAddr::from_u64(12)).as_u64(), 1);
    // The shift amount is taken modulo the native 64-bit width.
    assert_eq!(one.shl_u64(68).as_u64(), 16);
}

#[test]
fn mask_returns_raw_integer() {
    let a: u64 = 0x1234_5678;
    let b: u64 = 0xFFFF;
    assert_eq!(PAddr::from_u64(a).mask(b), a & b);
    assert_eq!(PAddr::from_u64(0xABCD).mask(0xFF), 0xCD);
    assert_eq!(PAddr::from_u64(u64::MAX).mask(0), 0);
}

#[test]
fn digits_in_the_four_usual_bases() {
    let a = PAddr::from_u64(0x1f);
    assert_eq!(a.digits(16), b"1f".to_vec());
    assert_eq!(a.digits(10), b"31".to_vec());
    assert_eq!(a.digits(8), b"37".to_vec());
    assert_eq!(a.digits(2), b"11111".to_vec());
    assert_eq!(PAddr::from_u64(0).digits(16), b"0".to_vec());
    assert_eq!(
        PAddr::from_u64(0xdead_beef).digits(16),
        b"deadbeef".to_vec()
    );
    assert_eq!(PAddr::from_u64(1234).digits(10), b"1234".to_vec());
}

#[test]
fn ordering_and_equality_follow_the_raw_integer() {
    assert!(PAddr::from_u64(1) < PAddr::from_u64(2));
    assert!(PAddr::from_u64(2) > PAddr::from_u64(1));
    assert!(PAddr::from_u64(7) <= PAddr::from_u64(7));
    assert_eq!(PAddr::from_u64(7), PAddr::from_u64(7));
    assert_ne!(PAddr::from_u64(7), PAddr::from_u64(8));
}
