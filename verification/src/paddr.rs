//! The physical-address value type and its arithmetic.

use vstd::prelude::*;
use vstd::wrapping::u64_specs;

verus! {

/// A physical (linear) memory address: one tagged 64-bit unsigned integer.
///
/// A pure value type: arithmetic never mutates an address in place, it
/// produces new ones, and it wraps modulo 2^64 as the hardware address space
/// does. The type carries no alignment or validity invariant; whoever maps or
/// allocates memory owns those concerns.
#[derive(Copy, Clone, Debug, PartialEq, Eq, Structural)]
pub struct PAddr(u64);

impl View for PAddr {
    type V = u64;

    closed spec fn view(&self) -> u64 {
        self.0
    }
}

/// The ASCII digit for one place value below 16: `0`-`9`, then lowercase
/// `a`-`f`.
pub open spec fn digit_ascii(d: u64) -> u8 {
    if d < 10 {
        (d + 48) as u8
    } else {
        (d + 87) as u8
    }
}

/// The ASCII digits of `n` in the given base, most significant first, with
/// no leading zeros (a lone `0` for zero itself).
pub open spec fn spec_digits(n: u64, base: u64) -> Seq<u8>
    decreases n,
    when base >= 2
    via spec_digits_decreases
{
    if n < base {
        seq![digit_ascii(n)]
    } else {
        spec_digits(n / base, base).push(digit_ascii(n % base))
    }
}

#[via_fn]
proof fn spec_digits_decreases(n: u64, base: u64) {
    assert(base >= 2 && n >= base ==> n / base < n) by (nonlinear_arith);
}

/// Appends the digits of `n` in the given base to `out`, most significant
/// first.
fn push_digits(n: u64, base: u64, out: &mut Vec<u8>)
    requires
        2 <= base <= 16,
    ensures
        final(out)@ == old(out)@ + spec_digits(n, base),
    decreases n,
{
    let rem = n % base;
    let digit: u8 = if rem < 10 {
        (rem + 48) as u8
    } else {
        (rem + 87) as u8
    };
    if n >= base {
        proof {
            assert(n / base < n) by (nonlinear_arith)
                requires
                    2 <= base && n >= base,
            ;
        }
        push_digits(n / base, base, out);
    } else {
        proof {
            assert(n % base == n) by (nonlinear_arith)
                requires
                    base >= 2 && n < base,
            ;
        }
    }
    out.push(digit);
    proof {
        assert(out@ =~= old(out)@ + spec_digits(n, base));
    }
}

impl PartialOrd for PAddr {
    fn partial_cmp(&self, other: &PAddr) -> (r: Option<core::cmp::Ordering>) {
        if self.0 < other.0 {
            Some(core::cmp::Ordering::Less)
        } else if self.0 > other.0 {
            Some(core::cmp::Ordering::Greater)
        } else {
            Some(core::cmp::Ordering::Equal)
        }
    }
}

/// Addresses order totally by their wrapped integer.
impl vstd::std_specs::cmp::PartialOrdSpecImpl for PAddr {
    open spec fn obeys_partial_cmp_spec() -> bool {
        true
    }

    open spec fn partial_cmp_spec(&self, other: &PAddr) -> Option<core::cmp::Ordering> {
        if self@ < other@ {
            Some(core::cmp::Ordering::Less)
        } else if self@ > other@ {
            Some(core::cmp::Ordering::Greater)
        } else {
            Some(core::cmp::Ordering::Equal)
        }
    }
}

impl PAddr {
    /// Tags a raw 64-bit integer as a physical address.
    pub fn from_u64(u: u64) -> (r: Self)
        ensures
            r@ == u,
    {
        PAddr(u)
    }

    /// The raw 64-bit integer behind the address.
    pub fn as_u64(&self) -> (r: u64)
        ensures
            r == self@,
    {
        self.0
    }

    /// Address + address, wrapping modulo 2^64.
    pub fn wrapping_add(self, rhs: PAddr) -> (r: PAddr)
        ensures
            r@ == u64_specs::wrapping_add(self@, rhs@),
    {
        PAddr(self.0.wrapping_add(rhs.0))
    }

    /// Address + raw integer, wrapping modulo 2^64.
    pub fn wrapping_add_u64(self, rhs: u64) -> (r: PAddr)
        ensures
            r@ == u64_specs::wrapping_add(self@, rhs),
    {
        PAddr(self.0.wrapping_add(rhs))
    }

    /// Address - address, wrapping modulo 2^64.
    pub fn wrapping_sub(self, rhs: PAddr) -> (r: PAddr)
        ensures
            r@ == u64_specs::wrapping_sub(self@, rhs@),
    {
        PAddr(self.0.wrapping_sub(rhs.0))
    }

    /// Address - raw integer, wrapping modulo 2^64.
    pub fn wrapping_sub_u64(self, rhs: u64) -> (r: PAddr)
        ensures
            r@ == u64_specs::wrapping_sub(self@, rhs),
    {
        PAddr(self.0.wrapping_sub(rhs))
    }

    /// Address * address, wrapping modulo 2^64.
    pub fn wrapping_mul(self, rhs: PAddr) -> (r: PAddr)
        ensures
            r@ == u64_specs::wrapping_mul(self@, rhs@),
    {
        PAddr(self.0.wrapping_mul(rhs.0))
    }

    /// Address * raw integer, wrapping modulo 2^64.
    pub fn wrapping_mul_u64(self, rhs: u64) -> (r: PAddr)
        ensures
            r@ == u64_specs::wrapping_mul(self@, rhs),
    {
        PAddr(self.0.wrapping_mul(rhs))
    }

    /// Address / address (integer division; the divisor must be non-zero).
    pub fn div(self, rhs: PAddr) -> (r: PAddr)
        requires
            rhs@ != 0,
        ensures
            r@ == self@ / rhs@,
    {
        PAddr(self.0 / rhs.0)
    }

    /// Address / raw integer (integer division; the divisor must be non-zero).
    pub fn div_u64(self, rhs: u64) -> (r: PAddr)
        requires
            rhs != 0,
        ensures
            r@ == self@ / rhs,
    {
        PAddr(self.0 / rhs)
    }

    /// Address shifted left by an address; the shift amount is taken modulo
    /// 64, the native width.
    pub fn shl(self, rhs: PAddr) -> (r: PAddr)
        ensures
            r@ == self@ << (rhs@ % 64),
    {
        self.shl_u64(rhs.0)
    }

    /// Address shifted left by a raw amount; the amount is taken modulo 64,
    /// the native width.
    pub fn shl_u64(self, rhs: u64) -> (r: PAddr)
        ensures
            r@ == self@ << (rhs % 64),
    {
        proof {
            let x: u64 = self@;
            assert(u64_specs::wrapping_shl(x, rhs as u32) == x << (rhs % 64)) by (bit_vector);
        }
        PAddr(self.0.wrapping_shl(rhs as u32))
    }

    /// Address shifted right by an address; the shift amount is taken modulo
    /// 64, the native width.
    pub fn shr(self, rhs: PAddr) -> (r: PAddr)
        ensures
            r@ == self@ >> (rhs@ % 64),
    {
        self.shr_u64(rhs.0)
    }

    /// Address shifted right by a raw amount; the amount is taken modulo 64,
    /// the native width.
    pub fn shr_u64(self, rhs: u64) -> (r: PAddr)
        ensures
            r@ == self@ >> (rhs % 64),
    {
        proof {
            let x: u64 = self@;
            assert(u64_specs::wrapping_shr(x, rhs as u32) == x >> (rhs % 64)) by (bit_vector);
        }
        PAddr(self.0.wrapping_shr(rhs as u32))
    }

    /// The address written out in a base between 2 and 16 - binary, octal,
    /// decimal and lowercase hex included - as ASCII digit bytes, most
    /// significant first, without leading zeros.
    pub fn digits(&self, base: u64) -> (r: Vec<u8>)
        requires
            2 <= base <= 16,
        ensures
            r@ == spec_digits(self@, base),
    {
        let mut out: Vec<u8> = Vec::new();
        push_digits(self.0, base, &mut out);
        proof {
            assert(out@ =~= spec_digits(self@, base));
        }
        out
    }

    /// Masks the address against a raw integer and returns the raw result:
    /// masking extracts a sub-field (a page-table index, say), which is no
    /// longer an address in the domain sense, so it leaves the tagged type.
    pub fn mask(self, rhs: u64) -> (r: u64)
        ensures
            r == self@ & rhs,
    {
        self.0 & rhs
    }
}

} // verus!
