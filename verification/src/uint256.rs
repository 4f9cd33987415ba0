//! A 256-bit unsigned integer built from four 64-bit limbs.
//!
//! Round numbers, stake amounts, fee amounts and the configured
//! thresholds are all 256-bit unsigned integers. The scheduler only
//! ever compares such values and subtracts them, so the type offers
//! exactly that: comparison, checked subtraction, and a decimal
//! building block for the configuration parser.

use vstd::prelude::*;

verus! {

/// A 256-bit unsigned integer, least significant limb first.
#[derive(Clone, Copy, Debug, PartialEq, Eq, Structural)]
pub struct Uint256 {
    pub limb0: u64,
    pub limb1: u64,
    pub limb2: u64,
    pub limb3: u64,
}

impl Uint256 {
    /// The mathematical value held by the four limbs.
    pub open spec fn as_nat(self) -> nat {
        (self.limb0 + 0x1_0000_0000_0000_0000 * self.limb1
            + 0x1_0000_0000_0000_0000_0000_0000_0000_0000 * self.limb2
            + 0x1_0000_0000_0000_0000_0000_0000_0000_0000_0000_0000_0000_0000 * self.limb3) as nat
    }

    /// The representation is canonical: two values denote the same
    /// number exactly when their limbs coincide.
    pub proof fn lemma_as_nat_injective(a: Uint256, b: Uint256)
        ensures
            a.as_nat() == b.as_nat() <==> a == b,
    {
    }

    pub fn new(limb0: u64, limb1: u64, limb2: u64, limb3: u64) -> (r: Uint256)
        ensures
            r == (Uint256 { limb0, limb1, limb2, limb3 }),
    {
        Uint256 { limb0, limb1, limb2, limb3 }
    }

    pub fn zero() -> (r: Uint256)
        ensures
            r.as_nat() == 0,
    {
        Uint256 { limb0: 0, limb1: 0, limb2: 0, limb3: 0 }
    }

    pub fn from_u64(v: u64) -> (r: Uint256)
        ensures
            r.as_nat() == v,
    {
        Uint256 { limb0: v, limb1: 0, limb2: 0, limb3: 0 }
    }

    pub fn is_zero(&self) -> (r: bool)
        ensures
            r <==> self.as_nat() == 0,
    {
        self.limb0 == 0 && self.limb1 == 0 && self.limb2 == 0 && self.limb3 == 0
    }

    /// Strict comparison of the held values.
    pub fn lt(&self, other: &Uint256) -> (r: bool)
        ensures
            r <==> self.as_nat() < other.as_nat(),
    {
        if self.limb3 != other.limb3 {
            self.limb3 < other.limb3
        } else if self.limb2 != other.limb2 {
            self.limb2 < other.limb2
        } else if self.limb1 != other.limb1 {
            self.limb1 < other.limb1
        } else {
            self.limb0 < other.limb0
        }
    }

    pub fn ge(&self, other: &Uint256) -> (r: bool)
        ensures
            r <==> self.as_nat() >= other.as_nat(),
    {
        !self.lt(other)
    }

    /// Subtraction, `None` when the subtrahend is the larger value.
    pub fn checked_sub(&self, other: &Uint256) -> (r: Option<Uint256>)
        ensures
            match r {
                Some(d) => d.as_nat() == self.as_nat() - other.as_nat(),
                None => self.as_nat() < other.as_nat(),
            },
    {
        let (d0, b0) = sub_limb(self.limb0, other.limb0, 0);
        let (d1, b1) = sub_limb(self.limb1, other.limb1, b0);
        let (d2, b2) = sub_limb(self.limb2, other.limb2, b1);
        let (d3, b3) = sub_limb(self.limb3, other.limb3, b2);
        if b3 == 0 {
            Some(Uint256 { limb0: d0, limb1: d1, limb2: d2, limb3: d3 })
        } else {
            None
        }
    }

    /// Ten times the held value plus one decimal digit, `None` on
    /// overflow past 2^256. The decimal reader of the configuration
    /// parser folds a digit string through this step.
    pub fn times10_plus(&self, digit: u64) -> (r: Option<Uint256>)
        requires
            digit < 10,
        ensures
            match r {
                Some(v) => v.as_nat() == 10 * self.as_nat() + digit,
                None => 10 * self.as_nat() + digit
                    >= 0x1_0000_0000_0000_0000_0000_0000_0000_0000_0000_0000_0000_0000_0000_0000_0000_0000,
            },
    {
        let (l0, c0) = mul10_limb(self.limb0, digit);
        let (l1, c1) = mul10_limb(self.limb1, c0);
        let (l2, c2) = mul10_limb(self.limb2, c1);
        let (l3, c3) = mul10_limb(self.limb3, c2);
        if c3 == 0 {
            Some(Uint256 { limb0: l0, limb1: l1, limb2: l2, limb3: l3 })
        } else {
            None
        }
    }
}

/// One step of the borrow chain: `a - b - borrow_in` over one limb.
fn sub_limb(a: u64, b: u64, borrow_in: u64) -> (r: (u64, u64))
    requires
        borrow_in <= 1,
    ensures
        r.0 == a - b - borrow_in + r.1 * 0x1_0000_0000_0000_0000,
        r.1 <= 1,
{
    let aw = a as u128;
    let bw = b as u128 + borrow_in as u128;
    if aw >= bw {
        ((aw - bw) as u64, 0)
    } else {
        ((aw + 0x1_0000_0000_0000_0000u128 - bw) as u64, 1)
    }
}

/// One step of the carry chain: `10 * a + carry_in` over one limb.
fn mul10_limb(a: u64, carry_in: u64) -> (r: (u64, u64))
    requires
        carry_in < 10,
    ensures
        r.0 + r.1 * 0x1_0000_0000_0000_0000 == 10 * a + carry_in,
        r.1 < 10,
    {
    let t = a as u128 * 10 + carry_in as u128;
    let lo = (t % 0x1_0000_0000_0000_0000u128) as u64;
    let hi = (t / 0x1_0000_0000_0000_0000u128) as u64;
    (lo, hi)
}

} // verus!
