//! Account addresses and transaction identifiers.
//!
//! The scheduler never inspects an address or a transaction hash: it
//! passes them through to the submission layer and reports them back.
//! Both are held as plain integers so that the decision logic can carry
//! them in verified code; the process around the library converts them
//! to and from the transport's own representations.

use vstd::prelude::*;

verus! {

/// A 160-bit account address: the high 32 bits and the low 128 bits.
#[derive(Clone, Copy, Debug, PartialEq, Eq, Structural)]
pub struct Address {
    pub hi: u32,
    pub lo: u128,
}

impl Address {
    /// The mathematical value of the 160 bits.
    pub open spec fn as_nat(self) -> nat {
        (self.lo + 0x1_0000_0000_0000_0000_0000_0000_0000_0000 * self.hi) as nat
    }

    pub fn new(hi: u32, lo: u128) -> (r: Address)
        ensures
            r == (Address { hi, lo }),
    {
        Address { hi, lo }
    }

    /// The all-zero address, used as the "unset" placeholder that the
    /// bond-transfer submission requires in its auxiliary positions.
    pub fn zero() -> (r: Address)
        ensures
            r.as_nat() == 0,
            r == (Address { hi: 0u32, lo: 0u128 }),
    {
        Address { hi: 0, lo: 0 }
    }
}

/// A 256-bit transaction hash: the high and the low 128 bits.
#[derive(Clone, Copy, Debug, PartialEq, Eq, Structural)]
pub struct TxId {
    pub hi: u128,
    pub lo: u128,
}

impl TxId {
    pub fn new(hi: u128, lo: u128) -> (r: TxId)
        ensures
            r == (TxId { hi, lo }),
    {
        TxId { hi, lo }
    }
}

} // verus!
