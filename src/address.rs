use vstd::prelude::*;

verus! {

/// A 32-byte account address, held as four little-endian 64-bit words.
#[derive(Clone, Copy, Debug, PartialEq, Eq, Structural)]
pub struct Address(pub u64, pub u64, pub u64, pub u64);

impl Address {
    /// The all-zero address, used as the "not set yet" sentinel.
    pub open spec fn zero() -> Address {
        Address(0, 0, 0, 0)
    }

    pub open spec fn is_unset(self) -> bool {
        self == Address::zero()
    }

    /// The sentinel address that marks an empty address field.
    pub fn unset() -> (r: Address)
        ensures
            r.is_unset(),
    {
        Address(0, 0, 0, 0)
    }

    pub fn is_unset_exec(&self) -> (r: bool)
        ensures
            r == self.is_unset(),
    {
        *self == Address::unset()
    }
}

} // verus!
