//! Identities on the ledger: end-user accounts and contract instances.

use vstd::prelude::*;
use vstd::std_specs::cmp::PartialEqSpecImpl;

verus! {

/// The address of an end-user account: 32 bytes.
#[derive(Clone, Copy, Debug, Eq)]
pub struct AccountAddress(pub [u8; 32]);

/// The address of a contract instance.
#[derive(Clone, Copy, Debug, PartialEq, Eq, Structural)]
pub struct ContractAddress {
    pub index: u64,
    pub subindex: u64,
}

/// Whoever sent a call: an account, or a contract acting on its own.
#[derive(Clone, Copy, Debug, Eq)]
pub enum Address {
    Account(AccountAddress),
    Contract(ContractAddress),
}

impl PartialEq for AccountAddress {
    /// Two account addresses are equal when all their bytes are.
    fn eq(&self, other: &Self) -> (same: bool) {
        let mut i: usize = 0;
        while i < 32
            invariant
                i <= 32,
                forall|j: int| 0 <= j < i ==> self.0[j] == other.0[j],
            decreases 32 - i,
        {
            if self.0[i] != other.0[i] {
                return false;
            }
            i += 1;
        }
        assert(self.0 =~= other.0);
        true
    }
}

impl PartialEqSpecImpl for AccountAddress {
    open spec fn obeys_eq_spec() -> bool {
        true
    }

    open spec fn eq_spec(&self, other: &Self) -> bool {
        *self == *other
    }
}

impl ContractAddress {
    /// The contract instance with the given index and subindex.
    pub fn new(index: u64, subindex: u64) -> (addr: ContractAddress)
        ensures
            addr == (ContractAddress { index, subindex }),
    {
        ContractAddress { index, subindex }
    }
}

impl PartialEq for Address {
    /// Two senders are equal when they are of the same kind and hold the
    /// same address.
    fn eq(&self, other: &Self) -> (same: bool) {
        match (self, other) {
            (Address::Account(a), Address::Account(b)) => *a == *b,
            (Address::Contract(a), Address::Contract(b)) => *a == *b,
            _ => false,
        }
    }
}

impl PartialEqSpecImpl for Address {
    open spec fn obeys_eq_spec() -> bool {
        true
    }

    open spec fn eq_spec(&self, other: &Self) -> bool {
        *self == *other
    }
}

impl Address {
    /// Whether this sender is the account `account` itself.
    pub fn matches_account(&self, account: &AccountAddress) -> (same: bool)
        ensures
            same == (*self == Address::Account(*account)),
    {
        match self {
            Address::Account(a) => *a == *account,
            Address::Contract(_) => false,
        }
    }
}

} // verus!
