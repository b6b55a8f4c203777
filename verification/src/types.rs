//! Plain data types shared by the whole registry.

use vstd::prelude::*;
use vstd::std_specs::cmp::PartialEqSpecImpl;

verus! {

/// Compares two byte arrays of the same length.
pub fn bytes_equal<const N: usize>(a: &[u8; N], b: &[u8; N]) -> (same: bool)
    ensures
        same == (*a == *b),
{
    let mut i: usize = 0;
    while i < N
        invariant
            0 <= i <= N,
            forall|j: int| 0 <= j < i ==> a[j] == b[j],
        decreases N - i,
    {
        if a[i] != b[i] {
            return false;
        }
        i += 1;
    }
    assert(*a =~= *b);
    true
}

/// A 20-byte account address, as the host hands it to the registry.
#[derive(Clone, Copy, Debug, Eq, Hash)]
pub struct Address(pub [u8; 20]);

impl PartialEq for Address {
    fn eq(&self, other: &Self) -> (same: bool) {
        bytes_equal(&self.0, &other.0)
    }
}

impl PartialEqSpecImpl for Address {
    open spec fn obeys_eq_spec() -> bool {
        true
    }

    open spec fn eq_spec(&self, other: &Self) -> bool {
        self.0 == other.0
    }
}

/// What a passport describes: a whole product class, one batch, or one item.
#[derive(Clone, Copy, Debug, PartialEq, Eq, Structural)]
pub enum Granularity {
    ProductClass,
    Batch,
    Item,
}

/// Technical status of a passport record.
#[derive(Clone, Copy, Debug, PartialEq, Eq, Structural)]
pub enum PassportStatus {
    Draft,
    Active,
    Suspended,
    Revoked,
    Archived,
}

/// The typed failures of the registry's operations.
#[derive(Clone, Copy, Debug, PartialEq, Eq, Structural)]
pub enum Error {
    /// The token was never registered.
    TokenNotFound,
    /// A required string is empty, or a count would leave its range.
    InvalidInput,
    /// The caller is not the issuer of the passport.
    Unauthorized,
    /// The named sender is not the current holder.
    NotOwner,
    /// The caller is neither the holder nor one of its delegates.
    NotApproved,
    /// Never allowed: the holder as the approved account, oneself as operator.
    NotAllowed,
    /// The passport is revoked.
    PassportRevoked,
    /// The passport is revoked already.
    AlreadyRevoked,
}

/// What the host supplies with every call: who calls, and the value of its
/// counter (a block number), which serves as the time of the call.
#[derive(Clone, Copy, Debug, PartialEq, Eq)]
pub struct CallContext {
    pub caller: Address,
    pub block_number: u32,
}

} // verus!
