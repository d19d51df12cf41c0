//! Identities of on-platform principals and records.
//!
//! The host keys every durable record by an address; the engine only ever
//! compares such addresses for equality, so it models them as a plain
//! numeric identifier.

use vstd::prelude::*;

verus! {

/// Address of a principal or record in the host's store.
///
/// Two records refer to the same entity exactly when their identifiers are
/// equal; no other structure of the address is relied upon.
#[derive(Clone, Copy, Debug, PartialEq, Eq, Structural)]
pub struct AccountId {
    pub value: u64,
}

impl AccountId {
    pub fn new(value: u64) -> (r: AccountId)
        ensures
            r.value == value,
    {
        AccountId { value }
    }
}

} // verus!
