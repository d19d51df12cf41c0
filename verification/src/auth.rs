//! The authorization gate every mutating operation passes first.
//!
//! Two rules cover the platform: an admin-only action demands the
//! single administrative authority exactly, and a self-service action
//! demands the owner of the touched record. The check is stateless and
//! has no side effects; swapping in a richer policy later touches only
//! this module.

use vstd::prelude::*;

use crate::account::AccountId;
use crate::error::RecruSearchError;

verus! {

/// Which rule an operation demands.
#[derive(Clone, Copy, Debug, PartialEq, Eq, Structural)]
pub enum RequiredRole {
    /// The actor must be the administrative authority.
    Admin,
    /// The actor must own the touched record.
    ResourceOwner,
}

/// Admits exactly the principal the rule names: the administrative
/// authority for `Admin`, the record's owner for `ResourceOwner`; any
/// other actor fails with `UnauthorizedAdmin` or `Unauthorized`
/// respectively.
pub fn authorize(actor: AccountId, required: RequiredRole, principal: AccountId) -> (r: Result<
    (),
    RecruSearchError,
>)
    ensures
        r is Ok <==> actor == principal,
        r is Err && required == RequiredRole::Admin ==> (r matches Err(e)
            && e == RecruSearchError::UnauthorizedAdmin),
        r is Err && required == RequiredRole::ResourceOwner ==> (r matches Err(e)
            && e == RecruSearchError::Unauthorized),
{
    if actor.value == principal.value {
        Ok(())
    } else {
        match required {
            RequiredRole::Admin => Err(RecruSearchError::UnauthorizedAdmin),
            RequiredRole::ResourceOwner => Err(RecruSearchError::Unauthorized),
        }
    }
}

} // verus!
