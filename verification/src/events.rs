//! Audit events the engine emits to the host's fire-and-forget sink.
//!
//! An operation that succeeds hands one of these back to its caller;
//! delivering it is the host's concern and nothing here depends on it.

use vstd::prelude::*;

use crate::account::AccountId;

verus! {

/// A consent was issued to a participant for a study.
#[derive(Debug)]
pub struct ConsentIssued {
    pub participant: AccountId,
    pub study: AccountId,
    pub version: String,
    pub hash: String,
    pub timestamp: i64,
}

/// A participant's active consent was revoked.
#[derive(Debug)]
pub struct ConsentRevoked {
    pub participant: AccountId,
    pub timestamp: i64,
}

/// A reward was credited to a participant's ledger.
#[derive(Clone, Copy, Debug, PartialEq, Eq, Structural)]
pub struct RewardReceived {
    pub participant: AccountId,
    pub study: AccountId,
    pub amount: u64,
    pub timestamp: i64,
}

/// A participant's reward ledger was initialized.
#[derive(Clone, Copy, Debug, PartialEq, Eq, Structural)]
pub struct WalletInitialized {
    pub participant: AccountId,
    pub phantom_public_key: AccountId,
    pub timestamp: i64,
}

/// A wallet's metadata link was replaced.
#[derive(Debug)]
pub struct WalletMetadataUpdated {
    pub participant: AccountId,
    pub metadata_uri: Option<String>,
    pub timestamp: i64,
}

} // verus!
