//! Core engine of a research-study recruitment platform.
//!
//! Researchers create studies, participants enroll and give or revoke
//! consent, a single administrative authority moderates every entity, and
//! incentive points accrue to an internal ledger. This crate holds the
//! entity lifecycle state machines, the consent protocol and the
//! overflow-safe reward ledger, each with a verified contract. Durable
//! storage, credential minting and burning, transport and the audit-event
//! sink are collaborators of the surrounding host: every operation here
//! takes the acting identity and the current time as plain values and
//! either applies its full effect or returns a specific error with no
//! partial mutation.

pub mod account;
pub mod admin;
pub mod auth;
pub mod consent;
pub mod error;
pub mod events;
pub mod laws;
pub mod ops;
pub mod participant;
pub mod privacy;
pub mod researcher;
pub mod study;
pub mod wallet;
