//! A hardware-attestation verification ledger.
//!
//! The library keeps an authoritative mapping from device identifiers to
//! owners and trust scores, verifies attestations issued by trusted-execution
//! hardware against a manufacturer key registry, and counts successful
//! verifications.  Registrations and score updates are restricted to a single
//! relayer identity; verification and reads are open to any caller.

pub mod attestation;
pub mod byteorder;
pub mod identity;
pub mod registry;
pub mod table;
pub mod ledger;
