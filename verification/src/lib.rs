//! Identity-bound non-transferable NFT lifecycle.
//!
//! Records for a collection (project configuration, per-(identity, wallet)
//! user status, per-identity mint counts, per-token status) live in a
//! [`state::RecordStore`]; the lifecycle operations (`authorize_mint`,
//! `airdrop`, `verify`, `burn`) are guarded transitions over those records
//! that hand back the token-custody and metadata actions the ledger runtime
//! must perform. Storage addresses are derived deterministically from fixed
//! prefixes, a digest of the identity string, and account keys.

pub mod actions;
pub mod address;
pub mod addressing;
pub mod error;
pub mod laws;
pub mod lifecycle;
pub mod state;
