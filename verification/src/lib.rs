//! Funds-custody and earnings-ledger core of a two-sided marketplace:
//! advertisers fund campaigns, campaigns pay providers for displaying
//! content at locations, and providers withdraw accumulated earnings.
//!
//! The library holds the verified logic: entity registries, id generation,
//! authorization, and the two-phase protocol around the external asset
//! transfer (check, transfer, reconcile).  The host shell supplies the
//! caller identity, performs the actual transfer, and persists the state.
//!
//! Amounts are token base units held in `u64`; caller identities are the
//! opaque byte strings the host authenticates.

pub mod model;
pub mod text;
pub mod registry;
pub mod ledger;
pub mod laws;
