//! A proof-of-existence claim registry.
//!
//! The registry records, for each opaque content fingerprint, which identity
//! currently owns it and at which logical time ownership was last established.
//! Three operations drive the lifecycle of a claim: creation, revocation and
//! transfer. Each either succeeds, changing the store and yielding one event,
//! or fails with a typed error and leaves the store untouched.

pub mod claim;
pub mod laws;
pub mod pallet;
pub mod rules;
pub mod store;
