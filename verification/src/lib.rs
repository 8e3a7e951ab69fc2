//! A digital time capsule: an append-once, author-owned record that can be
//! disclosed under time and location gates and minted as a unique
//! collectible.
//!
//! `codec` fixes the record's storage layout and validates field lengths;
//! `store` owns creation and read access; `capsule` holds the record model
//! and the pure unlock evaluator; `mint` decides and parameterizes the
//! two-step collectible mint against the external token and metadata
//! subsystems.

pub mod capsule;
pub mod codec;
pub mod mint;
pub mod store;
