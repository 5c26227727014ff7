//! Epoch-rotated signing-key lifecycle for an anonymous-credential issuance
//! pipeline: epoch arithmetic, the key authority's per-epoch key ledger, and
//! the issuer's current/next key cache with its fetch-retry policy.
pub mod epoch;
pub mod error;
pub mod key_id;
pub mod store;
pub mod authority;
pub mod issuer;
pub mod issuance;
pub mod service;
