//! Error types of the two services.
use vstd::prelude::*;

verus! {

/// Failures of the key authority.
#[derive(Clone, Debug, PartialEq, Eq)]
pub enum KeyManagerError {
    /// The key-value store failed to read or write.
    DBError(String),
    /// Key material could not be encoded for storage or transport.
    SerializationError(String),
    /// Stored bytes did not decode as the expected key material.
    DeserializationError(String),
    /// No complete key material exists for the requested epoch.
    NotFoundError(String),
    /// The configuration cannot be used (for instance a zero key lifetime).
    ConfigError(String),
}

/// Failures of the token issuer.
#[derive(Clone, Debug, PartialEq, Eq)]
pub enum TokenIssuerError {
    /// The configuration cannot be used.
    ConfigError(String),
    /// The channel to the key authority could not be opened.
    ConnectionError(String),
    /// The key authority refused the request or never had the key.
    KeyManagerError(String),
    /// Fetched bytes did not decode as the expected key material.
    DeserializationError(String),
    /// No key is cached for the requested slot yet.
    IllegalStateError(String),
    /// The signing capability failed to issue a token.
    TokenError(String),
}

} // verus!
