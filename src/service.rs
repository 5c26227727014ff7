//! The network operations of both services, on plain values: which status a
//! client sees for each failure, and what a successful answer holds. Internal
//! causes stay inside; clients only see the status code.
use crate::authority::{is_complete, IssuingKey, KeyManager};
use crate::error::{KeyManagerError, TokenIssuerError};
use crate::issuer::KeyProfile;
use crate::key_id::KeyRole;
use vstd::prelude::*;

verus! {

/// The status codes that the services answer with.
#[derive(Clone, Copy, Debug, PartialEq, Eq, Structural)]
pub enum StatusCode {
    NotFound,
    InvalidArgument,
    Aborted,
    Internal,
}

/// A failed operation: its code and a short message for the client.
#[derive(Clone, Debug, PartialEq, Eq)]
pub struct Status {
    pub code: StatusCode,
    pub message: String,
}

/// What a client learns of the key material of an epoch: no signing key.
pub struct TokenInfo {
    pub params: Vec<u8>,
    pub public_key: Vec<u8>,
    pub key_lifetime: u64,
}

/// The status for a failure of the key authority: `NotFound` for missing
/// material, `Aborted` for everything else.
pub fn key_manager_status(error: KeyManagerError) -> (r: Status)
    ensures
        r.code == (if error is NotFoundError { StatusCode::NotFound } else { StatusCode::Aborted }),
{
    match error {
        KeyManagerError::NotFoundError(message) => Status { code: StatusCode::NotFound, message },
        KeyManagerError::DBError(message) | KeyManagerError::SerializationError(message)
        | KeyManagerError::DeserializationError(message) | KeyManagerError::ConfigError(message) => {
            Status { code: StatusCode::Aborted, message }
        },
    }
}

/// The authority's answer to a request for the key of `epoch`: the complete
/// material, or `NotFound` when any part of it is missing.
pub fn get_issuing_key(key_manager: &KeyManager, epoch: u64) -> (r: Result<IssuingKey, Status>)
    ensures
        r is Err <==> !is_complete(key_manager.keys(), epoch),
        r is Err ==> r->Err_0.code == StatusCode::NotFound,
        r matches Ok(k) ==> {
            &&& k.params@ == key_manager.keys()[(epoch, KeyRole::Params)]
            &&& k.signing_key@ == key_manager.keys()[(epoch, KeyRole::SigningKey)]
            &&& k.public_key@ == key_manager.keys()[(epoch, KeyRole::PublicKey)]
        },
{
    match key_manager.get_key_profile(epoch) {
        Ok(profile) => Ok(profile.into_issuing_key()),
        Err(error) => Err(key_manager_status(error)),
    }
}

/// The public part of a cached profile; `NotFound` while the slot is empty.
pub fn token_info(slot: &Option<KeyProfile>) -> (r: Result<TokenInfo, Status>)
    ensures
        r is Err <==> slot is None,
        r is Err ==> r->Err_0.code == StatusCode::NotFound,
        r matches Ok(info) ==> {
            &&& info.params@ == slot->Some_0.params@
            &&& info.public_key@ == slot->Some_0.public_key@
            &&& info.key_lifetime == slot->Some_0.key_lifetime
        },
{
    match slot {
        Some(profile) => Ok(
            TokenInfo {
                params: profile.params.clone(),
                public_key: profile.public_key.clone(),
                key_lifetime: profile.key_lifetime,
            },
        ),
        None => Err(Status { code: StatusCode::NotFound, message: "Could not get token info.".to_owned() }),
    }
}

/// The status for a token request that does not decode.
pub fn invalid_token_request() -> (r: Status)
    ensures
        r.code == StatusCode::InvalidArgument,
{
    Status { code: StatusCode::InvalidArgument, message: "Invalid token request.".to_owned() }
}

/// The issuer's answer to a decoded token request: the token response, or
/// `Aborted` when issuance failed.
pub fn token_response(issued: Result<Vec<u8>, TokenIssuerError>) -> (r: Result<Vec<u8>, Status>)
    ensures
        r is Err <==> issued is Err,
        r is Err ==> r->Err_0.code == StatusCode::Aborted,
        r matches Ok(t) ==> issued matches Ok(s) && t@ == s@,
{
    match issued {
        Ok(response) => Ok(response),
        Err(_) => Err(Status { code: StatusCode::Aborted, message: "Could not issue token".to_owned() }),
    }
}

} // verus!
