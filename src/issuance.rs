//! Token issuance around the external signing capability: the key of a slot
//! is required before signing, and a signing failure becomes a `TokenError`.
use crate::error::TokenIssuerError;
use crate::issuer::KeyProfile;
use vstd::prelude::*;

verus! {

/// The profile to sign with; `IllegalStateError` when the slot is still empty.
pub fn issuing_key(slot: &Option<KeyProfile>) -> (r: Result<&KeyProfile, TokenIssuerError>)
    ensures
        r is Err <==> slot is None,
        r is Err ==> r->Err_0 is IllegalStateError,
        r matches Ok(p) ==> slot == Some(*p),
{
    match slot {
        Some(key) => Ok(key),
        None => Err(TokenIssuerError::IllegalStateError("Missing issuing key.".to_owned())),
    }
}

/// The serialized token response of a signing attempt; a failure of the
/// signer, with its description, becomes a `TokenError`.
pub fn token_result(signed: Result<Vec<u8>, String>) -> (r: Result<Vec<u8>, TokenIssuerError>)
    ensures
        r is Err <==> signed is Err,
        r is Err ==> r->Err_0 is TokenError,
        r matches Ok(t) ==> signed matches Ok(s) && t@ == s@,
{
    match signed {
        Ok(response) => Ok(response),
        Err(description) => Err(TokenIssuerError::TokenError(description)),
    }
}

} // verus!
