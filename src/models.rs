use vstd::prelude::*;

verus! {

/// A request to create a credential bound to an opaque creation context.
#[derive(Debug, Clone, Default)]
pub struct CreateCredentialRequest {
    pub creation_params: String,
}

/// A request to sign a challenge with a registered credential.
///
/// `get_params` reads `id:<32 hex digits>;challenge:<64 hex digits>`.
#[derive(Debug, Clone, Default)]
pub struct GetCredentialRequest {
    pub get_params: String,
}

/// The response of both operations: a string that holds a JSON document.
#[derive(Debug, Clone, Default)]
pub struct PubKeyResponse {
    pub pub_key_json: String,
}

} // verus!
