use vstd::prelude::*;
use crate::error::{sign_failure_error, Error, SignFailure};
use crate::hex::{hex_chars, push_hex};
use crate::models::{CreateCredentialRequest, GetCredentialRequest, PubKeyResponse};
use crate::params::{
    check_creation_params, parse_get_params, parse_get_params_spec, valid_creation_params, ID_LEN,
};
use crate::store::{
    valid_credential, Credential, CredentialStore, CredentialView, PublicKey, COORD_LEN,
};

verus! {

/// The JSON text of a public key: `{"x":"<hex>","y":"<hex>"}`.
pub open spec fn key_json(x: Seq<u8>, y: Seq<u8>) -> Seq<char> {
    "{\"x\":\""@ + hex_chars(x) + "\",\"y\":\""@ + hex_chars(y) + "\"}"@
}

/// The JSON text that answers a creation: `{"x":"<hex>","y":"<hex>","id":"<hex>"}`.
pub open spec fn created_json(id: Seq<u8>, x: Seq<u8>, y: Seq<u8>) -> Seq<char> {
    "{\"x\":\""@ + hex_chars(x) + "\",\"y\":\""@ + hex_chars(y) + "\",\"id\":\""@ + hex_chars(id)
        + "\"}"@
}

/// The opening of the JSON text that answers a signing, up to the signature.
pub open spec fn signed_json_head(x: Seq<u8>, y: Seq<u8>) -> Seq<char> {
    "{\"publicKey\":"@ + key_json(x, y) + ",\"signature\":\""@
}

/// The JSON text that answers a signing: `{"publicKey":{"x":..,"y":..},"signature":"<hex>"}`.
pub open spec fn signed_json(x: Seq<u8>, y: Seq<u8>, sig: Seq<u8>) -> Seq<char> {
    signed_json_head(x, y) + hex_chars(sig) + "\"}"@
}

impl PublicKey {
    /// Whether both coordinates have full size.
    pub open spec fn valid(&self) -> bool {
        self.x@.len() == COORD_LEN && self.y@.len() == COORD_LEN
    }

    /// A copy of this key.
    pub fn copy(&self) -> (r: PublicKey)
        ensures
            r.x@ == self.x@,
            r.y@ == self.y@,
    {
        let x = self.x.clone();
        let y = self.y.clone();
        assert(x@ =~= self.x@);
        assert(y@ =~= self.y@);
        PublicKey { x, y }
    }
}

/// The context that the secure boundary's key generator is asked to bind a new key to.
#[derive(Debug)]
pub struct KeyGenRequest {
    context: String,
}

impl KeyGenRequest {
    /// The creation context of the request.
    pub closed spec fn context_view(&self) -> Seq<char> {
        self.context@
    }

    /// A request holds only a creation context that passed validation.
    pub open spec fn wf(&self) -> bool {
        valid_creation_params(self.context_view())
    }

    /// The creation context to hand to the key generator.
    pub fn context(&self) -> (r: &String)
        ensures
            r@ == self.context_view(),
    {
        &self.context
    }
}

/// What the secure boundary returns for a new key pair.
#[derive(Debug)]
pub struct GeneratedKey {
    pub key_handle: String,
    pub public_key: PublicKey,
}

/// Whether a generated key can back a credential: a non-empty handle and a full-size key.
pub open spec fn usable_key(g: GeneratedKey) -> bool {
    g.key_handle@.len() > 0 && g.public_key.valid()
}

/// What the secure boundary is asked to sign, and with which key.
#[derive(Debug)]
pub struct SignRequest {
    pub key_handle: String,
    pub challenge: Vec<u8>,
    pub public_key: PublicKey,
}

/// The mathematical value of a signing request.
pub struct SignRequestView {
    pub key_handle: Seq<char>,
    pub challenge: Seq<u8>,
    pub x: Seq<u8>,
    pub y: Seq<u8>,
}

impl View for SignRequest {
    type V = SignRequestView;

    open spec fn view(&self) -> SignRequestView {
        SignRequestView {
            key_handle: self.key_handle@,
            challenge: self.challenge@,
            x: self.public_key.x@,
            y: self.public_key.y@,
        }
    }
}

/// The signing request that `getParams` leads to against the credentials `m`.
pub open spec fn sign_request_for(m: Map<Seq<u8>, CredentialView>, params: Seq<char>) -> Result<
    SignRequestView,
    Error,
> {
    match parse_get_params_spec(params) {
        None => Err(Error::InvalidParams),
        Some(sel) => if m.contains_key(sel.id) {
            Ok(
                SignRequestView {
                    key_handle: m[sel.id].key_handle,
                    challenge: sel.challenge,
                    x: m[sel.id].x,
                    y: m[sel.id].y,
                },
            )
        } else {
            Err(Error::CredentialNotFound)
        },
    }
}

/// The answer to a signing request once the secure boundary has signed, or failed to.
pub open spec fn signed_outcome(q: SignRequestView, signed: Result<Seq<u8>, SignFailure>) -> Result<
    Seq<char>,
    Error,
> {
    match signed {
        Err(f) => Err(sign_failure_error(f)),
        Ok(sig) => if sig.len() == 0 {
            Err(Error::SigningFailure)
        } else {
            Ok(signed_json(q.x, q.y, sig))
        },
    }
}

/// The signing outcome with the signature as a sequence of bytes.
pub open spec fn signature_view(signed: Result<Vec<u8>, SignFailure>) -> Result<Seq<u8>, SignFailure> {
    match signed {
        Ok(s) => Ok(s@),
        Err(f) => Err(f),
    }
}

/// Appends the JSON text of a public key.
fn push_key_json(out: &mut String, key: &PublicKey)
    ensures
        final(out)@ == old(out)@ + key_json(key.x@, key.y@),
{
    let ghost start = out@;
    out.append("{\"x\":\"");
    push_hex(out, &key.x);
    out.append("\",\"y\":\"");
    push_hex(out, &key.y);
    out.append("\"}");
    assert(out@ =~= start + key_json(key.x@, key.y@));
}

/// The JSON text that answers a creation.
pub fn created_response(id: &Vec<u8>, key: &PublicKey) -> (r: PubKeyResponse)
    ensures
        r.pub_key_json@ == created_json(id@, key.x@, key.y@),
{
    let mut out = String::from_str("{\"x\":\"");
    push_hex(&mut out, &key.x);
    out.append("\",\"y\":\"");
    push_hex(&mut out, &key.y);
    out.append("\",\"id\":\"");
    push_hex(&mut out, id);
    out.append("\"}");
    assert(out@ =~= created_json(id@, key.x@, key.y@));
    PubKeyResponse { pub_key_json: out }
}

/// The JSON text that answers a signing.
pub fn signed_response(key: &PublicKey, sig: &Vec<u8>) -> (r: PubKeyResponse)
    ensures
        r.pub_key_json@ == signed_json(key.x@, key.y@, sig@),
{
    let mut out = String::from_str("{\"publicKey\":");
    push_key_json(&mut out, key);
    out.append(",\"signature\":\"");
    push_hex(&mut out, sig);
    out.append("\"}");
    assert(out@ =~= signed_json(key.x@, key.y@, sig@));
    PubKeyResponse { pub_key_json: out }
}

/// The bytes of a credential id.
fn id_bytes(id: &[u8; 16]) -> (r: Vec<u8>)
    ensures
        r@ == id@,
        r@.len() == ID_LEN,
{
    let mut r: Vec<u8> = Vec::new();
    let mut i: usize = 0;
    while i < 16
        invariant
            i <= 16,
            id@.len() == 16,
            r@ == id@.take(i as int),
        decreases 16 - i,
    {
        r.push(id[i]);
        assert(id@.take(i + 1) =~= id@.take(i as int).push(id@[i as int]));
        i = i + 1;
    }
    assert(id@.take(16) =~= id@);
    r
}

/// The P256 credential authenticator: the registered credentials, and the decisions
/// around the secure boundary's key generation and signing.
///
/// Each operation runs in two steps. The first validates the request and reads the
/// store; the caller then makes the platform call, holding no lock, and hands its
/// outcome to the second step.
pub struct P256Signer {
    store: CredentialStore,
}

impl View for P256Signer {
    type V = Map<Seq<u8>, CredentialView>;

    closed spec fn view(&self) -> Map<Seq<u8>, CredentialView> {
        self.store@
    }
}

impl P256Signer {
    /// The store is well formed.
    pub closed spec fn wf(&self) -> bool {
        self.store.wf()
    }

    /// An authenticator with no credentials.
    pub fn new() -> (r: P256Signer)
        ensures
            r.wf(),
            r@ == Map::<Seq<u8>, CredentialView>::empty(),
    {
        P256Signer { store: CredentialStore::new() }
    }

    /// Validates a creation request; on success the key generator is to be called with
    /// the returned context. An invalid request is refused before any platform call.
    pub fn begin_create(&self, payload: CreateCredentialRequest) -> (r: Result<KeyGenRequest, Error>)
        ensures
            r.is_ok() == valid_creation_params(payload.creation_params@),
            r.is_ok() ==> r.unwrap().wf() && r.unwrap().context_view()
                == payload.creation_params@,
            r.is_err() ==> r == Err::<KeyGenRequest, Error>(Error::InvalidParams),
    {
        if check_creation_params(&payload.creation_params) {
            Ok(KeyGenRequest { context: payload.creation_params })
        } else {
            Err(Error::InvalidParams)
        }
    }

    /// Registers the key that the secure boundary generated for `request` under the fresh
    /// id `id`, and answers with its public key and id. Without a usable key nothing is
    /// registered.
    pub fn create_credential(
        &mut self,
        request: KeyGenRequest,
        generated: Option<GeneratedKey>,
        id: [u8; 16],
        created_at: u64,
    ) -> (r: Result<PubKeyResponse, Error>)
        requires
            old(self).wf(),
            request.wf(),
        ensures
            final(self).wf(),
            (generated.is_none() || !usable_key(generated.unwrap())) ==> r
                == Err::<PubKeyResponse, Error>(Error::KeyGenerationFailure) && final(self)@ == old(
                self,
            )@,
            generated.is_some() && usable_key(generated.unwrap()) && old(self)@.contains_key(id@)
                ==> r == Err::<PubKeyResponse, Error>(Error::DuplicateId) && final(self)@ == old(
                self,
            )@,
            generated.is_some() && usable_key(generated.unwrap()) && !old(self)@.contains_key(id@)
                ==> {
                let g = generated.unwrap();
                &&& r.is_ok()
                &&& r.unwrap().pub_key_json@ == created_json(id@, g.public_key.x@, g.public_key.y@)
                &&& final(self)@ == old(self)@.insert(
                    id@,
                    CredentialView {
                        id: id@,
                        x: g.public_key.x@,
                        y: g.public_key.y@,
                        key_handle: g.key_handle@,
                        creation_params: request.context_view(),
                        created_at,
                    },
                )
            },
    {
        let g = match generated {
            None => return Err(Error::KeyGenerationFailure),
            Some(g) => g,
        };
        if g.key_handle.as_str().is_empty() || g.public_key.x.len() != COORD_LEN
            || g.public_key.y.len() != COORD_LEN {
            return Err(Error::KeyGenerationFailure);
        }
        let id_vec = id_bytes(&id);
        let response = created_response(&id_vec, &g.public_key);
        let c = Credential {
            id: id_vec,
            public_key: g.public_key,
            key_handle: g.key_handle,
            creation_params: request.context,
            created_at,
        };
        match self.store.register(c) {
            Ok(()) => Ok(response),
            Err(e) => Err(e),
        }
    }

    /// Validates a signing request and resolves the credential it names; on success the
    /// secure boundary is to sign the returned challenge with the returned key handle.
    pub fn begin_get(&self, payload: &GetCredentialRequest) -> (r: Result<SignRequest, Error>)
        requires
            self.wf(),
        ensures
            r.is_ok() == sign_request_for(self@, payload.get_params@).is_ok(),
            r.is_ok() ==> sign_request_for(self@, payload.get_params@) == Ok::<
                SignRequestView,
                Error,
            >(r.unwrap()@),
            r.is_err() ==> sign_request_for(self@, payload.get_params@) == Err::<
                SignRequestView,
                Error,
            >(r.unwrap_err()),
    {
        let (id, challenge) = match parse_get_params(&payload.get_params) {
            None => return Err(Error::InvalidParams),
            Some(sel) => sel,
        };
        match self.store.resolve(&id) {
            Err(e) => Err(e),
            Ok(c) => Ok(
                SignRequest {
                    key_handle: c.key_handle.clone(),
                    challenge,
                    public_key: c.public_key.copy(),
                },
            ),
        }
    }

    /// Answers a signing request once the secure boundary has signed its challenge, or
    /// reports why it did not.
    pub fn get_credential(&self, request: &SignRequest, signed: Result<Vec<u8>, SignFailure>) -> (r:
        Result<PubKeyResponse, Error>)
        ensures
            r.is_ok() == signed_outcome(request@, signature_view(signed)).is_ok(),
            r.is_ok() ==> signed_outcome(request@, signature_view(signed)) == Ok::<
                Seq<char>,
                Error,
            >(r.unwrap().pub_key_json@),
            r.is_err() ==> signed_outcome(request@, signature_view(signed)) == Err::<
                Seq<char>,
                Error,
            >(r.unwrap_err()),
    {
        match signed {
            Err(f) => Err(f.to_error()),
            Ok(sig) => if sig.len() == 0 {
                Err(Error::SigningFailure)
            } else {
                Ok(signed_response(&request.public_key, &sig))
            },
        }
    }

    /// Removes the credential with id `id` and hands back its key handle, for the secure
    /// boundary to release.
    pub fn revoke_credential(&mut self, id: &Vec<u8>) -> (r: Result<String, Error>)
        requires
            old(self).wf(),
        ensures
            final(self).wf(),
            old(self)@.contains_key(id@) ==> r.is_ok() && r.unwrap()@ == old(self)@[id@].key_handle
                && final(self)@ == old(self)@.remove(id@),
            !old(self)@.contains_key(id@) ==> r == Err::<String, Error>(Error::CredentialNotFound)
                && final(self)@ == old(self)@,
    {
        self.store.revoke(id)
    }
}

} // verus!
