use vstd::prelude::*;
use crate::error::{Error, SignFailure};
use crate::params::{
    get_params_text, lemma_get_params_round_trip, parse_get_params_spec, CHALLENGE_LEN,
    GET_PARAMS_LEN,
};
use crate::signer::{
    sign_request_for, signed_json, signed_json_head, signed_outcome, SignRequestView,
};
use crate::store::{valid_credential, CredentialView};

verus! {

/// Registering the credentials `cs` one after another into `m`, as `register` does; `None`
/// once one of them is refused for a duplicate id.
pub open spec fn registered_after(m: Map<Seq<u8>, CredentialView>, cs: Seq<CredentialView>) -> Option<
    Map<Seq<u8>, CredentialView>,
>
    decreases cs.len(),
{
    if cs.len() == 0 {
        Some(m)
    } else {
        match registered_after(m, cs.drop_last()) {
            None => None,
            Some(m1) => if m1.contains_key(cs.last().id) {
                None
            } else {
                Some(m1.insert(cs.last().id, cs.last()))
            },
        }
    }
}

/// A credential that was just registered is found by the `getParams` text that names
/// it, and the answer carries the same public key as the credential, with the signature
/// that the secure boundary made over the given challenge.
pub proof fn lemma_create_then_get(
    m: Map<Seq<u8>, CredentialView>,
    c: CredentialView,
    challenge: Seq<u8>,
    sig: Seq<u8>,
)
    requires
        valid_credential(c),
        challenge.len() == CHALLENGE_LEN,
        sig.len() > 0,
    ensures
        sign_request_for(m.insert(c.id, c), get_params_text(c.id, challenge)) == Ok::<
            SignRequestView,
            Error,
        >(SignRequestView { key_handle: c.key_handle, challenge, x: c.x, y: c.y }),
        signed_outcome(
            SignRequestView { key_handle: c.key_handle, challenge, x: c.x, y: c.y },
            Ok::<Seq<u8>, SignFailure>(sig),
        ) == Ok::<Seq<char>, Error>(signed_json(c.x, c.y, sig)),
{
    lemma_get_params_round_trip(c.id, challenge);
}

/// Credentials registered one after another, none refused, have pairwise distinct ids,
/// and each of them is found afterwards under its own id.
pub proof fn lemma_registered_ids_distinct(m: Map<Seq<u8>, CredentialView>, cs: Seq<CredentialView>)
    requires
        registered_after(m, cs).is_some(),
    ensures
        forall|i: int, j: int|
            0 <= i < j < cs.len() ==> #[trigger] cs[i].id != #[trigger] cs[j].id,
        forall|i: int|
            0 <= i < cs.len() ==> registered_after(m, cs).unwrap().contains_key(#[trigger] cs[i].id)
                && registered_after(m, cs).unwrap()[cs[i].id] == cs[i],
    decreases cs.len(),
{
    if cs.len() > 0 {
        let prefix = cs.drop_last();
        lemma_registered_ids_distinct(m, prefix);
        let m1 = registered_after(m, prefix).unwrap();
        assert forall|i: int| 0 <= i < cs.len() - 1 implies #[trigger] cs[i].id != cs.last().id by {
            assert(prefix[i] == cs[i]);
            assert(m1.contains_key(prefix[i].id));
        }
        assert forall|i: int, j: int|
            0 <= i < j < cs.len() implies #[trigger] cs[i].id != #[trigger] cs[j].id by {
            if j < cs.len() - 1 {
                assert(prefix[i] == cs[i] && prefix[j] == cs[j]);
            }
        }
        assert forall|i: int| 0 <= i < cs.len() implies registered_after(m, cs).unwrap().contains_key(
            #[trigger] cs[i].id,
        ) && registered_after(m, cs).unwrap()[cs[i].id] == cs[i] by {
            if i < cs.len() - 1 {
                assert(prefix[i] == cs[i]);
            }
        }
    }
}

/// A selector whose id names no registered credential is answered with
/// `CredentialNotFound`, and with nothing else.
pub proof fn lemma_unknown_selector(m: Map<Seq<u8>, CredentialView>, params: Seq<char>)
    requires
        parse_get_params_spec(params).is_some(),
        !m.contains_key(parse_get_params_spec(params).unwrap().id),
    ensures
        sign_request_for(m, params) == Err::<SignRequestView, Error>(Error::CredentialNotFound),
{
}

/// Revoking one credential leaves the answer to every request that names another one
/// as it was.
pub proof fn lemma_revoke_isolation(
    m: Map<Seq<u8>, CredentialView>,
    revoked: Seq<u8>,
    params: Seq<char>,
)
    requires
        parse_get_params_spec(params).is_some(),
        parse_get_params_spec(params).unwrap().id != revoked,
    ensures
        sign_request_for(m.remove(revoked), params) == sign_request_for(m, params),
{
}

/// Two signings for the same request succeed with any two signatures, and both
/// answers open with the same public key.
pub proof fn lemma_repeated_get(
    m: Map<Seq<u8>, CredentialView>,
    params: Seq<char>,
    sig1: Seq<u8>,
    sig2: Seq<u8>,
)
    requires
        sign_request_for(m, params).is_ok(),
        sig1.len() > 0,
        sig2.len() > 0,
    ensures
        ({
            let q = sign_request_for(m, params).unwrap();
            let head = signed_json_head(q.x, q.y);
            &&& q.x == m[parse_get_params_spec(params).unwrap().id].x
            &&& q.y == m[parse_get_params_spec(params).unwrap().id].y
            &&& signed_outcome(q, Ok::<Seq<u8>, SignFailure>(sig1)).is_ok()
            &&& signed_outcome(q, Ok::<Seq<u8>, SignFailure>(sig2)).is_ok()
            &&& signed_outcome(q, Ok::<Seq<u8>, SignFailure>(sig1)).unwrap().subrange(
                0,
                head.len() as int,
            ) == head
            &&& signed_outcome(q, Ok::<Seq<u8>, SignFailure>(sig2)).unwrap().subrange(
                0,
                head.len() as int,
            ) == head
        }),
{
    let q = sign_request_for(m, params).unwrap();
    let head = signed_json_head(q.x, q.y);
    assert(signed_json(q.x, q.y, sig1).subrange(0, head.len() as int) =~= head);
    assert(signed_json(q.x, q.y, sig2).subrange(0, head.len() as int) =~= head);
}

/// A `getParams` text of any other length than the well-formed one, the empty text
/// among them, is refused as invalid, whatever is registered.
pub proof fn lemma_misshapen_get_params(m: Map<Seq<u8>, CredentialView>, params: Seq<char>)
    requires
        params.len() != GET_PARAMS_LEN,
    ensures
        sign_request_for(m, params) == Err::<SignRequestView, Error>(Error::InvalidParams),
{
}

} // verus!
