use vstd::prelude::*;
use vstd::string::{is_ascii_spec_bytes, StringSliceAdditionalSpecFns};
use vstd::utf8::{encode_utf8, is_ascii_chars};
use crate::hex::{ascii_bytes, decode_hex, hex_chars, hex_decode, is_hex, lemma_hex_round_trip, push_hex};

verus! {

/// The number of bytes in a credential id.
pub const ID_LEN: usize = 16;

/// The number of bytes in a challenge.
pub const CHALLENGE_LEN: usize = 32;

/// The largest creation context accepted, in UTF-8 bytes.
pub const MAX_CREATION_PARAMS_BYTES: usize = 1024;

/// The length of a well-formed `getParams`: `id:`, 32 digits, `;challenge:`, 64 digits.
pub const GET_PARAMS_LEN: usize = 110;

/// Where the id digits of `getParams` end.
pub const ID_END: usize = 35;

/// Where the challenge digits of `getParams` start.
pub const CHALLENGE_START: usize = 46;

/// The ASCII bytes of `id:`.
pub open spec fn id_tag() -> Seq<u8> {
    seq![105u8, 100u8, 58u8]
}

/// The ASCII bytes of `;challenge:`.
pub open spec fn challenge_tag() -> Seq<u8> {
    seq![59u8, 99u8, 104u8, 97u8, 108u8, 108u8, 101u8, 110u8, 103u8, 101u8, 58u8]
}

/// The length in bytes of the UTF-8 form of `s`, as `str::len` reports it.
pub open spec fn utf8_len(s: Seq<char>) -> usize {
    encode_utf8(s).len() as usize
}

/// Whether a creation context is accepted: non-empty and within the size bound.
pub open spec fn valid_creation_params(s: Seq<char>) -> bool {
    s.len() > 0 && utf8_len(s) <= MAX_CREATION_PARAMS_BYTES
}

/// What a credential selector names: the id of a credential and the challenge to sign.
pub struct SelectorView {
    pub id: Seq<u8>,
    pub challenge: Seq<u8>,
}

/// The selector that `getParams` encodes, or `None` where it is malformed.
pub open spec fn parse_get_params_spec(s: Seq<char>) -> Option<SelectorView> {
    let b = ascii_bytes(s);
    if is_ascii_chars(s) && s.len() == GET_PARAMS_LEN && b.subrange(0, 3) == id_tag()
        && b.subrange(ID_END as int, CHALLENGE_START as int) == challenge_tag()
        && is_hex(b.subrange(3, ID_END as int))
        && is_hex(b.subrange(CHALLENGE_START as int, GET_PARAMS_LEN as int)) {
        Some(
            SelectorView {
                id: hex_decode(b.subrange(3, ID_END as int)),
                challenge: hex_decode(b.subrange(CHALLENGE_START as int, GET_PARAMS_LEN as int)),
            },
        )
    } else {
        None
    }
}

/// The `getParams` text that names credential `id` and carries `challenge`.
pub open spec fn get_params_text(id: Seq<u8>, challenge: Seq<u8>) -> Seq<char> {
    "id:"@ + hex_chars(id) + ";challenge:"@ + hex_chars(challenge)
}

/// Checks a creation context.
pub fn check_creation_params(s: &String) -> (r: bool)
    ensures
        r == valid_creation_params(s@),
{
    let t = s.as_str();
    let n = t.len();
    assert(t.spec_bytes() == encode_utf8(s@));
    !t.is_empty() && n <= MAX_CREATION_PARAMS_BYTES
}

/// Compares `b[start..start + tag.len()]` with `tag`.
fn has_tag(b: &[u8], start: usize, tag: &[u8]) -> (r: bool)
    requires
        start + tag@.len() <= b@.len(),
    ensures
        r == (b@.subrange(start as int, start + tag@.len()) == tag@),
{
    let n = b.len();
    let mut i: usize = 0;
    while i < tag.len()
        invariant
            i <= tag@.len(),
            n == b@.len(),
            start + tag@.len() <= b@.len(),
            forall|j: int| 0 <= j < i ==> b@[start + j] == tag@[j],
        decreases tag@.len() - i,
    {
        if b[start + i] != tag[i] {
            assert(b@.subrange(start as int, start + tag@.len())[i as int] != tag@[i as int]);
            return false;
        }
        i = i + 1;
    }
    assert(b@.subrange(start as int, start + tag@.len()) =~= tag@);
    true
}

/// Splits `getParams` into the id and the challenge it names.
pub fn parse_get_params(s: &String) -> (r: Option<(Vec<u8>, Vec<u8>)>)
    ensures
        r.is_some() == parse_get_params_spec(s@).is_some(),
        r.is_some() ==> r.unwrap().0@ == parse_get_params_spec(s@).unwrap().id
            && r.unwrap().1@ == parse_get_params_spec(s@).unwrap().challenge,
{
    let t = s.as_str();
    if !t.is_ascii() {
        return None;
    }
    let b = t.as_bytes();
    proof {
        is_ascii_spec_bytes(t);
        assert(b@ =~= ascii_bytes(s@));
    }
    if b.len() != GET_PARAMS_LEN {
        return None;
    }
    let id_tag_bytes: [u8; 3] = [105, 100, 58];
    let challenge_tag_bytes: [u8; 11] = [59, 99, 104, 97, 108, 108, 101, 110, 103, 101, 58];
    assert(id_tag_bytes@ =~= id_tag());
    assert(challenge_tag_bytes@ =~= challenge_tag());
    if !has_tag(b, 0, id_tag_bytes.as_slice()) || !has_tag(b, ID_END, challenge_tag_bytes.as_slice()) {
        return None;
    }
    let id = decode_hex(b, 3, ID_END);
    let challenge = decode_hex(b, CHALLENGE_START, GET_PARAMS_LEN);
    match (id, challenge) {
        (Some(i), Some(c)) => Some((i, c)),
        _ => None,
    }
}

/// Builds the `getParams` text that names credential `id` and carries `challenge`.
pub fn get_params_for(id: &Vec<u8>, challenge: &Vec<u8>) -> (r: String)
    ensures
        r@ == get_params_text(id@, challenge@),
{
    let mut r = String::from_str("id:");
    push_hex(&mut r, id);
    r.append(";challenge:");
    push_hex(&mut r, challenge);
    r
}

/// The text that names a credential and a challenge parses back to that credential and
/// that challenge.
pub proof fn lemma_get_params_round_trip(id: Seq<u8>, challenge: Seq<u8>)
    requires
        id.len() == ID_LEN,
        challenge.len() == CHALLENGE_LEN,
    ensures
        parse_get_params_spec(get_params_text(id, challenge)) == Some(
            SelectorView { id, challenge },
        ),
{
    reveal_strlit("id:");
    reveal_strlit(";challenge:");
    lemma_hex_round_trip(id);
    lemma_hex_round_trip(challenge);
    let s = get_params_text(id, challenge);
    let b = ascii_bytes(s);
    let hi = hex_chars(id);
    let hc = hex_chars(challenge);
    assert(s.len() == GET_PARAMS_LEN);
    assert(b.subrange(0, 3) =~= id_tag());
    assert(b.subrange(ID_END as int, CHALLENGE_START as int) =~= challenge_tag());
    assert(b.subrange(3, ID_END as int) =~= ascii_bytes(hi));
    assert(b.subrange(CHALLENGE_START as int, GET_PARAMS_LEN as int) =~= ascii_bytes(hc));
    assert(is_ascii_chars(s)) by {
        assert forall|i: int| 0 <= i < s.len() implies '\0' <= #[trigger] s[i] <= '\u{7f}' by {
            if 3 <= i < ID_END {
                assert(s[i] == hi[i - 3]);
            } else if CHALLENGE_START <= i {
                assert(s[i] == hc[i - CHALLENGE_START]);
            }
        }
    }
}

} // verus!
