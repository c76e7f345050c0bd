use p256_signer::hex::{decode_hex, to_hex};
use p256_signer::params::{check_creation_params, get_params_for, parse_get_params};
use p256_signer::signer::{created_response, signed_response};
use p256_signer::{
    CreateCredentialRequest, Error, GeneratedKey, GetCredentialRequest, P256Signer, PublicKey,
    SignFailure,
};

fn key(x: u8, y: u8) -> PublicKey {
    PublicKey { x: vec![x; 32], y: vec![y; 32] }
}

fn generated(handle: &str, x: u8, y: u8) -> GeneratedKey {
    GeneratedKey { key_handle: handle.to_string(), public_key: key(x, y) }
}

fn create(
    signer: &mut P256Signer,
    params: &str,
    g: Option<GeneratedKey>,
    id: [u8; 16],
) -> Result<String, Error> {
    let req = signer.begin_create(CreateCredentialRequest { creation_params: params.to_string() })?;
    signer.create_credential(req, g, id, 1_700_000_000).map(|r| r.pub_key_json)
}

fn get(signer: &P256Signer, params: &str, sig: Result<Vec<u8>, SignFailure>) -> Result<String, Error> {
    let q = signer.begin_get(&GetCredentialRequest { get_params: params.to_string() })?;
    signer.get_credential(&q, sig).map(|r| r.pub_key_json)
}

fn params_for(id: [u8; 16], challenge: u8) -> String {
    get_params_for(&id.to_vec(), &vec![challenge; 32])
}

#[test]
fn example_create_then_get() {
    let mut signer = P256Signer::new();
    let id = [0xab; 16];
    let created = create(&mut signer, "rp:example.com", Some(generated("key-1", 0x01, 0xfe)), id).unwrap();
    let x = "01".repeat(32);
    let y = "fe".repeat(32);
    let id_hex = "ab".repeat(16);
    assert_eq!(created, format!("{{\"x\":\"{}\",\"y\":\"{}\",\"id\":\"{}\"}}", x, y, id_hex));

    let params = format!("id:{};challenge:{}", id_hex, "5a".repeat(32));
    assert_eq!(params, params_for(id, 0x5a));
    let q = signer.begin_get(&GetCredentialRequest { get_params: params.clone() }).unwrap();
    assert_eq!(q.key_handle, "key-1");
    assert_eq!(q.challenge, vec![0x5a; 32]);
    assert_eq!(q.public_key.x, vec![0x01; 32]);
    assert_eq!(q.public_key.y, vec![0xfe; 32]);
    let answer = signer.get_credential(&q, Ok(vec![0x30, 0x45, 0x02, 0xff])).unwrap();
    assert_eq!(
        answer.pub_key_json,
        format!("{{\"publicKey\":{{\"x\":\"{}\",\"y\":\"{}\"}},\"signature\":\"304502ff\"}}", x, y)
    );
}

#[test]
fn round_trip_for_several_contexts() {
    let mut signer = P256Signer::new();
    for (n, ctx) in ["a", "rp:example.org", "app:ü-ñ"].iter().enumerate() {
        let id = [n as u8 + 1; 16];
        assert!(create(&mut signer, ctx, Some(generated("h", n as u8, 7)), id).is_ok());
        let answer = get(&signer, &params_for(id, 9), Ok(vec![1, 2, 3])).unwrap();
        let x = format!("{:02x}", n).repeat(32);
        assert!(answer.starts_with(&format!("{{\"publicKey\":{{\"x\":\"{}\"", x)));
        assert!(answer.ends_with("\"signature\":\"010203\"}"));
    }
}

#[test]
fn many_credentials_are_all_resolvable() {
    let mut signer = P256Signer::new();
    for n in 0..20u8 {
        let mut id = [0u8; 16];
        id[15] = n;
        let handle = format!("handle-{}", n);
        assert!(create(&mut signer, "rp", Some(generated(&handle, n, n)), id).is_ok());
    }
    for n in 0..20u8 {
        let mut id = [0u8; 16];
        id[15] = n;
        let q = signer.begin_get(&GetCredentialRequest { get_params: params_for(id, 1) }).unwrap();
        assert_eq!(q.key_handle, format!("handle-{}", n));
        assert_eq!(q.public_key.x, vec![n; 32]);
    }
}

#[test]
fn duplicate_id_is_refused() {
    let mut signer = P256Signer::new();
    let id = [3u8; 16];
    assert!(create(&mut signer, "rp", Some(generated("first", 1, 1)), id).is_ok());
    assert_eq!(create(&mut signer, "rp", Some(generated("second", 2, 2)), id), Err(Error::DuplicateId));
    let q = signer.begin_get(&GetCredentialRequest { get_params: params_for(id, 1) }).unwrap();
    assert_eq!(q.key_handle, "first");
}

#[test]
fn unknown_selector_is_not_found() {
    let mut signer = P256Signer::new();
    assert_eq!(get(&signer, &params_for([9; 16], 1), Ok(vec![1])), Err(Error::CredentialNotFound));
    assert!(create(&mut signer, "rp", Some(generated("h", 1, 1)), [8; 16]).is_ok());
    assert_eq!(get(&signer, &params_for([9; 16], 1), Ok(vec![1])), Err(Error::CredentialNotFound));
}

#[test]
fn revoking_one_leaves_the_others() {
    let mut signer = P256Signer::new();
    let a = [0xaa; 16];
    let b = [0xbb; 16];
    assert!(create(&mut signer, "rp", Some(generated("ha", 1, 1)), a).is_ok());
    assert!(create(&mut signer, "rp", Some(generated("hb", 2, 2)), b).is_ok());
    let before = get(&signer, &params_for(b, 4), Ok(vec![7])).unwrap();
    assert_eq!(signer.revoke_credential(&a.to_vec()), Ok("ha".to_string()));
    assert_eq!(get(&signer, &params_for(b, 4), Ok(vec![7])), Ok(before));
    assert_eq!(get(&signer, &params_for(a, 4), Ok(vec![7])), Err(Error::CredentialNotFound));
    assert_eq!(signer.revoke_credential(&a.to_vec()), Err(Error::CredentialNotFound));
}

#[test]
fn two_signatures_share_the_public_key() {
    let mut signer = P256Signer::new();
    let id = [5u8; 16];
    assert!(create(&mut signer, "rp", Some(generated("h", 0x11, 0x22)), id).is_ok());
    let params = params_for(id, 0xcc);
    let first = get(&signer, &params, Ok(vec![0x01, 0x02])).unwrap();
    let second = get(&signer, &params, Ok(vec![0x03, 0x04])).unwrap();
    assert_ne!(first, second);
    let head = format!("{{\"publicKey\":{{\"x\":\"{}\",\"y\":\"{}\"}},", "11".repeat(32), "22".repeat(32));
    assert!(first.starts_with(&head));
    assert!(second.starts_with(&head));
}

#[test]
fn invalid_creation_params() {
    let mut signer = P256Signer::new();
    let empty = signer.begin_create(CreateCredentialRequest { creation_params: String::new() });
    assert_eq!(empty.err(), Some(Error::InvalidParams));
    let long = "x".repeat(1025);
    let oversized = signer.begin_create(CreateCredentialRequest { creation_params: long });
    assert_eq!(oversized.err(), Some(Error::InvalidParams));
    let largest = signer.begin_create(CreateCredentialRequest { creation_params: "x".repeat(1024) });
    assert_eq!(largest.unwrap().context().len(), 1024);
    assert!(!check_creation_params(&"é".repeat(513)));
    assert!(check_creation_params(&"é".repeat(512)));
    assert!(create(&mut signer, "", Some(generated("h", 1, 1)), [1; 16]).is_err());
}

#[test]
fn invalid_get_params() {
    let mut signer = P256Signer::new();
    let id = [6u8; 16];
    assert!(create(&mut signer, "rp", Some(generated("h", 1, 1)), id).is_ok());
    let good = params_for(id, 2);
    assert!(get(&signer, &good, Ok(vec![1])).is_ok());
    for bad in [
        String::new(),
        format!("{}0", good),
        good[..good.len() - 2].to_string(),
        good.replacen("id:", "ix:", 1),
        good.replacen(";challenge:", ";challengf:", 1),
        good.replacen("06", "0g", 1),
        format!("{}zz", &good[..good.len() - 2]),
        "x".repeat(5000),
    ] {
        assert_eq!(get(&signer, &bad, Ok(vec![1])), Err(Error::InvalidParams), "{}", bad);
    }
}

#[test]
fn upper_case_digits_are_accepted() {
    let mut signer = P256Signer::new();
    let id = [0xab; 16];
    assert!(create(&mut signer, "rp", Some(generated("h", 1, 1)), id).is_ok());
    let params = format!("id:{};challenge:{}", "AB".repeat(16), "Ff".repeat(32));
    let q = signer.begin_get(&GetCredentialRequest { get_params: params }).unwrap();
    assert_eq!(q.challenge, vec![0xff; 32]);
}

#[test]
fn unusable_keys_fail_generation() {
    let mut signer = P256Signer::new();
    let id = [1u8; 16];
    assert_eq!(create(&mut signer, "rp", None, id), Err(Error::KeyGenerationFailure));
    assert_eq!(create(&mut signer, "rp", Some(generated("", 1, 1)), id), Err(Error::KeyGenerationFailure));
    let short = GeneratedKey { key_handle: "h".to_string(), public_key: PublicKey { x: vec![1; 31], y: vec![1; 32] } };
    assert_eq!(create(&mut signer, "rp", Some(short), id), Err(Error::KeyGenerationFailure));
    assert_eq!(get(&signer, &params_for(id, 1), Ok(vec![1])), Err(Error::CredentialNotFound));
}

#[test]
fn signing_failures_are_reported() {
    let mut signer = P256Signer::new();
    let id = [2u8; 16];
    assert!(create(&mut signer, "rp", Some(generated("h", 1, 1)), id).is_ok());
    let p = params_for(id, 3);
    assert_eq!(get(&signer, &p, Err(SignFailure::Refused)), Err(Error::SigningFailure));
    assert_eq!(get(&signer, &p, Err(SignFailure::Unavailable)), Err(Error::PlatformUnavailable));
    assert_eq!(get(&signer, &p, Err(SignFailure::UnknownHandle)), Err(Error::KeyNotFound));
    assert_eq!(get(&signer, &p, Ok(Vec::new())), Err(Error::SigningFailure));
}

#[test]
fn hex_encoding_and_decoding() {
    assert_eq!(to_hex(&vec![0x00, 0x0f, 0xa5, 0xff]), "000fa5ff");
    assert_eq!(to_hex(&Vec::new()), "");
    assert_eq!(decode_hex(b"xx0fA5yy", 2, 6), Some(vec![0x0f, 0xa5]));
    assert_eq!(decode_hex(b"0g", 0, 2), None);
    assert_eq!(decode_hex(b"", 0, 0), Some(Vec::new()));
}

#[test]
fn parse_splits_id_and_challenge() {
    let id: Vec<u8> = (0..16).collect();
    let challenge: Vec<u8> = (100..132).collect();
    let text = get_params_for(&id, &challenge);
    assert_eq!(text.len(), 110);
    assert_eq!(parse_get_params(&text), Some((id, challenge)));
    assert_eq!(parse_get_params(&"é".repeat(55)), None);
}

#[test]
fn response_encoders() {
    let k = PublicKey { x: vec![0xde, 0xad], y: vec![0xbe, 0xef] };
    assert_eq!(created_response(&vec![0x42], &k).pub_key_json, "{\"x\":\"dead\",\"y\":\"beef\",\"id\":\"42\"}");
    assert_eq!(
        signed_response(&k, &vec![0x01]).pub_key_json,
        "{\"publicKey\":{\"x\":\"dead\",\"y\":\"beef\"},\"signature\":\"01\"}"
    );
}
