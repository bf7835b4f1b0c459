use bech32::ToBase32;
use bech32::Variant;

use dmtrd::domain::Credential;
use dmtrd::rpc::build_interceptor;
use dmtrd::rpc::TokenRejected;

#[test]
fn build_token() {
    // 10 bytes are 80 bits: sixteen 5-bit groups exactly, so the regrouping
    // on decode is padding-free and reproduces the secret byte for byte
    let secret = b"mybadpass!".to_vec();
    let token = bech32::encode("dmtr_apikey", secret.to_base32(), Variant::Bech32).unwrap();

    let auth = build_interceptor();
    match auth.authenticate(&token).unwrap() {
        Credential::ApiKeyV1(decoded) => assert_eq!(decoded, secret),
        Credential::OwnerSignatureV1(_, _) => panic!("expected an API-key credential"),
    }
}

#[test]
fn decoding_pads_a_ragged_secret_with_a_zero_byte() {
    // 13 bytes are 104 bits: encoding pads them to twenty-one 5-bit groups,
    // and regrouping those on decode keeps the padding as a trailing zero
    // byte — the decoded secret is not byte-identical to the encoded one
    let secret = b"mybadpassword".to_vec();
    let token = bech32::encode("dmtr_apikey", secret.to_base32(), Variant::Bech32).unwrap();

    let mut padded = secret.clone();
    padded.push(0);

    let auth = build_interceptor();
    match auth.authenticate(&token).unwrap() {
        Credential::ApiKeyV1(decoded) => assert_eq!(decoded, padded),
        Credential::OwnerSignatureV1(_, _) => panic!("expected an API-key credential"),
    }
}

#[test]
fn authenticate_rejects_malformed_tokens() {
    let auth = build_interceptor();
    let err = auth.authenticate("not a bech32 token").unwrap_err();
    assert_eq!(err, TokenRejected::MalformedToken);
}

#[test]
fn authenticate_rejects_a_foreign_prefix() {
    let token = bech32::encode("dmtr_other", b"mybadpassword".to_base32(), Variant::Bech32).unwrap();

    let auth = build_interceptor();
    let err = auth.authenticate(&token).unwrap_err();
    assert_eq!(err, TokenRejected::WrongPrefix);
}

#[test]
fn authenticate_rejects_a_corrupted_checksum() {
    let secret = b"mybadpassword".to_vec();
    let token = bech32::encode("dmtr_apikey", secret.to_base32(), Variant::Bech32).unwrap();
    let mut corrupted = token.clone();
    // flip the final checksum character
    let last = corrupted.pop().unwrap();
    corrupted.push(if last == 'q' { 'p' } else { 'q' });

    let auth = build_interceptor();
    let err = auth.authenticate(&corrupted).unwrap_err();
    assert_eq!(err, TokenRejected::MalformedToken);
}
