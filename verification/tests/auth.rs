use dmtrd::auth::digest;
use dmtrd::domain::DomainError;

#[test]
fn digest_is_deterministic() {
    let salt = b"somesaltforyou";
    let first = digest(b"mybadpassword", salt).unwrap();
    let second = digest(b"mybadpassword", salt).unwrap();
    assert_eq!(first, second);
    assert_eq!(first.len(), 32);
}

#[test]
fn digest_differs_for_different_secrets() {
    // tolerance of non-adversarial collisions is a documented non-goal;
    // for these two secrets the digests must differ
    let salt = b"somesaltforyou";
    let good = digest(b"mybadpassword", salt).unwrap();
    let wrong = digest(b"wrong-password", salt).unwrap();
    assert_ne!(good, wrong);
}

#[test]
fn digest_differs_for_different_salts() {
    let good = digest(b"mybadpassword", b"somesaltforyou").unwrap();
    let other = digest(b"mybadpassword", b"anothersaltval").unwrap();
    assert_ne!(good, other);
}

#[test]
fn digest_is_not_the_secret() {
    let salt = b"somesaltforyou";
    let out = digest(b"mybadpassword", salt).unwrap();
    assert_ne!(out.as_slice(), b"mybadpassword".as_slice());
    assert_ne!(out.as_slice(), salt.as_slice());
}

#[test]
fn digest_rejects_a_short_salt() {
    let err = digest(b"mybadpassword", b"salt").unwrap_err();
    assert_eq!(err, DomainError::HashingError);
}
