use dmtrd::authtokens::derive_state;
use dmtrd::authtokens::determine_action;
use dmtrd::authtokens::is_expired;
use dmtrd::authtokens::AuthToken;
use dmtrd::authtokens::AuthTokenSpec;
use dmtrd::authtokens::AuthTokenStatus;
use dmtrd::authtokens::DomainAction;

fn token(
    status: Option<AuthTokenStatus>,
    viewed: bool,
    deletion_timestamp: Option<String>,
) -> AuthToken {
    AuthToken {
        spec: AuthTokenSpec {
            issuer: "issuer".into(),
            expiration_days: Some(30),
            viewed,
            revoked: false,
        },
        status,
        deletion_timestamp,
    }
}

#[test]
fn deletion_requests_cleanup() {
    let t = token(None, false, Some("2020-01-01T00:00:00Z".into()));
    assert_eq!(determine_action(&t), DomainAction::AttemptCleanup);
}

#[test]
fn missing_status_generates_a_token() {
    let t = token(None, false, None);
    assert_eq!(determine_action(&t), DomainAction::GenerateToken);
}

#[test]
fn unemitted_status_generates_a_token() {
    let t = token(
        Some(AuthTokenStatus {
            emitted: false,
            secret: None,
        }),
        false,
        None,
    );
    assert_eq!(determine_action(&t), DomainAction::GenerateToken);
}

#[test]
fn viewed_secret_is_forgotten() {
    let t = token(
        Some(AuthTokenStatus {
            emitted: true,
            secret: Some("sealed".into()),
        }),
        true,
        None,
    );
    assert_eq!(determine_action(&t), DomainAction::ForgetToken);
}

#[test]
fn settled_token_needs_nothing() {
    let t = token(
        Some(AuthTokenStatus {
            emitted: true,
            secret: None,
        }),
        true,
        None,
    );
    assert_eq!(determine_action(&t), DomainAction::NoOp);
}

#[test]
fn tokens_never_expire_yet() {
    let t = token(None, false, None);
    assert!(!is_expired(&t));
}

#[test]
fn derive_state_emits_a_fresh_secret() {
    let t = token(None, false, None);
    let derived = derive_state(&t, "fresh-secret".into());
    assert!(derived.status.emitted);
    assert_eq!(derived.status.secret.as_deref(), Some("fresh-secret"));
    assert_eq!(
        derived.finalizer.as_deref(),
        Some("demeter.run/wait-for-expired")
    );
}

#[test]
fn derive_state_clears_a_viewed_secret() {
    let t = token(
        Some(AuthTokenStatus {
            emitted: true,
            secret: Some("sealed".into()),
        }),
        true,
        None,
    );
    let derived = derive_state(&t, "fresh-secret".into());
    assert!(derived.status.emitted);
    assert_eq!(derived.status.secret, None);
}

#[test]
fn derive_state_keeps_an_unviewed_secret() {
    let t = token(
        Some(AuthTokenStatus {
            emitted: true,
            secret: Some("sealed".into()),
        }),
        false,
        None,
    );
    let derived = derive_state(&t, "fresh-secret".into());
    assert!(derived.status.emitted);
    assert_eq!(derived.status.secret.as_deref(), Some("sealed"));
}
