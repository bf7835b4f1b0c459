//! Domain logic of the auth-token custom resource: which action a
//! reconciliation pass should take for an observed token, and the status
//! it should converge to.  Signing the token itself is the issuance
//! collaborator's concern; the freshly minted secret is handed in.

use vstd::prelude::*;

use crate::rektor::DerivedResourceState;

verus! {

/// Configuration of the token-issuing collaborator: its signing key.
pub struct AuthConfig {
    pub secret_key: Vec<u8>,
}

/// Status mirrored into the custom resource.
pub struct AuthTokenStatus {
    pub emitted: bool,
    pub secret: Option<String>,
}

/// Desired state of an auth token, as its owner wrote it.
pub struct AuthTokenSpec {
    pub issuer: String,
    pub expiration_days: Option<u32>,
    pub viewed: bool,
    pub revoked: bool,
}

/// The slice of an auth-token custom resource that the domain logic reads:
/// its spec, its current status, and whether deletion has been requested.
pub struct AuthToken {
    pub spec: AuthTokenSpec,
    pub status: Option<AuthTokenStatus>,
    pub deletion_timestamp: Option<String>,
}

/// What a reconciliation pass should do for an auth token.
#[derive(Debug, Clone, Copy, PartialEq, Eq, Structural)]
pub enum DomainAction {
    /// Mint a fresh secret and patch it into the status.
    GenerateToken,
    /// The owner has viewed the secret: remove it from the status.
    ForgetToken,
    /// Deletion was requested: check expiry and release the finalizer.
    AttemptCleanup,
    /// Nothing to do.
    NoOp,
}

/// The action a reconciliation pass takes, as a function of the observed
/// token: cleanup once deletion is requested; otherwise generate while no
/// secret has been emitted; otherwise forget a secret its owner has
/// viewed; otherwise nothing.
pub open spec fn spec_determine_action(token: AuthToken) -> DomainAction {
    if token.deletion_timestamp is Some {
        DomainAction::AttemptCleanup
    } else if token.status is None {
        DomainAction::GenerateToken
    } else if !token.status->0.emitted {
        DomainAction::GenerateToken
    } else if token.spec.viewed && token.status->0.secret is Some {
        DomainAction::ForgetToken
    } else {
        DomainAction::NoOp
    }
}

/// Decide what a reconciliation pass should do for `token`.
pub fn determine_action(token: &AuthToken) -> (r: DomainAction)
    ensures
        r == spec_determine_action(*token),
{
    if token.deletion_timestamp.is_some() {
        return DomainAction::AttemptCleanup;
    }
    match &token.status {
        None => DomainAction::GenerateToken,
        Some(status) => {
            if !status.emitted {
                DomainAction::GenerateToken
            } else if token.spec.viewed && status.secret.is_some() {
                DomainAction::ForgetToken
            } else {
                DomainAction::NoOp
            }
        },
    }
}

/// Whether the token is past its expiration.  Expiry tracking is not
/// implemented in this design: every token is treated as live, so the
/// finalizer is always held.
pub fn is_expired(token: &AuthToken) -> (r: bool)
    ensures
        r == false,
{
    let _ = &token.spec;
    false
}

/// The view of an optional stored secret.
pub open spec fn secret_view(secret: Option<String>) -> Option<Seq<char>> {
    match secret {
        Some(s) => Some(s@),
        None => None,
    }
}

/// The secret the derived status carries: none once the owner has viewed
/// it; the freshly minted one while none has been emitted; otherwise
/// whatever the status already holds.
pub open spec fn derived_secret(token: AuthToken, fresh: Seq<char>) -> Option<Seq<char>> {
    if token.spec.viewed {
        None
    } else if token.status is None || !token.status->0.emitted {
        Some(fresh)
    } else {
        secret_view(token.status->0.secret)
    }
}

/// Derive the state an auth token should converge to.
///
/// `fresh_secret` is a newly minted signed token from the issuance
/// collaborator; it is stored only while the status has not yet emitted
/// one, and dropped once the owner has viewed the secret.  The derived
/// status always records that a secret has been emitted, and the finalizer
/// is held until the token expires.
pub fn derive_state(token: &AuthToken, fresh_secret: String) -> (r: DerivedResourceState<
    AuthTokenStatus,
>)
    ensures
        r.status.emitted == true,
        secret_view(r.status.secret) == derived_secret(*token, fresh_secret@),
        r.finalizer matches Some(f) && f@ == "demeter.run/wait-for-expired"@,
{
    let mut status = match &token.status {
        Some(s) => AuthTokenStatus {
            emitted: s.emitted,
            secret: match &s.secret {
                Some(x) => Some(x.clone()),
                None => None,
            },
        },
        None => AuthTokenStatus { emitted: false, secret: None },
    };
    if !status.emitted {
        status = AuthTokenStatus { secret: Some(fresh_secret), emitted: true };
    }
    if token.spec.viewed {
        status = AuthTokenStatus { secret: None, emitted: true };
    }
    let finalizer = if is_expired(token) {
        None
    } else {
        Some(("demeter.run/wait-for-expired").to_owned())
    };
    DerivedResourceState { finalizer, status }
}

} // verus!
