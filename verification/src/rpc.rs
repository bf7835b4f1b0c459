//! Credential extraction for the RPC surface: decoding a presented API-key
//! token — bech32 text with a fixed human-readable prefix — into a
//! [`Credential`].  The transport that carries the token lives outside the
//! library; only the decoding rule is here.

use vstd::prelude::*;

use crate::domain::Credential;
use crate::domain::CredentialView;

verus! {

/// RPC server configuration.
pub struct Config {
    pub listen_address: String,
}

/// What bech32 decoding of a token yields: the lower-cased human-readable
/// part and the 5-bit data values, or nothing when the token is not valid
/// bech32.  The outcome depends on the token text alone.
pub uninterp spec fn bech32_decoded(s: Seq<char>) -> Option<(Seq<char>, Seq<u8>)>;

/// The bytes that regrouping a sequence of 5-bit values into 8-bit groups
/// (with padding) yields.  Depends on the values alone.
pub uninterp spec fn regrouped_bits(data: Seq<u8>) -> Seq<u8>;

#[verifier::external_type_specification]
#[verifier::external_body]
pub struct ExBech32Error(bech32::Error);

/// Relies on bech32's `decode`: the outcome is a function of the token
/// alone; on success the human-readable part comes back lower-cased and
/// every data value is a 5-bit value, so below 32.
#[verifier::external_body]
fn bech32_decode(token: &str) -> (r: Result<(String, Vec<u8>), bech32::Error>)
    ensures
        r is Ok <==> bech32_decoded(token@) is Some,
        r is Ok ==> {
            &&& r->Ok_0.0@ == (bech32_decoded(token@)->0).0
            &&& r->Ok_0.1@ == (bech32_decoded(token@)->0).1
            &&& forall|i: int| 0 <= i < r->Ok_0.1@.len() ==> r->Ok_0.1@[i] < 32
        },
{
    let (hrp, data, _variant) = bech32::decode(token)?;
    Ok((hrp, data.into_iter().map(|v| v.to_u8()).collect()))
}

/// Relies on bech32's `convert_bits` from 5-bit to 8-bit groups with
/// padding: the outcome is a function of the data alone, and the call
/// succeeds exactly when every input value fits in 5 bits.
#[verifier::external_body]
fn bech32_regroup_bits(data: &Vec<u8>) -> (r: Result<Vec<u8>, bech32::Error>)
    ensures
        r is Ok <==> (forall|i: int| 0 <= i < data@.len() ==> data@[i] < 32),
        r is Ok ==> r->Ok_0@ == regrouped_bits(data@),
{
    bech32::convert_bits(data.as_slice(), 5, 8, true)
}

/// Why a presented API-key token was refused.
#[derive(Debug, Clone, Copy, PartialEq, Eq, Structural)]
pub enum TokenRejected {
    /// The token is not valid bech32 text.
    MalformedToken,
    /// The token's human-readable part is not the API-key prefix.
    WrongPrefix,
}

/// The credential-extracting interceptor of the RPC surface.
#[derive(Clone)]
pub struct Authenticator {}

impl Authenticator {
    /// Decode a presented API-key token.  It must be valid bech32 whose
    /// human-readable part is exactly `dmtr_apikey`; the payload,
    /// regrouped from 5-bit to 8-bit values, becomes the API-key secret of
    /// the resulting credential.
    pub fn authenticate(&self, token: &str) -> (r: Result<Credential, TokenRejected>)
        ensures
            r is Ok <==> (bech32_decoded(token@) is Some && (bech32_decoded(token@)->0).0
                == "dmtr_apikey"@),
            r is Ok ==> (r->Ok_0@ matches CredentialView::ApiKeyV1(secret) && secret
                == regrouped_bits((bech32_decoded(token@)->0).1)),
            r is Err ==> r->Err_0 == (if bech32_decoded(token@) is None {
                TokenRejected::MalformedToken
            } else {
                TokenRejected::WrongPrefix
            }),
    {
        let decoded = match bech32_decode(token) {
            Ok(d) => d,
            Err(_) => {
                return Err(TokenRejected::MalformedToken);
            },
        };
        let (hrp, data) = decoded;
        let expected = ("dmtr_apikey").to_owned();
        if hrp != expected {
            return Err(TokenRejected::WrongPrefix);
        }
        match bech32_regroup_bits(&data) {
            Ok(secret) => Ok(Credential::ApiKeyV1(secret)),
            Err(_) => Err(TokenRejected::MalformedToken),
        }
    }
}

/// Build the credential-extracting interceptor.
pub fn build_interceptor() -> (r: Authenticator) {
    Authenticator {  }
}

} // verus!
