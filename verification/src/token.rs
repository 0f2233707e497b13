//! Access tokens: the opaque per-device credential minted on any successful
//! authentication, together with its record shape.

use vstd::prelude::*;
use rand::distributions::{Alphanumeric, DistString};

verus! {

/// Number of symbols in a freshly minted access token.
pub const ACCESS_TOKEN_LENGTH: usize = 512;

/// Which authentication flow produced a token.
#[derive(Clone, Copy, Debug, PartialEq, Eq, Structural)]
pub enum AuthType {
    Password,
    Wallet,
}

/// The alphabet a token is drawn from: ASCII letters and digits.
pub open spec fn is_token_char(c: char) -> bool {
    ('a' <= c && c <= 'z') || ('A' <= c && c <= 'Z') || ('0' <= c && c <= '9')
}

/// A well-formed token string: exactly `ACCESS_TOKEN_LENGTH` symbols, all
/// drawn from the token alphabet.
pub open spec fn valid_token(s: Seq<char>) -> bool {
    &&& s.len() == ACCESS_TOKEN_LENGTH
    &&& forall|i: int| 0 <= i < s.len() ==> is_token_char(#[trigger] s[i])
}

/// Relies on rand's `Alphanumeric` distribution sampled over `OsRng`:
/// `sample_string` appends exactly the requested number of characters, each
/// drawn from the 62-symbol alphabet of ASCII letters and digits.
#[verifier::external_body]
fn sample_alphanumeric_token() -> (r: String)
    ensures
        valid_token(r@),
{
    Alphanumeric.sample_string(&mut rand::rngs::OsRng, ACCESS_TOKEN_LENGTH)
}

/// Relies on chrono's `Utc::now`: returns the current wall-clock time as
/// milliseconds since the Unix epoch. Nothing is promised of the value.
#[verifier::external_body]
fn current_time_millis() -> (r: i64)
{
    chrono::Utc::now().timestamp_millis()
}

/// One access-token record, keyed by `(user_id, device_id)`.
#[derive(Debug)]
pub struct AccessToken {
    pub user_id: String,
    pub device_id: String,
    pub token: String,
    /// Milliseconds since the Unix epoch at which the token was minted.
    pub created: i64,
    pub auth_type: AuthType,
    pub valid: bool,
}

impl AccessToken {
    /// A well-formed record: non-empty key parts and a token drawn from the
    /// issuer's alphabet at the issuer's length.
    pub open spec fn wf(&self) -> bool {
        &&& self.user_id@.len() > 0
        &&& self.device_id@.len() > 0
        &&& valid_token(self.token@)
    }

    /// Mints a fresh record for `(user_id, device_id)`: a high-entropy token
    /// of the issuer's fixed length, stamped with the current time, valid
    /// from the start.
    pub fn new(user_id: String, device_id: String, auth_type: AuthType) -> (r: AccessToken)
        requires
            user_id@.len() > 0,
            device_id@.len() > 0,
        ensures
            r.wf(),
            r.user_id == user_id,
            r.device_id == device_id,
            r.auth_type == auth_type,
            r.valid == true,
    {
        AccessToken {
            user_id,
            device_id,
            token: sample_alphanumeric_token(),
            created: current_time_millis(),
            auth_type,
            valid: true,
        }
    }

    /// A field-for-field copy of the record.
    pub fn duplicate(&self) -> (r: AccessToken)
        ensures
            r == *self,
    {
        AccessToken {
            user_id: self.user_id.clone(),
            device_id: self.device_id.clone(),
            token: self.token.clone(),
            created: self.created,
            auth_type: self.auth_type,
            valid: self.valid,
        }
    }
}

} // verus!
