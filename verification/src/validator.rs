//! The token validator: compares a presented token against the stored token
//! for a `(user, device)` pair in constant time.

use vstd::prelude::*;
use crate::store::{IdentityStore, TokenView};

verus! {

/// Relies on constant_time_eq::constant_time_eq: true exactly when the two
/// byte slices are equal, evaluated in time independent of the position of
/// the first mismatching byte.
#[verifier::external_body]
fn constant_time_bytes_eq(a: &[u8], b: &[u8]) -> (r: bool)
    ensures
        r == (a@ == b@),
{
    constant_time_eq::constant_time_eq(a, b)
}

/// Whether the token table holds a record for `key` whose token text is
/// exactly `presented`.
pub open spec fn token_matches(
    m: Map<(Seq<char>, Seq<char>), TokenView>,
    key: (Seq<char>, Seq<char>),
    presented: Seq<char>,
) -> bool {
    m.contains_key(key) && m[key].token == presented
}

/// Reports whether `access_token` is the token currently stored for
/// `(user_id, device_id)`: false when no record exists, and otherwise the
/// result of a constant-time comparison with the stored token.
pub fn verify_user_token(
    store: &IdentityStore,
    user_id: &String,
    device_id: &String,
    access_token: &String,
) -> (r: bool)
    requires
        store.wf(),
    ensures
        r == token_matches(store.tokens(), (user_id@, device_id@), access_token@),
{
    match store.get_token(user_id, device_id) {
        Some(record) => {
            let same = constant_time_bytes_eq(
                record.token.as_str().as_bytes(),
                access_token.as_str().as_bytes(),
            );
            proof {
                vstd::utf8::encode_utf8_decode_utf8(record.token@);
                vstd::utf8::encode_utf8_decode_utf8(access_token@);
            }
            same
        },
        None => false,
    }
}

/// Law: after a token record is stored for a device, a presented token
/// validates for that device exactly when it is the newly stored token;
/// whatever was stored before is superseded.
pub proof fn lemma_token_overwrite(
    m: Map<(Seq<char>, Seq<char>), TokenView>,
    key: (Seq<char>, Seq<char>),
    record: TokenView,
    presented: Seq<char>,
)
    ensures
        token_matches(m.insert(key, record), key, presented) <==> presented == record.token,
{
}

} // verus!
