//! The wallet sub-flow: verification of a signed challenge message against
//! the current time, and token issuance on success.

use vstd::prelude::*;
use crate::messages::{WalletLoginRequest, WalletLoginResponse};
use crate::status::{Status, StatusCode, status_is};
use crate::store::{IdentityStore, TokenView};
use crate::token::{AccessToken, AuthType, valid_token};

verus! {

/// Number of bytes in a wallet signature's wire encoding.
pub const SIWE_SIGNATURE_LENGTH: usize = 65;

/// Declares siwe's parsed challenge-message type; src holds such a value
/// only to pass it from the parse to the verification call.
#[verifier::external_type_specification]
#[verifier::external_body]
pub struct ExSiweMessage(siwe::Message);

/// Whether siwe's grammar accepts this challenge-message text: parsing is a
/// function of the text alone.
pub uninterp spec fn siwe_parse_ok(s: Seq<char>) -> bool;

/// Relies on siwe's `Message` implementation of `FromStr`: whether the text
/// parses depends on the text alone.
#[verifier::external_body]
fn parse_siwe(message: &String) -> (r: Option<siwe::Message>)
    ensures
        r.is_some() == siwe_parse_ok(message@),
{
    message.as_str().parse::<siwe::Message>().ok()
}

/// Relies on siwe's `Message::verify`, called with the current wall-clock
/// time: it accepts exactly when the message's validity window contains now
/// and the signature matches the message's address. The outcome depends on
/// the clock, so nothing is promised of it.
#[verifier::external_body]
fn verify_siwe(message: &siwe::Message, signature: &Vec<u8>) -> (r: bool)
    requires
        signature@.len() == SIWE_SIGNATURE_LENGTH,
{
    let sig: [u8; 65] = match signature.as_slice().try_into() {
        Ok(s) => s,
        Err(_) => return false,
    };
    message.verify(sig, None, None, Some(&time::OffsetDateTime::now_utc())).is_ok()
}

/// Checks identifiers, parses the challenge message, and verifies its
/// signature against the current time. The failure classes are mapped onto
/// the external vocabulary: incomplete identifiers abort, a malformed
/// signature encoding is an invalid argument, and a verification failure —
/// whether the text did not parse or the cryptographic check did not pass,
/// distinguished only internally — is unauthenticated.
pub fn parse_and_verify_siwe_message(
    user_id: &String,
    device_id: &String,
    siwe_message: &String,
    siwe_signature: &Vec<u8>,
) -> (r: Result<(), Status>)
    ensures
        (user_id@.len() == 0 || device_id@.len() == 0) ==> (r matches Err(st)
            && status_is(st, StatusCode::Aborted, "user not found"@)),
        (user_id@.len() > 0 && device_id@.len() > 0 && !siwe_parse_ok(siwe_message@)) ==> (
        r matches Err(st)
            && status_is(st, StatusCode::Unauthenticated, "message not authenticated"@)),
        (user_id@.len() > 0 && device_id@.len() > 0 && siwe_parse_ok(siwe_message@)
            && siwe_signature@.len() != SIWE_SIGNATURE_LENGTH) ==> (r matches Err(st)
            && status_is(st, StatusCode::InvalidArgument, "invalid message"@)),
        (user_id@.len() > 0 && device_id@.len() > 0 && siwe_parse_ok(siwe_message@)
            && siwe_signature@.len() == SIWE_SIGNATURE_LENGTH) ==> (r matches Ok(()) || (r matches Err(st)
            && status_is(st, StatusCode::Unauthenticated, "message not authenticated"@))),
{
    if user_id.as_str().is_empty() || device_id.as_str().is_empty() {
        return Err(Status::new(StatusCode::Aborted, "user not found"));
    }
    let message = match parse_siwe(siwe_message) {
        Some(m) => m,
        None => {
            return Err(Status::new(StatusCode::Unauthenticated, "message not authenticated"));
        },
    };
    if siwe_signature.len() != SIWE_SIGNATURE_LENGTH {
        return Err(Status::new(StatusCode::InvalidArgument, "invalid message"));
    }
    if verify_siwe(&message, siwe_signature) {
        Ok(())
    } else {
        Err(Status::new(StatusCode::Unauthenticated, "message not authenticated"))
    }
}

/// Mints a fresh access token for `(user_id, device_id)` and persists it,
/// superseding any previous token for that device. Incomplete identifiers
/// abort without touching the store.
pub fn put_token_helper(
    store: &mut IdentityStore,
    auth_type: AuthType,
    user_id: &String,
    device_id: &String,
) -> (r: Result<String, Status>)
    requires
        old(store).wf(),
    ensures
        final(store).wf(),
        final(store).regs() == old(store).regs(),
        (user_id@.len() == 0 || device_id@.len() == 0) ==> (r matches Err(st)
            && status_is(st, StatusCode::Aborted, "user not found"@)
            && final(store).tokens() == old(store).tokens()),
        (user_id@.len() > 0 && device_id@.len() > 0) ==> (r matches Ok(tok)
            && valid_token(tok@)
            && final(store).tokens().contains_key((user_id@, device_id@))
            && final(store).tokens()[(user_id@, device_id@)].token == tok@
            && final(store).tokens()[(user_id@, device_id@)].auth_type == auth_type
            && final(store).tokens()[(user_id@, device_id@)].valid == true
            && final(store).tokens() == old(store).tokens().insert(
                (user_id@, device_id@),
                final(store).tokens()[(user_id@, device_id@)],
            )),
{
    if user_id.as_str().is_empty() || device_id.as_str().is_empty() {
        return Err(Status::new(StatusCode::Aborted, "user not found"));
    }
    let record = AccessToken::new(user_id.clone(), device_id.clone(), auth_type);
    let access_token = record.token.clone();
    store.put_token(record);
    Ok(access_token)
}

/// What a completed wallet login may leave behind: either an unauthenticated
/// rejection with the store untouched, or a response carrying a fresh token
/// that now supersedes any previous token for the device.
pub open spec fn wallet_login_outcome(
    s0: IdentityStore,
    s1: IdentityStore,
    request: WalletLoginRequest,
    num_messages_received: u8,
    r: Result<WalletLoginResponse, Status>,
) -> bool {
    if num_messages_received != 0 {
        &&& r matches Err(st) && status_is(st, StatusCode::Aborted, "please retry"@)
        &&& s1.tokens() == s0.tokens()
    } else if request.user_id@.len() == 0 || request.device_id@.len() == 0 {
        &&& r matches Err(st) && status_is(st, StatusCode::Aborted, "user not found"@)
        &&& s1.tokens() == s0.tokens()
    } else if !siwe_parse_ok(request.siwe_message@) {
        &&& r matches Err(st)
            && status_is(st, StatusCode::Unauthenticated, "message not authenticated"@)
        &&& s1.tokens() == s0.tokens()
    } else if request.siwe_signature@.len() != SIWE_SIGNATURE_LENGTH {
        &&& r matches Err(st) && status_is(st, StatusCode::InvalidArgument, "invalid message"@)
        &&& s1.tokens() == s0.tokens()
    } else {
        ||| {
            &&& r matches Err(st)
                && status_is(st, StatusCode::Unauthenticated, "message not authenticated"@)
            &&& s1.tokens() == s0.tokens()
        }
        ||| {
            &&& r matches Ok(resp)
                && valid_token(resp.access_token@)
                && exists|c: int|
                    s1.tokens() == s0.tokens().insert(
                        (request.user_id@, request.device_id@),
                        TokenView {
                            token: resp.access_token@,
                            created: c,
                            auth_type: AuthType::Wallet,
                            valid: true,
                        },
                    )
        }
    }
}

/// Drives the single-shot wallet login: rejects a session that has already
/// carried a message, verifies the signed challenge, and on success mints
/// and persists a wallet-tagged token.
pub fn wallet_login_helper(
    store: &mut IdentityStore,
    request: WalletLoginRequest,
    num_messages_received: u8,
) -> (r: Result<WalletLoginResponse, Status>)
    requires
        old(store).wf(),
    ensures
        final(store).wf(),
        final(store).regs() == old(store).regs(),
        wallet_login_outcome(*old(store), *final(store), request, num_messages_received, r),
{
    if num_messages_received != 0 {
        return Err(Status::new(StatusCode::Aborted, "please retry"));
    }
    match parse_and_verify_siwe_message(
        &request.user_id,
        &request.device_id,
        &request.siwe_message,
        &request.siwe_signature,
    ) {
        Ok(()) => {
            let access_token = put_token_helper(
                store,
                AuthType::Wallet,
                &request.user_id,
                &request.device_id,
            )?;
            proof {
                let key = (request.user_id@, request.device_id@);
                assert(store.tokens() == old(store).tokens().insert(
                    key,
                    TokenView {
                        token: access_token@,
                        created: store.tokens()[key].created,
                        auth_type: AuthType::Wallet,
                        valid: true,
                    },
                ));
            }
            Ok(WalletLoginResponse { access_token })
        },
        Err(e) => Err(e),
    }
}

} // verus!
