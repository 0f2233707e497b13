//! The protocol messages a login or registration session carries: plain data
//! carried over the stream, with opaque protocol blobs held as byte vectors.

use vstd::prelude::*;

verus! {

/// A wallet-flow login request: single-shot, carried in one message.
pub struct WalletLoginRequest {
    pub user_id: String,
    pub device_id: String,
    /// The challenge message, in its textual wire form.
    pub siwe_message: String,
    /// The signature over the challenge message.
    pub siwe_signature: Vec<u8>,
}

/// The wallet-flow success payload.
pub struct WalletLoginResponse {
    pub access_token: String,
}

/// A password-flow (PAKE) login message: the two-message handshake.
pub enum PakeLoginRequest {
    /// First message: the client's opaque credential request plus the
    /// identifiers the minted token will be keyed by.
    PakeCredentialRequestAndUserId {
        user_id: String,
        device_id: String,
        pake_credential_request: Vec<u8>,
    },
    /// Second message: the client's opaque finalization of the handshake.
    PakeCredentialFinalization(Vec<u8>),
}

/// A password-flow response message.
pub enum PakeLoginResponse {
    /// Intermediate: the server's opaque credential response.
    PakeCredentialResponse(Vec<u8>),
    /// Terminal: the minted access token.
    AccessToken(String),
}

/// The payload of one inbound login message.
pub enum LoginRequestData {
    WalletLoginRequest(WalletLoginRequest),
    PakeLoginRequest(PakeLoginRequest),
}

/// The payload of one outbound login message.
pub enum LoginResponseData {
    WalletLoginResponse(WalletLoginResponse),
    PakeLoginResponse(PakeLoginResponse),
}

/// A password-flow registration message: the two-message exchange.
pub enum RegistrationRequestData {
    /// First message: the client's opaque registration request plus the user
    /// the credential record will be keyed by.
    PakeRegistrationRequestAndUserId {
        user_id: String,
        pake_registration_request: Vec<u8>,
    },
    /// Second message: the client's opaque registration upload.
    PakeRegistrationUpload(Vec<u8>),
}

/// A registration response message.
pub enum RegistrationResponseData {
    /// Intermediate: the server's opaque registration challenge.
    PakeRegistrationResponse(Vec<u8>),
    /// Terminal: the registration was completed and persisted.
    PakeRegistrationSuccess,
}

} // verus!
