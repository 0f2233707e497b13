//! The narrow interface to the external PAKE engine: the requests a session
//! asks its driver to run, and the results the driver feeds back. The engine
//! itself is an external collaborator; sessions treat its state and message
//! blobs as opaque bytes.

use vstd::prelude::*;

verus! {

/// The protocol-error kinds the PAKE engine distinguishes, one variant per
/// engine error; which one occurred is only distinguished internally.
#[derive(Clone, Copy, Debug, PartialEq, Eq, Structural)]
pub enum PakeProtocolError {
    /// Password verification, or a check inside it, failed.
    Verification,
    /// The inner envelope was malformed.
    InvalidInnerEnvelope,
    /// The server response could not be handled.
    Server,
    /// The envelope credentials format was invalid.
    InvalidEnvelopeCredentialsFormat,
    /// The client request could not be handled.
    Client,
}

/// An engine request a login session hands to its driver.
pub enum LoginEngineRequest {
    /// Run server-login-start on the stored credential record and the
    /// client's credential request, with the server's key material.
    ServerLoginStart { credential_record: Vec<u8>, pake_credential_request: Vec<u8> },
    /// Run server-login-finish on the retained login state and the client's
    /// finalization.
    ServerLoginFinish { login_state: Vec<u8>, pake_credential_finalization: Vec<u8> },
}

/// What the engine handed back to a login session.
pub enum LoginEngineResult {
    /// Login-start succeeded: a credential response to send back, and the
    /// opaque single-use login state to retain for this session.
    StartOk { pake_credential_response: Vec<u8>, login_state: Vec<u8> },
    /// Login-finish succeeded: the handshake verified the password.
    FinishOk { session_key: Vec<u8> },
    /// The engine rejected the step.
    Failed(PakeProtocolError),
}

/// An engine request a registration session hands to its driver.
pub enum RegistrationEngineRequest {
    /// Run server-registration-start on the client's registration request,
    /// with the server's key material.
    ServerRegistrationStart { pake_registration_request: Vec<u8> },
    /// Run server-registration-finish on the retained registration state and
    /// the client's upload.
    ServerRegistrationFinish { registration_state: Vec<u8>, pake_registration_upload: Vec<u8> },
}

/// What the engine handed back to a registration session.
pub enum RegistrationEngineResult {
    /// Registration-start succeeded: a challenge to send back, and the
    /// opaque registration state to retain for this session.
    StartOk { pake_registration_response: Vec<u8>, registration_state: Vec<u8> },
    /// Registration-finish succeeded: the credential record to persist.
    FinishOk { credential_record: Vec<u8> },
    /// The engine rejected the step.
    Failed(PakeProtocolError),
}

} // verus!
