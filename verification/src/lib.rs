//! Identity service: session-oriented authentication flows (a password PAKE
//! handshake and a wallet-signature flow) that converge to one opaque access
//! token or one categorical rejection per session, plus token validation.

pub mod attrs;
pub mod backup_utils;
pub mod messages;
pub mod pake;
pub mod registration;
pub mod service;
pub mod status;
pub mod store;
pub mod token;
pub mod tools;
pub mod validator;
pub mod wallet;
