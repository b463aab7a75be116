//! Battle.net authenticator export: the rules of the two-step token exchange
//! and the conversion of a device secret into an otpauth URI.

pub mod client;
pub mod codec;
pub mod error;
pub mod response;
pub mod session;
pub mod step;
pub mod text;
