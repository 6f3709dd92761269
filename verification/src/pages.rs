//! The pages of the client.
pub mod login;
pub mod session;
