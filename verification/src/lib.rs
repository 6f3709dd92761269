//! The login workflow of the CYU client, as a message-driven controller.
//!
//! The controller decides; its host performs. Each handler of
//! [`pages::login::LoginPage`] takes one event, moves the page to its next
//! state, and returns the action that the host has to carry out: start an
//! authentication exchange, ask the credential store to forget what it holds,
//! hand an output to the caller, or tell the user of a failure. The one side
//! effect that a handler performs itself is the write of the save preference
//! to the [`utils::config::Config`] that the host lends it, so that the write
//! is done when the handler returns.
//!
//! [`pages::session`] states what holds of a page over any run of events.
pub mod pages;
pub mod utils;
