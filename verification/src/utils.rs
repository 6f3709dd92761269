//! The collaborators of the pages, as far as the pages read and write them.
pub mod auth;
pub mod config;
