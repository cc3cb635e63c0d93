//! Decision logic of a single-shot object-storage command-line tool.
//!
//! The crate holds everything the tool decides: how the effective settings
//! are merged, which credentials are published, which storage operation is
//! requested and in what order local and remote work happens, where a
//! download lands and whether a status code counts as success. Performing
//! the work (files, environment, network) is left to the caller, which is
//! driven step by step through [`session::start`] and [`session::advance`].

pub mod config;
pub mod credentials;
pub mod dispatch;
pub mod error;
pub mod path;
pub mod protocol;
pub mod session;
pub mod status;
pub mod text;
