//! Account, login and access-token logic of a small to-do web service.
//!
//! The HTTP server, the database and the token signer live outside this
//! crate; what they hand back enters here as plain values, and what they
//! must do next leaves as plain values.

pub mod guard;
pub mod login;
pub mod lookup;
pub mod models;
pub mod password;
pub mod status;
pub mod users;
