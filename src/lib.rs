//! Building blocks for backend services: request authentication and
//! authorization decisions, configuration defaults, and health reporting.
//!
//! Everything here is plain computation with a verified contract. Talking to
//! the network, reading the environment and driving the HTTP server is left to
//! the embedding application, which hands the results of that work to the
//! decision functions of this crate.

pub mod error;
pub mod user;
pub mod credentials;
pub mod authn;
pub mod authz;
pub mod info;
pub mod tls;
pub mod http;
pub mod cors;
pub mod health;
pub mod runtime;
pub mod csv;
