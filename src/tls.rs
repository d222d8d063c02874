//! TLS settings.

use vstd::prelude::*;

verus! {

/// TLS client authentication mode.
#[derive(Clone, Copy, Debug, PartialEq, Eq, Structural)]
pub enum TlsMode {
    /// No client authentication.
    NoClient,
    /// Client authentication with the project's own scheme.
    Client,
}

} // verus!
