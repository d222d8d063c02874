//! Health checks: their errors, the health server's configuration, and the
//! status that a set of check results is reported with.

use vstd::prelude::*;
use vstd::string::*;

verus! {

/// Why a health check did not pass.
#[derive(Clone, Debug)]
pub enum HealthCheckError {
    /// The check itself failed, with this error text.
    Failed(String),
    /// The check ran and reported a problem.
    NotOk(String),
}

/// The text of a health check error.
pub open spec fn health_message_of(e: HealthCheckError) -> Seq<char> {
    match e {
        HealthCheckError::Failed(err) => "Health check failed: "@ + err@,
        HealthCheckError::NotOk(reason) => "Not OK: "@ + reason@,
    }
}

impl HealthCheckError {
    /// A check result that reports `reason` as a problem.
    pub fn nok<T>(reason: &str) -> (r: Result<T, HealthCheckError>)
        ensures
            r matches Err(HealthCheckError::NotOk(m)) && m@ == reason@,
    {
        Err(HealthCheckError::NotOk(String::from_str(reason)))
    }

    /// The text of this error.
    pub fn message(&self) -> (r: String)
        ensures
            r@ == health_message_of(*self),
    {
        match self {
            HealthCheckError::Failed(err) => String::from_str("Health check failed: ").concat(
                err.as_str(),
            ),
            HealthCheckError::NotOk(reason) => String::from_str("Not OK: ").concat(reason.as_str()),
        }
    }
}

/// The default address the health server binds to.
pub fn bind_addr() -> (r: String)
    ensures
        r@ == "[::1]:9090"@,
{
    String::from_str("[::1]:9090")
}

/// The default number of health server workers.
pub fn workers() -> (r: usize)
    ensures
        r == 1,
{
    1
}

/// Health server configuration.
#[derive(Clone, Debug)]
pub struct HealthServerConfig {
    pub enabled: bool,
    pub bind_addr: String,
    pub workers: usize,
}

impl Default for HealthServerConfig {
    fn default() -> (r: Self)
        ensures
            !r.enabled,
            r.bind_addr@ == "[::1]:9090"@,
            r.workers == 1,
    {
        HealthServerConfig { enabled: false, bind_addr: bind_addr(), workers: workers() }
    }
}

/// Whether every check passed.
pub open spec fn all_passed(results: Seq<Result<(), HealthCheckError>>) -> bool {
    forall|i: int| 0 <= i < results.len() ==> #[trigger] results[i] is Ok
}

/// The HTTP status and the `success` flag that check results are reported
/// with: 200 when every check passed, 503 otherwise.
pub fn health_status(results: &Vec<Result<(), HealthCheckError>>) -> (r: (u16, bool))
    ensures
        r.1 == all_passed(results@),
        r.0 == (if r.1 {
            200u16
        } else {
            503u16
        }),
{
    let mut i: usize = 0;
    while i < results.len()
        invariant
            0 <= i <= results.len(),
            forall|j: int| 0 <= j < i ==> #[trigger] results@[j] is Ok,
        decreases results.len() - i,
    {
        if results[i].is_err() {
            return (503, false);
        }
        i = i + 1;
    }
    (200, true)
}

} // verus!
