//! HTTP server configuration and its defaults.

use vstd::prelude::*;
use vstd::string::*;
use crate::cors::CorsConfig;

verus! {

/// The default limit of a request payload, in bytes.
pub fn max_payload_size() -> (r: usize)
    ensures
        r == 65536,
{
    65536
}

/// The default limit of a JSON request payload, in bytes.
pub fn max_json_payload_size() -> (r: usize)
    ensures
        r == 65536,
{
    65536
}

/// The default address the HTTP server binds to.
pub fn bind_addr() -> (r: String)
    ensures
        r@ == "[::1]:8080"@,
{
    String::from_str("[::1]:8080")
}

/// HTTP server configuration.
#[derive(Clone, Debug)]
pub struct HttpConfig {
    pub bind_addr: String,
    pub max_json_payload_size: usize,
    pub max_payload_size: usize,
    pub disable_tls: bool,
    pub disable_tls_psk: bool,
    pub cert_bundle_file: Option<String>,
    pub key_file: Option<String>,
    pub workers: Option<usize>,
    pub metrics_namespace: Option<String>,
    pub cors: Option<CorsConfig>,
}

impl Default for HttpConfig {
    fn default() -> (r: Self)
        ensures
            r.bind_addr@ == "[::1]:8080"@,
            r.max_json_payload_size == 65536,
            r.max_payload_size == 65536,
            !r.disable_tls,
            !r.disable_tls_psk,
            r.cert_bundle_file is None,
            r.key_file is None,
            r.workers is None,
            r.metrics_namespace is None,
            r.cors is None,
    {
        HttpConfig {
            bind_addr: bind_addr(),
            max_json_payload_size: max_json_payload_size(),
            max_payload_size: max_payload_size(),
            disable_tls: false,
            disable_tls_psk: false,
            cert_bundle_file: None,
            key_file: None,
            workers: None,
            metrics_namespace: None,
            cors: None,
        }
    }
}

} // verus!
