//! Cluster-wide TLS settings: an optional secret class for client-facing
//! (server) TLS and a secret class for broker-to-broker (internal) TLS.

use vstd::prelude::*;

verus! {

/// TLS settings of a cluster.
///
/// `server_secret_class` guards client-facing TLS: absence disables it.
/// `internal_secret_class` guards broker-to-broker TLS: it defaults to a
/// non-empty value, and an explicitly empty string disables internal TLS.
#[derive(Debug, PartialEq)]
pub struct KafkaTls {
    pub server_secret_class: Option<String>,
    pub internal_secret_class: String,
}

/// Default secret class for client-facing TLS.
pub fn server_tls_default() -> (r: Option<String>)
    ensures
        r.deep_view() == Some("tls"@),
{
    Some(String::from_str("tls"))
}

/// Default secret class for broker-to-broker TLS.
pub fn internal_tls_default() -> (r: String)
    ensures
        r@ == "tls"@,
{
    String::from_str("tls")
}

/// The TLS settings a cluster gets when its specification leaves them out:
/// both scopes enabled with the default secret class.
pub fn default_kafka_tls() -> (r: Option<KafkaTls>)
    ensures
        r matches Some(t) && t.server_secret_class.deep_view() == Some("tls"@)
            && t.internal_secret_class@ == "tls"@,
{
    Some(KafkaTls { server_secret_class: server_tls_default(), internal_secret_class: internal_tls_default() })
}

} // verus!
