//! Listener names and the rendered listener configuration handed to the
//! broker start command.

use vstd::prelude::*;

verus! {

/// The broker's listener scopes.
pub enum KafkaListenerName {
    /// Plain client-facing listener.
    Client,
    /// Client-facing listener requiring client certificates.
    ClientAuth,
    /// Broker-to-broker listener.
    Internal,
}

/// The listener's name as written into broker properties.
pub open spec fn spec_listener_name(n: KafkaListenerName) -> Seq<char> {
    match n {
        KafkaListenerName::Client => "CLIENT"@,
        KafkaListenerName::ClientAuth => "CLIENT_AUTH"@,
        KafkaListenerName::Internal => "INTERNAL"@,
    }
}

impl KafkaListenerName {
    /// The listener's name as written into broker properties.
    pub fn name(&self) -> (r: &'static str)
        ensures
            r@ == spec_listener_name(*self),
    {
        match self {
            KafkaListenerName::Client => "CLIENT",
            KafkaListenerName::ClientAuth => "CLIENT_AUTH",
            KafkaListenerName::Internal => "INTERNAL",
        }
    }
}

/// Rendered listener configuration: the three comma-joined strings the
/// broker start command interpolates into its overrides.
pub struct KafkaListenerConfig {
    /// The `listeners` override value.
    pub listeners: String,
    /// The `advertised.listeners` override value.
    pub advertised_listeners: String,
    /// The `listener.security.protocol.map` override value.
    pub listener_security_protocol_map: String,
}

impl KafkaListenerConfig {
    /// The `listeners` override value.
    pub fn listeners(&self) -> (r: &String)
        ensures
            r@ == self.listeners@,
    {
        &self.listeners
    }

    /// The `advertised.listeners` override value.
    pub fn advertised_listeners(&self) -> (r: &String)
        ensures
            r@ == self.advertised_listeners@,
    {
        &self.advertised_listeners
    }

    /// The `listener.security.protocol.map` override value.
    pub fn listener_security_protocol_map(&self) -> (r: &String)
        ensures
            r@ == self.listener_security_protocol_map@,
    {
        &self.listener_security_protocol_map
    }
}

} // verus!
