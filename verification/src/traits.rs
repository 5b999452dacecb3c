//! Error and configuration types for the MQTT facade, and the driver
//! interface a pluggable backend would implement.

use vstd::prelude::*;
use vstd::string::StringExecFns;

verus! {

/// The abstract value of an [`MqttError`]: the variant together with the
/// character sequence of its detail text.
pub enum MqttErrorView {
    ConnectionFailed(Seq<char>),
    SubscriptionFailed(Seq<char>),
    PublishFailed(Seq<char>),
    ReceiveFailed(Seq<char>),
}

/// An error reported by one of the facade's operations. Each variant wraps
/// a human-readable description of the underlying failure.
#[derive(Debug)]
pub enum MqttError {
    ConnectionFailed(String),
    SubscriptionFailed(String),
    PublishFailed(String),
    ReceiveFailed(String),
}

impl View for MqttError {
    type V = MqttErrorView;

    open spec fn view(&self) -> MqttErrorView {
        match self {
            MqttError::ConnectionFailed(s) => MqttErrorView::ConnectionFailed(s@),
            MqttError::SubscriptionFailed(s) => MqttErrorView::SubscriptionFailed(s@),
            MqttError::PublishFailed(s) => MqttErrorView::PublishFailed(s@),
            MqttError::ReceiveFailed(s) => MqttErrorView::ReceiveFailed(s@),
        }
    }
}

/// The full text of an error, as a variant label followed by the detail.
pub open spec fn spec_error_text(e: MqttErrorView) -> Seq<char> {
    match e {
        MqttErrorView::ConnectionFailed(d) => "Connection failed: "@ + d,
        MqttErrorView::SubscriptionFailed(d) => "Subscription failed: "@ + d,
        MqttErrorView::PublishFailed(d) => "Publish failed: "@ + d,
        MqttErrorView::ReceiveFailed(d) => "Receive failed: "@ + d,
    }
}

impl MqttError {
    /// A human-readable description: the variant's label followed by the
    /// wrapped detail text.
    pub fn describe(&self) -> (s: String)
        ensures
            s@ == spec_error_text(self@),
    {
        match self {
            MqttError::ConnectionFailed(d) => {
                let mut s = String::from_str("Connection failed: ");
                s.append(d.as_str());
                s
            },
            MqttError::SubscriptionFailed(d) => {
                let mut s = String::from_str("Subscription failed: ");
                s.append(d.as_str());
                s
            },
            MqttError::PublishFailed(d) => {
                let mut s = String::from_str("Publish failed: ");
                s.append(d.as_str());
                s
            },
            MqttError::ReceiveFailed(d) => {
                let mut s = String::from_str("Receive failed: ");
                s.append(d.as_str());
                s
            },
        }
    }
}

/// Connection parameters for the facade. Only the broker address is
/// configurable; everything else the facade fixes itself.
pub struct Parameters {
    pub host: String,
}

impl Default for Parameters {
    /// The default broker address, a plain (non-TLS) connection to a local
    /// broker on the standard MQTT port.
    fn default() -> (p: Self)
        ensures
            p.host@ == "mqtt://localhost:1883"@,
    {
        Parameters { host: String::from_str("mqtt://localhost:1883") }
    }
}

/// An inbound or outbound MQTT message, seen as its payload bytes.
pub trait MessageTrait {
    /// The payload bytes the message carries.
    spec fn spec_payload(&self) -> Seq<u8>;

    fn get_payload(&self) -> (p: &[u8])
        ensures
            p@ == self.spec_payload(),
    ;

    fn get_len(&self) -> (n: usize)
        ensures
            n == self.spec_payload().len(),
    ;
}

/// The interface a pluggable MQTT backend implements: connect to a broker,
/// subscribe to a topic, publish, and receive one inbound message. Each
/// backend supplies its own message type.
pub trait MqttDriver {
    type Message: MessageTrait;

    fn connect(&mut self, params: Parameters) -> Result<(), MqttError>;

    fn subscribe(&mut self, topic: &str) -> Result<(), MqttError>;

    fn publish(&mut self) -> Result<(), MqttError>;

    fn receive(&mut self) -> Result<Self::Message, MqttError>;
}

} // verus!
