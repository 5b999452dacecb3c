//! The lazy-connect facade.
//!
//! `Paho` coordinates `connect`, `subscribe` and `publish` against one
//! underlying asynchronous MQTT client. The network operations themselves
//! happen outside this crate: before an operation the caller asks the facade
//! what to do ([`Paho::try_connect_action`]), performs the connect attempt if
//! one was ordered, and hands every outcome back as a plain value. The
//! facade's decisions — the one automatic connect attempt on first use, the
//! fixed delivery level, and the exact error each failure maps to — are all
//! stated over [`PahoView`], the mathematical value of the facade's state.

use vstd::prelude::*;
use vstd::slice::slice_to_vec;
use vstd::string::StringExecFns;

use crate::traits::{MessageTrait, MqttError, MqttErrorView, Parameters};

verus! {

/// MQTT delivery guarantee levels. The facade subscribes and publishes at
/// [`Qos::AtMostOnce`] only.
#[derive(Clone, Copy, Debug, PartialEq, Eq, Structural)]
pub enum Qos {
    AtMostOnce,
    AtLeastOnce,
    ExactlyOnce,
}

impl Qos {
    /// The level's wire value.
    pub open spec fn spec_level(self) -> u8 {
        match self {
            Qos::AtMostOnce => 0,
            Qos::AtLeastOnce => 1,
            Qos::ExactlyOnce => 2,
        }
    }

    /// The numeric quality-of-service level as it appears on the wire.
    pub fn level(&self) -> (n: u8)
        ensures
            n == self.spec_level(),
    {
        match self {
            Qos::AtMostOnce => 0,
            Qos::AtLeastOnce => 1,
            Qos::ExactlyOnce => 2,
        }
    }
}

/// Options the facade hands to the underlying client's connect operation.
pub struct ConnectOptions {
    pub user_name: String,
    pub password: String,
    pub clean_session: bool,
}

/// What the facade decides before a `subscribe` or `publish`.
#[derive(Clone, Copy, Debug, PartialEq, Eq, Structural)]
pub enum ConnectAction {
    /// The client already has a live session: the operation may proceed.
    Proceed,
    /// First use and no live session: the caller must attempt one connect
    /// and report the outcome through [`Paho::record_first_connect`].
    Attempt,
    /// The session dropped after the first successful connect: the operation
    /// fails with [`Paho::refuse_error`], and no reconnect is attempted.
    Refuse,
}

/// The abstract value of a [`Paho`] facade: the first-connect flag together
/// with the stored broker address and connect options.
#[verifier::ext_equal]
pub struct PahoView {
    pub first_connect: bool,
    pub host: Seq<char>,
    pub user_name: Seq<char>,
    pub password: Seq<char>,
    pub clean_session: bool,
}

/// The abstract value of a [`SubscribeRequest`].
pub struct SubscribeRequestView {
    pub topic: Seq<char>,
    pub qos: Qos,
}

/// A subscribe request as the facade hands it to the underlying client:
/// the caller's topic filter at the facade's fixed delivery level.
pub struct SubscribeRequest {
    pub topic: String,
    pub qos: Qos,
}

impl View for SubscribeRequest {
    type V = SubscribeRequestView;

    open spec fn view(&self) -> SubscribeRequestView {
        SubscribeRequestView { topic: self.topic@, qos: self.qos }
    }
}

/// The abstract value of a [`Message`].
pub struct MessageView {
    pub topic: Seq<char>,
    pub payload: Seq<u8>,
    pub qos: Qos,
}

/// An outbound message, constructed fresh for each publish: the caller's
/// topic and payload bytes at the facade's fixed delivery level.
pub struct Message {
    pub topic: String,
    pub payload: Vec<u8>,
    pub qos: Qos,
}

impl View for Message {
    type V = MessageView;

    open spec fn view(&self) -> MessageView {
        MessageView { topic: self.topic@, payload: self.payload@, qos: self.qos }
    }
}

impl MessageTrait for Message {
    open spec fn spec_payload(&self) -> Seq<u8> {
        self.payload@
    }

    fn get_payload(&self) -> (p: &[u8]) {
        self.payload.as_slice()
    }

    fn get_len(&self) -> (n: usize) {
        self.payload.len()
    }
}

/// The request a `subscribe` issues for a topic: the topic itself, always at
/// the at-most-once level.
pub open spec fn spec_subscribe_request(topic: Seq<char>) -> SubscribeRequestView {
    SubscribeRequestView { topic, qos: Qos::AtMostOnce }
}

/// The message a `publish` sends for a topic and payload: both taken over
/// unchanged, always at the at-most-once level.
pub open spec fn spec_publish_message(topic: Seq<char>, payload: Seq<u8>) -> MessageView {
    MessageView { topic, payload, qos: Qos::AtMostOnce }
}

/// The facade. It owns the connection parameters and the one-shot
/// first-connect flag; the underlying client handle lives with the caller,
/// who reports the client's state and the outcomes of its operations.
pub struct Paho {
    first_connect: bool,
    opts: ConnectOptions,
    host: String,
}

impl View for Paho {
    type V = PahoView;

    closed spec fn view(&self) -> PahoView {
        PahoView {
            first_connect: self.first_connect,
            host: self.host@,
            user_name: self.opts.user_name@,
            password: self.opts.password@,
            clean_session: self.opts.clean_session,
        }
    }
}

/// The decision taken before a `subscribe` or `publish`, given whether the
/// underlying client reports a live session.
pub open spec fn spec_try_connect_action(v: PahoView, is_connected: bool) -> ConnectAction {
    if is_connected {
        ConnectAction::Proceed
    } else if v.first_connect {
        ConnectAction::Attempt
    } else {
        ConnectAction::Refuse
    }
}

/// The facade's state after its one automatic connect attempt: a success
/// lowers the first-connect flag for good, a failure changes nothing.
pub open spec fn spec_after_first_connect(v: PahoView, success: bool) -> PahoView {
    if success {
        PahoView { first_connect: false, ..v }
    } else {
        v
    }
}

/// The detail text of a failed connect.
pub open spec fn spec_connect_failed_text(detail: Seq<char>) -> Seq<char> {
    "Failed to connect to MQTT broker: "@ + detail
}

/// The detail text when an operation is refused because the session dropped
/// after the first successful connect.
pub open spec fn spec_refused_text() -> Seq<char> {
    "Failed to connect to MQTT broker"@
}

/// The detail text of a failed subscribe.
pub open spec fn spec_subscribe_failed_text(topic: Seq<char>, detail: Seq<char>) -> Seq<char> {
    "Failed to subscribe to topic "@ + topic + ": "@ + detail
}

/// The detail text of a failed publish.
pub open spec fn spec_publish_failed_text(topic: Seq<char>, detail: Seq<char>) -> Seq<char> {
    "Failed to publish message to topic "@ + topic + ": "@ + detail
}

impl Paho {
    /// A fresh facade: the first-connect flag raised, the broker address
    /// taken from `params`, and the fixed credentials and clean-session
    /// setting stored for the connect operation.
    pub fn new(params: Parameters) -> (p: Paho)
        ensures
            p@ == (PahoView {
                first_connect: true,
                host: params.host@,
                user_name: "testuser"@,
                password: "testpassword"@,
                clean_session: true,
            }),
    {
        Paho {
            first_connect: true,
            opts: ConnectOptions {
                user_name: String::from_str("testuser"),
                password: String::from_str("testpassword"),
                clean_session: true,
            },
            host: params.host,
        }
    }

    /// Whether the facade's one automatic connect attempt is still ahead.
    pub fn first_connect(&self) -> (b: bool)
        ensures
            b == self@.first_connect,
    {
        self.first_connect
    }

    /// The stored broker address.
    pub fn host(&self) -> (h: &String)
        ensures
            h@ == self@.host,
    {
        &self.host
    }

    /// The stored connect options.
    pub fn opts(&self) -> (o: &ConnectOptions)
        ensures
            o.user_name@ == self@.user_name,
            o.password@ == self@.password,
            o.clean_session == self@.clean_session,
    {
        &self.opts
    }

    /// Decide what must happen before a `subscribe` or `publish`, given
    /// whether the underlying client reports a live session.
    pub fn try_connect_action(&self, is_connected: bool) -> (a: ConnectAction)
        ensures
            a == spec_try_connect_action(self@, is_connected),
    {
        if is_connected {
            ConnectAction::Proceed
        } else if self.first_connect {
            ConnectAction::Attempt
        } else {
            ConnectAction::Refuse
        }
    }

    /// Record the outcome of the one automatic connect attempt ordered by
    /// [`Paho::try_connect_action`]. A success lowers the first-connect flag
    /// permanently; a failure leaves the facade unchanged and reports
    /// [`MqttError::ConnectionFailed`] with the underlying detail.
    pub fn record_first_connect(&mut self, outcome: Result<(), String>) -> (r: Result<
        (),
        MqttError,
    >)
        ensures
            final(self)@ == spec_after_first_connect(old(self)@, outcome is Ok),
            r is Ok <==> outcome is Ok,
            outcome matches Err(d) ==> (r matches Err(e) && e@ == MqttErrorView::ConnectionFailed(
                spec_connect_failed_text(d@),
            )),
    {
        match outcome {
            Ok(()) => {
                self.first_connect = false;
                Ok(())
            },
            Err(d) => {
                let mut s = String::from_str("Failed to connect to MQTT broker: ");
                s.append(d.as_str());
                Err(MqttError::ConnectionFailed(s))
            },
        }
    }

    /// The error an operation reports when the session dropped after the
    /// first successful connect: no reconnect is attempted.
    pub fn refuse_error(&self) -> (e: MqttError)
        ensures
            e@ == MqttErrorView::ConnectionFailed(spec_refused_text()),
    {
        MqttError::ConnectionFailed(String::from_str("Failed to connect to MQTT broker"))
    }

    /// Map the outcome of an explicit connect operation. An explicit connect
    /// never touches the first-connect flag; a failure reports
    /// [`MqttError::ConnectionFailed`] with the underlying detail.
    pub fn connect(&mut self, outcome: Result<(), String>) -> (r: Result<(), MqttError>)
        ensures
            final(self)@ == old(self)@,
            r is Ok <==> outcome is Ok,
            outcome matches Err(d) ==> (r matches Err(e) && e@ == MqttErrorView::ConnectionFailed(
                spec_connect_failed_text(d@),
            )),
    {
        match outcome {
            Ok(()) => Ok(()),
            Err(d) => {
                let mut s = String::from_str("Failed to connect to MQTT broker: ");
                s.append(d.as_str());
                Err(MqttError::ConnectionFailed(s))
            },
        }
    }

    /// The request a `subscribe` for `topic` issues, once
    /// [`Paho::try_connect_action`] (and, after an `Attempt`,
    /// [`Paho::record_first_connect`]) allowed it to proceed: the topic at
    /// the fixed at-most-once level.
    pub fn subscribe_request(&self, topic: &str) -> (q: SubscribeRequest)
        ensures
            q@ == spec_subscribe_request(topic@),
    {
        SubscribeRequest { topic: String::from_str(topic), qos: Qos::AtMostOnce }
    }

    /// Map the outcome of the underlying subscribe operation. A failure
    /// reports [`MqttError::SubscriptionFailed`] naming the topic and the
    /// underlying detail.
    pub fn subscribe_outcome(&self, topic: &str, outcome: Result<(), String>) -> (r: Result<
        (),
        MqttError,
    >)
        ensures
            r is Ok <==> outcome is Ok,
            outcome matches Err(d) ==> (r matches Err(e) && e@
                == MqttErrorView::SubscriptionFailed(spec_subscribe_failed_text(topic@, d@))),
    {
        match outcome {
            Ok(()) => Ok(()),
            Err(d) => {
                let mut s = String::from_str("Failed to subscribe to topic ");
                s.append(topic);
                s.append(": ");
                s.append(d.as_str());
                Err(MqttError::SubscriptionFailed(s))
            },
        }
    }

    /// The message a `publish` for `topic` and `payload` sends, once
    /// [`Paho::try_connect_action`] (and, after an `Attempt`,
    /// [`Paho::record_first_connect`]) allowed it to proceed: the payload
    /// bytes unchanged, at the fixed at-most-once level.
    pub fn publish_message(&self, topic: &str, payload: &[u8]) -> (m: Message)
        ensures
            m@ == spec_publish_message(topic@, payload@),
    {
        Message {
            topic: String::from_str(topic),
            payload: slice_to_vec(payload),
            qos: Qos::AtMostOnce,
        }
    }

    /// Map the outcome of the underlying publish operation. A failure
    /// reports [`MqttError::PublishFailed`] naming the topic and the
    /// underlying detail.
    pub fn publish_outcome(&self, topic: &str, outcome: Result<(), String>) -> (r: Result<
        (),
        MqttError,
    >)
        ensures
            r is Ok <==> outcome is Ok,
            outcome matches Err(d) ==> (r matches Err(e) && e@ == MqttErrorView::PublishFailed(
                spec_publish_failed_text(topic@, d@),
            )),
    {
        match outcome {
            Ok(()) => Ok(()),
            Err(d) => {
                let mut s = String::from_str("Failed to publish message to topic ");
                s.append(topic);
                s.append(": ");
                s.append(d.as_str());
                Err(MqttError::PublishFailed(s))
            },
        }
    }
}

/// A freshly constructed facade, asked to subscribe or publish, makes
/// exactly one connect attempt: when the underlying client reports no live
/// session the decision is `Attempt`, when it reports one the decision is
/// `Proceed` (no attempt), and a fresh facade is never refused.
pub proof fn lemma_fresh_facade_attempts_once(v: PahoView, is_connected: bool)
    requires
        v.first_connect,
    ensures
        spec_try_connect_action(v, is_connected) == (if is_connected {
            ConnectAction::Proceed
        } else {
            ConnectAction::Attempt
        }),
        spec_try_connect_action(v, is_connected) != ConnectAction::Refuse,
{
}

/// A failed first connect attempt leaves the facade exactly as it was: its
/// first connect is still ahead, so the next `subscribe` or `publish` with
/// no live session attempts the initial connect again.
pub proof fn lemma_failed_first_connect_allows_retry(v: PahoView)
    requires
        v.first_connect,
    ensures
        spec_after_first_connect(v, false) == v,
        spec_after_first_connect(v, false).first_connect,
        spec_try_connect_action(spec_after_first_connect(v, false), false)
            == ConnectAction::Attempt,
{
}

/// Once the first connect attempt has succeeded, the facade's automatic
/// reconnect is spent for good: the first-connect flag is down, stays down
/// whatever later attempts are recorded, and any later loss of the session
/// makes `subscribe` and `publish` refuse rather than reconnect.
pub proof fn lemma_one_shot_reconnect(v: PahoView, later_success: bool)
    ensures
        !spec_after_first_connect(v, true).first_connect,
        !spec_after_first_connect(
            spec_after_first_connect(v, true),
            later_success,
        ).first_connect,
        spec_try_connect_action(spec_after_first_connect(v, true), false)
            == ConnectAction::Refuse,
{
}

/// Subscribe requests have one shape for every topic, the empty filter
/// included: the topic is carried over unchanged and the delivery level is
/// always at-most-once.
pub proof fn lemma_subscribe_uniform_shape(t1: Seq<char>, t2: Seq<char>)
    ensures
        spec_subscribe_request(t1).topic == t1,
        spec_subscribe_request(t1).qos == Qos::AtMostOnce,
        spec_subscribe_request(t1).qos == spec_subscribe_request(t2).qos,
{
}

/// A failed subscribe names its topic: the error text contains the topic as
/// a contiguous run of characters.
pub proof fn lemma_subscribe_failure_names_topic(topic: Seq<char>, detail: Seq<char>)
    ensures
        exists|i: int|
            0 <= i && i + topic.len() <= spec_subscribe_failed_text(topic, detail).len()
                && #[trigger] spec_subscribe_failed_text(topic, detail).subrange(
                i,
                i + topic.len(),
            ) == topic,
{
    let m = spec_subscribe_failed_text(topic, detail);
    let p = "Failed to subscribe to topic "@;
    assert(m.subrange(p.len() as int, p.len() + topic.len() as int) =~= topic);
}

/// A failed publish names its topic: the error text contains the topic as a
/// contiguous run of characters.
pub proof fn lemma_publish_failure_names_topic(topic: Seq<char>, detail: Seq<char>)
    ensures
        exists|i: int|
            0 <= i && i + topic.len() <= spec_publish_failed_text(topic, detail).len()
                && #[trigger] spec_publish_failed_text(topic, detail).subrange(
                i,
                i + topic.len(),
            ) == topic,
{
    let m = spec_publish_failed_text(topic, detail);
    let p = "Failed to publish message to topic "@;
    assert(m.subrange(p.len() as int, p.len() + topic.len() as int) =~= topic);
}

/// Publishing never alters the payload: the outbound message carries the
/// topic and the exact payload bytes — empty or not — at the fixed
/// at-most-once level, and a connected client always lets the publish
/// proceed.
pub proof fn lemma_publish_preserves_payload(v: PahoView, topic: Seq<char>, payload: Seq<u8>)
    ensures
        spec_publish_message(topic, payload).topic == topic,
        spec_publish_message(topic, payload).payload == payload,
        spec_publish_message(topic, payload).qos == Qos::AtMostOnce,
        spec_try_connect_action(v, true) == ConnectAction::Proceed,
{
}

} // verus!
