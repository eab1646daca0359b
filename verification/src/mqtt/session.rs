//! The two ends of an MQTT session: what is done about the events of the
//! connection, and what is sent.

use crate::decimal::format_u16;
#[allow(unused_imports)]
use crate::decimal::decimal;
use crate::mqtt::event::{Event, QoS};
use crate::mqtt::parser::MqttCommand;
use crate::state::ApplicationStateChange;
use crate::text::{bounded_from_str, bounded_push_str};
use vstd::prelude::*;
#[allow(unused_imports)]
use vstd::utf8::encode_utf8;

verus! {

/// The size of each suffix that is put to the prefix of the topics, in bytes.
pub const TOPIC_SUFFIX_LEN: usize = 11;

/// What is done about an event of the connection.
#[derive(Copy, Clone, Eq, PartialEq, Debug)]
pub enum ReceiveAction<'a> {
    /// Note the command that was received.
    NoteCommand(&'a MqttCommand),
    /// Tell the sender whether there is a connection.
    Signal(bool),
    /// Wait for the next event.
    Wait,
    /// Stop: the connection delivers no more.
    Exit,
}

/// What is done about what the connection delivered.
pub open spec fn receive_action<'a, E>(
    message: &'a Option<Result<Event<Option<MqttCommand>>, E>>,
) -> ReceiveAction<'a> {
    match message {
        Some(Ok(Event::Received(Some(command)))) => ReceiveAction::NoteCommand(command),
        Some(Ok(Event::Connected(_))) => ReceiveAction::Signal(true),
        Some(Ok(Event::Disconnected)) => ReceiveAction::Signal(false),
        Some(_) => ReceiveAction::Wait,
        None => ReceiveAction::Exit,
    }
}

/// What is done about what the connection delivered. Errors, and events that
/// bring no command and leave the connection as it is, are passed over.
pub fn receive<'a, E>(message: &'a Option<Result<Event<Option<MqttCommand>>, E>>) -> (r:
    ReceiveAction<'a>)
    ensures
        r == receive_action(message),
        message is None <==> r is Exit,
        message matches Some(Ok(Event::Connected(_))) <==> r == ReceiveAction::Signal(true),
        message matches Some(Ok(Event::Disconnected)) <==> r == ReceiveAction::Signal(false),
        message matches Some(Ok(Event::Received(Some(_)))) <==> r is NoteCommand,
        message matches Some(Ok(Event::Received(Some(command)))) ==> r
            == ReceiveAction::NoteCommand(command),
{
    match message {
        Some(Ok(Event::Received(Some(command)))) => ReceiveAction::NoteCommand(command),
        Some(Ok(Event::Connected(_))) => ReceiveAction::Signal(true),
        Some(Ok(Event::Disconnected)) => ReceiveAction::Signal(false),
        Some(_) => ReceiveAction::Wait,
        None => ReceiveAction::Exit,
    }
}

/// What the sender is told.
#[derive(Clone, Debug)]
pub enum SendEvent {
    /// Whether there is a connection now.
    Connection(bool),
    /// A change of the application's state.
    State(ApplicationStateChange),
}

/// What the sender does.
#[derive(Clone, Debug)]
pub enum SendAction {
    /// Subscribe to a topic.
    Subscribe { topic: String, qos: QoS },
    /// Publish a message.
    Publish { topic: String, qos: QoS, retain: bool, payload: Vec<u8> },
    /// Leave a message out, as there is no connection.
    Skip { topic: String },
    /// Wait for the next event.
    Wait,
}

/// A `SendAction` with its texts and bytes as sequences.
pub enum SendActionView {
    Subscribe { topic: Seq<char>, qos: QoS },
    Publish { topic: Seq<char>, qos: QoS, retain: bool, payload: Seq<u8> },
    Skip { topic: Seq<char> },
    Wait,
}

impl View for SendAction {
    type V = SendActionView;

    open spec fn view(&self) -> SendActionView {
        match self {
            SendAction::Subscribe { topic, qos } => SendActionView::Subscribe {
                topic: topic@,
                qos: *qos,
            },
            SendAction::Publish { topic, qos, retain, payload } => SendActionView::Publish {
                topic: topic@,
                qos: *qos,
                retain: *retain,
                payload: payload@,
            },
            SendAction::Skip { topic } => SendActionView::Skip { topic: topic@ },
            SendAction::Wait => SendActionView::Wait,
        }
    }
}

/// What becomes of a message: it is published, without being retained, where
/// there is a connection, and left out otherwise.
pub open spec fn publication(
    connected: bool,
    topic: Seq<char>,
    qos: QoS,
    payload: Seq<u8>,
) -> SendActionView {
    if connected {
        SendActionView::Publish { topic, qos, retain: false, payload }
    } else {
        SendActionView::Skip { topic }
    }
}

/// What becomes of a message: it is published, without being retained, where
/// there is a connection, and left out otherwise.
pub fn publish(connected: bool, topic: &str, qos: QoS, payload: Vec<u8>) -> (r: SendAction)
    ensures
        r@ == publication(connected, topic@, qos, payload@),
        r is Publish <==> connected,
        r is Skip <==> !connected,
        r matches SendAction::Publish { topic: to, qos: q, retain, payload: bytes } ==> to@
            == topic@ && q == qos && !retain && bytes == payload,
        r matches SendAction::Skip { topic: to } ==> to@ == topic@,
{
    if connected {
        SendAction::Publish { topic: topic.to_owned(), qos, retain: false, payload }
    } else {
        SendAction::Skip { topic: topic.to_owned() }
    }
}

/// The topic of a prefix and a suffix, of at most `L` bytes.
pub fn topic<const L: usize>(topic_prefix: &str, topic_suffix: &str) -> (r: String)
    requires
        encode_utf8(topic_prefix@).len() + encode_utf8(topic_suffix@).len() <= L,
    ensures
        r@ == topic_prefix@ + topic_suffix@,
{
    let head = bounded_from_str::<L>(topic_prefix).unwrap();
    bounded_push_str::<L>(head.as_str(), topic_suffix).unwrap()
}

/// What a sender knows, and what follows from each event.
#[verifier::ext_equal]
pub struct SenderState {
    pub topic_commands: Seq<char>,
    pub topic_wind_speed: Seq<char>,
    pub topic_wind_angle: Seq<char>,
    pub connected: bool,
}

impl SenderState {
    /// A sender without a connection, with its topics below `topic_prefix`.
    pub open spec fn start(topic_prefix: Seq<char>) -> SenderState {
        SenderState {
            topic_commands: topic_prefix + "/commands/#"@,
            topic_wind_speed: topic_prefix + "/wind/speed"@,
            topic_wind_angle: topic_prefix + "/wind/angle"@,
            connected: false,
        }
    }

    /// The sender after `event`.
    pub open spec fn next(self, event: SendEvent) -> SenderState {
        match event {
            SendEvent::Connection(connected) => SenderState { connected, ..self },
            SendEvent::State(_) => self,
        }
    }

    /// What the sender does about `event`: on a new connection it subscribes to
    /// the commands, and it publishes the speed of the wind.
    pub open spec fn action(self, event: SendEvent) -> SendActionView {
        match event {
            SendEvent::Connection(true) => SendActionView::Subscribe {
                topic: self.topic_commands,
                qos: QoS::AtLeastOnce,
            },
            SendEvent::State(ApplicationStateChange::NewWindData(wind)) => publication(
                self.connected,
                self.topic_wind_speed,
                QoS::AtLeastOnce,
                decimal(wind.speed as nat),
            ),
            _ => SendActionView::Wait,
        }
    }
}

/// Sends the readings of the wind sensor.
#[derive(Debug)]
pub struct MqttSender {
    topic_commands: String,
    topic_wind_speed: String,
    topic_wind_angle: String,
    connected: bool,
}

impl View for MqttSender {
    type V = SenderState;

    closed spec fn view(&self) -> SenderState {
        SenderState {
            topic_commands: self.topic_commands@,
            topic_wind_speed: self.topic_wind_speed@,
            topic_wind_angle: self.topic_wind_angle@,
            connected: self.connected,
        }
    }
}

/// Each suffix takes the same number of bytes.
proof fn lemma_suffix_len()
    ensures
        encode_utf8("/commands/#"@).len() == TOPIC_SUFFIX_LEN,
        encode_utf8("/wind/speed"@).len() == TOPIC_SUFFIX_LEN,
        encode_utf8("/wind/angle"@).len() == TOPIC_SUFFIX_LEN,
{
    reveal_strlit("/commands/#");
    reveal_strlit("/wind/speed");
    reveal_strlit("/wind/angle");
    vstd::utf8::is_ascii_chars_encode_utf8("/commands/#"@);
    vstd::utf8::is_ascii_chars_encode_utf8("/wind/speed"@);
    vstd::utf8::is_ascii_chars_encode_utf8("/wind/angle"@);
}

impl MqttSender {
    /// A sender without a connection, with its topics below `topic_prefix`,
    /// each of at most `L` bytes.
    pub fn new<const L: usize>(topic_prefix: &str) -> (r: Self)
        requires
            encode_utf8(topic_prefix@).len() + TOPIC_SUFFIX_LEN <= L,
        ensures
            r@ == SenderState::start(topic_prefix@),
    {
        proof {
            lemma_suffix_len();
        }
        MqttSender {
            topic_commands: topic::<L>(topic_prefix, "/commands/#"),
            topic_wind_speed: topic::<L>(topic_prefix, "/wind/speed"),
            topic_wind_angle: topic::<L>(topic_prefix, "/wind/angle"),
            connected: false,
        }
    }

    /// Takes an event in and says what to do.
    pub fn step(&mut self, event: &SendEvent) -> (r: SendAction)
        ensures
            final(self)@ == old(self)@.next(*event),
            r@ == old(self)@.action(*event),
    {
        match event {
            SendEvent::Connection(true) => {
                self.connected = true;
                SendAction::Subscribe { topic: self.topic_commands.clone(), qos: QoS::AtLeastOnce }
            },
            SendEvent::Connection(false) => {
                self.connected = false;
                SendAction::Wait
            },
            SendEvent::State(ApplicationStateChange::NewWindData(wind)) => publish(
                self.connected,
                self.topic_wind_speed.as_str(),
                QoS::AtLeastOnce,
                format_u16(wind.speed),
            ),
            SendEvent::State(_) => SendAction::Wait,
        }
    }
}

} // verus!
