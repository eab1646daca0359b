//! Reading commands from received messages.

use crate::mqtt::event::{Details, Event, Message};
use crate::state::OtaUrl;
use crate::text::{ends_with, from_str_128, from_utf8};
#[allow(unused_imports)]
use crate::text::{has_suffix, text128};
use vstd::prelude::*;
use vstd::slice::slice_subrange;
#[allow(unused_imports)]
use vstd::utf8::{decode_utf8, encode_utf8, valid_utf8};

verus! {

/// The most bytes that a payload in several parts can have.
pub const PAYLOAD_CAPACITY: usize = 16;

/// The most bytes that an update address can have.
pub const URL_CAPACITY: usize = 128;

/// A command to the device.
#[derive(Clone, Eq, PartialEq, Debug)]
pub enum MqttCommand {
    /// Update the firmware from this address.
    ExecOTAUpdate(OtaUrl),
    /// Restart.
    SystemRestart,
}

/// A command, with its address as text.
pub enum CommandView {
    ExecOTAUpdate(Seq<char>),
    SystemRestart,
}

impl View for MqttCommand {
    type V = CommandView;

    open spec fn view(&self) -> CommandView {
        match self {
            MqttCommand::ExecOTAUpdate(url) => CommandView::ExecOTAUpdate(text128(*url)),
            MqttCommand::SystemRestart => CommandView::SystemRestart,
        }
    }
}

/// The view of a command, where there is one.
pub open spec fn view_of(command: Option<MqttCommand>) -> Option<CommandView> {
    match command {
        Some(command) => Some(command@),
        None => None,
    }
}

/// How the payload of a message is read.
#[derive(Copy, Clone, Eq, PartialEq, Debug, Structural)]
pub enum CommandParser {
    OtaUpdate,
    SystemRestart,
}

impl CommandParser {
    /// The command that `data` is.
    pub open spec fn command_in(self, data: Seq<u8>) -> Option<CommandView> {
        match self {
            CommandParser::OtaUpdate => {
                if valid_utf8(data) && data.len() <= URL_CAPACITY {
                    Some(CommandView::ExecOTAUpdate(decode_utf8(data)))
                } else {
                    None
                }
            },
            CommandParser::SystemRestart => {
                if data.len() == 0 {
                    Some(CommandView::SystemRestart)
                } else {
                    None
                }
            },
        }
    }

    /// Reads the command that `data` is.
    pub fn parse(&self, data: &[u8]) -> (r: Option<MqttCommand>)
        ensures
            view_of(r) == self.command_in(data@),
            r matches Some(MqttCommand::SystemRestart) <==> *self == CommandParser::SystemRestart
                && data@.len() == 0,
            r matches Some(MqttCommand::ExecOTAUpdate(_)) <==> *self == CommandParser::OtaUpdate
                && valid_utf8(data@) && data@.len() <= 128,
            r matches Some(MqttCommand::ExecOTAUpdate(url)) ==> text128(url) == decode_utf8(data@),
    {
        match self {
            CommandParser::OtaUpdate => MessageParser::parse_ota_update_command(data),
            CommandParser::SystemRestart => MessageParser::parse_system_restart_command(data),
        }
    }
}

/// How the payload of a message on `topic` is read: by the end of the topic.
pub open spec fn parser_for(topic: Seq<char>) -> Option<CommandParser> {
    if has_suffix(topic, "/commands/ota_update"@) {
        Some(CommandParser::OtaUpdate)
    } else if has_suffix(topic, "/commands/system_restart"@) {
        Some(CommandParser::SystemRestart)
    } else {
        None
    }
}

/// The command that a message with all of its payload brings.
pub open spec fn command_of(topic: Seq<char>, data: Seq<u8>) -> Option<CommandView> {
    match parser_for(topic) {
        Some(parser) => parser.command_in(data),
        None => None,
    }
}

/// What a parser knows, and what follows from each message.
#[verifier::ext_equal]
pub struct ParserState {
    /// How the payload that arrives in parts is read, where it is at all.
    pub command_parser: Option<CommandParser>,
    /// The buffer, with the part that arrived last at its front.
    pub payload: Seq<u8>,
}

/// `payload` with `data` in place of its first bytes.
pub open spec fn overwritten(payload: Seq<u8>, data: Seq<u8>) -> Seq<u8> {
    data + payload.skip(data.len() as int)
}

impl ParserState {
    /// A parser that has seen no message.
    pub open spec fn start() -> ParserState {
        ParserState {
            command_parser: None,
            payload: Seq::new(PAYLOAD_CAPACITY as nat, |i: int| 0u8),
        }
    }

    /// Whether the message can be taken in. All of a payload, and the first of
    /// its parts where the whole fits the buffer, comes with a topic. A part
    /// that is copied fits the buffer, and it begins at the payload's start.
    pub open spec fn accepts(self, message: Message) -> bool {
        match message.details {
            Details::Complete => message.topic is Some,
            Details::InitialChunk(chunk) => {
                chunk.total_data_size <= PAYLOAD_CAPACITY ==> {
                    &&& message.topic is Some
                    &&& message.data@.len() <= PAYLOAD_CAPACITY
                }
            },
            Details::SubsequentChunk(chunk) => {
                self.command_parser is Some ==> {
                    &&& chunk.current_data_offset == 0
                    &&& message.data@.len() <= PAYLOAD_CAPACITY
                }
            },
        }
    }

    /// The parser after `message`.
    pub open spec fn next(self, message: Message) -> ParserState {
        match message.details {
            Details::Complete => self,
            Details::InitialChunk(chunk) => {
                if chunk.total_data_size > PAYLOAD_CAPACITY {
                    ParserState { command_parser: None, ..self }
                } else {
                    ParserState {
                        command_parser: parser_for(message.topic->0@),
                        payload: overwritten(self.payload, message.data@),
                    }
                }
            },
            Details::SubsequentChunk(_) => {
                if self.command_parser is Some {
                    ParserState { payload: overwritten(self.payload, message.data@), ..self }
                } else {
                    self
                }
            },
        }
    }

    /// The command that `message` brings, or brings to its end.
    pub open spec fn reply(self, message: Message) -> Option<CommandView> {
        match message.details {
            Details::Complete => command_of(message.topic->0@, message.data@),
            Details::InitialChunk(_) => None,
            Details::SubsequentChunk(chunk) => match self.command_parser {
                Some(parser) => {
                    if chunk.total_data_size == chunk.current_data_offset + message.data@.len() {
                        parser.command_in(
                            self.next(message).payload.take(chunk.total_data_size as int),
                        )
                    } else {
                        None
                    }
                },
                None => None,
            },
        }
    }
}

/// Reads commands from messages. A payload that is announced by a first part is
/// read once a later part brings all of it, from its start. Parts are not joined:
/// a part that begins further on cannot be taken in while a payload is read.
#[derive(Debug)]
pub struct MessageParser {
    command_parser: Option<CommandParser>,
    payload_buf: [u8; 16],
}

impl View for MessageParser {
    type V = ParserState;

    closed spec fn view(&self) -> ParserState {
        ParserState { command_parser: self.command_parser, payload: self.payload_buf@ }
    }
}

impl Default for MessageParser {
    fn default() -> (r: Self)
        ensures
            r@ == ParserState::start(),
    {
        MessageParser { command_parser: None, payload_buf: [0u8; 16] }
    }
}

impl MessageParser {
    /// A parser that has seen no message.
    pub fn new() -> (r: Self)
        ensures
            r@ == ParserState::start(),
    {
        Default::default()
    }

    /// Whether the message can be taken in.
    pub fn accepts(&self, message: &Message<'_>) -> (r: bool)
        ensures
            r == self@.accepts(*message),
    {
        match message.details {
            Details::Complete => message.topic.is_some(),
            Details::InitialChunk(chunk) => {
                chunk.total_data_size > PAYLOAD_CAPACITY || message.topic.is_some()
                    && message.data.len() <= PAYLOAD_CAPACITY
            },
            Details::SubsequentChunk(chunk) => {
                self.command_parser.is_none() || chunk.current_data_offset == 0
                    && message.data.len() <= PAYLOAD_CAPACITY
            },
        }
    }

    /// The event with the command that its message brings in place of the
    /// message. Every other event, and an error, stays as it is.
    pub fn convert<E: Clone>(&mut self, event: &Result<Event<Message<'_>>, E>) -> (r: Result<
        Event<Option<MqttCommand>>,
        E,
    >)
        requires
            event matches Ok(Event::Received(message)) ==> old(self)@.accepts(*message),
        ensures
            event matches Err(e) ==> r is Err && cloned::<E>(*e, r->Err_0),
            event matches Ok(event) ==> r is Ok && r->Ok_0 == event.with_message(
                r->Ok_0->Received_0,
            ),
            event matches Ok(Event::Received(message)) ==> {
                &&& view_of(r->Ok_0->Received_0) == old(self)@.reply(*message)
                &&& final(self)@ == old(self)@.next(*message)
            },
            !(event matches Ok(Event::Received(_))) ==> final(self)@ == old(self)@,
            event matches Ok(Event::BeforeConnect) ==> r matches Ok(Event::BeforeConnect),
            event matches Ok(Event::Connected(session)) ==> r matches Ok(Event::Connected(s))
                && s == session,
            event matches Ok(Event::Disconnected) ==> r matches Ok(Event::Disconnected),
            event matches Ok(Event::Subscribed(id)) ==> r matches Ok(Event::Subscribed(i)) && i
                == id,
            event matches Ok(Event::Unsubscribed(id)) ==> r matches Ok(Event::Unsubscribed(i)) && i
                == id,
            event matches Ok(Event::Published(id)) ==> r matches Ok(Event::Published(i)) && i == id,
            event matches Ok(Event::Deleted(id)) ==> r matches Ok(Event::Deleted(i)) && i == id,
            event matches Ok(Event::Received(_)) ==> r matches Ok(Event::Received(_)),
    {
        match event {
            Ok(event) => Ok(
                match event {
                    Event::BeforeConnect => Event::BeforeConnect,
                    Event::Connected(session) => Event::Connected(*session),
                    Event::Disconnected => Event::Disconnected,
                    Event::Subscribed(id) => Event::Subscribed(*id),
                    Event::Unsubscribed(id) => Event::Unsubscribed(*id),
                    Event::Published(id) => Event::Published(*id),
                    Event::Received(message) => Event::Received(self.process(message)),
                    Event::Deleted(id) => Event::Deleted(*id),
                },
            ),
            Err(e) => Err(e.clone()),
        }
    }

    /// Takes a message in, and returns the command that it brings, or brings
    /// to its end.
    pub fn process(&mut self, message: &Message<'_>) -> (r: Option<MqttCommand>)
        requires
            old(self)@.accepts(*message),
        ensures
            view_of(r) == old(self)@.reply(*message),
            final(self)@ == old(self)@.next(*message),
    {
        match message.details {
            Details::Complete => match Self::parse_command(message.topic.unwrap()) {
                Some(parser) => parser.parse(message.data),
                None => None,
            },
            Details::InitialChunk(chunk) => {
                if chunk.total_data_size > PAYLOAD_CAPACITY {
                    self.command_parser = None;
                } else {
                    self.command_parser = Self::parse_command(message.topic.unwrap());
                    self.store(message.data);
                }
                None
            },
            Details::SubsequentChunk(chunk) => match self.command_parser {
                Some(parser) => {
                    self.store(message.data);
                    if chunk.total_data_size == chunk.current_data_offset + message.data.len() {
                        parser.parse(
                            slice_subrange(self.payload_buf.as_slice(), 0, chunk.total_data_size),
                        )
                    } else {
                        None
                    }
                },
                None => None,
            },
        }
    }

    /// Copies a part of a payload to the front of the buffer.
    fn store(&mut self, data: &[u8])
        requires
            data@.len() <= PAYLOAD_CAPACITY,
        ensures
            final(self)@ == (ParserState {
                payload: overwritten(old(self)@.payload, data@),
                ..old(self)@
            }),
    {
        let ghost before = self.payload_buf@;
        let mut i: usize = 0;
        while i < data.len()
            invariant
                i <= data@.len() <= PAYLOAD_CAPACITY,
                before.len() == PAYLOAD_CAPACITY,
                before == old(self).payload_buf@,
                self.command_parser == old(self).command_parser,
                self.payload_buf@ == overwritten(before, data@.take(i as int)),
            decreases data@.len() - i,
        {
            self.payload_buf[i] = data[i];
            assert(self.payload_buf@ =~= overwritten(before, data@.take(i + 1)));
            i += 1;
        }
        assert(data@.take(data@.len() as int) =~= data@);
    }

    /// How the payload of a message on `topic` is read.
    pub fn parse_command(topic: &str) -> (r: Option<CommandParser>)
        ensures
            r == parser_for(topic@),
            r == Some(CommandParser::OtaUpdate) <==> has_suffix(topic@, "/commands/ota_update"@),
            r == Some(CommandParser::SystemRestart) <==> !has_suffix(
                topic@,
                "/commands/ota_update"@,
            ) && has_suffix(topic@, "/commands/system_restart"@),
    {
        if ends_with(topic, "/commands/ota_update") {
            Some(CommandParser::OtaUpdate)
        } else if ends_with(topic, "/commands/system_restart") {
            Some(CommandParser::SystemRestart)
        } else {
            None
        }
    }

    /// Reads the command to update: the address, in UTF-8.
    pub fn parse_ota_update_command(data: &[u8]) -> (r: Option<MqttCommand>)
        ensures
            view_of(r) == CommandParser::OtaUpdate.command_in(data@),
            r is Some <==> valid_utf8(data@) && data@.len() <= 128,
            r matches Some(command) ==> command matches MqttCommand::ExecOTAUpdate(url)
                && text128(url) == decode_utf8(data@),
    {
        match Self::parse_url(data) {
            Some(url) => Some(MqttCommand::ExecOTAUpdate(url)),
            None => None,
        }
    }

    /// Reads the command to restart: an empty payload.
    pub fn parse_system_restart_command(data: &[u8]) -> (r: Option<MqttCommand>)
        ensures
            view_of(r) == CommandParser::SystemRestart.command_in(data@),
            r is Some <==> data@.len() == 0,
            r matches Some(command) ==> command == MqttCommand::SystemRestart,
    {
        match Self::parse_empty(data) {
            Some(_) => Some(MqttCommand::SystemRestart),
            None => None,
        }
    }

    /// Reads an address: text in UTF-8 of no more bytes than an address has.
    pub fn parse_url(data: &[u8]) -> (r: Option<OtaUrl>)
        ensures
            r is Some <==> valid_utf8(data@) && data@.len() <= URL_CAPACITY,
            r matches Some(url) ==> text128(url) == decode_utf8(data@),
    {
        match from_utf8(data) {
            Some(text) => {
                proof {
                    vstd::utf8::decode_utf8_encode_utf8(data@);
                }
                match from_str_128(text) {
                    Ok(url) => Some(url),
                    Err(_) => None,
                }
            },
            None => None,
        }
    }

    /// Accepts nothing but an empty payload.
    pub fn parse_empty(data: &[u8]) -> (r: Option<()>)
        ensures
            r is Some <==> data@.len() == 0,
    {
        if data.is_empty() {
            Some(())
        } else {
            None
        }
    }
}

} // verus!
