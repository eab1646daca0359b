//! What holds of the MQTT client, over all that it receives and sends.

#[allow(unused_imports)]
use crate::decimal::{
    decimal, decimal_writes_its_number, digits_are_shortest, is_number, value,
};
#[allow(unused_imports)]
use crate::mqtt::event::{Details, Event, Message, QoS};
#[allow(unused_imports)]
use crate::mqtt::parser::{
    command_of, parser_for, view_of, CommandParser, CommandView, MqttCommand, ParserState,
    PAYLOAD_CAPACITY, URL_CAPACITY,
};
#[allow(unused_imports)]
use crate::mqtt::session::{
    publication, receive_action, ReceiveAction, SendAction, SendActionView, SendEvent,
    SenderState,
};
#[allow(unused_imports)]
use crate::state::{ApplicationStateChange, WindData};
#[allow(unused_imports)]
use crate::text::{fits, has_suffix, text128};
use vstd::prelude::*;
#[allow(unused_imports)]
use vstd::utf8::{decode_utf8, encode_utf8, valid_utf8};

verus! {

/// The parser that began as `start`, after all of `messages`.
pub open spec fn parser_after(start: ParserState, messages: Seq<Message>) -> ParserState
    decreases messages.len(),
{
    if messages.len() == 0 {
        start
    } else {
        parser_after(start, messages.drop_last()).next(messages.last())
    }
}

/// Whether each of `messages` can be taken in where it stands.
pub open spec fn all_accepted(start: ParserState, messages: Seq<Message>) -> bool
    decreases messages.len(),
{
    messages.len() > 0 ==> {
        &&& all_accepted(start, messages.drop_last())
        &&& parser_after(start, messages.drop_last()).accepts(messages.last())
    }
}

/// A message with all of its payload brings the same command whatever came
/// before it, and leaves the parser as it was.
pub proof fn complete_message_stands_alone(a: ParserState, b: ParserState, message: Message)
    requires
        message.details == Details::Complete,
    ensures
        a.reply(message) == b.reply(message),
        a.next(message) == a,
{
}

/// A message with all of its payload brings the command that its topic and its
/// payload make.
pub proof fn complete_message_brings_its_command(state: ParserState, message: Message)
    requires
        message.details == Details::Complete,
        message.topic is Some,
    ensures
        state.reply(message) == command_of(message.topic->0@, message.data@),
{
}

/// A message is a command to restart exactly where its topic is for restarts
/// and its payload is empty.
pub proof fn restart_is_an_empty_payload(topic: Seq<char>, data: Seq<u8>)
    ensures
        command_of(topic, data) == Some(CommandView::SystemRestart) <==> has_suffix(
            topic,
            "/commands/system_restart"@,
        ) && data.len() == 0,
{
    topics_are_distinct(topic);
}

/// A message is a command to update from `url` exactly where its topic is for
/// updates and its payload is that address in UTF-8, in no more than 128 bytes.
pub proof fn update_is_its_url(topic: Seq<char>, data: Seq<u8>, url: Seq<char>)
    ensures
        command_of(topic, data) == Some(CommandView::ExecOTAUpdate(url)) <==> {
            &&& has_suffix(topic, "/commands/ota_update"@)
            &&& encode_utf8(url) == data
            &&& data.len() <= 128
        },
{
    if valid_utf8(data) {
        vstd::utf8::decode_utf8_encode_utf8(data);
    }
    vstd::utf8::encode_utf8_valid_utf8(url);
    vstd::utf8::encode_utf8_decode_utf8(url);
}

/// How a payload is read goes by the topic alone: by the end of it, and not at
/// all where that is neither command's.
pub proof fn topic_decides(topic: Seq<char>)
    ensures
        parser_for(topic) == Some(CommandParser::OtaUpdate) <==> has_suffix(
            topic,
            "/commands/ota_update"@,
        ),
        parser_for(topic) == Some(CommandParser::SystemRestart) <==> has_suffix(
            topic,
            "/commands/system_restart"@,
        ),
{
    topics_are_distinct(topic);
}

/// Each way to read a payload makes its own command: one an empty payload to a
/// restart, the other the UTF-8 of an address to an update from it.
pub proof fn payload_decides(data: Seq<u8>, url: Seq<char>)
    ensures
        CommandParser::SystemRestart.command_in(data) == (if data.len() == 0 {
            Some(CommandView::SystemRestart)
        } else {
            None
        }),
        CommandParser::OtaUpdate.command_in(data) != Some(CommandView::SystemRestart),
        CommandParser::OtaUpdate.command_in(data) == Some(CommandView::ExecOTAUpdate(url)) <==>
            encode_utf8(url) == data && data.len() <= 128,
{
    if valid_utf8(data) {
        vstd::utf8::decode_utf8_encode_utf8(data);
    }
    vstd::utf8::encode_utf8_valid_utf8(url);
    vstd::utf8::encode_utf8_decode_utf8(url);
}

/// A command and its view tell the same.
pub proof fn view_tells_the_command(command: MqttCommand)
    ensures
        view_of(Some(command)) == Some(command@),
        view_of(None) is None,
        command is SystemRestart <==> command@ == CommandView::SystemRestart,
        command matches MqttCommand::ExecOTAUpdate(url) ==> command@ == CommandView::ExecOTAUpdate(
            text128(url),
        ),
{
}

/// Which messages can be taken in. All of a payload, and a first part of at most
/// 16 bytes in all, needs a topic. A part that is kept has at most 16 bytes, and
/// a later one begins at the payload's start.
pub proof fn accepted_messages(state: ParserState, message: Message)
    ensures
        message.details is Complete ==> (state.accepts(message) <==> message.topic is Some),
        message.details matches Details::InitialChunk(chunk) ==> (state.accepts(message) <==> (
        chunk.total_data_size > 16 || message.topic is Some && message.data@.len() <= 16)),
        message.details matches Details::SubsequentChunk(chunk) ==> (state.accepts(message) <==> (
        state.command_parser is None || chunk.current_data_offset == 0 && message.data@.len()
            <= 16)),
{
}

/// A first part decides by its topic how the payload is read, where that has at
/// most 16 bytes, and that it is not read otherwise.
pub proof fn first_part_decides(state: ParserState, first: Message)
    ensures
        first.details matches Details::InitialChunk(chunk) ==> state.next(first).command_parser
            == (if chunk.total_data_size <= 16 {
            parser_for(first.topic->0@)
        } else {
            None
        }),
{
}

/// A later part brings the command that the topic of the last first part and
/// its own bytes make, exactly where it brings all of the payload; whatever
/// complete messages and other parts came between.
pub proof fn last_first_part_decides(
    state: ParserState,
    first: Message,
    between: Seq<Message>,
    part: Message,
)
    requires
        first.details matches Details::InitialChunk(chunk) && chunk.total_data_size <= 16,
        forall|i: int| 0 <= i < between.len() ==> !((#[trigger] between[i]).details is InitialChunk),
        part.details is SubsequentChunk,
        parser_after(state.next(first), between).accepts(part),
    ensures
        ({
            let reply = parser_after(state.next(first), between).reply(part);
            let chunk = part.details->SubsequentChunk_0;
            if chunk.total_data_size == chunk.current_data_offset + part.data@.len() {
                reply == command_of(first.topic->0@, part.data@)
            } else {
                reply is None
            }
        }),
{
    only_a_first_part_changes_the_reading(state.next(first), between);
    let before = parser_after(state.next(first), between);
    if before.command_parser is Some {
        assert(before.next(part).payload.take(part.data@.len() as int) =~= part.data@);
    }
}

/// Only a first part changes how a payload in parts is read.
pub proof fn only_a_first_part_changes_the_reading(start: ParserState, messages: Seq<Message>)
    requires
        forall|i: int|
            0 <= i < messages.len() ==> !((#[trigger] messages[i]).details is InitialChunk),
    ensures
        parser_after(start, messages).command_parser == start.command_parser,
    decreases messages.len(),
{
    if messages.len() > 0 {
        let before = messages.drop_last();
        assert forall|i: int| 0 <= i < before.len() implies !((
        #[trigger] before[i]).details is InitialChunk) by {
            assert(before[i] == messages[i]);
        }
        only_a_first_part_changes_the_reading(start, before);
        assert(!(messages[messages.len() - 1].details is InitialChunk));
    }
}

/// A part that is kept stands at the front of the buffer, and the rest of the
/// buffer stays as it was.
pub proof fn part_is_kept_in_front(state: ParserState, part: Message, i: int)
    requires
        state.payload.len() == 16,
        state.accepts(part),
        part.details matches Details::InitialChunk(chunk) && chunk.total_data_size <= 16
            || part.details is SubsequentChunk && state.command_parser is Some,
        0 <= i < 16,
    ensures
        state.next(part).payload.len() == 16,
        state.next(part).payload[i] == (if i < part.data@.len() {
            part.data@[i]
        } else {
            state.payload[i]
        }),
{
}

/// The first part of a payload brings no command.
pub proof fn first_part_brings_no_command(state: ParserState, message: Message)
    requires
        message.details is InitialChunk,
    ensures
        state.reply(message) is None,
{
}

/// The buffer for payloads in parts keeps its size.
pub proof fn buffer_keeps_its_size(messages: Seq<Message>)
    requires
        all_accepted(ParserState::start(), messages),
    ensures
        parser_after(ParserState::start(), messages).payload.len() == PAYLOAD_CAPACITY,
    decreases messages.len(),
{
    if messages.len() > 0 {
        buffer_keeps_its_size(messages.drop_last());
    }
}

/// While a payload in parts is not read (it was too large, its topic is no
/// command's, or no first part came), later parts bring no command, whatever
/// complete messages come between, until the next first part.
pub proof fn unread_parts_bring_no_command(
    start: ParserState,
    messages: Seq<Message>,
    part: Message,
)
    requires
        start.command_parser is None,
        forall|i: int|
            0 <= i < messages.len() ==> !((#[trigger] messages[i]).details is InitialChunk),
        part.details is SubsequentChunk,
    ensures
        parser_after(start, messages) == start,
        parser_after(start, messages).reply(part) is None,
    decreases messages.len(),
{
    if messages.len() > 0 {
        let before = messages.drop_last();
        assert forall|i: int| 0 <= i < before.len() implies !((
        #[trigger] before[i]).details is InitialChunk) by {
            assert(before[i] == messages[i]);
        }
        unread_parts_bring_no_command(start, before, part);
        assert(!(messages[messages.len() - 1].details is InitialChunk));
    }
}

/// A parser that has seen no message reads no payload in parts.
pub proof fn new_parser_reads_no_parts()
    ensures
        ParserState::start().command_parser is None,
        ParserState::start().payload.len() == 16,
        forall|i: int| 0 <= i < 16 ==> #[trigger] ParserState::start().payload[i] == 0,
{
}

/// An event that brings no message stays the event that it is, and one that
/// brings a message still does.
pub proof fn only_the_message_is_replaced<M, O>(event: Event<M>, same: M, message: O)
    ensures
        !(event is Received) ==> event.with_message(same) == event,
        event is Received <==> event.with_message(message) is Received,
        event is Received ==> event.with_message(message) == Event::Received(message),
        event.with_message(message).with_message(same) == event.with_message(same),
{
}

/// A connection is signalled exactly where one is made, and its loss exactly
/// where one is lost.
pub proof fn connection_is_signalled<E>(message: Option<Result<Event<Option<MqttCommand>>, E>>)
    ensures
        receive_action(&message) == ReceiveAction::Signal(true) <==> message matches Some(
            Ok(Event::Connected(_)),
        ),
        receive_action(&message) == ReceiveAction::Signal(false) <==> message matches Some(
            Ok(Event::Disconnected),
        ),
{
}

/// A command is noted exactly where a message brought one, and it is that one.
pub proof fn received_command_is_noted<E>(
    message: Option<Result<Event<Option<MqttCommand>>, E>>,
    command: MqttCommand,
)
    ensures
        receive_action(&message) == ReceiveAction::NoteCommand(&command) <==> message == Some(
            Ok::<_, E>(Event::Received(Some(command))),
        ),
{
}

/// Following the connection ends exactly where it delivers no more. An error, a
/// message without a command, and an event that neither makes nor ends the
/// connection are passed over.
pub proof fn rest_is_passed_over<E>(message: Option<Result<Event<Option<MqttCommand>>, E>>)
    ensures
        receive_action(&message) is Exit <==> message is None,
        receive_action(&message) is Wait <==> {
            ||| message matches Some(Err(_))
            ||| message matches Some(Ok(Event::BeforeConnect))
            ||| message matches Some(Ok(Event::Subscribed(_)))
            ||| message matches Some(Ok(Event::Unsubscribed(_)))
            ||| message matches Some(Ok(Event::Published(_)))
            ||| message matches Some(Ok(Event::Deleted(_)))
            ||| message matches Some(Ok(Event::Received(None)))
        },
{
}

/// A first part that announces more than the buffer holds makes the parser
/// pass over that payload.
pub proof fn oversized_payload_is_not_read(state: ParserState, first: Message)
    requires
        first.details matches Details::InitialChunk(chunk) && chunk.total_data_size
            > PAYLOAD_CAPACITY,
    ensures
        state.next(first).command_parser is None,
{
}

/// A payload that is announced by a first part and then comes as a whole
/// brings the command that the same payload brings in one message.
pub proof fn announced_payload_brings_its_command(
    state: ParserState,
    first: Message,
    rest: Message,
)
    requires
        state.accepts(first),
        first.details matches Details::InitialChunk(chunk) && chunk.total_data_size
            <= PAYLOAD_CAPACITY,
        state.next(first).accepts(rest),
        rest.details matches Details::SubsequentChunk(chunk) && chunk.current_data_offset == 0
            && chunk.total_data_size == rest.data@.len(),
    ensures
        state.next(first).reply(rest) == command_of(first.topic->0@, rest.data@),
{
    let after = state.next(first).next(rest);
    if state.next(first).command_parser is Some {
        assert(after.payload.take(rest.data@.len() as int) =~= rest.data@);
    }
}

/// Every text that an address can be comes back from the message that brings
/// its UTF-8 encoding to a topic for updates.
pub proof fn url_comes_back(topic: Seq<char>, url: Seq<char>)
    requires
        has_suffix(topic, "/commands/ota_update"@),
        fits(url, URL_CAPACITY as nat),
    ensures
        command_of(topic, encode_utf8(url)) == Some(CommandView::ExecOTAUpdate(url)),
{
    vstd::utf8::encode_utf8_valid_utf8(url);
    vstd::utf8::encode_utf8_decode_utf8(url);
}

/// A command to update never has an address of more bytes than an address has.
pub proof fn urls_fit(topic: Seq<char>, data: Seq<u8>)
    ensures
        command_of(topic, data) matches Some(CommandView::ExecOTAUpdate(url)) ==> fits(
            url,
            URL_CAPACITY as nat,
        ) && encode_utf8(url) == data,
{
    if valid_utf8(data) {
        vstd::utf8::decode_utf8_encode_utf8(data);
    }
}

/// No topic is for both commands.
pub proof fn topics_are_distinct(topic: Seq<char>)
    ensures
        !(has_suffix(topic, "/commands/ota_update"@) && has_suffix(
            topic,
            "/commands/system_restart"@,
        )),
{
    reveal_strlit("/commands/ota_update");
    reveal_strlit("/commands/system_restart");
    let update = "/commands/ota_update"@;
    let restart = "/commands/system_restart"@;
    if has_suffix(topic, update) && has_suffix(topic, restart) {
        assert(topic.skip(topic.len() - update.len())[update.len() - 1] == topic[topic.len() - 1]);
        assert(topic.skip(topic.len() - restart.len())[restart.len() - 1] == topic[topic.len()
            - 1]);
    }
}

/// Below every prefix there is a topic for each command.
pub proof fn every_prefix_has_its_commands(topic_prefix: Seq<char>)
    ensures
        parser_for(topic_prefix + "/commands/ota_update"@) == Some(CommandParser::OtaUpdate),
        parser_for(topic_prefix + "/commands/system_restart"@) == Some(
            CommandParser::SystemRestart,
        ),
{
    let update = topic_prefix + "/commands/ota_update"@;
    let restart = topic_prefix + "/commands/system_restart"@;
    assert(update.skip(topic_prefix.len() as int) =~= "/commands/ota_update"@);
    assert(restart.skip(topic_prefix.len() as int) =~= "/commands/system_restart"@);
    topics_are_distinct(restart);
}

/// The sender with its topics below `topic_prefix`, after all of `events`.
pub open spec fn sender_after(topic_prefix: Seq<char>, events: Seq<SendEvent>) -> SenderState
    decreases events.len(),
{
    if events.len() == 0 {
        SenderState::start(topic_prefix)
    } else {
        sender_after(topic_prefix, events.drop_last()).next(events.last())
    }
}

/// Whether the last that `events` tell of the connection is that there is one.
pub open spec fn is_connected(events: Seq<SendEvent>) -> bool
    decreases events.len(),
{
    events.len() > 0 && match events.last() {
        SendEvent::Connection(connected) => connected,
        SendEvent::State(_) => is_connected(events.drop_last()),
    }
}

/// A sender's topics stay those below its prefix, and it takes itself for
/// connected exactly where the last that it was told of the connection is that
/// there is one.
pub proof fn sender_follows_the_connection(topic_prefix: Seq<char>, events: Seq<SendEvent>)
    ensures
        sender_after(topic_prefix, events) == (SenderState {
            connected: is_connected(events),
            ..SenderState::start(topic_prefix)
        }),
    decreases events.len(),
{
    if events.len() > 0 {
        sender_follows_the_connection(topic_prefix, events.drop_last());
    }
}

/// A reading is published exactly while there is a connection, to the topic for
/// the speed below the prefix, and what is published is a number that is the
/// speed. Without a connection it is left out.
pub proof fn readings_are_published_while_connected(
    topic_prefix: Seq<char>,
    events: Seq<SendEvent>,
    wind: WindData,
)
    ensures
        ({
            let event = SendEvent::State(ApplicationStateChange::NewWindData(wind));
            let action = sender_after(topic_prefix, events).action(event);
            let topic = topic_prefix + "/wind/speed"@;
            &&& is_connected(events) <==> action is Publish
            &&& action matches SendActionView::Publish { topic: to, qos, retain, payload } ==> {
                &&& to == topic
                &&& qos == QoS::AtLeastOnce
                &&& !retain
                &&& is_number(payload)
                &&& value(payload) == wind.speed
                &&& payload[0] == 48 <==> wind.speed == 0
                &&& payload.len() == 1 <==> wind.speed < 10
            }
            &&& !is_connected(events) ==> action == (SendActionView::Skip { topic })
        }),
{
    sender_follows_the_connection(topic_prefix, events);
    decimal_writes_its_number(wind.speed as nat);
    digits_are_shortest(wind.speed as nat);
}

/// A sender begins without a connection. What it is told of the connection is
/// what it takes for true from then on, and nothing else changes it.
pub proof fn only_the_connection_changes_the_sender(
    topic_prefix: Seq<char>,
    state: SenderState,
    connected: bool,
    change: ApplicationStateChange,
)
    ensures
        !SenderState::start(topic_prefix).connected,
        state.next(SendEvent::State(change)) == state,
        state.next(SendEvent::Connection(connected)).connected == connected,
        state.next(SendEvent::Connection(connected)).next(
            SendEvent::Connection(state.connected),
        ) == state,
{
}

/// A sender takes itself for connected exactly where it was told of a
/// connection, and of nothing about the connection since.
pub proof fn connected_since_it_was_told(topic_prefix: Seq<char>, events: Seq<SendEvent>)
    ensures
        sender_after(topic_prefix, events).connected <==> exists|i: int|
            is_connected_since(events, i),
    decreases events.len(),
{
    if events.len() > 0 {
        let before = events.drop_last();
        let last = events.len() - 1;
        connected_since_it_was_told(topic_prefix, before);
        if events[last] is State {
            if exists|i: int| is_connected_since(before, i) {
                let i = choose|i: int| is_connected_since(before, i);
                assert forall|j: int| i < j < events.len() implies (#[trigger] events[j]) is State by {
                    if j < last {
                        assert(before[j] == events[j]);
                    }
                }
                assert(is_connected_since(events, i));
            }
            if exists|i: int| is_connected_since(events, i) {
                let i = choose|i: int| is_connected_since(events, i);
                assert(i != last);
                assert forall|j: int| i < j < before.len() implies (#[trigger] before[j]) is State by {
                    assert(before[j] == events[j]);
                }
                assert(is_connected_since(before, i));
            }
        } else {
            if events[last] == SendEvent::Connection(true) {
                assert(is_connected_since(events, last));
            }
            if exists|i: int| is_connected_since(events, i) {
                let i = choose|i: int| is_connected_since(events, i);
                assert(i == last);
            }
        }
    }
}

/// Whether the event at `i` tells of a connection, and none after it tells of
/// the connection at all.
pub open spec fn is_connected_since(events: Seq<SendEvent>, i: int) -> bool {
    &&& 0 <= i < events.len()
    &&& events[i] == SendEvent::Connection(true)
    &&& forall|j: int| i < j < events.len() ==> (#[trigger] events[j]) is State
}

/// A sender's topics are its prefix with the topic of each kind behind it.
pub proof fn topics_are_below_the_prefix(topic_prefix: Seq<char>, events: Seq<SendEvent>)
    ensures
        sender_after(topic_prefix, events).topic_commands == topic_prefix + "/commands/#"@,
        sender_after(topic_prefix, events).topic_wind_speed == topic_prefix + "/wind/speed"@,
        sender_after(topic_prefix, events).topic_wind_angle == topic_prefix + "/wind/angle"@,
{
    sender_follows_the_connection(topic_prefix, events);
}

/// The loss of the connection, and a change that is no reading, call for
/// nothing; everything else does.
pub proof fn sender_waits_otherwise(state: SenderState, event: SendEvent)
    ensures
        state.action(event) is Wait <==> {
            ||| event == SendEvent::Connection(false)
            ||| event matches SendEvent::State(ApplicationStateChange::OTAUpdateRequest(_))
            ||| event == SendEvent::State(ApplicationStateChange::OTAUpdateStarted)
        },
        state.action(event) is Skip ==> event matches SendEvent::State(
            ApplicationStateChange::NewWindData(_),
        ),
{
}

/// A message goes out as it is, not retained, where there is a connection, and
/// is left out otherwise.
pub proof fn message_goes_out_while_connected(topic: Seq<char>, qos: QoS, payload: Seq<u8>)
    ensures
        publication(true, topic, qos, payload) == (SendActionView::Publish {
            topic,
            qos,
            retain: false,
            payload,
        }),
        publication(false, topic, qos, payload) == (SendActionView::Skip { topic }),
{
}

/// An action and its view tell the same.
pub proof fn view_tells_the_action(topic: String, qos: QoS, retain: bool, payload: Vec<u8>)
    ensures
        (SendAction::Subscribe { topic, qos })@ == (SendActionView::Subscribe {
            topic: topic@,
            qos,
        }),
        (SendAction::Publish { topic, qos, retain, payload })@ == (SendActionView::Publish {
            topic: topic@,
            qos,
            retain,
            payload: payload@,
        }),
        (SendAction::Skip { topic })@ == (SendActionView::Skip { topic: topic@ }),
        SendAction::Wait@ is Wait,
{
}

/// Nothing but a reading is ever published.
pub proof fn only_readings_are_published(state: SenderState, event: SendEvent)
    requires
        state.action(event) is Publish,
    ensures
        event matches SendEvent::State(ApplicationStateChange::NewWindData(_)),
{
}

/// Each new connection brings a subscription to the commands below the prefix,
/// and nothing else does.
pub proof fn subscribes_on_connection(
    topic_prefix: Seq<char>,
    events: Seq<SendEvent>,
    event: SendEvent,
)
    ensures
        ({
            let action = sender_after(topic_prefix, events).action(event);
            &&& event == SendEvent::Connection(true) <==> action is Subscribe
            &&& action is Subscribe ==> action == (SendActionView::Subscribe {
                topic: topic_prefix + "/commands/#"@,
                qos: QoS::AtLeastOnce,
            })
        }),
{
    sender_follows_the_connection(topic_prefix, events);
}

} // verus!
