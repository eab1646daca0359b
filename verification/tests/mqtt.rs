use core::str::FromStr;
use esp_idf_async_wifi::decimal::{format_u16, parse_usize};
use esp_idf_async_wifi::mqtt::event::{
    Details, Event, InitialChunkData, Message, QoS, SubsequentChunkData,
};
use esp_idf_async_wifi::mqtt::parser::{CommandParser, MessageParser, MqttCommand};
use esp_idf_async_wifi::mqtt::session::{
    publish, receive, topic, MqttSender, ReceiveAction, SendAction, SendEvent,
};
use esp_idf_async_wifi::state::{ApplicationStateChange, OtaUrl, WindData};

const UPDATE: &str = "home/device/commands/ota_update";
const RESTART: &str = "home/device/commands/system_restart";

fn complete<'a>(topic: &'a str, data: &'a [u8]) -> Message<'a> {
    Message { topic: Some(topic), data, details: Details::Complete }
}

fn first<'a>(topic: &'a str, data: &'a [u8], total_data_size: usize) -> Message<'a> {
    Message {
        topic: Some(topic),
        data,
        details: Details::InitialChunk(InitialChunkData { total_data_size }),
    }
}

fn later(data: &[u8], current_data_offset: usize, total_data_size: usize) -> Message<'_> {
    Message {
        topic: None,
        data,
        details: Details::SubsequentChunk(SubsequentChunkData {
            current_data_offset,
            total_data_size,
        }),
    }
}

fn update(url: &str) -> Option<MqttCommand> {
    Some(MqttCommand::ExecOTAUpdate(OtaUrl::from_str(url).unwrap()))
}

#[test]
fn topic_selects_the_command() {
    assert_eq!(MessageParser::parse_command(UPDATE), Some(CommandParser::OtaUpdate));
    assert_eq!(MessageParser::parse_command(RESTART), Some(CommandParser::SystemRestart));
    assert_eq!(
        MessageParser::parse_command("/commands/ota_update"),
        Some(CommandParser::OtaUpdate)
    );
    assert_eq!(MessageParser::parse_command("commands/ota_update"), None);
    assert_eq!(MessageParser::parse_command("home/commands/ota_update/now"), None);
    assert_eq!(MessageParser::parse_command(""), None);
    assert_eq!(
        MessageParser::parse_command("h\u{e9}\u{2603}/commands/ota_update"),
        Some(CommandParser::OtaUpdate)
    );
}

#[test]
fn complete_update_brings_its_url() {
    let mut parser = MessageParser::new();
    let url = "http://10.0.0.1/firmware.bin";
    assert_eq!(parser.process(&complete(UPDATE, url.as_bytes())), update(url));
    assert_eq!(parser.process(&complete(UPDATE, b"")), update(""));
}

#[test]
fn url_takes_at_most_its_capacity() {
    let mut parser = MessageParser::new();
    let longest = "a".repeat(128);
    let too_long = "a".repeat(129);
    assert_eq!(parser.process(&complete(UPDATE, longest.as_bytes())), update(&longest));
    assert_eq!(parser.process(&complete(UPDATE, too_long.as_bytes())), None);
    let wide = "\u{e9}".repeat(64);
    let too_wide = "\u{e9}".repeat(65);
    assert_eq!(parser.process(&complete(UPDATE, wide.as_bytes())), update(&wide));
    assert_eq!(parser.process(&complete(UPDATE, too_wide.as_bytes())), None);
}

#[test]
fn url_is_utf8() {
    assert_eq!(MessageParser::parse_ota_update_command(&[0xff, 0xfe]), None);
    assert_eq!(MessageParser::parse_ota_update_command(&[0x61, 0xc3]), None);
    assert_eq!(MessageParser::parse_ota_update_command("\u{2603}".as_bytes()), update("\u{2603}"));
    assert_eq!(MessageParser::parse_url(b"abc").unwrap().as_str(), "abc");
    assert!(MessageParser::parse_url(&[0x80]).is_none());
}

#[test]
fn restart_has_an_empty_payload() {
    let mut parser = MessageParser::new();
    assert_eq!(parser.process(&complete(RESTART, b"")), Some(MqttCommand::SystemRestart));
    assert_eq!(parser.process(&complete(RESTART, b"1")), None);
    assert_eq!(MessageParser::parse_empty(b""), Some(()));
    assert_eq!(MessageParser::parse_empty(b" "), None);
    assert_eq!(
        MessageParser::parse_system_restart_command(b""),
        Some(MqttCommand::SystemRestart)
    );
}

#[test]
fn other_topics_bring_no_command() {
    let mut parser = MessageParser::default();
    assert_eq!(parser.process(&complete("home/device/wind/speed", b"12")), None);
}

#[test]
fn announced_payload_is_read_when_it_is_there() {
    let mut parser = MessageParser::new();
    assert_eq!(parser.process(&first(UPDATE, b"http", 8)), None);
    assert_eq!(parser.process(&later(b"http://a", 0, 8)), update("http://a"));
    assert_eq!(parser.process(&first(RESTART, b"", 0)), None);
    assert_eq!(parser.process(&later(b"", 0, 0)), Some(MqttCommand::SystemRestart));
}

#[test]
fn incomplete_payload_brings_no_command() {
    let mut parser = MessageParser::new();
    assert_eq!(parser.process(&first(UPDATE, b"http", 8)), None);
    assert_eq!(parser.process(&later(b"http://", 0, 8)), None);
    assert_eq!(parser.process(&later(b"0123456789abcdef", 0, 16)), update("0123456789abcdef"));
}

#[test]
fn complete_message_leaves_parts_alone() {
    let mut parser = MessageParser::new();
    parser.process(&first(UPDATE, b"ab", 2));
    assert_eq!(parser.process(&complete(RESTART, b"")), Some(MqttCommand::SystemRestart));
    assert_eq!(parser.process(&later(b"ab", 0, 2)), update("ab"));
}

#[test]
fn oversized_payload_is_passed_over() {
    let mut parser = MessageParser::new();
    let data = [0x61u8; 17];
    assert_eq!(parser.process(&first(UPDATE, &data, 17)), None);
    assert_eq!(parser.process(&later(b"ab", 5, 17)), None);
    assert_eq!(parser.process(&later(b"ab", 0, 2)), None);
    assert_eq!(parser.process(&first(UPDATE, b"ab", 2)), None);
    assert_eq!(parser.process(&later(b"ab", 0, 2)), update("ab"));
}

#[test]
fn parts_without_a_first_are_passed_over() {
    let mut parser = MessageParser::new();
    assert_eq!(parser.process(&later(b"ab", 0, 2)), None);
    assert_eq!(parser.process(&first("home/other", b"ab", 2)), None);
    assert_eq!(parser.process(&later(b"ab", 0, 2)), None);
}

#[test]
fn messages_that_cannot_be_taken_in() {
    let mut parser = MessageParser::new();
    let data = [0x61u8; 17];
    let nameless = Message { topic: None, data: b"", details: Details::Complete };
    assert!(!parser.accepts(&nameless));
    assert!(parser.accepts(&complete(UPDATE, &data)));
    assert!(!parser.accepts(&first(UPDATE, &data, 16)));
    assert!(parser.accepts(&first(UPDATE, &data, 17)));
    assert!(parser.accepts(&later(&data, 3, 20)));
    parser.process(&first(UPDATE, b"a", 4));
    assert!(parser.accepts(&later(b"abcd", 0, 4)));
    assert!(!parser.accepts(&later(b"bcd", 1, 4)));
    assert!(!parser.accepts(&later(&data, 0, 17)));
}

#[test]
fn convert_replaces_the_message() {
    let mut parser = MessageParser::new();
    let received: Result<Event<Message<'_>>, u8> = Ok(Event::Received(complete(RESTART, b"")));
    assert!(matches!(
        parser.convert(&received),
        Ok(Event::Received(Some(MqttCommand::SystemRestart)))
    ));
    let unknown: Result<Event<Message<'_>>, u8> = Ok(Event::Received(complete("x", b"")));
    assert!(matches!(parser.convert(&unknown), Ok(Event::Received(None))));
}

#[test]
fn convert_keeps_everything_else() {
    let mut parser = MessageParser::new();
    let ok = |event| -> Result<Event<Message<'static>>, u8> { Ok(event) };
    assert!(matches!(parser.convert(&ok(Event::BeforeConnect)), Ok(Event::BeforeConnect)));
    assert!(matches!(parser.convert(&ok(Event::Connected(true))), Ok(Event::Connected(true))));
    assert!(matches!(parser.convert(&ok(Event::Connected(false))), Ok(Event::Connected(false))));
    assert!(matches!(parser.convert(&ok(Event::Disconnected)), Ok(Event::Disconnected)));
    assert!(matches!(parser.convert(&ok(Event::Subscribed(3))), Ok(Event::Subscribed(3))));
    assert!(matches!(parser.convert(&ok(Event::Unsubscribed(4))), Ok(Event::Unsubscribed(4))));
    assert!(matches!(parser.convert(&ok(Event::Published(5))), Ok(Event::Published(5))));
    assert!(matches!(parser.convert(&ok(Event::Deleted(6))), Ok(Event::Deleted(6))));
    let failed: Result<Event<Message<'static>>, u8> = Err(7);
    assert!(matches!(parser.convert(&failed), Err(7)));
}

#[test]
fn receive_tells_of_the_connection() {
    let ok = |event| -> Option<Result<Event<Option<MqttCommand>>, u8>> { Some(Ok(event)) };
    assert_eq!(receive(&ok(Event::Connected(true))), ReceiveAction::Signal(true));
    assert_eq!(receive(&ok(Event::Connected(false))), ReceiveAction::Signal(true));
    assert_eq!(receive(&ok(Event::Disconnected)), ReceiveAction::Signal(false));
    assert_eq!(
        receive(&ok(Event::Received(Some(MqttCommand::SystemRestart)))),
        ReceiveAction::NoteCommand(&MqttCommand::SystemRestart)
    );
    let url = update("http://a").unwrap();
    assert_eq!(
        receive(&ok(Event::Received(Some(url.clone())))),
        ReceiveAction::NoteCommand(&url)
    );
    assert_eq!(receive(&ok(Event::Received(None))), ReceiveAction::Wait);
    assert_eq!(receive(&ok(Event::Published(1))), ReceiveAction::Wait);
    assert_eq!(receive(&Some(Err::<Event<Option<MqttCommand>>, u8>(1))), ReceiveAction::Wait);
    assert_eq!(receive::<u8>(&None), ReceiveAction::Exit);
}

fn wind(speed: u16) -> SendEvent {
    SendEvent::State(ApplicationStateChange::NewWindData(WindData { speed, angle: 90 }))
}

#[test]
fn sender_subscribes_and_publishes_while_connected() {
    let mut sender = MqttSender::new::<64>("home/device");
    assert!(matches!(
        sender.step(&wind(7)),
        SendAction::Skip { topic } if topic == "home/device/wind/speed"
    ));
    assert!(matches!(
        sender.step(&SendEvent::Connection(true)),
        SendAction::Subscribe { topic, qos: QoS::AtLeastOnce } if topic == "home/device/commands/#"
    ));
    match sender.step(&wind(1024)) {
        SendAction::Publish { topic, qos, retain, payload } => {
            assert_eq!(topic, "home/device/wind/speed");
            assert_eq!(qos, QoS::AtLeastOnce);
            assert!(!retain);
            assert_eq!(payload, b"1024");
        }
        other => panic!("{other:?}"),
    }
    assert!(matches!(
        sender.step(&SendEvent::State(ApplicationStateChange::OTAUpdateStarted)),
        SendAction::Wait
    ));
    assert!(matches!(sender.step(&SendEvent::Connection(false)), SendAction::Wait));
    assert!(matches!(sender.step(&wind(8)), SendAction::Skip { .. }));
}

#[test]
fn topics_fill_their_capacity() {
    let mut sender = MqttSender::new::<14>("dev");
    assert!(matches!(
        sender.step(&SendEvent::Connection(true)),
        SendAction::Subscribe { topic, .. } if topic == "dev/commands/#"
    ));
    assert_eq!(topic::<14>("dev", "/wind/angle"), "dev/wind/angle");
}

#[test]
fn publish_needs_a_connection() {
    assert!(matches!(
        publish(true, "t", QoS::AtMostOnce, vec![1]),
        SendAction::Publish { topic, qos: QoS::AtMostOnce, retain: false, payload }
            if topic == "t" && payload == vec![1]
    ));
    assert!(matches!(
        publish(false, "t", QoS::ExactlyOnce, vec![1]),
        SendAction::Skip { topic } if topic == "t"
    ));
}

#[test]
fn speeds_are_written_in_decimal() {
    for n in [0u16, 9, 10, 99, 100, 12345, u16::MAX] {
        assert_eq!(format_u16(n), format!("{n}").into_bytes());
        assert_eq!(parse_usize(&format!("{n}")), Some(n as usize));
    }
}

#[test]
fn numbers_are_read_as_std_reads_them() {
    let most = format!("{}", usize::MAX);
    let over = format!("{}0", usize::MAX);
    for text in [
        "0", "7", "1048576", "+5", "007", "", "+", "-0", "++1", "1 ", " 1", "1_000", "0x10", "12a",
        "\u{661}", &most, &over, "18446744073709551616", "99999999999999999999",
    ] {
        assert_eq!(parse_usize(text), text.parse::<usize>().ok());
    }
}
