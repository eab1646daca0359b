use core::str::FromStr;
use esp_idf_async_wifi::http::HttpMethod;
use esp_idf_async_wifi::state::{ApplicationStateChange, OtaUrl, WindData};
use esp_idf_async_wifi::task::firmware::{
    fixed_text, get_firmware_info_from_download, is_field_readable, is_info_readable,
    APP_DESC_END, APP_DESC_OFFSET, APP_DESC_SIZE, IMAGE_HEADER_SIZE, SEGMENT_HEADER_SIZE,
};
use esp_idf_async_wifi::task::ota::{
    after_response, content_length, has_readable_length, invalid_fw_version, ota_task,
    update_request, FirmwareUpdate, ResponseAction, UpdateAction, UpdateEvent, BUF_MAX, RESTART_DELAY_MS,
    SHUTDOWN_GRACE_SECS,
};
use esp_idf_async_wifi::text::{ends_with, trim_nul_matches};

fn put(buffer: &mut [u8], at: usize, text: &[u8]) {
    buffer[at..at + text.len()].copy_from_slice(text);
}

/// A buffer with the start of an image of this version.
fn image(version: &[u8]) -> Vec<u8> {
    let mut buffer = vec![0xe9u8; BUF_MAX];
    for b in &mut buffer[APP_DESC_OFFSET..APP_DESC_END] {
        *b = 0;
    }
    put(&mut buffer, 48, version);
    put(&mut buffer, 80, b"anemometer");
    put(&mut buffer, 112, b"12:34:56");
    put(&mut buffer, 128, b"Dec 24 2022");
    put(&mut buffer, 144, b"v4.4");
    buffer
}

#[test]
fn descriptor_lies_behind_the_headers() {
    assert_eq!((IMAGE_HEADER_SIZE, SEGMENT_HEADER_SIZE, APP_DESC_SIZE), (24, 8, 256));
    assert_eq!((APP_DESC_OFFSET, APP_DESC_END), (32, 288));
}

#[test]
fn descriptor_is_read() {
    let info = get_firmware_info_from_download(&image(b"1.2.3"));
    assert_eq!(info.version.as_str(), "1.2.3");
    assert_eq!(info.date.as_str(), "Dec 24 2022");
    assert_eq!(info.time.as_str(), "12:34:56");
    assert_eq!(info.description.as_str(), "anemometer");
}

#[test]
fn descriptor_with_full_fields_is_read() {
    let mut buffer = image(&[0x76; 32]);
    put(&mut buffer, 80, &[0x70; 32]);
    put(&mut buffer, 112, &[0x74; 16]);
    put(&mut buffer, 128, "\u{e9}".repeat(8).as_bytes());
    let info = get_firmware_info_from_download(&buffer[..APP_DESC_END]);
    assert_eq!(info.version.as_str(), "v".repeat(32));
    assert_eq!(info.description.as_str(), "p".repeat(32));
    assert_eq!(info.time.as_str(), "t".repeat(16));
    assert_eq!(info.date.as_str(), "\u{e9}".repeat(8));
}

#[test]
fn descriptor_that_cannot_be_read() {
    let buffer = image(b"1.2.3");
    assert!(is_info_readable(&buffer));
    assert!(is_info_readable(&buffer[..APP_DESC_END]));
    assert!(!is_info_readable(&buffer[..APP_DESC_END - 1]));
    assert!(!is_info_readable(&[]));
    for at in [48, 80, 112, 128] {
        let mut broken = buffer.clone();
        broken[at] = 0xff;
        assert!(!is_info_readable(&broken));
    }
    let mut elsewhere = buffer.clone();
    elsewhere[144] = 0xff;
    assert!(is_info_readable(&elsewhere));
}

#[test]
fn padding_is_dropped_at_both_ends_only() {
    assert_eq!(fixed_text(b"\0\0ab\0c\0\0"), "ab\0c");
    assert_eq!(fixed_text(b"\0\0\0"), "");
    assert_eq!(fixed_text(b""), "");
    assert_eq!(trim_nul_matches("\u{2603}\0"), "\u{2603}");
    for text in ["", "\0", "a", "\0a\0b\0", "\0\u{e9}"] {
        assert_eq!(trim_nul_matches(text), text.trim_matches(char::from(0)));
    }
}

#[test]
fn suffixes_are_found_as_std_finds_them() {
    for (text, suffix) in [
        ("", ""), ("a", ""), ("", "a"), ("ab", "b"), ("ab", "a"), ("\u{e9}", "\u{e9}"),
        ("x\u{2603}", "\u{2603}"), ("\u{e9}", "\u{a9}"), ("abc", "abc"), ("bc", "abc"),
    ] {
        assert_eq!(ends_with(text, suffix), text.ends_with(suffix));
    }
}

#[test]
fn request_is_announced_before_the_update() {
    let url = OtaUrl::from_str("http://10.0.0.1/fw").unwrap();
    let plan = ota_task(&ApplicationStateChange::OTAUpdateRequest(url)).unwrap();
    assert!(matches!(plan.announce, ApplicationStateChange::OTAUpdateStarted));
    assert_eq!(plan.grace_secs, SHUTDOWN_GRACE_SECS);
    assert_eq!(plan.grace_secs, 2);
    assert_eq!(plan.url.as_str(), "http://10.0.0.1/fw");
}

#[test]
fn other_events_bring_no_update() {
    assert!(ota_task(&ApplicationStateChange::OTAUpdateStarted).is_none());
    let wind = WindData { speed: 3, angle: 4 };
    assert!(ota_task(&ApplicationStateChange::NewWindData(wind)).is_none());
}

#[test]
fn length_of_an_image() {
    assert_eq!(content_length(None), 0);
    assert_eq!(content_length(Some("1048576")), 1048576);
    assert_eq!(content_length(Some("+12")), 12);
    assert!(has_readable_length(None));
    assert!(has_readable_length(Some("0")));
    assert!(!has_readable_length(Some("")));
    assert!(!has_readable_length(Some("12 ")));
    assert!(!has_readable_length(Some("-1")));
}

#[test]
fn version_of_the_invalid_slot() {
    assert!(invalid_fw_version(None).is_none());
    assert_eq!(invalid_fw_version(Some("1.0")).unwrap().as_str(), "1.0");
    let longest = "v".repeat(32);
    assert_eq!(invalid_fw_version(Some(&longest)).unwrap().as_str(), longest);
    assert_eq!(invalid_fw_version(Some(&"v".repeat(33))).unwrap().as_str(), "");
}

fn step(update: &mut FirmwareUpdate, event: UpdateEvent, buffer: &[u8]) -> UpdateAction {
    assert!(update.accepts(event, buffer));
    update.step(event, buffer)
}

#[test]
fn update_of_the_right_length_is_completed() {
    let buffer = image(b"2.0");
    let mut update = FirmwareUpdate::new(BUF_MAX + 100, invalid_fw_version(Some("1.0")));
    assert_eq!(update.action(), UpdateAction::Read);
    let full = UpdateEvent::Read { data_read: BUF_MAX };
    assert_eq!(step(&mut update, full, &buffer), UpdateAction::LoadHeader);
    assert_eq!(step(&mut update, UpdateEvent::HeaderLoaded, &buffer), UpdateAction::Write { len: BUF_MAX });
    assert_eq!(step(&mut update, UpdateEvent::Written, &buffer), UpdateAction::Read);
    assert_eq!(update.bytes_read_total(), BUF_MAX);
    let rest = UpdateEvent::Read { data_read: 100 };
    assert_eq!(step(&mut update, rest, &buffer), UpdateAction::Write { len: BUF_MAX });
    assert_eq!(step(&mut update, UpdateEvent::Written, &buffer), UpdateAction::Complete);
    assert_eq!(update.bytes_read_total(), BUF_MAX + 100);
    assert!(!update.accepts(UpdateEvent::Written, &buffer));
    assert!(!update.accepts(rest, &buffer));
}

#[test]
fn header_is_looked_at_once() {
    let buffer = image(b"2.0");
    let mut update = FirmwareUpdate::new(2 * BUF_MAX, None);
    let full = UpdateEvent::Read { data_read: BUF_MAX };
    assert_eq!(step(&mut update, full, &buffer), UpdateAction::LoadHeader);
    assert_eq!(step(&mut update, UpdateEvent::HeaderLoaded, &buffer), UpdateAction::Write { len: BUF_MAX });
    assert_eq!(step(&mut update, UpdateEvent::Written, &buffer), UpdateAction::Read);
    assert_eq!(step(&mut update, full, &buffer), UpdateAction::Write { len: BUF_MAX });
    assert_eq!(step(&mut update, UpdateEvent::Written, &buffer), UpdateAction::Read);
    let none = UpdateEvent::Read { data_read: 0 };
    assert_eq!(step(&mut update, none, &buffer), UpdateAction::Write { len: BUF_MAX });
    assert_eq!(step(&mut update, UpdateEvent::Written, &buffer), UpdateAction::Complete);
}

#[test]
fn update_of_another_length_is_given_up() {
    let buffer = image(b"2.0");
    let mut update = FirmwareUpdate::new(101, None);
    let short = UpdateEvent::Read { data_read: 100 };
    assert_eq!(step(&mut update, short, &buffer), UpdateAction::Write { len: BUF_MAX });
    assert_eq!(step(&mut update, UpdateEvent::Written, &buffer), UpdateAction::Abort);
}

#[test]
fn header_needs_more_than_its_own_bytes() {
    let buffer = image(b"2.0");
    let mut update = FirmwareUpdate::new(0, None);
    let bare = UpdateEvent::Read { data_read: APP_DESC_END };
    assert_eq!(step(&mut update, bare, &buffer), UpdateAction::Write { len: BUF_MAX });
    let mut update = FirmwareUpdate::new(0, None);
    let more = UpdateEvent::Read { data_read: APP_DESC_END + 1 };
    assert_eq!(step(&mut update, more, &buffer), UpdateAction::LoadHeader);
}

#[test]
fn invalid_version_is_refused() {
    let buffer = image(b"1.0");
    let mut update = FirmwareUpdate::new(BUF_MAX, invalid_fw_version(Some("1.0")));
    let full = UpdateEvent::Read { data_read: BUF_MAX };
    assert_eq!(step(&mut update, full, &buffer), UpdateAction::LoadHeader);
    assert_eq!(step(&mut update, UpdateEvent::HeaderLoaded, &buffer), UpdateAction::Abort);
    assert_eq!(update.bytes_read_total(), 0);
}

#[test]
fn invalid_version_of_unknown_length_is_completed() {
    let buffer = image(b"1.0");
    let mut update = FirmwareUpdate::new(content_length(None), invalid_fw_version(Some("1.0")));
    let full = UpdateEvent::Read { data_read: BUF_MAX };
    assert_eq!(step(&mut update, full, &buffer), UpdateAction::LoadHeader);
    assert_eq!(step(&mut update, UpdateEvent::HeaderLoaded, &buffer), UpdateAction::Complete);
}

#[test]
fn failures_finish_the_update() {
    let buffer = image(b"2.0");
    let mut update = FirmwareUpdate::new(5, None);
    assert_eq!(step(&mut update, UpdateEvent::ReadFailed, &buffer), UpdateAction::Abort);
    let mut update = FirmwareUpdate::new(5, None);
    let short = UpdateEvent::Read { data_read: 5 };
    assert_eq!(step(&mut update, short, &buffer), UpdateAction::Write { len: BUF_MAX });
    assert_eq!(step(&mut update, UpdateEvent::WriteFailed, &buffer), UpdateAction::Complete);
}

#[test]
fn empty_buffer_finishes_the_update() {
    let mut update = FirmwareUpdate::new(3, None);
    let short = UpdateEvent::Read { data_read: 3 };
    assert_eq!(step(&mut update, short, &[]), UpdateAction::Complete);
}

#[test]
fn events_that_cannot_come() {
    let buffer = image(b"2.0");
    let mut update = FirmwareUpdate::new(5, None);
    assert!(!update.accepts(UpdateEvent::Written, &buffer));
    assert!(!update.accepts(UpdateEvent::HeaderLoaded, &buffer));
    step(&mut update, UpdateEvent::Read { data_read: BUF_MAX }, &buffer);
    assert!(!update.accepts(UpdateEvent::HeaderLoaded, &buffer[..100]));
    assert!(!update.accepts(UpdateEvent::ReadFailed, &buffer));
    step(&mut update, UpdateEvent::HeaderLoaded, &buffer);
    step(&mut update, UpdateEvent::Written, &buffer);
    assert!(!update.accepts(UpdateEvent::Read { data_read: usize::MAX }, &buffer));
}

#[test]
fn failed_response_ends_without_an_update() {
    assert_eq!(after_response::<u8>(&Err(1)), ResponseAction::Return);
    assert_eq!(after_response::<u8>(&Ok(None)), ResponseAction::Update { content_length: 0 });
    assert_eq!(
        after_response::<u8>(&Ok(Some("4096"))),
        ResponseAction::Update { content_length: 4096 }
    );
}

#[test]
fn every_end_restarts_the_device() {
    let restart = UpdateAction::Restart { delay_ms: RESTART_DELAY_MS };
    assert_eq!(restart, UpdateAction::Restart { delay_ms: 1000 });
    let buffer = image(b"2.0");
    for end in [UpdateEvent::Completed, UpdateEvent::CompleteFailed] {
        let mut update = FirmwareUpdate::new(0, None);
        assert_eq!(step(&mut update, UpdateEvent::ReadFailed, &buffer), UpdateAction::Complete);
        assert!(!update.accepts(UpdateEvent::Aborted, &buffer));
        assert_eq!(step(&mut update, end, &buffer), restart);
        assert!(!update.accepts(end, &buffer));
    }
    let mut update = FirmwareUpdate::new(1, None);
    assert_eq!(step(&mut update, UpdateEvent::ReadFailed, &buffer), UpdateAction::Abort);
    assert!(!update.accepts(UpdateEvent::Completed, &buffer));
    assert!(!update.accepts(UpdateEvent::CompleteFailed, &buffer));
    assert_eq!(step(&mut update, UpdateEvent::Aborted, &buffer), restart);
    assert_eq!(update.action(), restart);
    assert!(!update.accepts(UpdateEvent::Aborted, &buffer));
}

#[test]
fn short_read_still_writes_the_whole_buffer() {
    let buffer = vec![7u8; 300];
    let mut update = FirmwareUpdate::new(2, None);
    let short = UpdateEvent::Read { data_read: 2 };
    assert_eq!(step(&mut update, short, &buffer), UpdateAction::Write { len: 300 });
    assert_eq!(step(&mut update, UpdateEvent::Written, &buffer), UpdateAction::Complete);
}

#[test]
fn image_is_asked_for_by_get_without_headers() {
    let url = OtaUrl::from_str("http://10.0.0.1/fw").unwrap();
    let request = update_request(&url);
    assert_eq!(request.method, HttpMethod::Get);
    assert_eq!(request.url.as_str(), "http://10.0.0.1/fw");
    assert!(request.headers.is_empty());
}

#[test]
fn fields_hold_utf8() {
    assert!(is_field_readable(b""));
    assert!(is_field_readable("ota_\u{e9}\0".as_bytes()));
    assert!(!is_field_readable(&[0x61, 0xe9]));
}
