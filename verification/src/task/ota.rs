//! Over-the-air firmware updates.
//!
//! An update reads an image in buffers, looks at the descriptor of the image
//! once, and writes each buffer to the update partition. `FirmwareUpdate` holds
//! the decisions: its `step` takes what came of the last action and says what
//! to do next.

use crate::decimal::parse_usize;
#[allow(unused_imports)]
use crate::decimal::{number_in, value, without_sign};
use crate::http::HttpMethod;
use crate::state::{ApplicationStateChange, OtaUrl};
use crate::task::firmware::{get_firmware_info_from_download, is_info_readable, APP_DESC_END};
#[allow(unused_imports)]
use crate::task::firmware::{has_readable_info, info_of};
use crate::text::{eq_32, new_32, push_str_32};
#[allow(unused_imports)]
use crate::text::{fits, text32};
use vstd::prelude::*;
#[allow(unused_imports)]
use vstd::string::StringSliceAdditionalSpecFns;

verus! {

/// The size of the buffer that an image is read into, in bytes.
pub const BUF_MAX: usize = 1024;

/// How long the other tasks are given to shut down before an update, in seconds.
pub const SHUTDOWN_GRACE_SECS: u64 = 2;

/// How long the device waits before it restarts after an update, in milliseconds.
pub const RESTART_DELAY_MS: u32 = 1000;

/// What the update task does about a request.
#[derive(Clone, Debug)]
pub struct UpdatePlan {
    /// Told to all tasks first.
    pub announce: ApplicationStateChange,
    /// Waited after the announcement, in seconds.
    pub grace_secs: u64,
    /// Where the image is then downloaded from.
    pub url: OtaUrl,
}

/// What the update task does about an event: a request for an update is first
/// announced and carried out after a grace period; it passes over the rest.
pub fn ota_task(event: &ApplicationStateChange) -> (r: Option<UpdatePlan>)
    ensures
        r is Some <==> event is OTAUpdateRequest,
        r matches Some(plan) ==> {
            &&& plan.announce == ApplicationStateChange::OTAUpdateStarted
            &&& plan.grace_secs == SHUTDOWN_GRACE_SECS == 2
            &&& plan.url == event->OTAUpdateRequest_0
        },
{
    match event {
        ApplicationStateChange::OTAUpdateRequest(url) => Some(
            UpdatePlan {
                announce: ApplicationStateChange::OTAUpdateStarted,
                grace_secs: SHUTDOWN_GRACE_SECS,
                url: url.clone(),
            },
        ),
        _ => None,
    }
}

/// A request for an image.
#[derive(Clone, Debug)]
pub struct UpdateRequest {
    pub method: HttpMethod,
    pub url: OtaUrl,
    /// The names and the values of its headers.
    pub headers: Vec<(String, String)>,
}

/// The one request that an update makes: for what is at `url`, without headers.
pub fn update_request(url: &OtaUrl) -> (r: UpdateRequest)
    ensures
        r.method == HttpMethod::Get,
        r.url == *url,
        r.headers@.len() == 0,
{
    UpdateRequest { method: HttpMethod::Get, url: url.clone(), headers: Vec::new() }
}

/// Whether a `Content-Length` header, where there is one, is a number.
pub open spec fn is_length_readable(header: Option<&str>) -> bool {
    header matches Some(text) ==> number_in(text.spec_bytes(), usize::MAX as nat) is Some
}

/// Whether a `Content-Length` header, where there is one, is a number.
pub fn has_readable_length(header: Option<&str>) -> (r: bool)
    ensures
        r == is_length_readable(header),
        header is None ==> r,
        header matches Some(text) ==> r == (number_in(text.spec_bytes(), usize::MAX as nat)
            is Some),
{
    match header {
        Some(text) => parse_usize(text).is_some(),
        None => true,
    }
}

/// The length of an image, by its `Content-Length` header; 0 without one.
pub fn content_length(header: Option<&str>) -> (r: usize)
    requires
        is_length_readable(header),
    ensures
        header is None ==> r == 0,
        header matches Some(text) ==> r == value(without_sign(text.spec_bytes())),
        header matches Some(text) ==> number_in(text.spec_bytes(), usize::MAX as nat) == Some(
            r as nat,
        ),
{
    match header {
        Some(text) => parse_usize(text).unwrap(),
        None => 0,
    }
}

/// What follows from the answer to the request for an image.
#[derive(Copy, Clone, Eq, PartialEq, Debug, Structural)]
pub enum ResponseAction {
    /// Update to an image of this length.
    Update { content_length: usize },
    /// Leave the update, and do not restart.
    Return,
}

/// What follows from the answer to the request for an image: it brought a
/// `Content-Length` header or none, or it failed, and then nothing more is done.
pub fn after_response<E>(response: &Result<Option<&str>, E>) -> (r: ResponseAction)
    requires
        response matches Ok(header) ==> is_length_readable(*header),
    ensures
        r == ResponseAction::Return <==> response is Err,
        response matches Ok(None) ==> r == (ResponseAction::Update { content_length: 0 }),
        response matches Ok(Some(text)) ==> r matches ResponseAction::Update { content_length }
            && content_length == value(without_sign(text.spec_bytes())),
        response matches Ok(Some(text)) ==> r matches ResponseAction::Update { content_length }
            && number_in(text.spec_bytes(), usize::MAX as nat) == Some(content_length as nat),
{
    match response {
        Ok(header) => ResponseAction::Update { content_length: content_length(*header) },
        Err(_) => ResponseAction::Return,
    }
}

/// The version that an update must not have: that of the firmware in the last
/// invalid slot, where there is one. A version of more than 32 bytes counts as
/// the empty one.
pub fn invalid_fw_version(last_invalid: Option<&str>) -> (r: Option<heapless::String<32>>)
    ensures
        r is Some <==> last_invalid is Some,
        r matches Some(s) ==> text32(s) == (if fits(last_invalid->0@, 32) {
            last_invalid->0@
        } else {
            Seq::<char>::empty()
        }),
{
    match last_invalid {
        Some(version) => {
            let mut s = new_32();
            let pushed = push_str_32(&mut s, version);
            assert(pushed is Ok ==> Seq::<char>::empty() + version@ =~= version@);
            Some(s)
        },
        None => None,
    }
}

/// Where an update stands.
#[derive(Copy, Clone, Eq, PartialEq, Debug, Structural)]
pub enum UpdatePhase {
    /// A buffer is being read.
    Reading,
    /// `data_read` bytes were read and the image is being looked at.
    Checking { data_read: usize },
    /// `data_read` bytes were read and `len` bytes of the buffer are being written.
    Writing { data_read: usize, len: usize },
    /// Nothing more is read or written: the update is completed or given up.
    Finished,
    /// The update was completed, as far as that went, or given up.
    Ended,
}

/// What came of the last action of an update.
#[derive(Copy, Clone, Eq, PartialEq, Debug, Structural)]
pub enum UpdateEvent {
    ReadFailed,
    Read { data_read: usize },
    HeaderLoaded,
    Written,
    WriteFailed,
    Completed,
    CompleteFailed,
    Aborted,
}

/// What an update does next.
#[derive(Copy, Clone, Eq, PartialEq, Debug, Structural)]
pub enum UpdateAction {
    /// Read the next part of the image into the buffer.
    Read,
    /// Make sure that the image's headers load from the buffer.
    LoadHeader,
    /// Write the first `len` bytes of the buffer to the update partition.
    Write { len: usize },
    /// Make the written image the one to boot.
    Complete,
    /// Give the update up.
    Abort,
    /// Wait so long, in milliseconds, and restart the device.
    Restart { delay_ms: u32 },
}

/// What an update knows, and what follows from each event.
#[verifier::ext_equal]
pub struct UpdateState {
    pub content_length: nat,
    pub invalid_version: Option<Seq<char>>,
    pub bytes_read_total: nat,
    pub image_header_was_checked: bool,
    pub phase: UpdatePhase,
}

impl UpdateState {
    /// An update of which nothing was read yet.
    pub open spec fn start(content_length: nat, invalid_version: Option<Seq<char>>) -> UpdateState {
        UpdateState {
            content_length,
            invalid_version,
            bytes_read_total: 0,
            image_header_was_checked: false,
            phase: UpdatePhase::Reading,
        }
    }

    /// Whether the image is to be looked at once `data_read` bytes were read:
    /// it was not yet, and the read goes beyond its descriptor.
    pub open spec fn is_header_due(self, data_read: usize) -> bool {
        !self.image_header_was_checked && data_read > APP_DESC_END
    }

    /// Whether the image in `buffer` has the version that it must not have.
    pub open spec fn is_invalid_version(self, buffer: Seq<u8>) -> bool {
        self.invalid_version == Some(info_of(buffer).version)
    }

    /// Whether the count of all bytes still fits once `data_read` are added.
    pub open spec fn has_room(self, data_read: usize) -> bool {
        self.bytes_read_total + data_read <= usize::MAX
    }

    /// Whether exactly as many bytes were read as the image is long.
    pub open spec fn is_full_length(self) -> bool {
        self.bytes_read_total == self.content_length
    }

    /// Whether `event` can come of the last action, with `buffer` as it is then.
    pub open spec fn accepts(self, event: UpdateEvent, buffer: Seq<u8>) -> bool {
        match (self.phase, event) {
            (UpdatePhase::Reading, UpdateEvent::ReadFailed) => true,
            (UpdatePhase::Reading, UpdateEvent::Read { data_read }) => {
                self.is_header_due(data_read) || self.has_room(data_read)
            },
            (UpdatePhase::Checking { data_read }, UpdateEvent::HeaderLoaded) => {
                &&& has_readable_info(buffer)
                &&& self.is_invalid_version(buffer) || self.has_room(data_read)
            },
            (UpdatePhase::Writing { .. }, UpdateEvent::Written) => true,
            (UpdatePhase::Writing { .. }, UpdateEvent::WriteFailed) => true,
            (UpdatePhase::Finished, UpdateEvent::Completed) => self.is_full_length(),
            (UpdatePhase::Finished, UpdateEvent::CompleteFailed) => self.is_full_length(),
            (UpdatePhase::Finished, UpdateEvent::Aborted) => !self.is_full_length(),
            _ => false,
        }
    }

    /// The update once it reads and writes no more.
    pub open spec fn finish(self) -> UpdateState {
        UpdateState { phase: UpdatePhase::Finished, ..self }
    }

    /// The update once `data_read` bytes in `buffer` are taken in: they count,
    /// and the whole buffer is written, also what lies behind those bytes, unless
    /// it has no room for anything.
    pub open spec fn take_in(self, data_read: usize, buffer: Seq<u8>) -> UpdateState {
        UpdateState {
            bytes_read_total: self.bytes_read_total + data_read as nat,
            phase: if buffer.len() > 0 {
                UpdatePhase::Writing { data_read, len: buffer.len() as usize }
            } else {
                UpdatePhase::Finished
            },
            ..self
        }
    }

    /// The update after `event`.
    pub open spec fn next(self, event: UpdateEvent, buffer: Seq<u8>) -> UpdateState {
        match (self.phase, event) {
            (UpdatePhase::Reading, UpdateEvent::Read { data_read }) => {
                if self.is_header_due(data_read) {
                    UpdateState { phase: UpdatePhase::Checking { data_read }, ..self }
                } else {
                    self.take_in(data_read, buffer)
                }
            },
            (UpdatePhase::Checking { data_read }, UpdateEvent::HeaderLoaded) => {
                if self.is_invalid_version(buffer) {
                    self.finish()
                } else {
                    UpdateState { image_header_was_checked: true, ..self }.take_in(
                        data_read,
                        buffer,
                    )
                }
            },
            (UpdatePhase::Writing { data_read, len }, UpdateEvent::Written) => {
                if data_read < len {
                    self.finish()
                } else {
                    UpdateState { phase: UpdatePhase::Reading, ..self }
                }
            },
            (UpdatePhase::Finished, _) => UpdateState { phase: UpdatePhase::Ended, ..self },
            _ => self.finish(),
        }
    }

    /// What the update does now. A finished update is completed where exactly
    /// as many bytes were read as the image is long, and given up otherwise. Once
    /// that is done the device restarts, however it went.
    pub open spec fn action(self) -> UpdateAction {
        match self.phase {
            UpdatePhase::Reading => UpdateAction::Read,
            UpdatePhase::Checking { .. } => UpdateAction::LoadHeader,
            UpdatePhase::Writing { len, .. } => UpdateAction::Write { len },
            UpdatePhase::Finished => {
                if self.is_full_length() {
                    UpdateAction::Complete
                } else {
                    UpdateAction::Abort
                }
            },
            UpdatePhase::Ended => UpdateAction::Restart { delay_ms: RESTART_DELAY_MS },
        }
    }
}

/// A firmware update under way.
#[derive(Debug)]
pub struct FirmwareUpdate {
    content_length: usize,
    invalid_version: Option<heapless::String<32>>,
    bytes_read_total: usize,
    image_header_was_checked: bool,
    phase: UpdatePhase,
}

impl View for FirmwareUpdate {
    type V = UpdateState;

    closed spec fn view(&self) -> UpdateState {
        UpdateState {
            content_length: self.content_length as nat,
            invalid_version: match self.invalid_version {
                Some(version) => Some(text32(version)),
                None => None,
            },
            bytes_read_total: self.bytes_read_total as nat,
            image_header_was_checked: self.image_header_was_checked,
            phase: self.phase,
        }
    }
}

impl FirmwareUpdate {
    /// An update to an image of `content_length` bytes, which must not have
    /// the version `invalid_version`.
    pub fn new(content_length: usize, invalid_version: Option<heapless::String<32>>) -> (r: Self)
        ensures
            r@ == UpdateState::start(
                content_length as nat,
                match invalid_version {
                    Some(version) => Some(text32(version)),
                    None => None,
                },
            ),
    {
        FirmwareUpdate {
            content_length,
            invalid_version,
            bytes_read_total: 0,
            image_header_was_checked: false,
            phase: UpdatePhase::Reading,
        }
    }

    /// How many bytes were read and taken in so far.
    pub fn bytes_read_total(&self) -> (r: usize)
        ensures
            r == self@.bytes_read_total,
    {
        self.bytes_read_total
    }

    /// What the update does now.
    pub fn action(&self) -> (r: UpdateAction)
        ensures
            r == self@.action(),
    {
        match self.phase {
            UpdatePhase::Reading => UpdateAction::Read,
            UpdatePhase::Checking { .. } => UpdateAction::LoadHeader,
            UpdatePhase::Writing { len, .. } => UpdateAction::Write { len },
            UpdatePhase::Finished => {
                if self.bytes_read_total == self.content_length {
                    UpdateAction::Complete
                } else {
                    UpdateAction::Abort
                }
            },
            UpdatePhase::Ended => UpdateAction::Restart { delay_ms: RESTART_DELAY_MS },
        }
    }

    /// Whether `event` can come of the last action, with `buffer` as it is then.
    pub fn accepts(&self, event: UpdateEvent, buffer: &[u8]) -> (r: bool)
        ensures
            r == self@.accepts(event, buffer@),
    {
        match (self.phase, event) {
            (UpdatePhase::Reading, UpdateEvent::ReadFailed) => true,
            (UpdatePhase::Reading, UpdateEvent::Read { data_read }) => {
                !self.image_header_was_checked && data_read > APP_DESC_END
                    || data_read <= usize::MAX - self.bytes_read_total
            },
            (UpdatePhase::Checking { data_read }, UpdateEvent::HeaderLoaded) => {
                is_info_readable(buffer) && (self.has_invalid_version(buffer)
                    || data_read <= usize::MAX - self.bytes_read_total)
            },
            (UpdatePhase::Writing { .. }, UpdateEvent::Written) => true,
            (UpdatePhase::Writing { .. }, UpdateEvent::WriteFailed) => true,
            (UpdatePhase::Finished, UpdateEvent::Completed)
            | (UpdatePhase::Finished, UpdateEvent::CompleteFailed) => {
                self.bytes_read_total == self.content_length
            },
            (UpdatePhase::Finished, UpdateEvent::Aborted) => {
                self.bytes_read_total != self.content_length
            },
            _ => false,
        }
    }

    /// Takes in what came of the last action, with `buffer` as it is then, and
    /// says what to do next.
    pub fn step(&mut self, event: UpdateEvent, buffer: &[u8]) -> (r: UpdateAction)
        requires
            old(self)@.accepts(event, buffer@),
        ensures
            final(self)@ == old(self)@.next(event, buffer@),
            r == final(self)@.action(),
    {
        match (self.phase, event) {
            (UpdatePhase::Reading, UpdateEvent::Read { data_read }) => {
                if !self.image_header_was_checked && data_read > APP_DESC_END {
                    self.phase = UpdatePhase::Checking { data_read };
                } else {
                    self.take_in(data_read, buffer);
                }
            },
            (UpdatePhase::Checking { data_read }, UpdateEvent::HeaderLoaded) => {
                if self.has_invalid_version(buffer) {
                    self.phase = UpdatePhase::Finished;
                } else {
                    self.image_header_was_checked = true;
                    self.take_in(data_read, buffer);
                }
            },
            (UpdatePhase::Writing { data_read, len }, UpdateEvent::Written) => {
                if data_read < len {
                    self.phase = UpdatePhase::Finished;
                } else {
                    self.phase = UpdatePhase::Reading;
                }
            },
            (UpdatePhase::Finished, _) => {
                self.phase = UpdatePhase::Ended;
            },
            _ => {
                self.phase = UpdatePhase::Finished;
            },
        }
        self.action()
    }

    /// Whether the image in `buffer` has the version that it must not have.
    fn has_invalid_version(&self, buffer: &[u8]) -> (r: bool)
        requires
            has_readable_info(buffer@),
        ensures
            r == self@.is_invalid_version(buffer@),
    {
        let info = get_firmware_info_from_download(buffer);
        match &self.invalid_version {
            Some(version) => eq_32(version, &info.version),
            None => false,
        }
    }

    /// Counts `data_read` bytes and has the whole buffer written.
    fn take_in(&mut self, data_read: usize, buffer: &[u8])
        requires
            old(self)@.has_room(data_read),
        ensures
            final(self)@ == old(self)@.take_in(data_read, buffer@),
    {
        self.bytes_read_total = self.bytes_read_total + data_read;
        self.phase = if buffer.len() > 0 {
            UpdatePhase::Writing { data_read, len: buffer.len() }
        } else {
            UpdatePhase::Finished
        };
    }
}

} // verus!
