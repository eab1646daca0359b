//! What a downloaded firmware image says about itself.
//!
//! An image begins with its header and the header of its first segment. The
//! application descriptor follows: a fixed layout in which each text is a field
//! of fixed width, padded with NUL characters.

use crate::text::{from_128, from_16, from_32, from_utf8, trim_nul_matches};
#[allow(unused_imports)]
use crate::text::{
    lemma_encode_concat, lemma_trim_end, lemma_trim_start, outer_nuls_are_trimmed, text128,
    text16, text32, trim_nul,
};
use vstd::prelude::*;
use vstd::slice::slice_subrange;
#[allow(unused_imports)]
use vstd::utf8::{decode_utf8, encode_utf8, valid_utf8};

verus! {

/// The size of the image header, in bytes.
pub const IMAGE_HEADER_SIZE: usize = 24;

/// The size of a segment header, in bytes.
pub const SEGMENT_HEADER_SIZE: usize = 8;

/// The size of the application descriptor, in bytes.
pub const APP_DESC_SIZE: usize = 256;

/// Where the application descriptor begins in an image.
pub const APP_DESC_OFFSET: usize = IMAGE_HEADER_SIZE + SEGMENT_HEADER_SIZE;

/// Where the application descriptor ends in an image.
pub const APP_DESC_END: usize = APP_DESC_OFFSET + APP_DESC_SIZE;

/// What an image says about itself.
#[derive(Clone, Debug)]
pub struct FirmwareInfo {
    pub version: heapless::String<32>,
    pub date: heapless::String<16>,
    pub time: heapless::String<16>,
    pub description: heapless::String<128>,
}

/// The texts of a `FirmwareInfo`.
#[verifier::ext_equal]
pub struct FirmwareInfoView {
    pub version: Seq<char>,
    pub date: Seq<char>,
    pub time: Seq<char>,
    pub description: Seq<char>,
}

impl View for FirmwareInfo {
    type V = FirmwareInfoView;

    open spec fn view(&self) -> FirmwareInfoView {
        FirmwareInfoView {
            version: text32(self.version),
            date: text16(self.date),
            time: text16(self.time),
            description: text128(self.description),
        }
    }
}

/// The bytes of the version field of the image that begins with `data`.
pub open spec fn version_field(data: Seq<u8>) -> Seq<u8> {
    data.subrange(APP_DESC_OFFSET + 16, APP_DESC_OFFSET + 48)
}

/// The bytes of the project name field.
pub open spec fn project_name_field(data: Seq<u8>) -> Seq<u8> {
    data.subrange(APP_DESC_OFFSET + 48, APP_DESC_OFFSET + 80)
}

/// The bytes of the time field.
pub open spec fn time_field(data: Seq<u8>) -> Seq<u8> {
    data.subrange(APP_DESC_OFFSET + 80, APP_DESC_OFFSET + 96)
}

/// The bytes of the date field.
pub open spec fn date_field(data: Seq<u8>) -> Seq<u8> {
    data.subrange(APP_DESC_OFFSET + 96, APP_DESC_OFFSET + 112)
}

/// The text in a field: its characters without the NUL padding.
pub open spec fn field_text(field: Seq<u8>) -> Seq<char> {
    trim_nul(decode_utf8(field))
}

/// Whether `data` holds the whole descriptor and its texts are valid UTF-8.
pub open spec fn has_readable_info(data: Seq<u8>) -> bool {
    &&& APP_DESC_END <= data.len()
    &&& valid_utf8(version_field(data))
    &&& valid_utf8(project_name_field(data))
    &&& valid_utf8(time_field(data))
    &&& valid_utf8(date_field(data))
}

/// What the image that begins with `data` says about itself.
pub open spec fn info_of(data: Seq<u8>) -> FirmwareInfoView {
    FirmwareInfoView {
        version: field_text(version_field(data)),
        date: field_text(date_field(data)),
        time: field_text(time_field(data)),
        description: field_text(project_name_field(data)),
    }
}

/// A text comes back from the field that holds its UTF-8 encoding and NUL
/// padding, unless it begins or ends with a NUL character itself.
pub proof fn padded_text_comes_back(text: Seq<char>, padding: nat)
    requires
        text.len() > 0 ==> text.first() != '\0' && text.last() != '\0',
    ensures
        ({
            let field = encode_utf8(text) + Seq::new(padding, |i: int| 0u8);
            &&& valid_utf8(field)
            &&& field_text(field) == text
        }),
{
    let nuls = Seq::new(padding, |i: int| '\0');
    let field = encode_utf8(text) + Seq::new(padding, |i: int| 0u8);
    assert(encode_utf8(nuls) =~= Seq::new(padding, |i: int| 0u8)) by {
        vstd::utf8::is_ascii_chars_encode_utf8(nuls);
    }
    lemma_encode_concat(text, nuls);
    vstd::utf8::encode_utf8_valid_utf8(text + nuls);
    vstd::utf8::encode_utf8_decode_utf8(text + nuls);
    if text.len() == 0 {
        lemma_trim_start(text + nuls, '\0', padding as int);
        assert((text + nuls).skip(padding as int) =~= text);
    } else {
        lemma_trim_start(text + nuls, '\0', 0);
        assert((text + nuls).skip(0) =~= text + nuls);
        lemma_trim_end(text + nuls, '\0', text.len() as int);
        assert((text + nuls).take(text.len() as int) =~= text);
    }
}

/// The bytes of `text` in UTF-8, with `before` NUL bytes before them and `after`
/// behind them.
pub open spec fn padded(before: nat, text: Seq<char>, after: nat) -> Seq<u8> {
    Seq::new(before, |i: int| 0u8) + encode_utf8(text) + Seq::new(after, |i: int| 0u8)
}

/// A field holds the text that stands in it with NUL bytes before it and behind
/// it, unless that text begins or ends with a NUL character itself.
pub proof fn padding_is_no_text(before: nat, text: Seq<char>, after: nat)
    requires
        text.len() > 0 ==> text.first() != '\0' && text.last() != '\0',
    ensures
        valid_utf8(padded(before, text, after)),
        field_text(padded(before, text, after)) == text,
{
    let head = Seq::new(before, |i: int| '\0');
    let tail = Seq::new(after, |i: int| '\0');
    vstd::utf8::is_ascii_chars_encode_utf8(head);
    vstd::utf8::is_ascii_chars_encode_utf8(tail);
    assert(encode_utf8(head) =~= Seq::new(before, |i: int| 0u8));
    assert(encode_utf8(tail) =~= Seq::new(after, |i: int| 0u8));
    lemma_encode_concat(head, text);
    lemma_encode_concat(head + text, tail);
    vstd::utf8::encode_utf8_valid_utf8(head + text + tail);
    vstd::utf8::encode_utf8_decode_utf8(head + text + tail);
    outer_nuls_are_trimmed(before, text, after);
}

/// An image says of itself what stands in the fields of its descriptor: the
/// version in the 32 bytes from byte 48, the project's name in the next 32, the
/// time in the next 16 and the date in the 16 behind those. Each field holds its
/// text with NUL bytes around it.
pub proof fn image_tells_its_texts(
    data: Seq<u8>,
    version: Seq<char>,
    project_name: Seq<char>,
    time: Seq<char>,
    date: Seq<char>,
    before: (nat, nat, nat, nat),
    after: (nat, nat, nat, nat),
)
    requires
        data.len() >= 288,
        version.len() > 0 ==> version.first() != '\0' && version.last() != '\0',
        project_name.len() > 0 ==> project_name.first() != '\0' && project_name.last() != '\0',
        time.len() > 0 ==> time.first() != '\0' && time.last() != '\0',
        date.len() > 0 ==> date.first() != '\0' && date.last() != '\0',
        data.subrange(48, 80) == padded(before.0, version, after.0),
        data.subrange(80, 112) == padded(before.1, project_name, after.1),
        data.subrange(112, 128) == padded(before.2, time, after.2),
        data.subrange(128, 144) == padded(before.3, date, after.3),
    ensures
        has_readable_info(data),
        info_of(data).version == version,
        info_of(data).description == project_name,
        info_of(data).time == time,
        info_of(data).date == date,
{
    padding_is_no_text(before.0, version, after.0);
    padding_is_no_text(before.1, project_name, after.1);
    padding_is_no_text(before.2, time, after.2);
    padding_is_no_text(before.3, date, after.3);
}

/// An image's version is the text in the 32 bytes from byte 48, whatever stands
/// in the rest of the image.
pub proof fn image_tells_its_version(data: Seq<u8>, version: Seq<char>, before: nat, after: nat)
    requires
        version.len() > 0 ==> version.first() != '\0' && version.last() != '\0',
        data.len() >= 288,
        data.subrange(48, 80) == padded(before, version, after),
    ensures
        info_of(data).version == version,
{
    padding_is_no_text(before, version, after);
}

/// A descriptor can be read exactly where all of it is there and each of the
/// four fields is valid UTF-8.
pub proof fn readable_by_its_fields(data: Seq<u8>)
    ensures
        has_readable_info(data) <==> {
            &&& data.len() >= 288
            &&& valid_utf8(data.subrange(48, 80))
            &&& valid_utf8(data.subrange(80, 112))
            &&& valid_utf8(data.subrange(112, 128))
            &&& valid_utf8(data.subrange(128, 144))
        },
{
}

/// Nothing but the four fields counts: two images that agree in the bytes of
/// the fields say the same about themselves.
pub proof fn only_the_fields_count(a: Seq<u8>, b: Seq<u8>)
    requires
        a.len() >= 288,
        b.len() >= 288,
        a.subrange(48, 144) == b.subrange(48, 144),
    ensures
        has_readable_info(a) == has_readable_info(b),
        info_of(a) == info_of(b),
{
    assert forall|i: int| 48 <= i < 144 implies a[i] == b[i] by {
        assert(a.subrange(48, 144)[i - 48] == a[i]);
        assert(b.subrange(48, 144)[i - 48] == b[i]);
    }
    assert(version_field(a) =~= version_field(b));
    assert(project_name_field(a) =~= project_name_field(b));
    assert(time_field(a) =~= time_field(b));
    assert(date_field(a) =~= date_field(b));
}

/// The text in a NUL-padded field.
pub fn fixed_text(field: &[u8]) -> (r: &str)
    requires
        valid_utf8(field@),
    ensures
        r@ == field_text(field@),
        encode_utf8(r@).len() <= field@.len(),
{
    proof {
        vstd::utf8::decode_utf8_encode_utf8(field@);
    }
    trim_nul_matches(from_utf8(field).unwrap())
}

/// Whether a field holds a text.
pub fn is_field_readable(field: &[u8]) -> (r: bool)
    ensures
        r == valid_utf8(field@),
{
    from_utf8(field).is_some()
}

/// Whether the descriptor of the image that begins with `data` can be read.
pub fn is_info_readable(data: &[u8]) -> (r: bool)
    ensures
        r == has_readable_info(data@),
{
    APP_DESC_END <= data.len()
        && is_field_readable(slice_subrange(data, APP_DESC_OFFSET + 16, APP_DESC_OFFSET + 48))
        && is_field_readable(slice_subrange(data, APP_DESC_OFFSET + 48, APP_DESC_OFFSET + 80))
        && is_field_readable(slice_subrange(data, APP_DESC_OFFSET + 80, APP_DESC_OFFSET + 96))
        && is_field_readable(slice_subrange(data, APP_DESC_OFFSET + 96, APP_DESC_OFFSET + 112))
}

/// Reads the descriptor of the image that begins with `data`.
pub fn get_firmware_info_from_download(data: &[u8]) -> (r: FirmwareInfo)
    requires
        has_readable_info(data@),
    ensures
        r@ == info_of(data@),
        text32(r.version) == info_of(data@).version,
        text16(r.date) == info_of(data@).date,
        text16(r.time) == info_of(data@).time,
        text128(r.description) == info_of(data@).description,
{
    let version = fixed_text(slice_subrange(data, APP_DESC_OFFSET + 16, APP_DESC_OFFSET + 48));
    let project_name = fixed_text(
        slice_subrange(data, APP_DESC_OFFSET + 48, APP_DESC_OFFSET + 80),
    );
    let time = fixed_text(slice_subrange(data, APP_DESC_OFFSET + 80, APP_DESC_OFFSET + 96));
    let date = fixed_text(slice_subrange(data, APP_DESC_OFFSET + 96, APP_DESC_OFFSET + 112));
    FirmwareInfo {
        version: from_32(version),
        date: from_16(date),
        time: from_16(time),
        description: from_128(project_name),
    }
}

} // verus!
