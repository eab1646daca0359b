//! Text in fixed-capacity strings.
//!
//! The strings that are stored are `heapless::String<N>` values. What such a
//! string holds is the sequence of characters that `text16`, `text32`, `text64`
//! or `text128` names, by its capacity in bytes.

use core::str::FromStr;
use vstd::prelude::*;
#[allow(unused_imports)]
use vstd::string::StringSliceAdditionalSpecFns;
#[allow(unused_imports)]
use vstd::utf8::{decode_utf8, encode_utf8, valid_utf8};

verus! {

/// `heapless::String`, a string of at most `N` bytes; opaque to the proofs.
#[verifier::external_type_specification]
#[verifier::external_body]
pub struct ExHeaplessString<const N: usize>(heapless::String<N>);

/// The `clone` of `heapless::String`, which copies the bytes, so the copy
/// holds what the string holds.
pub assume_specification<const N: usize>[ <heapless::String<N> as Clone>::clone ](
    s: &heapless::String<N>,
) -> (r: heapless::String<N>)
    ensures
        r == *s,
;

/// The characters that a `heapless::String<16>` holds.
pub uninterp spec fn text16(s: heapless::String<16>) -> Seq<char>;

/// The characters that a `heapless::String<32>` holds.
pub uninterp spec fn text32(s: heapless::String<32>) -> Seq<char>;

/// The characters that a `heapless::String<64>` holds.
pub uninterp spec fn text64(s: heapless::String<64>) -> Seq<char>;

/// The characters that a `heapless::String<128>` holds.
pub uninterp spec fn text128(s: heapless::String<128>) -> Seq<char>;

/// Whether `text` takes at most `capacity` bytes in UTF-8.
pub open spec fn fits(text: Seq<char>, capacity: nat) -> bool {
    encode_utf8(text).len() <= capacity
}

/// Whether the last characters of `text` are those of `suffix`.
pub open spec fn has_suffix(text: Seq<char>, suffix: Seq<char>) -> bool {
    &&& suffix.len() <= text.len()
    &&& text.skip(text.len() - suffix.len()) == suffix
}

/// `text` without the characters `c` that it begins with.
pub open spec fn trim_start(text: Seq<char>, c: char) -> Seq<char>
    decreases text.len(),
{
    if text.len() > 0 && text.first() == c {
        trim_start(text.drop_first(), c)
    } else {
        text
    }
}

/// `text` without the characters `c` that it ends with.
pub open spec fn trim_end(text: Seq<char>, c: char) -> Seq<char>
    decreases text.len(),
{
    if text.len() > 0 && text.last() == c {
        trim_end(text.drop_last(), c)
    } else {
        text
    }
}

/// `text` without the NUL characters at its two ends.
pub open spec fn trim_nul(text: Seq<char>) -> Seq<char> {
    trim_end(trim_start(text, '\0'), '\0')
}

/// Calls `heapless::String::<16>::from`, which copies the text. It panics on a
/// text of more than 16 bytes, so such a text is left out.
#[verifier::external_body]
pub(crate) fn from_16(text: &str) -> (r: heapless::String<16>)
    requires
        fits(text@, 16),
    ensures
        text16(r) == text@,
{
    heapless::String::<16>::from(text)
}

/// Calls `heapless::String::<32>::from`, which copies the text. It panics on a
/// text of more than 32 bytes, so such a text is left out.
#[verifier::external_body]
pub(crate) fn from_32(text: &str) -> (r: heapless::String<32>)
    requires
        fits(text@, 32),
    ensures
        text32(r) == text@,
{
    heapless::String::<32>::from(text)
}

/// Calls `heapless::String::<64>::from`, which copies the text. It panics on a
/// text of more than 64 bytes, so such a text is left out.
#[verifier::external_body]
pub(crate) fn from_64(text: &str) -> (r: heapless::String<64>)
    requires
        fits(text@, 64),
    ensures
        text64(r) == text@,
{
    heapless::String::<64>::from(text)
}

/// Calls `heapless::String::<128>::from`, which copies the text. It panics on a
/// text of more than 128 bytes, so such a text is left out.
#[verifier::external_body]
pub(crate) fn from_128(text: &str) -> (r: heapless::String<128>)
    requires
        fits(text@, 128),
    ensures
        text128(r) == text@,
{
    heapless::String::<128>::from(text)
}

/// Calls `heapless::String::<128>::from_str`, which copies a text of at most
/// 128 bytes and returns its error on any longer one.
#[verifier::external_body]
pub(crate) fn from_str_128(text: &str) -> (r: Result<heapless::String<128>, ()>)
    ensures
        r is Ok <==> fits(text@, 128),
        r matches Ok(s) ==> text128(s) == text@,
{
    heapless::String::<128>::from_str(text)
}

/// Calls `heapless::String::<32>::new`, which makes an empty string.
#[verifier::external_body]
pub(crate) fn new_32() -> (r: heapless::String<32>)
    ensures
        text32(r) == Seq::<char>::empty(),
{
    heapless::String::<32>::new()
}

/// Calls `heapless::String::<32>::push_str`, which appends `tail` where the
/// whole text then takes at most 32 bytes, and otherwise returns its error and
/// leaves the string as it was.
#[verifier::external_body]
pub(crate) fn push_str_32(s: &mut heapless::String<32>, tail: &str) -> (r: Result<(), ()>)
    ensures
        r is Ok <==> encode_utf8(text32(*old(s))).len() + encode_utf8(tail@).len() <= 32,
        r is Ok ==> text32(*final(s)) == text32(*old(s)) + tail@,
        r is Err ==> text32(*final(s)) == text32(*old(s)),
{
    s.push_str(tail)
}

/// Calls the `==` of `heapless::String<32>`, which compares the two texts.
#[verifier::external_body]
pub(crate) fn eq_32(a: &heapless::String<32>, b: &heapless::String<32>) -> (r: bool)
    ensures
        r == (text32(*a) == text32(*b)),
{
    a == b
}

/// Calls `heapless::String::<N>::from_str`, which copies a text of at most `N`
/// bytes and returns its error on any longer one, and hands the copy out as a
/// `String`.
#[verifier::external_body]
pub(crate) fn bounded_from_str<const N: usize>(text: &str) -> (r: Result<String, ()>)
    ensures
        r is Ok <==> fits(text@, N as nat),
        r matches Ok(s) ==> s@ == text@,
{
    heapless::String::<N>::from_str(text).map(|s| String::from(s.as_str()))
}

/// Calls `heapless::String::<N>::push_str` on a string that holds `head`. It
/// appends `tail` where the whole text then takes at most `N` bytes, and
/// otherwise returns its error. The joined text is handed out as a `String`.
#[verifier::external_body]
pub(crate) fn bounded_push_str<const N: usize>(head: &str, tail: &str) -> (r: Result<String, ()>)
    requires
        fits(head@, N as nat),
    ensures
        r is Ok <==> encode_utf8(head@).len() + encode_utf8(tail@).len() <= N,
        r matches Ok(s) ==> s@ == head@ + tail@,
{
    let mut s = heapless::String::<N>::from(head);
    s.push_str(tail).map(|_| String::from(s.as_str()))
}

/// Calls `core::str::from_utf8`, which returns the text that the bytes encode,
/// or its error where they are not valid UTF-8.
#[verifier::external_body]
pub(crate) fn from_utf8(bytes: &[u8]) -> (r: Option<&str>)
    ensures
        r is Some <==> valid_utf8(bytes@),
        r matches Some(s) ==> s@ == decode_utf8(bytes@),
{
    core::str::from_utf8(bytes).ok()
}

/// The UTF-8 encoding of a joined text is the encodings of its parts, joined.
pub proof fn lemma_encode_concat(a: Seq<char>, b: Seq<char>)
    ensures
        encode_utf8(a + b) == encode_utf8(a) + encode_utf8(b),
    decreases a.len(),
{
    if a.len() == 0 {
        assert(a + b =~= b);
    } else {
        lemma_encode_concat(a.drop_first(), b);
        assert((a + b).drop_first() =~= a.drop_first() + b);
        assert((a + b)[0] == a[0]);
        assert(encode_utf8(a + b) =~= encode_utf8(a) + encode_utf8(b));
    }
}

/// The text between two positions takes at most as many bytes as the whole.
pub proof fn lemma_subrange_fits(text: Seq<char>, from: int, to: int)
    requires
        0 <= from <= to <= text.len(),
    ensures
        encode_utf8(text.subrange(from, to)).len() <= encode_utf8(text).len(),
{
    let head = text.subrange(0, from);
    let middle = text.subrange(from, to);
    let tail = text.subrange(to, text.len() as int);
    assert(text =~= head + (middle + tail));
    lemma_encode_concat(head, middle + tail);
    lemma_encode_concat(middle, tail);
}

/// A text ends with another exactly where its encoding ends with the other's.
pub proof fn lemma_suffix_bytes(text: Seq<char>, suffix: Seq<char>)
    ensures
        has_suffix(text, suffix) <==> {
            let t = encode_utf8(text);
            let s = encode_utf8(suffix);
            &&& s.len() <= t.len()
            &&& t.skip(t.len() - s.len()) == s
        },
{
    let t = encode_utf8(text);
    let s = encode_utf8(suffix);
    if has_suffix(text, suffix) {
        let head = text.take(text.len() - suffix.len());
        assert(text =~= head + suffix);
        lemma_encode_concat(head, suffix);
        assert(t.skip(t.len() - s.len()) =~= s);
    }
    if s.len() <= t.len() && t.skip(t.len() - s.len()) == s {
        let at = t.len() - s.len();
        vstd::utf8::encode_utf8_valid_utf8(text);
        vstd::utf8::encode_utf8_valid_utf8(suffix);
        vstd::utf8::encode_utf8_decode_utf8(text);
        vstd::utf8::encode_utf8_decode_utf8(suffix);
        assert(vstd::utf8::is_char_boundary(t, at)) by {
            if suffix.len() == 0 {
                vstd::utf8::is_char_boundary_start_end_of_seq(t);
            } else {
                vstd::utf8::encode_utf8_first_scalar(suffix);
                vstd::utf8::is_char_boundary_start_end_of_seq(s);
                vstd::utf8::is_char_boundary_iff_not_is_continuation_byte(s, 0);
                assert(t[at] == s[0]);
                vstd::utf8::is_char_boundary_iff_not_is_continuation_byte(t, at);
            }
        }
        vstd::utf8::decode_utf8_split(t, at);
        assert(t.subrange(at, t.len() as int) =~= s);
        let head = decode_utf8(t.subrange(0, at));
        assert(text == head + suffix);
        assert(text.skip(text.len() - suffix.len()) =~= suffix);
    }
}

/// Trimming the front of a text drops some number of `c` characters, and what
/// is left does not begin with one.
pub proof fn lemma_trim_start(text: Seq<char>, c: char, n: int)
    requires
        0 <= n <= text.len(),
        forall|k: int| 0 <= k < n ==> text[k] == c,
        n < text.len() ==> text[n] != c,
    ensures
        trim_start(text, c) == text.skip(n),
    decreases n,
{
    if n == 0 {
        assert(text.skip(0) =~= text);
    } else {
        lemma_trim_start(text.drop_first(), c, n - 1);
        assert(text.drop_first().skip(n - 1) =~= text.skip(n));
    }
}

/// Trimming the back of a text drops some number of `c` characters, and what
/// is left does not end with one.
pub proof fn lemma_trim_end(text: Seq<char>, c: char, n: int)
    requires
        0 <= n <= text.len(),
        forall|k: int| n <= k < text.len() ==> text[k] == c,
        n > 0 ==> text[n - 1] != c,
    ensures
        trim_end(text, c) == text.take(n),
    decreases text.len() - n,
{
    if n == text.len() {
        assert(text.take(n) =~= text);
    } else {
        lemma_trim_end(text.drop_last(), c, n);
        assert(text.drop_last().take(n) =~= text.take(n));
    }
}

/// A text ends with another exactly where it is some text with the other put
/// behind it.
pub proof fn suffix_is_put_behind(text: Seq<char>, suffix: Seq<char>)
    ensures
        has_suffix(text, suffix) <==> exists|head: Seq<char>| text == #[trigger] (head + suffix),
{
    if has_suffix(text, suffix) {
        let head = text.take(text.len() - suffix.len());
        assert(text =~= head + suffix);
    }
    if exists|head: Seq<char>| text == #[trigger] (head + suffix) {
        let head = choose|head: Seq<char>| text == #[trigger] (head + suffix);
        assert(text.skip(text.len() - suffix.len()) =~= suffix);
    }
}

/// However many NUL characters stand before and behind a text, trimming them
/// gives back that text, unless it begins or ends with a NUL character itself.
pub proof fn outer_nuls_are_trimmed(before: nat, text: Seq<char>, after: nat)
    requires
        text.len() > 0 ==> text.first() != '\0' && text.last() != '\0',
    ensures
        trim_nul(Seq::new(before, |i: int| '\0') + text + Seq::new(after, |i: int| '\0')) == text,
{
    let head = Seq::new(before, |i: int| '\0');
    let tail = Seq::new(after, |i: int| '\0');
    let whole = head + text + tail;
    if text.len() == 0 {
        lemma_trim_start(whole, '\0', whole.len() as int);
        assert(whole.skip(whole.len() as int) =~= text);
    } else {
        lemma_trim_start(whole, '\0', before as int);
        assert(whole.skip(before as int) =~= text + tail);
        lemma_trim_end(text + tail, '\0', text.len() as int);
        assert((text + tail).take(text.len() as int) =~= text);
    }
}

/// A text fits exactly where its UTF-8 encoding has no more bytes than there is
/// room for.
pub proof fn fits_by_its_bytes(text: Seq<char>, capacity: nat)
    ensures
        fits(text, capacity) <==> encode_utf8(text).len() <= capacity,
{
}

/// Whether `text` ends with `suffix`.
pub fn ends_with(text: &str, suffix: &str) -> (r: bool)
    ensures
        r == has_suffix(text@, suffix@),
{
    let t = text.as_bytes();
    let s = suffix.as_bytes();
    proof {
        lemma_suffix_bytes(text@, suffix@);
    }
    if s.len() > t.len() {
        return false;
    }
    let total: usize = t.len();
    let at: usize = total - s.len();
    let mut i: usize = 0;
    while i < s.len()
        invariant
            i <= s@.len(),
            total == t@.len(),
            s@ == encode_utf8(suffix@),
            t@ == encode_utf8(text@),
            at == t@.len() - s@.len(),
            forall|k: int| 0 <= k < i ==> t@[at + k] == s@[k],
            has_suffix(text@, suffix@) <==> t@.skip(at as int) == s@,
        decreases s@.len() - i,
    {
        if t[at + i] != s[i] {
            assert(t@.skip(at as int)[i as int] != s@[i as int]);
            return false;
        }
        i += 1;
    }
    assert(t@.skip(at as int) =~= s@);
    true
}

/// `text` without the NUL characters at its two ends.
pub fn trim_nul_matches(text: &str) -> (r: &str)
    ensures
        r@ == trim_nul(text@),
        encode_utf8(r@).len() <= encode_utf8(text@).len(),
{
    let n: usize = text.unicode_len();
    let mut from: usize = 0;
    while from < n && text.get_char(from) == '\0'
        invariant
            from <= n == text@.len(),
            forall|k: int| 0 <= k < from ==> text@[k] == '\0',
        ensures
            from <= n,
            forall|k: int| 0 <= k < from ==> text@[k] == '\0',
            from < n ==> text@[from as int] != '\0',
        decreases n - from,
    {
        from += 1;
    }
    let mut to: usize = n;
    while from < to && text.get_char(to - 1) == '\0'
        invariant
            from <= to <= n == text@.len(),
            forall|k: int| to <= k < n ==> text@[k] == '\0',
        ensures
            from <= to <= n,
            forall|k: int| to <= k < n ==> text@[k] == '\0',
            from < to ==> text@[to - 1] != '\0',
        decreases to - from,
    {
        to -= 1;
    }
    proof {
        lemma_trim_start(text@, '\0', from as int);
        lemma_trim_end(text@.skip(from as int), '\0', to - from);
        assert(text@.skip(from as int).take(to - from) =~= text@.subrange(from as int, to as int));
        lemma_subrange_fits(text@, from as int, to as int);
    }
    text.substring_char(from, to)
}

} // verus!
