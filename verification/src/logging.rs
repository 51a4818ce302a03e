//! What the request logger decides: the text it shows for a header, and how it
//! marks a response status and the time a request took.

use vstd::prelude::*;
use vstd::utf8::{decode_utf8, encode_utf8, valid_utf8};

verus! {

broadcast use vstd::utf8::group_utf8_lib;

/// How a response status is marked in the log.
#[derive(Debug, Clone, Copy, PartialEq, Eq, Structural)]
pub enum StatusStyle {
    /// A client or server error (400 to 599): red.
    Failure,
    /// A success (200 to 299): green.
    Success,
    /// Anything else: yellow.
    Other,
}

/// How the time a request took is marked in the log.
#[derive(Debug, Clone, Copy, PartialEq, Eq, Structural)]
pub enum ElapsedStyle {
    /// More than 500 ms: red.
    Slow,
    /// More than 200 ms: yellow.
    Sluggish,
    /// More than 50 ms: bright yellow.
    Noticeable,
    /// Anything else: not marked.
    Quick,
}

/// A byte that a header value may hold and still be shown as text: visible ASCII
/// or a tab.
pub open spec fn is_visible_ascii(b: u8) -> bool {
    (32 <= b && b < 127) || b == 9
}

/// Header bytes that read as text.
pub open spec fn is_header_text(bytes: Seq<u8>) -> bool {
    forall|i: int| 0 <= i < bytes.len() ==> is_visible_ascii(#[trigger] bytes[i])
}

/// The characters of ASCII bytes.
pub open spec fn ascii_chars(bytes: Seq<u8>) -> Seq<char> {
    Seq::new(bytes.len(), |i: int| bytes[i] as char)
}

/// The text the logger shows for a header: its value where that reads as text,
/// the fallback message otherwise.
pub open spec fn spec_header_map(header: Option<Seq<u8>>, msg: Seq<char>) -> Seq<char> {
    match header {
        Some(bytes) => if is_header_text(bytes) {
            ascii_chars(bytes)
        } else {
            msg
        },
        None => msg,
    }
}

/// `String::from_utf8` on a copy of the bytes.
/// Claimed of it, as its documentation says: it fails exactly on bytes that are
/// not UTF-8, and otherwise gives the string they encode.
#[verifier::external_body]
fn string_from_utf8(bytes: &[u8]) -> (res: Option<String>)
    ensures
        res is Some <==> valid_utf8(bytes@),
        res matches Some(s) ==> s@ == decode_utf8(bytes@),
{
    String::from_utf8(bytes.to_vec()).ok()
}

proof fn lemma_header_text_decodes(bytes: Seq<u8>)
    requires
        is_header_text(bytes),
    ensures
        valid_utf8(bytes),
        decode_utf8(bytes) == ascii_chars(bytes),
{
    let chars = ascii_chars(bytes);
    assert forall|i: int| 0 <= i < chars.len() implies '\0' <= #[trigger] chars[i] <= '\u{7f}' by {
        let b = bytes[i];
        assert(is_visible_ascii(b));
        assert((b as char) as u32 == b as u32);
    }
    vstd::utf8::is_ascii_chars_encode_utf8(chars);
    assert forall|i: int| 0 <= i < bytes.len() implies encode_utf8(chars)[i] == bytes[i] by {
        let b = bytes[i];
        assert(chars[i] == b as char);
        assert((b as char) as u8 == b);
    }
    assert(encode_utf8(chars) =~= bytes);
    vstd::utf8::encode_utf8_valid_utf8(chars);
    vstd::utf8::encode_utf8_decode_utf8(chars);
}

/// Whether every byte of a header value is visible ASCII or a tab.
fn header_is_text(bytes: &[u8]) -> (res: bool)
    ensures
        res == is_header_text(bytes@),
{
    let mut i: usize = 0;
    while i < bytes.len()
        invariant
            i <= bytes@.len(),
            forall|j: int| 0 <= j < i ==> is_visible_ascii(#[trigger] bytes@[j]),
        decreases bytes@.len() - i,
    {
        let b = bytes[i];
        if !((32 <= b && b < 127) || b == 9) {
            return false;
        }
        i = i + 1;
    }
    true
}

/// The text of a header value (given by its bytes) where it reads as text, else
/// the fallback message.
pub fn header_map(header: Option<&[u8]>, msg: String) -> (res: String)
    ensures
        res@ == spec_header_map(
            match header {
                Some(h) => Some(h@),
                None => None,
            },
            msg@,
        ),
{
    match header {
        Some(bytes) => {
            if header_is_text(bytes) {
                proof { lemma_header_text_decodes(bytes@); }
                match string_from_utf8(bytes) {
                    Some(text) => text,
                    None => msg,
                }
            } else {
                msg
            }
        },
        None => msg,
    }
}

/// A header value made only of bytes 0x20 to 0x7E and tabs is shown as itself, one
/// character per byte; a value holding any other byte, and a missing value, are
/// shown as the fallback message.
pub proof fn law_header_shown_as_text(bytes: Seq<u8>, msg: Seq<char>)
    ensures
        (forall|i: int| 0 <= i < bytes.len() ==> (0x20 <= #[trigger] bytes[i] <= 0x7e || bytes[i] == 9))
            ==> spec_header_map(Some(bytes), msg) == Seq::new(bytes.len(), |i: int| bytes[i] as char),
        (exists|i: int| 0 <= i < bytes.len() && !(0x20 <= #[trigger] bytes[i] <= 0x7e || bytes[i] == 9))
            ==> spec_header_map(Some(bytes), msg) == msg,
        spec_header_map(None, msg) == msg,
{
    if forall|i: int| 0 <= i < bytes.len() ==> (0x20 <= #[trigger] bytes[i] <= 0x7e || bytes[i] == 9) {
        assert(is_header_text(bytes));
        assert(ascii_chars(bytes) =~= Seq::new(bytes.len(), |i: int| bytes[i] as char));
    } else {
        let i = choose|i: int| 0 <= i < bytes.len() && !(0x20 <= #[trigger] bytes[i] <= 0x7e || bytes[i] == 9);
        assert(!is_visible_ascii(bytes[i]));
    }
}

/// How a response with the given status code is marked.
pub fn status_style(status: u16) -> (res: StatusStyle)
    ensures
        res == (if 400 <= status < 600 {
            StatusStyle::Failure
        } else if 200 <= status < 300 {
            StatusStyle::Success
        } else {
            StatusStyle::Other
        }),
{
    let is_client_error = 400 <= status && status < 500;
    let is_server_error = 500 <= status && status < 600;
    let is_success = 200 <= status && status < 300;
    if is_client_error || is_server_error {
        StatusStyle::Failure
    } else if is_success {
        StatusStyle::Success
    } else {
        StatusStyle::Other
    }
}

/// How a request that took `millis` milliseconds is marked.
pub fn elapsed_style(millis: u128) -> (res: ElapsedStyle)
    ensures
        res == (if millis > 500 {
            ElapsedStyle::Slow
        } else if millis > 200 {
            ElapsedStyle::Sluggish
        } else if millis > 50 {
            ElapsedStyle::Noticeable
        } else {
            ElapsedStyle::Quick
        }),
{
    if millis > 500 {
        ElapsedStyle::Slow
    } else if millis > 200 {
        ElapsedStyle::Sluggish
    } else if millis > 50 {
        ElapsedStyle::Noticeable
    } else {
        ElapsedStyle::Quick
    }
}

} // verus!
