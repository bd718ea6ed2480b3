//! HTTP header fields, held in `http::HeaderMap`.
//!
//! The map itself is not verified. Its contents are named by [`header_fields`],
//! and the few operations the proxy needs are wrapped with contracts over that
//! name. Everything built on top of them is verified against those contracts.

use crate::text::{optional_text, push_char, to_chars};
use http::header::{HeaderMap, HeaderName, HeaderValue};
use vstd::prelude::*;

verus! {

#[verifier::external_type_specification]
#[verifier::external_body]
#[verifier::reject_recursive_types(T)]
pub struct ExHeaderMap<T>(HeaderMap<T>);

#[verifier::external_type_specification]
#[verifier::external_body]
pub struct ExHeaderValue(HeaderValue);

/// What a header map holds: under each field name, in lower case, the values
/// stored for it, oldest first, each as its bytes.
pub uninterp spec fn header_fields(map: HeaderMap<HeaderValue>) -> Map<Seq<char>, Seq<Seq<u8>>>;

/// A character the proxy uses in field names: a lower-case letter, a digit or a hyphen.
pub open spec fn is_name_char(c: char) -> bool {
    ('a' <= c && c <= 'z') || ('0' <= c && c <= '9') || c == '-'
}

/// A field name as the proxy writes them: one to 64 characters, each a
/// lower-case letter, a digit or a hyphen.
pub open spec fn is_field_name(name: Seq<char>) -> bool {
    &&& 1 <= name.len() <= 64
    &&& forall|i: int| 0 <= i < name.len() ==> is_name_char(#[trigger] name[i])
}

/// A byte that may stand in the text of a field value: visible ASCII, a space or a tab.
pub open spec fn is_text_byte(b: u8) -> bool {
    (32 <= b && b < 127) || b == 9
}

/// A character that may stand in the text of a field value: visible ASCII,
/// a space or a tab.
pub open spec fn is_text_char(c: char) -> bool {
    (' ' <= c && c <= '~') || c == '\t'
}

/// Text that a field value can carry unchanged.
pub open spec fn is_field_text(text: Seq<char>) -> bool {
    forall|i: int| 0 <= i < text.len() ==> is_text_char(#[trigger] text[i])
}

/// The bytes of a text of ASCII characters.
pub open spec fn text_bytes(text: Seq<char>) -> Seq<u8> {
    Seq::new(text.len(), |i: int| text[i] as u8)
}

/// The first value stored under `name`, if there is one.
pub open spec fn first_value(fields: Map<Seq<char>, Seq<Seq<u8>>>, name: Seq<char>) -> Option<Seq<u8>> {
    if fields.contains_key(name) {
        Some(fields[name].first())
    } else {
        None
    }
}

/// `HeaderMap::contains_key`: whether any value is stored under `name`.
#[verifier::external_body]
pub(crate) fn has_header(map: &HeaderMap<HeaderValue>, name: &str) -> (present: bool)
    requires
        is_field_name(name@),
    ensures
        present == header_fields(*map).contains_key(name@),
{
    map.contains_key(name)
}

/// `HeaderMap::get`: the bytes of the first value stored under `name`.
#[verifier::external_body]
pub(crate) fn first_header(map: &HeaderMap<HeaderValue>, name: &str) -> (value: Option<Vec<u8>>)
    requires
        is_field_name(name@),
    ensures
        value is Some == header_fields(*map).contains_key(name@),
        value matches Some(bytes) ==> bytes@ == header_fields(*map)[name@].first(),
{
    match map.get(name) {
        Some(v) => Some(v.as_bytes().to_vec()),
        None => None,
    }
}

/// `HeaderMap::remove`: every value stored under `name` leaves the map, all
/// other fields stay; the result says whether there was one.
#[verifier::external_body]
pub(crate) fn remove_header(map: &mut HeaderMap<HeaderValue>, name: &str) -> (removed: bool)
    requires
        is_field_name(name@),
    ensures
        header_fields(*final(map)) == header_fields(*old(map)).remove(name@),
        removed == header_fields(*old(map)).contains_key(name@),
{
    map.remove(name).is_some()
}

/// The number of names below which a header map never refuses a field. The
/// map refuses only when its table would have to grow beyond 32768 slots,
/// and it asks for that no sooner than at a fifth of that many names.
pub open spec fn roomy_names() -> nat {
    6554
}

/// Whether a header map is sure to take one more field: it holds fewer than
/// [`roomy_names`] names.
pub open spec fn has_room(fields: Map<Seq<char>, Seq<Seq<u8>>>) -> bool {
    fields.dom().finite() && fields.dom().len() < roomy_names()
}

/// `HeaderMap::try_insert`: on success `value` alone is stored under `name`,
/// in place of whatever was there, and all other fields stay. The map refuses
/// when it cannot grow any further, and is then unchanged; it does not
/// refuse while it holds fewer than 6554 names.
#[verifier::external_body]
pub(crate) fn set_header(map: &mut HeaderMap<HeaderValue>, name: &str, value: &str) -> (stored: bool)
    requires
        is_field_name(name@),
        is_field_text(value@),
    ensures
        stored ==> header_fields(*final(map)) == header_fields(*old(map)).insert(
            name@,
            seq![text_bytes(value@)],
        ),
        !stored ==> header_fields(*final(map)) == header_fields(*old(map)),
        has_room(header_fields(*old(map))) ==> stored,
{
    match (HeaderName::from_bytes(name.as_bytes()), HeaderValue::from_str(value)) {
        (Ok(n), Ok(v)) => map.try_insert(n, v).is_ok(),
        _ => false,
    }
}

/// The text that a field value shows: its bytes as characters where every
/// one of them is visible ASCII, a space or a tab, and nothing otherwise.
pub open spec fn shown_text(bytes: Seq<u8>) -> Option<Seq<char>> {
    if forall|i: int| 0 <= i < bytes.len() ==> is_text_byte(#[trigger] bytes[i]) {
        Some(Seq::new(bytes.len(), |i: int| bytes[i] as char))
    } else {
        None
    }
}

/// The text of the first value stored under `name`, where there is such a
/// value and it shows as text.
pub open spec fn field_text(fields: Map<Seq<char>, Seq<Seq<u8>>>, name: Seq<char>) -> Option<Seq<char>> {
    match first_value(fields, name) {
        Some(bytes) => shown_text(bytes),
        None => None,
    }
}

/// Whether a text can be carried by a field value unchanged.
pub fn is_text(text: &str) -> (r: bool)
    ensures
        r == is_field_text(text@),
{
    let chars = to_chars(text);
    let mut i: usize = 0;
    while i < chars.len()
        invariant
            i <= chars.len(),
            chars@ == text@,
            forall|j: int| 0 <= j < i ==> is_text_char(#[trigger] text@[j]),
        decreases chars.len() - i,
    {
        let c = chars[i];
        if !((c >= ' ' && c <= '~') || c == '\t') {
            assert(!is_text_char(text@[i as int]));
            return false;
        }
        i += 1;
    }
    true
}

/// The text that the bytes of a field value show.
pub fn bytes_to_text(bytes: &Vec<u8>) -> (text: Option<String>)
    ensures
        optional_text(text) == shown_text(bytes@),
{
    let mut text = String::new();
    let mut i: usize = 0;
    while i < bytes.len()
        invariant
            i <= bytes.len(),
            text@.len() == i,
            forall|j: int| 0 <= j < i ==> is_text_byte(#[trigger] bytes@[j]),
            forall|j: int| 0 <= j < i ==> text@[j] == bytes@[j] as char,
        decreases bytes.len() - i,
    {
        let b = bytes[i];
        if !((b >= 32 && b < 127) || b == 9) {
            assert(!is_text_byte(bytes@[i as int]));
            return None;
        }
        push_char(&mut text, b as char);
        i += 1;
    }
    assert(text@ =~= Seq::new(bytes@.len(), |i: int| bytes@[i] as char));
    Some(text)
}

/// The text of the first value stored under `name`.
pub(crate) fn header_text(map: &HeaderMap<HeaderValue>, name: &str) -> (text: Option<String>)
    requires
        is_field_name(name@),
    ensures
        optional_text(text) == field_text(header_fields(*map), name@),
{
    match first_header(map, name) {
        Some(bytes) => bytes_to_text(&bytes),
        None => None,
    }
}

} // verus!
