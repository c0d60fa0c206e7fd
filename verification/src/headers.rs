//! Reading and changing the header map of a request or of a response.
//!
//! The header map is that of the `http` crate. What it holds is spoken of as a map from the
//! name of a field, in lower case, to the values of that field in the order in which they
//! were added. A value is spoken of as its text where it is made of visible ASCII
//! characters and tabs, and as no text otherwise.

use vstd::prelude::*;
use vstd::string::*;

verus! {

/// The header map of the `http` crate. What a map of header values holds is spoken of
/// with [`header_fields`].
#[verifier::external_type_specification]
#[verifier::external_body]
#[verifier::reject_recursive_types(T)]
pub struct ExHeaderMap<T>(http::HeaderMap<T>);

/// A header value of the `http` crate. Nothing is known of what it holds.
#[verifier::external_type_specification]
#[verifier::external_body]
pub struct ExHeaderValue(http::HeaderValue);

/// The fields that a header map holds: for the name of each field, in lower case, the
/// values of the field in the order in which they were added.
pub uninterp spec fn header_fields(map: http::HeaderMap<http::HeaderValue>) -> Map<
    Seq<char>,
    Seq<Option<Seq<char>>>,
>;

/// The number of fields that a header map holds, each field counted once, however many
/// values it has.
pub uninterp spec fn header_count(map: http::HeaderMap<http::HeaderValue>) -> nat;

/// A header map that holds fewer fields than this is never out of room: it takes every
/// field whose name and value it accepts. The map refuses a field when it would have to
/// grow its table beyond 32768 places, which it does not try before it holds more fields
/// than this.
pub const HEADER_ROOM: usize = 4096;

/// Whether the byte may stand in the name of a field: a letter, a digit, or one of the
/// characters ``!"#$%&'*+-.^_`|~``.
pub open spec fn is_name_byte(b: u8) -> bool {
    (33 <= b && b <= 39) || b == 42 || b == 43 || b == 45 || b == 46 || (48 <= b && b <= 57) || (
    65 <= b && b <= 90) || (94 <= b && b <= 122) || b == 124 || b == 126
}

/// Whether the bytes are the name of a field as the header map accepts it: not empty,
/// shorter than 65536 bytes, and made of bytes that may stand in a name.
pub open spec fn is_field_name(name: Seq<u8>) -> bool {
    &&& 0 < name.len() <= 65535
    &&& forall|i: int| 0 <= i < name.len() ==> is_name_byte(#[trigger] name[i])
}

/// Whether the text is the name of a field as the header map accepts it.
pub open spec fn is_name_text(name: Seq<char>) -> bool {
    &&& 0 < name.len() <= 65535
    &&& forall|i: int|
        0 <= i < name.len() ==> (#[trigger] name[i] as u32) < 128 && is_name_byte(name[i] as u8)
}

/// Whether the byte may stand in the value of a field: any byte but the control
/// characters, of which only the tab may.
pub open spec fn is_value_byte(b: u8) -> bool {
    (b >= 32 && b != 127) || b == 9
}

/// Whether the bytes are the value of a field as the header map accepts it.
pub open spec fn is_field_value(value: Seq<u8>) -> bool {
    forall|i: int| 0 <= i < value.len() ==> is_value_byte(#[trigger] value[i])
}

/// Whether the text is the value of a field as the header map accepts it: it holds no
/// control character but the tab.
pub open spec fn is_value_text(value: Seq<char>) -> bool {
    forall|i: int|
        0 <= i < value.len() ==> ((#[trigger] value[i] as u32) >= 32 && value[i] as u32 != 127)
            || value[i] == '\t'
}

/// The number of fields of a map after a value was given to the field of the name `key`,
/// where the map held `count` fields before.
pub open spec fn count_with(
    fields: Map<Seq<char>, Seq<Option<Seq<char>>>>,
    count: nat,
    key: Seq<char>,
) -> nat {
    if fields.contains_key(key) {
        count
    } else {
        count + 1
    }
}

/// The letter in lower case, where the character is an upper-case ASCII letter.
pub open spec fn lower(c: char) -> char {
    if 'A' <= c && c <= 'Z' {
        ((c as u8) + 32) as char
    } else {
        c
    }
}

/// The name of a field as the header map files it: in lower case.
pub open spec fn field_key(name: Seq<char>) -> Seq<char> {
    name.map_values(|c: char| lower(c))
}

/// Whether the character is a visible ASCII character, a space or a tab.
pub open spec fn is_visible(c: char) -> bool {
    (32 <= c as u32 && (c as u32) < 127) || c == '\t'
}

/// A value as the header map hands it out: its text, where it is made of visible ASCII
/// characters, spaces and tabs alone.
pub open spec fn readable(value: Seq<char>) -> Option<Seq<char>> {
    if forall|i: int| 0 <= i < value.len() ==> is_visible(#[trigger] value[i]) {
        Some(value)
    } else {
        None
    }
}

/// The text of a string that may be there.
pub open spec fn text_view(text: Option<String>) -> Option<Seq<char>> {
    match text {
        Some(text) => Some(text@),
        None => None,
    }
}

/// The first value of a field, where the map holds the field.
pub open spec fn first_value(
    fields: Map<Seq<char>, Seq<Option<Seq<char>>>>,
    key: Seq<char>,
) -> Option<Option<Seq<char>>> {
    if fields.contains_key(key) && fields[key].len() > 0 {
        Some(fields[key][0])
    } else {
        None
    }
}

/// The text of the first value of a field, where the map holds the field and the value is
/// text.
pub open spec fn first_text(
    fields: Map<Seq<char>, Seq<Option<Seq<char>>>>,
    key: Seq<char>,
) -> Option<Seq<char>> {
    match first_value(fields, key) {
        Some(Some(text)) => Some(text),
        _ => None,
    }
}

/// The values of a field, and no value where the map does not hold the field.
pub open spec fn values_of(
    fields: Map<Seq<char>, Seq<Option<Seq<char>>>>,
    key: Seq<char>,
) -> Seq<Option<Seq<char>>> {
    if fields.contains_key(key) {
        fields[key]
    } else {
        Seq::empty()
    }
}

/// The bytes as characters, each byte as the character with its number.
pub open spec fn ascii(bytes: Seq<u8>) -> Seq<char> {
    bytes.map_values(|b: u8| b as char)
}

/// The fields of a header map after a value was put behind the values of a field.
pub open spec fn appended_fields(
    fields: Map<Seq<char>, Seq<Option<Seq<char>>>>,
    name: Seq<u8>,
    value: Seq<u8>,
) -> Map<Seq<char>, Seq<Option<Seq<char>>>> {
    fields.insert(
        field_key(ascii(name)),
        values_of(fields, field_key(ascii(name))).push(readable(ascii(value))),
    )
}

/// The values that a list of entries gives for a name, in the order of the list.
pub open spec fn values_named(entries: Seq<(String, Option<String>)>, name: Seq<char>) -> Seq<
    Option<Seq<char>>,
>
    decreases entries.len(),
{
    if entries.len() == 0 {
        Seq::empty()
    } else {
        let before = values_named(entries.drop_last(), name);
        if entries.last().0@ == name {
            before.push(text_view(entries.last().1))
        } else {
            before
        }
    }
}

/// Whether a list of entries holds what the header map holds: for each name the values of
/// that field, in their order. The order of entries with different names is left open.
pub open spec fn lists_fields(
    entries: Seq<(String, Option<String>)>,
    fields: Map<Seq<char>, Seq<Option<Seq<char>>>>,
) -> bool {
    forall|name: Seq<char>| #[trigger] values_named(entries, name) == values_of(fields, name)
}

/// The fields of a header map that holds nothing.
pub open spec fn no_fields() -> Map<Seq<char>, Seq<Option<Seq<char>>>> {
    Map::empty()
}

/// Calls `HeaderMap::new`, which makes a map without fields.
#[verifier::external_body]
pub(crate) fn header_map_new() -> (headers: http::HeaderMap<http::HeaderValue>)
    ensures
        header_fields(headers) == no_fields(),
        header_count(headers) == 0,
{
    http::HeaderMap::new()
}

/// Calls `HeaderMap::get` with the name as a string, which finds the field of that name
/// without regard to case and returns its first value, and no value where the name is not
/// that of a field of the map. The value is handed out as `HeaderValue::to_str` gives it.
#[verifier::external_body]
pub(crate) fn header_get(map: &http::HeaderMap<http::HeaderValue>, name: &str) -> (value: Option<Option<String>>)
    ensures
        match value {
            Some(text) => first_value(header_fields(*map), field_key(name@)) == Some(
                text_view(text),
            ),
            None => first_value(header_fields(*map), field_key(name@)) is None,
        },
{
    map.get(name).map(|value| value.to_str().ok().map(str::to_owned))
}

/// Makes a name with `HeaderName::from_bytes` and a value with `HeaderValue::from_str`, and
/// calls `HeaderMap::try_insert`, which leaves the field of that name with the one value.
/// Returns whether that was done: it is not where the name or the value is refused, or
/// where the map is full, and the map then is as it was. A map with fewer than
/// [`HEADER_ROOM`] fields is not full.
#[verifier::external_body]
pub(crate) fn header_insert(map: &mut http::HeaderMap<http::HeaderValue>, name: &str, value: &str) -> (inserted: bool)
    ensures
        header_fields(*final(map)) == if inserted {
            header_fields(*old(map)).insert(field_key(name@), seq![readable(value@)])
        } else {
            header_fields(*old(map))
        },
        header_count(*final(map)) == if inserted {
            count_with(header_fields(*old(map)), header_count(*old(map)), field_key(name@))
        } else {
            header_count(*old(map))
        },
        inserted ==> is_name_text(name@) && is_value_text(value@),
        is_name_text(name@) && is_value_text(value@) && header_count(*old(map)) < HEADER_ROOM
            ==> inserted,
{
    match (http::header::HeaderName::from_bytes(name.as_bytes()), http::HeaderValue::from_str(value)) {
        (Ok(name), Ok(value)) => map.try_insert(name, value).is_ok(),
        _ => false,
    }
}

/// Makes a name with `HeaderName::from_bytes` and a value with `HeaderValue::from_bytes`,
/// and calls `HeaderMap::try_append`, which puts the value behind the values that the field
/// of that name has. Returns whether that was done: it is not where the name or the value
/// is refused, or where the map is full, and the map then is as it was. A map with fewer
/// than [`HEADER_ROOM`] fields is not full.
#[verifier::external_body]
pub(crate) fn header_append(map: &mut http::HeaderMap<http::HeaderValue>, name: &[u8], value: &[u8]) -> (appended: bool)
    ensures
        header_fields(*final(map)) == if appended {
            appended_fields(header_fields(*old(map)), name@, value@)
        } else {
            header_fields(*old(map))
        },
        header_count(*final(map)) == if appended {
            count_with(header_fields(*old(map)), header_count(*old(map)), field_key(ascii(name@)))
        } else {
            header_count(*old(map))
        },
        appended ==> is_field_name(name@) && is_field_value(value@),
        is_field_name(name@) && is_field_value(value@) && header_count(*old(map)) < HEADER_ROOM
            ==> appended,
{
    match (http::header::HeaderName::from_bytes(name), http::HeaderValue::from_bytes(value)) {
        (Ok(name), Ok(value)) => map.try_append(name, value).is_ok(),
        _ => false,
    }
}

/// Walks the map with `HeaderMap::iter`, which yields each field once for each of its
/// values, and hands out each name with `HeaderName::as_str` and each value as
/// `HeaderValue::to_str` gives it.
#[verifier::external_body]
pub(crate) fn header_entries(map: &http::HeaderMap<http::HeaderValue>) -> (entries: Vec<(String, Option<String>)>)
    ensures
        lists_fields(entries@, header_fields(*map)),
{
    map.iter().map(
        |(name, value)| (name.as_str().to_owned(), value.to_str().ok().map(str::to_owned)),
    ).collect()
}

/// The names and the values that the client itself puts into header maps are accepted by
/// them.
pub proof fn lemma_own_fields_accepted()
    ensures
        is_name_text("Transfer-Encoding"@),
        is_value_text("chunked"@),
        is_name_text("user-agent"@),
{
    reveal_strlit("Transfer-Encoding");
    reveal_strlit("chunked");
    reveal_strlit("user-agent");
}

} // verus!
