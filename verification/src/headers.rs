//! The header map of an outgoing request, as the `http` crate keeps it, and
//! what setting a header does to it.
//!
//! The map, its names and its values are the `http` crate's own. What this
//! module holds of them without proof is in the declarations of the three
//! types, the three functions that name their contents, and the three
//! functions `header_name_from_str`, `header_value_from_str` and
//! `header_map_try_insert`, each of which makes one call into that crate.
//! Everything else here is proved from those.

use http::header::{
    HeaderMap, HeaderName, HeaderValue, InvalidHeaderName, InvalidHeaderValue, MaxSizeReached,
};
use std::str::FromStr;
use vstd::prelude::*;
use vstd::utf8::encode_utf8;

verus! {

#[verifier::external_type_specification]
#[verifier::external_body]
pub struct ExHeaderName(HeaderName);

#[verifier::external_type_specification]
#[verifier::external_body]
pub struct ExHeaderValue(HeaderValue);

#[verifier::external_type_specification]
#[verifier::external_body]
#[verifier::reject_recursive_types(T)]
pub struct ExHeaderMap<T>(HeaderMap<T>);

#[verifier::external_type_specification]
#[verifier::external_body]
pub struct ExInvalidHeaderName(InvalidHeaderName);

#[verifier::external_type_specification]
#[verifier::external_body]
pub struct ExInvalidHeaderValue(InvalidHeaderValue);

#[verifier::external_type_specification]
#[verifier::external_body]
pub struct ExMaxSizeReached(MaxSizeReached);

/// The bytes of a header name: what `HeaderName::as_str` gives.
pub uninterp spec fn header_name_bytes(name: HeaderName) -> Seq<u8>;

/// The bytes of a header value: what `HeaderValue::as_bytes` gives.
pub uninterp spec fn header_value_bytes(value: HeaderValue) -> Seq<u8>;

/// What a header map holds: for each name that has a value, the bytes of its
/// values, in the order in which `HeaderMap::get_all` gives them. A name is
/// the key by its bytes.
pub uninterp spec fn header_map_entries(map: HeaderMap<HeaderValue>) -> Map<Seq<u8>, Seq<Seq<u8>>>;

/// The longest header name, in bytes.
pub const MAX_HEADER_NAME_LEN: usize = 65535;

/// Whether the byte `b` may stand in a header name: an ASCII letter, a digit,
/// or one of ``! # $ % & ' * + - . ^ _ ` | ~``.
pub open spec fn is_name_byte(b: u8) -> bool {
    ||| 0x30 <= b <= 0x39
    ||| 0x41 <= b <= 0x5a
    ||| 0x5e <= b <= 0x7a
    ||| b == 0x21
    ||| 0x23 <= b <= 0x27
    ||| b == 0x2a
    ||| b == 0x2b
    ||| b == 0x2d
    ||| b == 0x2e
    ||| b == 0x7c
    ||| b == 0x7e
}

/// Whether the byte `b` may stand in a header value: any byte from the space
/// on but the delete character, or a tab.
pub open spec fn is_value_byte(b: u8) -> bool {
    (b >= 32 && b != 127) || b == 9
}

/// The byte `b`, an upper-case ASCII letter turned into its lower-case one.
pub open spec fn lower_case_byte(b: u8) -> u8 {
    if 0x41 <= b <= 0x5a {
        (b + 0x20) as u8
    } else {
        b
    }
}

/// The bytes `bytes`, each upper-case ASCII letter turned into its lower-case
/// one.
pub open spec fn lower_case(bytes: Seq<u8>) -> Seq<u8> {
    Seq::new(bytes.len(), |i: int| lower_case_byte(bytes[i]))
}

/// Whether `bytes` can be a header name: not empty, not longer than
/// `MAX_HEADER_NAME_LEN`, and made of bytes that may stand in a name.
pub open spec fn is_header_name(bytes: Seq<u8>) -> bool {
    &&& 1 <= bytes.len() <= MAX_HEADER_NAME_LEN
    &&& forall|i: int| 0 <= i < bytes.len() ==> is_name_byte(#[trigger] bytes[i])
}

/// Whether `bytes` can be a header value: made of bytes that may stand in a
/// value.
pub open spec fn is_header_value(bytes: Seq<u8>) -> bool {
    forall|i: int| 0 <= i < bytes.len() ==> is_value_byte(#[trigger] bytes[i])
}

/// `HeaderName::from_str` of the `http` crate. It takes `key` if and only if
/// `key` can be a header name, and the name that it gives is `key` in lower
/// case.
#[verifier::external_body]
pub(crate) fn header_name_from_str(key: &str) -> (parsed: Result<HeaderName, InvalidHeaderName>)
    ensures
        parsed is Ok <==> is_header_name(encode_utf8(key@)),
        parsed matches Ok(name) ==> header_name_bytes(name) == lower_case(encode_utf8(key@)),
{
    HeaderName::from_str(key)
}

/// `HeaderValue::from_str` of the `http` crate. It takes `value` if and only
/// if `value` can be a header value, and the value that it gives holds the
/// bytes of `value`.
#[verifier::external_body]
pub(crate) fn header_value_from_str(value: &str) -> (parsed: Result<
    HeaderValue,
    InvalidHeaderValue,
>)
    ensures
        parsed is Ok <==> is_header_value(encode_utf8(value@)),
        parsed matches Ok(v) ==> header_value_bytes(v) == encode_utf8(value@),
{
    HeaderValue::from_str(value)
}

/// `HeaderMap::try_insert` of the `http` crate. Where it succeeds, `name` has
/// `value` for its one value, whatever values it had, and the other names
/// have what they had. Where it fails, because the map cannot grow further,
/// the map holds what it held. Which of the two happens is the map's to
/// decide.
#[verifier::external_body]
pub(crate) fn header_map_try_insert(
    map: &mut HeaderMap<HeaderValue>,
    name: HeaderName,
    value: HeaderValue,
) -> (inserted: Result<Option<HeaderValue>, MaxSizeReached>)
    ensures
        inserted is Ok ==> header_map_entries(*final(map)) == header_map_entries(*old(map)).insert(
            header_name_bytes(name),
            seq![header_value_bytes(value)],
        ),
        inserted is Err ==> header_map_entries(*final(map)) == header_map_entries(*old(map)),
{
    map.try_insert(name, value)
}

} // verus!
