//! Writing header fields into the header map of an outgoing request.
//!
//! A field whose name or value cannot stand in a header is not dropped in
//! silence, and nothing here panics on it: the functions return an error that
//! says which field it was and what was wrong with it, and leave the map as
//! it was. A caller that wants to fail fast does so on that error.

use crate::headers::{
    header_map_entries, header_map_try_insert, header_name_bytes, header_name_from_str,
    header_value_bytes, header_value_from_str, is_header_name, is_header_value, lower_case,
};
use http::header::{HeaderMap, HeaderName, HeaderValue};
use vstd::prelude::*;
use vstd::utf8::encode_utf8;

verus! {

/// Why a header field was not written.
#[derive(Clone, Copy, Debug, PartialEq, Eq, Structural)]
pub enum HeaderError {
    /// The name of the field cannot be a header name.
    InvalidHeaderName,
    /// The value of the field cannot be a header value.
    InvalidHeaderValue,
    /// The map could not grow to take the field.
    MaxSizeReached,
}

/// Why fields were not written: the first field that could not be, by its
/// place among them, and what stood against it.
#[derive(Clone, Copy, Debug, PartialEq, Eq, Structural)]
pub struct InjectError {
    pub index: usize,
    pub error: HeaderError,
}

/// A header field as text: its name and its value.
pub type FieldText = (Seq<char>, Seq<char>);

/// Whether the field `field` can be written: its name can be a header name
/// and its value a header value.
pub open spec fn is_field(field: FieldText) -> bool {
    is_header_name(encode_utf8(field.0)) && is_header_value(encode_utf8(field.1))
}

/// Whether each of the fields `fields` can be written.
pub open spec fn are_fields(fields: Seq<FieldText>) -> bool {
    forall|i: int| 0 <= i < fields.len() ==> is_field(#[trigger] fields[i])
}

/// The key under which the field `field` is kept: its name in lower case.
pub open spec fn field_key(field: FieldText) -> Seq<u8> {
    lower_case(encode_utf8(field.0))
}

/// The entries of a header map that held `entries`, after the field `field`
/// was set in it: the name of the field, in lower case, has the value of the
/// field for its one value.
pub open spec fn entries_with_field(
    entries: Map<Seq<u8>, Seq<Seq<u8>>>,
    field: FieldText,
) -> Map<Seq<u8>, Seq<Seq<u8>>> {
    entries.insert(field_key(field), seq![encode_utf8(field.1)])
}

/// The entries of a header map that held `entries`, after the fields `fields`
/// were set in it one after the other, so that of two fields of one name the
/// later one stays.
pub open spec fn entries_with_fields(
    entries: Map<Seq<u8>, Seq<Seq<u8>>>,
    fields: Seq<FieldText>,
) -> Map<Seq<u8>, Seq<Seq<u8>>>
    decreases fields.len(),
{
    if fields.len() == 0 {
        entries
    } else {
        entries_with_field(entries_with_fields(entries, fields.drop_last()), fields.last())
    }
}

/// The fields `fields` as text.
pub open spec fn field_texts(fields: Seq<(String, String)>) -> Seq<FieldText> {
    Seq::new(fields.len(), |i: int| (fields[i].0@, fields[i].1@))
}

/// Sets the header `key` to `value` in `headers`, in place of whatever values
/// the header had.
pub fn set_header(headers: &mut HeaderMap<HeaderValue>, key: &str, value: &str) -> (set: Result<
    (),
    HeaderError,
>)
    ensures
        match set {
            Ok(()) => {
                &&& is_field((key@, value@))
                &&& header_map_entries(*final(headers)) == entries_with_field(
                    header_map_entries(*old(headers)),
                    (key@, value@),
                )
            },
            Err(error) => {
                &&& header_map_entries(*final(headers)) == header_map_entries(*old(headers))
                &&& match error {
                    HeaderError::InvalidHeaderName => !is_header_name(encode_utf8(key@)),
                    HeaderError::InvalidHeaderValue => is_header_name(encode_utf8(key@))
                        && !is_header_value(encode_utf8(value@)),
                    HeaderError::MaxSizeReached => is_field((key@, value@)),
                }
            },
        },
{
    let name = match header_name_from_str(key) {
        Ok(name) => name,
        Err(_) => {
            return Err(HeaderError::InvalidHeaderName);
        },
    };
    let value = match header_value_from_str(value) {
        Ok(value) => value,
        Err(_) => {
            return Err(HeaderError::InvalidHeaderValue);
        },
    };
    match header_map_try_insert(headers, name, value) {
        Ok(_) => Ok(()),
        Err(_) => Err(HeaderError::MaxSizeReached),
    }
}

/// Whether `parsed` is the field `field`, taken as a header name and a header
/// value.
pub open spec fn is_parsed(parsed: (HeaderName, HeaderValue), field: FieldText) -> bool {
    &&& header_name_bytes(parsed.0) == field_key(field)
    &&& header_value_bytes(parsed.1) == encode_utf8(field.1)
}

/// Takes each of `fields` as a header name and a header value, or says which
/// is the first that cannot be taken so.
fn parse_fields(fields: &Vec<(String, String)>) -> (parsed: Result<
    Vec<(HeaderName, HeaderValue)>,
    InjectError,
>)
    ensures
        match parsed {
            Ok(parsed) => {
                &&& are_fields(field_texts(fields@))
                &&& parsed@.len() == fields@.len()
                &&& forall|i: int|
                    0 <= i < parsed@.len() ==> is_parsed(
                        #[trigger] parsed@[i],
                        field_texts(fields@)[i],
                    )
            },
            Err(error) => is_first_invalid(field_texts(fields@), error),
        },
{
    let ghost texts = field_texts(fields@);
    let mut parsed: Vec<(HeaderName, HeaderValue)> = Vec::new();
    let mut i: usize = 0;
    while i < fields.len()
        invariant
            i <= fields@.len(),
            texts == field_texts(fields@),
            parsed@.len() == i,
            forall|j: int| 0 <= j < i ==> is_field(#[trigger] texts[j]),
            forall|j: int| 0 <= j < i ==> is_parsed(#[trigger] parsed@[j], texts[j]),
        decreases fields@.len() - i,
    {
        let name = match header_name_from_str(fields[i].0.as_str()) {
            Ok(name) => name,
            Err(_) => {
                return Err(InjectError { index: i, error: HeaderError::InvalidHeaderName });
            },
        };
        let value = match header_value_from_str(fields[i].1.as_str()) {
            Ok(value) => value,
            Err(_) => {
                return Err(InjectError { index: i, error: HeaderError::InvalidHeaderValue });
            },
        };
        parsed.push((name, value));
        i = i + 1;
    }
    Ok(parsed)
}

/// Whether `error` names the first of `fields` that cannot be written, and
/// what is wrong with it: its name, or, its name being right, its value.
pub open spec fn is_first_invalid(fields: Seq<FieldText>, error: InjectError) -> bool {
    &&& error.index < fields.len()
    &&& forall|j: int| 0 <= j < error.index ==> is_field(#[trigger] fields[j])
    &&& match error.error {
        HeaderError::InvalidHeaderName => !is_header_name(encode_utf8(fields[error.index as int].0)),
        HeaderError::InvalidHeaderValue => is_header_name(encode_utf8(fields[error.index as int].0))
            && !is_header_value(encode_utf8(fields[error.index as int].1)),
        HeaderError::MaxSizeReached => false,
    }
}

/// Whether a header map that held `before` may hold `after` once the fields
/// `fields` were to be set in it, with `injected` for the outcome.
///
/// On success every field can be written, and all are set. Where a field
/// cannot be written, the error names the first such field and the map is as
/// it was. Where the map could not grow, the error names the field that found
/// no room, and the fields before it are set.
pub open spec fn is_injection(
    fields: Seq<FieldText>,
    before: Map<Seq<u8>, Seq<Seq<u8>>>,
    after: Map<Seq<u8>, Seq<Seq<u8>>>,
    injected: Result<(), InjectError>,
) -> bool {
    match injected {
        Ok(()) => are_fields(fields) && after == entries_with_fields(before, fields),
        Err(error) => if error.error == HeaderError::MaxSizeReached {
            &&& are_fields(fields)
            &&& error.index < fields.len()
            &&& after == entries_with_fields(before, fields.take(error.index as int))
        } else {
            is_first_invalid(fields, error) && after == before
        },
    }
}

/// Sets each of the header fields `fields` in `headers`, one after the other.
///
/// Nothing is written unless every field can be: each name a header name,
/// each value a header value. Then the fields are set in their order, each in
/// place of whatever values its header had, until all are set or the map
/// cannot grow further.
pub fn inject_fields(headers: &mut HeaderMap<HeaderValue>, fields: &Vec<(String, String)>) -> (injected:
    Result<(), InjectError>)
    ensures
        is_injection(
            field_texts(fields@),
            header_map_entries(*old(headers)),
            header_map_entries(*final(headers)),
            injected,
        ),
{
    let ghost texts = field_texts(fields@);
    let parsed = match parse_fields(fields) {
        Ok(parsed) => parsed,
        Err(error) => {
            return Err(error);
        },
    };
    let ghost all = parsed@;
    let count = parsed.len();
    let mut index: usize = 0;
    assert(texts.take(0) =~= Seq::<FieldText>::empty());
    for pair in it: parsed
        invariant
            it.seq() == all,
            index == it.index(),
            all.len() == texts.len(),
            all.len() == count,
            are_fields(texts),
            texts == field_texts(fields@),
            forall|i: int| 0 <= i < all.len() ==> is_parsed(#[trigger] all[i], texts[i]),
            header_map_entries(*headers) == entries_with_fields(
                header_map_entries(*old(headers)),
                texts.take(index as int),
            ),
    {
        assert(is_parsed(all[index as int], texts[index as int]));
        assert(texts.take(index + 1).drop_last() =~= texts.take(index as int));
        assert(texts.take(index + 1).last() == texts[index as int]);
        match header_map_try_insert(headers, pair.0, pair.1) {
            Ok(_) => {},
            Err(_) => {
                return Err(InjectError { index, error: HeaderError::MaxSizeReached });
            },
        }
        index = index + 1;
    }
    assert(texts.take(texts.len() as int) =~= texts);
    Ok(())
}

/// Setting fields leaves every other header as it was: a name that none of
/// the fields has keeps its values, or stays without any.
pub proof fn lemma_other_headers_stay(
    entries: Map<Seq<u8>, Seq<Seq<u8>>>,
    fields: Seq<FieldText>,
    name: Seq<u8>,
)
    requires
        forall|i: int| 0 <= i < fields.len() ==> field_key(#[trigger] fields[i]) != name,
    ensures
        entries_with_fields(entries, fields).contains_key(name) == entries.contains_key(name),
        entries_with_fields(entries, fields)[name] == entries[name],
    decreases fields.len(),
{
    if fields.len() > 0 {
        let rest = fields.drop_last();
        assert forall|i: int| 0 <= i < rest.len() implies field_key(#[trigger] rest[i])
            != name by {
            assert(rest[i] == fields[i]);
        }
        lemma_other_headers_stay(entries, rest, name);
        assert(field_key(fields.last()) != name);
    }
}

/// The last write wins: after fields were set, the header of a field that no
/// later field shares its name with has the value of that field, and no
/// other.
pub proof fn lemma_last_field_wins(
    entries: Map<Seq<u8>, Seq<Seq<u8>>>,
    fields: Seq<FieldText>,
    at: int,
)
    requires
        0 <= at < fields.len(),
        forall|i: int|
            at < i < fields.len() ==> field_key(#[trigger] fields[i]) != field_key(fields[at]),
    ensures
        entries_with_fields(entries, fields).contains_key(field_key(fields[at])),
        entries_with_fields(entries, fields)[field_key(fields[at])] == seq![
            encode_utf8(fields[at].1),
        ],
    decreases fields.len(),
{
    if at < fields.len() - 1 {
        let rest = fields.drop_last();
        assert forall|i: int| at < i < rest.len() implies field_key(#[trigger] rest[i])
            != field_key(rest[at]) by {
            assert(rest[i] == fields[i]);
        }
        lemma_last_field_wins(entries, rest, at);
        assert(field_key(fields.last()) != field_key(fields[at]));
    }
}

} // verus!
