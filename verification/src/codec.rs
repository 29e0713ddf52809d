//! The encoding boundary: the few outside calls the provider logic makes
//! on plain values — base64, UTF-8 decoding, reading the metadata fields
//! out of a configuration document, and parsing harness output as JSON.
//! Each call stands behind a single trusted declaration; everything around
//! them is verified.

use vstd::prelude::*;
use vstd::string::*;
use crate::memo::text_view;

verus! {

/// The standard-alphabet base64 encoding of a byte sequence.
pub uninterp spec fn base64_encoding_of(bytes: Seq<u8>) -> Seq<char>;

/// What a text decodes to under standard-alphabet base64, when it is
/// well-formed.
pub uninterp spec fn base64_decoding_of(text: Seq<char>) -> Option<Seq<u8>>;

/// Relies on base64's standard-alphabet `Engine::encode`: the encoding is
/// a function of the input bytes alone, and empty input encodes to the
/// empty string.
#[verifier::external_body]
pub(crate) fn base64_encode(bytes: &[u8]) -> (r: String)
    ensures
        r@ == base64_encoding_of(bytes@),
        bytes@.len() == 0 ==> r@.len() == 0,
{
    base64::Engine::encode(&base64::engine::general_purpose::STANDARD, bytes)
}

/// Relies on base64's standard-alphabet `Engine::decode`: decoding is a
/// function of the input bytes alone, succeeding exactly on well-formed
/// input.
#[verifier::external_body]
pub(crate) fn base64_decode(text: &str) -> (r: Option<Vec<u8>>)
    ensures
        r is Some <==> base64_decoding_of(text@) is Some,
        r is Some ==> r->0@ == base64_decoding_of(text@)->0,
{
    base64::Engine::decode(&base64::engine::general_purpose::STANDARD, text).ok()
}

/// Relies on `String::from_utf8`: it succeeds exactly on valid UTF-8 and
/// decodes it.
#[verifier::external_body]
pub(crate) fn utf8_to_string(bytes: Vec<u8>) -> (r: Option<String>)
    ensures
        r is Some <==> vstd::utf8::valid_utf8(bytes@),
        r is Some ==> r->0@ == vstd::utf8::decode_utf8(bytes@),
{
    String::from_utf8(bytes).ok()
}

/// What a configuration document's text holds: whether it parses at all,
/// and, when its mapping has a `metadata` key, the `name` and `region`
/// strings under that key.
pub uninterp spec fn config_document_fields(text: Seq<char>) -> (
    bool,
    Option<(Option<Seq<char>>, Option<Seq<char>>)>,
);

/// The value of the optional pair of optional metadata fields.
pub open spec fn fields_view(fields: Option<(Option<String>, Option<String>)>) -> Option<
    (Option<Seq<char>>, Option<Seq<char>>),
> {
    match fields {
        None => None,
        Some((name, region)) => Some((text_view(name), text_view(region))),
    }
}

/// Relies on serde_yaml::from_str building a serde_json value, and on
/// serde_json's `Value::get` and `Value::as_str`: whether the text parses,
/// whether its mapping holds `metadata`, and the `name` and `region`
/// strings under it are a function of the document text alone. The first
/// component tells whether the text parsed; the second holds the two
/// fields when a `metadata` key was there.
#[verifier::external_body]
pub(crate) fn yaml_metadata_fields(text: &str) -> (r: (bool, Option<(Option<String>, Option<String>)>))
    ensures
        r.0 == config_document_fields(text@).0,
        fields_view(r.1) == config_document_fields(text@).1,
{
    let value: serde_json::Value = match serde_yaml::from_str(text) {
        Ok(value) => value,
        Err(_) => return (false, None),
    };
    let metadata = match value.get("metadata") {
        Some(metadata) => metadata,
        None => return (true, None),
    };
    let name = metadata.get("name").and_then(serde_json::Value::as_str).map(str::to_string);
    let region = metadata.get("region").and_then(serde_json::Value::as_str).map(str::to_string);
    (true, Some((name, region)))
}

/// A JSON value carried through to the collaborator that interprets it.
#[verifier::external_type_specification]
#[verifier::external_body]
pub struct ExValue(serde_json::Value);

/// Whether a text is one well-formed JSON document.
pub uninterp spec fn json_parses(text: Seq<char>) -> bool;

/// Relies on serde_json::from_str for `Value`: a text either parses to a
/// single value or is rejected, as a function of the text alone; the
/// rejection's message is carried through.
#[verifier::external_body]
pub(crate) fn parse_json_value(text: &str) -> (r: Result<serde_json::Value, String>)
    ensures
        r is Ok <==> json_parses(text@),
{
    match serde_json::from_str(text) {
        Ok(value) => Ok(value),
        Err(error) => Err(error.to_string()),
    }
}

} // verus!
