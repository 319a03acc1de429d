//! Response headers. The header map is `reqwest`'s; this module declares it,
//! names what it holds, and reads single headers from it.

use vstd::prelude::*;
use reqwest::header::HeaderMap;
use reqwest::header::HeaderValue;
use crate::error::outcome;
use crate::error::ErrorView;
use crate::error::WalrusError;
use crate::models::BlobMetadata;
use crate::models::BlobMetadataView;
use crate::text::join_text;
use crate::text::parse_signed_u64;
use crate::text::signed_decimal_u64;

verus! {

/// The header map of a response, as `reqwest` hands it out.
#[verifier::external_type_specification]
#[verifier::external_body]
#[verifier::reject_recursive_types(T)]
pub struct ExHeaderMap<T>(reqwest::header::HeaderMap<T>);

/// The value of one header: the type of what a header map holds.
#[verifier::external_type_specification]
#[verifier::external_body]
pub struct ExHeaderValue(reqwest::header::HeaderValue);

/// What a header map holds, as `HeaderMap::get` shows it: for each name
/// under which it finds a value, the bytes of the first value stored there.
pub uninterp spec fn header_values(headers: HeaderMap<HeaderValue>) -> Map<Seq<char>, Seq<u8>>;

/// A byte that `HeaderValue::to_str` lets pass: printable ASCII, a space or
/// a tab.
pub open spec fn is_visible_ascii(b: u8) -> bool {
    (32 <= b && b < 127) || b == 9
}

/// Every byte of `bytes` is visible ASCII.
pub open spec fn all_visible_ascii(bytes: Seq<u8>) -> bool {
    forall|i: int| 0 <= i < bytes.len() ==> is_visible_ascii(#[trigger] bytes[i])
}

/// The bytes read as characters, one for one.
pub open spec fn ascii_text(bytes: Seq<u8>) -> Seq<char> {
    Seq::new(bytes.len(), |i: int| bytes[i] as char)
}

/// Looks `name` up with `HeaderMap::get` and reads the value found with
/// `HeaderValue::to_str`. `None` where the map has no value under `name`;
/// otherwise the first value as text where all its bytes are visible ASCII,
/// and `Some(None)` where `to_str` refuses it because one is not.
#[verifier::external_body]
pub(crate) fn header_text(headers: &HeaderMap, name: &str) -> (r: Option<Option<String>>)
    ensures
        r is None <==> !header_values(*headers).contains_key(name@),
        r matches Some(Some(text)) ==> all_visible_ascii(header_values(*headers)[name@]) && text@
            == ascii_text(header_values(*headers)[name@]),
        r matches Some(None) ==> !all_visible_ascii(header_values(*headers)[name@]),
{
    match headers.get(name) {
        None => None,
        Some(value) => Some(value.to_str().ok().map(|text| text.to_owned())),
    }
}

/// The text of the header `name`, or the error that says what is wrong
/// with it: that it is missing, or that its value is no text.
pub open spec fn header_of(values: Map<Seq<char>, Seq<u8>>, name: Seq<char>) -> Result<
    Seq<char>,
    ErrorView,
> {
    if !values.contains_key(name) {
        Err(ErrorView::ParseError("Missing header: "@ + name))
    } else if !all_visible_ascii(values[name]) {
        Err(
            ErrorView::ParseError(
                "Failed to parse header "@ + name + ": the value is not visible ASCII"@,
            ),
        )
    } else {
        Ok(ascii_text(values[name]))
    }
}

/// What the headers tell of a blob. The three headers `content-length`,
/// `content-type` and `etag` are read in this order, and the first one that
/// is missing or malformed decides the error. The content length is
/// written in decimal digits, before which one `+` may stand.
pub open spec fn blob_metadata_of(values: Map<Seq<char>, Seq<u8>>) -> Result<
    BlobMetadataView,
    ErrorView,
> {
    match header_of(values, "content-length"@) {
        Err(e) => Err(e),
        Ok(length) => match signed_decimal_u64(length) {
            None => Err(
                ErrorView::ParseError(
                    "Failed to parse content-length: the value is not an unsigned integer"@,
                ),
            ),
            Some(content_length) => match header_of(values, "content-type"@) {
                Err(e) => Err(e),
                Ok(content_type) => match header_of(values, "etag"@) {
                    Err(e) => Err(e),
                    Ok(etag) => Ok(BlobMetadataView { content_length, content_type, etag }),
                },
            },
        },
    }
}

/// Reads one header as text.
pub fn read_header(headers: &HeaderMap, name: &str) -> (r: Result<String, WalrusError>)
    ensures
        outcome(r) == header_of(header_values(*headers), name@),
{
    match header_text(headers, name) {
        None => Err(WalrusError::ParseError(join_text("Missing header: ", name))),
        Some(None) => Err(
            WalrusError::ParseError(
                join_text("Failed to parse header ", name).concat(
                    ": the value is not visible ASCII",
                ),
            ),
        ),
        Some(Some(text)) => Ok(text),
    }
}

/// Reads the metadata of a blob from response headers.
pub fn decode_blob_metadata(headers: &HeaderMap) -> (r: Result<BlobMetadata, WalrusError>)
    ensures
        outcome(r) == blob_metadata_of(header_values(*headers)),
{
    let length = read_header(headers, "content-length")?;
    let content_length = match parse_signed_u64(length.as_str()) {
        Some(n) => n,
        None => {
            return Err(
                WalrusError::ParseError(
                    String::from_str(
                        "Failed to parse content-length: the value is not an unsigned integer",
                    ),
                ),
            );
        },
    };
    let content_type = read_header(headers, "content-type")?;
    let etag = read_header(headers, "etag")?;
    Ok(BlobMetadata { content_length, content_type, etag })
}

/// Headers in which all three of `content-length`, `content-type` and
/// `etag` are present and well formed give metadata with exactly their
/// values.
pub proof fn lemma_complete_headers_give_metadata(values: Map<Seq<char>, Seq<u8>>)
    requires
        values.contains_key("content-length"@),
        values.contains_key("content-type"@),
        values.contains_key("etag"@),
        all_visible_ascii(values["content-length"@]),
        all_visible_ascii(values["content-type"@]),
        all_visible_ascii(values["etag"@]),
        signed_decimal_u64(ascii_text(values["content-length"@])) is Some,
    ensures
        blob_metadata_of(values) == Ok::<BlobMetadataView, ErrorView>(
            BlobMetadataView {
                content_length: signed_decimal_u64(ascii_text(values["content-length"@]))->Some_0,
                content_type: ascii_text(values["content-type"@]),
                etag: ascii_text(values["etag"@]),
            },
        ),
{
}

/// Headers that lack one of the three give no metadata. The error is a
/// `ParseError` that names a missing header: the one that is missing,
/// where the two others are present and well formed.
pub proof fn lemma_missing_header_is_named(values: Map<Seq<char>, Seq<u8>>, name: Seq<char>)
    requires
        name == "content-length"@ || name == "content-type"@ || name == "etag"@,
        !values.contains_key(name),
        forall|other: Seq<char>|
            (other == "content-length"@ || other == "content-type"@ || other == "etag"@) && other
                != name ==> (#[trigger] header_of(values, other)) is Ok,
        name != "content-length"@ ==> signed_decimal_u64(
            ascii_text(values["content-length"@]),
        ) is Some,
    ensures
        blob_metadata_of(values) == Err::<BlobMetadataView, ErrorView>(
            ErrorView::ParseError("Missing header: "@ + name),
        ),
{
    lemma_header_names_differ();
}

/// The names of the three headers are three different texts.
proof fn lemma_header_names_differ()
    ensures
        "content-length"@ != "content-type"@,
        "content-length"@ != "etag"@,
        "content-type"@ != "etag"@,
{
    reveal_strlit("content-length");
    reveal_strlit("content-type");
    reveal_strlit("etag");
    assert("content-length"@.len() != "content-type"@.len());
    assert("content-length"@.len() != "etag"@.len());
    assert("content-type"@.len() != "etag"@.len());
}

} // verus!
