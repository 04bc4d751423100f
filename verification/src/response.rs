//! What the transfer reads out of a response: its status and its headers.

use vstd::prelude::*;
use vstd::string::StringExecFns;
use headers::{AcceptRanges, ContentLength, Header, HeaderMap, HeaderMapExt, HeaderValue};
use crate::error::{Error, ErrorView};
use crate::text::decimal;

verus! {

/// The headers of a request or a response, `http::HeaderMap` as the
/// `headers` crate hands it out. What it holds is spoken of as
/// [`header_fields`].
#[verifier::external_type_specification]
#[verifier::external_body]
#[verifier::reject_recursive_types(T)]
pub struct ExHeaderMap<T>(HeaderMap<T>);

/// The value of one header, `http::HeaderValue` as the `headers` crate
/// hands it out.
#[verifier::external_type_specification]
#[verifier::external_body]
pub struct ExHeaderValue(HeaderValue);

/// What a header map holds: for each header name, in lower case, the values
/// under that name as bytes, in the order in which they were added. A name
/// without a value is not in the map.
pub uninterp spec fn header_fields(headers: HeaderMap<HeaderValue>) -> Map<Seq<char>, Seq<Seq<u8>>>;

/// What `headers::ContentLength` decodes from the values of the
/// `content-length` header, if anything.
pub uninterp spec fn decoded_content_length(values: Seq<Seq<u8>>) -> Option<u64>;

/// The values that stand under `name` in the fields of a header map; none
/// where the name is absent.
pub open spec fn values_of(fields: Map<Seq<char>, Seq<Seq<u8>>>, name: Seq<char>) -> Seq<Seq<u8>> {
    if fields.dom().contains(name) {
        fields[name]
    } else {
        Seq::empty()
    }
}

/// The name of the header that announces a body's length.
pub open spec fn content_length_name() -> Seq<char> {
    "content-length"@
}

/// The name of the header that announces which range units a server accepts.
pub open spec fn accept_ranges_name() -> Seq<char> {
    "accept-ranges"@
}

/// The range unit `bytes`, as the bytes of a header value.
pub open spec fn bytes_unit() -> Seq<u8> {
    seq![0x62u8, 0x79u8, 0x74u8, 0x65u8, 0x73u8]
}

/// A text of ASCII characters as the bytes of a header value.
pub open spec fn ascii(text: Seq<char>) -> Seq<u8> {
    text.map_values(|c: char| c as u8)
}

/// The `content-length` values of a response that announces the length
/// `length` once, in decimal notation.
pub open spec fn announced(length: u64) -> Seq<Seq<u8>> {
    seq![ascii(decimal(length as nat))]
}

/// Calls `HeaderMapExt::typed_get::<ContentLength>` of the `headers` crate.
/// The result is what `ContentLength::decode` makes of the values under
/// `content-length`. Without such a value the call returns `None` before it
/// decodes anything. A single value is parsed as a `u64`, which gives the
/// number back where the value is its decimal notation.
#[verifier::external_body]
fn typed_content_length(headers: &HeaderMap<HeaderValue>) -> (length: Option<u64>)
    ensures
        length == decoded_content_length(values_of(header_fields(*headers), content_length_name())),
        values_of(header_fields(*headers), content_length_name()).len() == 0 ==> length is None,
        forall|n: u64|
            values_of(header_fields(*headers), content_length_name()) == #[trigger] announced(n)
                ==> length == Some(n),
{
    headers.typed_get::<ContentLength>().map(|length| length.0)
}

/// Calls `Header::name` of `headers::ContentLength`, which is `http`'s
/// constant `CONTENT_LENGTH`, and copies its text.
#[verifier::external_body]
fn content_length_header() -> (name: String)
    ensures
        name@ == content_length_name(),
{
    ContentLength::name().as_str().to_owned()
}

/// Compares `HeaderMapExt::typed_get::<AcceptRanges>` of the `headers` crate
/// with `AcceptRanges::bytes()`. The typed header is the single value under
/// `accept-ranges`, or several values joined by `", "`; it equals the `bytes`
/// header when its bytes are those of `bytes`, which no joined value is.
#[verifier::external_body]
fn typed_accept_ranges_is_bytes(headers: &HeaderMap<HeaderValue>) -> (yes: bool)
    ensures
        yes == (values_of(header_fields(*headers), accept_ranges_name()) == seq![bytes_unit()]),
{
    headers.typed_get::<AcceptRanges>() == Some(AcceptRanges::bytes())
}

/// Whether a status code says that the request succeeded.
pub open spec fn success(status: u16) -> bool {
    200 <= status < 300
}

/// Whether the status code of a response lies in 200..=299.
pub fn is_success(status: u16) -> (yes: bool)
    ensures
        yes == success(status),
{
    200 <= status && status < 300
}

/// Whether the server says that it serves byte ranges: whether its one
/// `accept-ranges` value is `bytes`.
pub fn accepts_byte_ranges(headers: &HeaderMap<HeaderValue>) -> (yes: bool)
    ensures
        yes == (values_of(header_fields(*headers), accept_ranges_name()) == seq![bytes_unit()]),
{
    typed_accept_ranges_is_bytes(headers)
}

/// What [`content_length`] returns for a decoded length.
pub open spec fn content_length_result(decoded: Option<u64>) -> Result<u64, ErrorView> {
    match decoded {
        Some(length) => Ok(length),
        None => Err(ErrorView::MissingHeader { name: content_length_name() }),
    }
}

/// The length in bytes that a response announces for its body in its
/// `content-length` header. A response without a usable header of that name
/// gives [`Error::MissingHeader`].
pub fn content_length(headers: &HeaderMap<HeaderValue>) -> (r: Result<u64, Error>)
    ensures
        content_length_result(decoded_content_length(values_of(header_fields(*headers), content_length_name())))
            == match r {
            Ok(length) => Ok::<u64, ErrorView>(length),
            Err(e) => Err(e@),
        },
        values_of(header_fields(*headers), content_length_name()).len() == 0 ==> r is Err,
        forall|n: u64|
            values_of(header_fields(*headers), content_length_name()) == #[trigger] announced(n)
                ==> r == Ok::<u64, Error>(n),
{
    match typed_content_length(headers) {
        Some(length) => Ok(length),
        None => Err(Error::MissingHeader { name: content_length_header() }),
    }
}

/// What a server has said of the resource that is to be downloaded.
#[derive(Debug, Clone, PartialEq, Eq)]
pub struct RemoteResource {
    /// Where the resource is.
    pub url: String,
    /// The length in bytes that the server announces for it.
    pub compressed_size: u64,
    /// Whether the server says that it serves byte ranges.
    pub accepts_ranges: bool,
}

/// What [`describe`] makes of a response, given what its headers decode to.
pub open spec fn described(
    url: Seq<char>,
    status: u16,
    length: Option<u64>,
    accepts_ranges: bool,
) -> Result<(Seq<char>, u64, bool), ErrorView> {
    if !success(status) {
        Err(ErrorView::Http { status })
    } else {
        match length {
            Some(length) => Ok((url, length, accepts_ranges)),
            None => Err(ErrorView::MissingHeader { name: content_length_name() }),
        }
    }
}

/// A resource, or the error in its place, with texts as sequences.
pub open spec fn resource_view(r: Result<RemoteResource, Error>) -> Result<
    (Seq<char>, u64, bool),
    ErrorView,
> {
    match r {
        Ok(resource) => Ok((resource.url@, resource.compressed_size, resource.accepts_ranges)),
        Err(e) => Err(e@),
    }
}

/// Describes the resource at `url` from the response to the request for it.
///
/// A status outside 200..=299 gives [`Error::Http`]. A response that
/// announces no length gives [`Error::MissingHeader`]; without the length
/// the transfer does not start.
pub fn describe(url: &str, status: u16, headers: &HeaderMap<HeaderValue>) -> (r: Result<
    RemoteResource,
    Error,
>)
    ensures
        resource_view(r) == described(
            url@,
            status,
            decoded_content_length(values_of(header_fields(*headers), content_length_name())),
            values_of(header_fields(*headers), accept_ranges_name()) == seq![bytes_unit()],
        ),
        !success(status) ==> r is Err,
        values_of(header_fields(*headers), content_length_name()).len() == 0 ==> r is Err,
        forall|n: u64|
            success(status) && values_of(header_fields(*headers), content_length_name())
                == #[trigger] announced(n) ==> r is Ok && r->Ok_0.compressed_size == n,
{
    if !is_success(status) {
        return Err(Error::Http { status });
    }
    let compressed_size = match content_length(headers) {
        Ok(length) => length,
        Err(e) => {
            return Err(e);
        },
    };
    let accepts_ranges = accepts_byte_ranges(headers);
    Ok(RemoteResource { url: String::from_str(url), compressed_size, accepts_ranges })
}

} // verus!
