//! An estimate of how large an archive is once it is unpacked, read from the
//! last four bytes of the compressed resource.
//!
//! A gzip stream ends with the length of the data it was made of, modulo
//! 2^32, as four bytes with the lowest first. One ranged request for those
//! bytes gives the estimate before anything is decompressed. Lengths from
//! 4 GiB on wrap around, so the estimate can be smaller than the truth.

use vstd::prelude::*;
use vstd::string::StringExecFns;
use headers::{Header, HeaderMap, HeaderValue, Range};
use crate::error::{Error, ErrorView};
use crate::response::{
    announced, content_length, content_length_name, content_length_result,
    decoded_content_length, header_fields, is_success, success, values_of,
};
use crate::text::decimal;

verus! {

/// How many bytes the length field at the end of a gzip stream takes.
pub const TRAILER_LENGTH: u64 = 4;

/// The number that four bytes stand for when the lowest byte comes first.
pub open spec fn little_endian(bytes: Seq<u8>) -> nat
    recommends
        bytes.len() == 4,
{
    (bytes[0] as nat) + (bytes[1] as nat) * 0x100 + (bytes[2] as nat) * 0x1_0000 + (
    bytes[3] as nat) * 0x100_0000
}

/// The value of a `Range` header that asks for the bytes from `first` up to,
/// and not including, `end`.
pub open spec fn range_text(first: u64, end: u64) -> Seq<char> {
    "bytes="@ + decimal(first as nat) + "-"@ + decimal((end - 1) as nat)
}

/// Calls `headers::Range::bytes` with the range `first..end` and hands out
/// the header value that the typed header encodes to. The crate formats it
/// as `bytes=`, `first` in decimal, `-`, and `end - 1` in decimal; for
/// `end == 0` the subtraction would overflow, so that is left out.
#[verifier::external_body]
fn bytes_range(first: u64, end: u64) -> (value: String)
    requires
        end > 0,
    ensures
        value@ == range_text(first, end),
{
    let mut values: Vec<HeaderValue> = Vec::new();
    Range::bytes(first..end).unwrap().encode(&mut values);
    values[0].to_str().unwrap().to_owned()
}

/// The value of the `Range` header that asks for the last four bytes of a
/// resource of `length` bytes: those at the offsets `length - 4` to
/// `length - 1`. A resource of fewer than four bytes has no such range.
pub fn trailer_range(length: u64) -> (value: Option<String>)
    ensures
        match value {
            Some(text) => length >= 4 && text@ == range_text((length - 4) as u64, length),
            None => length < 4,
        },
{
    if length < TRAILER_LENGTH {
        None
    } else {
        Some(bytes_range(length - TRAILER_LENGTH, length))
    }
}

/// The size that a gzip trailer records: four bytes, lowest first, widened
/// to 64 bits.
pub fn decode_isize(bytes: [u8; 4]) -> (size: u64)
    ensures
        size == little_endian(bytes@),
        size < 0x1_0000_0000,
{
    let b0 = bytes[0] as u64;
    let b1 = bytes[1] as u64;
    let b2 = bytes[2] as u64;
    let b3 = bytes[3] as u64;
    b0 + b1 * 0x100 + b2 * 0x1_0000 + b3 * 0x100_0000
}

/// The four bytes that a gzip stream ends with when the data it was made of
/// was `size` bytes long, modulo 2^32.
pub open spec fn trailer_of(size: u32) -> Seq<u8> {
    seq![
        (size % 0x100) as u8,
        (size / 0x100 % 0x100) as u8,
        (size / 0x1_0000 % 0x100) as u8,
        (size / 0x100_0000) as u8,
    ]
}

/// Decoding gives back every size below 2^32 that a trailer was made of.
pub proof fn lemma_trailer_round_trip(size: u32)
    ensures
        trailer_of(size).len() == 4,
        little_endian(trailer_of(size)) == size,
{
}

/// The answer to the request for a resource's last four bytes.
#[derive(Debug)]
pub struct TrailerReply {
    /// The status code of the response.
    pub status: u16,
    /// The headers of the response.
    pub headers: HeaderMap<HeaderValue>,
    /// The start of the body, as far as four bytes were asked for and came,
    /// or what went wrong while they were read.
    pub body: Result<Vec<u8>, String>,
}

/// The message of the error for a body that ends before its fourth byte.
pub open spec fn short_read_message() -> Seq<char> {
    "failed to fill whole buffer"@
}

/// What the trailer request gave, from the status of the response, the
/// length that its headers announce, and the start of its body: the four
/// bytes, or the first thing that is wrong, in that order.
pub open spec fn trailer_outcome(
    status: u16,
    length: Result<u64, ErrorView>,
    body: Result<Seq<u8>, Seq<char>>,
) -> Result<Seq<u8>, ErrorView> {
    if !success(status) {
        Err(ErrorView::Http { status })
    } else {
        match length {
            Err(e) => Err(e),
            Ok(length) => if length != 4 {
                Err(ErrorView::UnexpectedContentLength(length))
            } else {
                match body {
                    Err(message) => Err(ErrorView::Io { message }),
                    Ok(bytes) => if bytes.len() < 4 {
                        Err(ErrorView::Io { message: short_read_message() })
                    } else {
                        Ok(bytes.take(4))
                    },
                }
            },
        }
    }
}

/// A `Result` with its texts and bytes as sequences.
pub open spec fn body_view(body: Result<Vec<u8>, String>) -> Result<Seq<u8>, Seq<char>> {
    match body {
        Ok(bytes) => Ok(bytes@),
        Err(message) => Err(message@),
    }
}

/// A length, or the error in its place, with texts as sequences.
pub open spec fn length_view(length: Result<u64, Error>) -> Result<u64, ErrorView> {
    match length {
        Ok(length) => Ok(length),
        Err(e) => Err(e@),
    }
}

/// Four bytes, or the error in their place, with texts as sequences.
pub open spec fn bytes_view(bytes: Result<[u8; 4], Error>) -> Result<Seq<u8>, ErrorView> {
    match bytes {
        Ok(bytes) => Ok(bytes@),
        Err(e) => Err(e@),
    }
}

/// Checks the answer to the trailer request and hands out the four bytes.
///
/// The status has to lie in 200..=299, the announced length has to be there
/// and to be exactly 4, and the body has to hold four bytes. The first of
/// these that fails gives the error.
pub fn isize_from(status: u16, length: Result<u64, Error>, body: &Result<Vec<u8>, String>) -> (r:
    Result<[u8; 4], Error>)
    ensures
        bytes_view(r) == trailer_outcome(status, length_view(length), body_view(*body)),
{
    if !is_success(status) {
        return Err(Error::Http { status });
    }
    let actual_length = match length {
        Ok(length) => length,
        Err(e) => {
            return Err(e);
        },
    };
    if actual_length != TRAILER_LENGTH {
        return Err(Error::UnexpectedContentLength(actual_length));
    }
    match body {
        Err(message) => Err(Error::Io { message: message.clone() }),
        Ok(bytes) => {
            if bytes.len() < 4 {
                Err(Error::Io { message: String::from_str("failed to fill whole buffer") })
            } else {
                let buf: [u8; 4] = [bytes[0], bytes[1], bytes[2], bytes[3]];
                assert(buf@ =~= bytes@.take(4));
                Ok(buf)
            }
        },
    }
}

/// What [`fetch_isize`] makes of an exchange, given what the `headers` crate
/// decodes from the `content-length` values of the answer.
pub open spec fn exchange_outcome(exchange: Result<TrailerReply, String>) -> Result<
    Seq<u8>,
    ErrorView,
> {
    match exchange {
        Err(message) => Err(ErrorView::Network { message: message@ }),
        Ok(reply) => trailer_outcome(
            reply.status,
            content_length_result(
                decoded_content_length(
                    values_of(header_fields(reply.headers), content_length_name()),
                ),
            ),
            body_view(reply.body),
        ),
    }
}

/// Whether an exchange brought what was asked for: a response with a status
/// of success that announces four bytes, once, and holds them.
pub open spec fn answers_with_trailer(exchange: Result<TrailerReply, String>) -> bool {
    &&& exchange matches Ok(reply)
    &&& success(reply.status)
    &&& values_of(header_fields(reply.headers), content_length_name()) == announced(4)
    &&& reply.body matches Ok(bytes)
    &&& bytes@.len() >= 4
}

/// Fetches just the `isize` field (the field that indicates the uncompressed
/// size) of a gzip file from the exchange that asked a server for it.
///
/// `exchange` is what came of the ranged request: the answer, or the reason
/// why none arrived.
pub fn fetch_isize(exchange: &Result<TrailerReply, String>) -> (r: Result<[u8; 4], Error>)
    ensures
        bytes_view(r) == exchange_outcome(*exchange),
        answers_with_trailer(*exchange) ==> r is Ok && r->Ok_0@ == (
        *exchange)->Ok_0.body->Ok_0@.take(4),
{
    match exchange {
        Err(message) => Err(Error::Network { message: message.clone() }),
        Ok(reply) => isize_from(reply.status, content_length(&reply.headers), &reply.body),
    }
}

/// The estimate that an outcome of the trailer request stands for: the
/// number in the four bytes, or none where the request failed in any way.
pub open spec fn estimate_of(outcome: Result<Seq<u8>, ErrorView>) -> Option<u64> {
    match outcome {
        Ok(bytes) => Some(little_endian(bytes) as u64),
        Err(_) => None,
    }
}

/// An answer that holds the trailer of a stream gives the size that the
/// trailer was made of. An answer with another status than success, without
/// a length of exactly 4, or without four bytes of body gives no estimate.
pub proof fn lemma_estimate(
    status: u16,
    length: Result<u64, ErrorView>,
    body: Result<Seq<u8>, Seq<char>>,
    size: u32,
)
    ensures
        success(status) && length == Ok::<u64, ErrorView>(4) && body == Ok::<Seq<u8>, Seq<char>>(
            trailer_of(size),
        ) ==> estimate_of(trailer_outcome(status, length, body)) == Some(size as u64),
        !success(status) || length != Ok::<u64, ErrorView>(4) || body is Err || body->Ok_0.len() < 4
            ==> estimate_of(trailer_outcome(status, length, body)) is None,
{
    lemma_trailer_round_trip(size);
    assert(trailer_of(size).take(4) =~= trailer_of(size));
}

/// Determines the uncompressed size of a gzip file from the exchange that
/// asked its server for the file's last four bytes. Whatever went wrong in
/// the exchange, the result is `None`: the estimate serves the progress
/// display only, and a transfer goes on without it.
pub fn fetch_uncompressed_size(exchange: &Result<TrailerReply, String>) -> (size: Option<u64>)
    ensures
        size == estimate_of(exchange_outcome(*exchange)),
        match *exchange {
            Err(_) => size is None,
            Ok(reply) => !success(reply.status) || reply.body is Err ==> size is None,
        },
        answers_with_trailer(*exchange) ==> size == Some(
            little_endian((*exchange)->Ok_0.body->Ok_0@.take(4)) as u64,
        ),
{
    estimate(fetch_isize(exchange))
}

/// The estimate in the four bytes of a trailer, or none where there are no
/// bytes.
pub fn estimate(trailer: Result<[u8; 4], Error>) -> (size: Option<u64>)
    ensures
        size == estimate_of(bytes_view(trailer)),
{
    match trailer {
        Ok(bytes) => Some(decode_isize(bytes)),
        Err(_) => None,
    }
}

/// The size that progress is measured against: the estimate, or 0 where
/// there is none. Against 0 a percentage says nothing.
pub fn expected_size(estimate: Option<u64>) -> (size: u64)
    ensures
        size == match estimate {
            Some(size) => size,
            None => 0,
        },
{
    match estimate {
        Some(size) => size,
        None => 0,
    }
}

} // verus!
