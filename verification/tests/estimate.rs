use flate2::write::GzEncoder;
use flate2::Compression;
use headers::{HeaderMap, HeaderName, HeaderValue};
use std::io::Write;
use vnr::error::Error;
use vnr::estimate::{
    decode_isize, estimate, expected_size, fetch_isize, fetch_uncompressed_size, isize_from,
    trailer_range, TrailerReply,
};

fn length_header(value: &'static str) -> HeaderMap {
    let mut map = HeaderMap::new();
    map.insert(HeaderName::from_static("content-length"), HeaderValue::from_static(value));
    map
}

fn answered(status: u16, headers: HeaderMap, body: &[u8]) -> Result<TrailerReply, String> {
    Ok(TrailerReply { status, headers, body: Ok(body.to_vec()) })
}

fn gzip_of(length: usize) -> Vec<u8> {
    let mut encoder = GzEncoder::new(Vec::new(), Compression::fast());
    let data = vec![b'x'; length];
    encoder.write_all(&data).unwrap();
    encoder.finish().unwrap()
}

#[test]
fn range_asks_for_the_last_four_bytes() {
    assert_eq!(trailer_range(17), Some("bytes=13-16".to_string()));
    assert_eq!(trailer_range(4), Some("bytes=0-3".to_string()));
    assert_eq!(trailer_range(1_000_000), Some("bytes=999996-999999".to_string()));
    assert_eq!(
        trailer_range(u64::MAX),
        Some("bytes=18446744073709551611-18446744073709551614".to_string())
    );
}

#[test]
fn resource_shorter_than_a_trailer_has_no_range() {
    assert_eq!(trailer_range(0), None);
    assert_eq!(trailer_range(3), None);
}

#[test]
fn range_value_is_a_range_header() {
    // The value decodes as the `Range` header that the request is to carry.
    let mut map = HeaderMap::new();
    let value = trailer_range(17).unwrap();
    map.insert(HeaderName::from_static("range"), HeaderValue::from_str(&value).unwrap());
    let range = headers::HeaderMapExt::typed_get::<headers::Range>(&map).unwrap();
    let bounds: Vec<_> = range.satisfiable_ranges(17).collect();
    assert_eq!(bounds, vec![(std::ops::Bound::Included(13), std::ops::Bound::Included(16))]);
}

#[test]
fn trailer_is_read_lowest_byte_first() {
    assert_eq!(decode_isize([0x88, 0x13, 0x00, 0x00]), 5000);
    assert_eq!(decode_isize([0, 0, 0, 0]), 0);
    assert_eq!(decode_isize([1, 0, 0, 0]), 1);
    assert_eq!(decode_isize([0, 0, 0, 1]), 0x0100_0000);
    assert_eq!(decode_isize([0xff, 0xff, 0xff, 0xff]), 0xffff_ffff);
    assert_eq!(decode_isize([0x78, 0x56, 0x34, 0x12]), 0x1234_5678);
}

#[test]
fn decoding_agrees_with_std() {
    let mut n: u32 = 1;
    for _ in 0..200 {
        assert_eq!(decode_isize(n.to_le_bytes()), n as u64);
        n = n.wrapping_mul(2_654_435_761).wrapping_add(12345);
    }
}

#[test]
fn estimate_of_a_synthetic_resource() {
    // Seventeen bytes whose last four stand for 5000.
    let mut resource = vec![0u8; 13];
    resource.extend_from_slice(&5000u32.to_le_bytes());
    assert_eq!(resource.len(), 17);
    assert_eq!(trailer_range(resource.len() as u64), Some("bytes=13-16".to_string()));
    let exchange = answered(206, length_header("4"), &resource[13..17]);
    assert_eq!(fetch_isize(&exchange), Ok([0x88, 0x13, 0, 0]));
    assert_eq!(fetch_uncompressed_size(&exchange), Some(5000));
}

#[test]
fn estimate_of_a_real_gzip_stream() {
    for length in [0usize, 1, 5000, 70_000] {
        let compressed = gzip_of(length);
        let trailer = &compressed[compressed.len() - 4..];
        let exchange = answered(206, length_header("4"), trailer);
        assert_eq!(fetch_uncompressed_size(&exchange), Some(length as u64));
    }
}

#[test]
fn estimate_wraps_at_four_gibibytes() {
    // A stream of 2^32 + 5 bytes records 5: the estimate is smaller than the truth.
    let true_size: u64 = (1u64 << 32) + 5;
    let trailer = ((true_size % (1u64 << 32)) as u32).to_le_bytes();
    let exchange = answered(206, length_header("4"), &trailer);
    assert_eq!(fetch_uncompressed_size(&exchange), Some(5));
}

#[test]
fn body_beyond_four_bytes_is_not_looked_at() {
    let exchange = answered(200, length_header("4"), &[1, 0, 0, 0, 9, 9]);
    assert_eq!(fetch_isize(&exchange), Ok([1, 0, 0, 0]));
}

#[test]
fn transport_failure_gives_no_estimate() {
    let exchange: Result<TrailerReply, String> = Err("connection refused".to_string());
    assert_eq!(
        fetch_isize(&exchange),
        Err(Error::Network { message: "connection refused".to_string() })
    );
    assert_eq!(fetch_uncompressed_size(&exchange), None);
}

#[test]
fn bad_status_gives_no_estimate() {
    let exchange = answered(416, length_header("4"), &[0x88, 0x13, 0, 0]);
    assert_eq!(fetch_isize(&exchange), Err(Error::Http { status: 416 }));
    assert_eq!(fetch_uncompressed_size(&exchange), None);
}

#[test]
fn missing_length_gives_no_estimate() {
    let exchange = answered(206, HeaderMap::new(), &[0x88, 0x13, 0, 0]);
    assert_eq!(
        fetch_isize(&exchange),
        Err(Error::MissingHeader { name: "content-length".to_string() })
    );
    assert_eq!(fetch_uncompressed_size(&exchange), None);
}

#[test]
fn wrong_length_gives_no_estimate() {
    // A server that ignores the range answers with the whole resource.
    let exchange = answered(200, length_header("17"), &[0x1f, 0x8b, 8, 0]);
    assert_eq!(fetch_isize(&exchange), Err(Error::UnexpectedContentLength(17)));
    assert_eq!(fetch_uncompressed_size(&exchange), None);
    let exchange = answered(200, length_header("0"), &[]);
    assert_eq!(fetch_isize(&exchange), Err(Error::UnexpectedContentLength(0)));
}

#[test]
fn short_body_gives_no_estimate() {
    let exchange = answered(206, length_header("4"), &[0x88, 0x13, 0]);
    assert_eq!(
        fetch_isize(&exchange),
        Err(Error::Io { message: "failed to fill whole buffer".to_string() })
    );
    assert_eq!(fetch_uncompressed_size(&exchange), None);
}

#[test]
fn broken_body_gives_no_estimate() {
    let exchange = Ok(TrailerReply {
        status: 206,
        headers: length_header("4"),
        body: Err("connection reset".to_string()),
    });
    assert_eq!(
        fetch_isize(&exchange),
        Err(Error::Io { message: "connection reset".to_string() })
    );
    assert_eq!(fetch_uncompressed_size(&exchange), None);
}

#[test]
fn first_failure_is_the_one_reported() {
    let body: Result<Vec<u8>, String> = Err("broken".to_string());
    let missing = Error::MissingHeader { name: "content-length".to_string() };
    assert_eq!(isize_from(500, Err(missing.clone()), &body), Err(Error::Http { status: 500 }));
    assert_eq!(isize_from(200, Err(missing.clone()), &body), Err(missing));
    assert_eq!(isize_from(200, Ok(5), &body), Err(Error::UnexpectedContentLength(5)));
    assert_eq!(
        isize_from(200, Ok(4), &body),
        Err(Error::Io { message: "broken".to_string() })
    );
    assert_eq!(isize_from(200, Ok(4), &Ok(vec![1, 2, 3, 4])), Ok([1, 2, 3, 4]));
}

#[test]
fn estimate_is_none_without_bytes() {
    assert_eq!(estimate(Ok([0x88, 0x13, 0, 0])), Some(5000));
    assert_eq!(estimate(Err(Error::UnexpectedContentLength(3))), None);
}

#[test]
fn progress_is_measured_against_zero_without_estimate() {
    assert_eq!(expected_size(Some(5000)), 5000);
    assert_eq!(expected_size(Some(0)), 0);
    assert_eq!(expected_size(None), 0);
}
