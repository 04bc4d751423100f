use vnr::error::Error;
use vnr::text::{chars_of, decimal_text, occurs_at, push_decimal};

#[test]
fn decimal_of_small_and_large_numbers() {
    assert_eq!(decimal_text(0), "0");
    assert_eq!(decimal_text(7), "7");
    assert_eq!(decimal_text(10), "10");
    assert_eq!(decimal_text(5000), "5000");
    assert_eq!(decimal_text(1_002_003), "1002003");
    assert_eq!(decimal_text(u64::MAX), "18446744073709551615");
}

#[test]
fn decimal_agrees_with_std() {
    let mut n: u64 = 1;
    for _ in 0..64 {
        assert_eq!(decimal_text(n), n.to_string());
        assert_eq!(decimal_text(n - 1), (n - 1).to_string());
        n = n.wrapping_mul(3).wrapping_add(1);
    }
}

#[test]
fn push_decimal_appends() {
    let mut text = String::from("n=");
    push_decimal(&mut text, 42);
    assert_eq!(text, "n=42");
}

#[test]
fn chars_are_taken_one_by_one() {
    assert_eq!(chars_of("aé–b"), vec!['a', 'é', '–', 'b']);
    assert_eq!(chars_of(""), Vec::<char>::new());
}

#[test]
fn pattern_is_found_where_it_stands() {
    let text = chars_of("abcabc");
    let pattern = chars_of("bc");
    assert!(!occurs_at(&text, 0, &pattern));
    assert!(occurs_at(&text, 1, &pattern));
    assert!(occurs_at(&text, 4, &pattern));
    assert!(!occurs_at(&text, 5, &pattern));
    assert!(!occurs_at(&text, 6, &pattern));
    assert!(occurs_at(&text, 6, &chars_of("")));
}

#[test]
fn each_error_has_its_message() {
    assert_eq!(
        Error::Usage { message: "m".to_string() }.message(),
        "m\nUsage: vnr <url> <output directory>"
    );
    assert_eq!(
        Error::Network { message: "connection refused".to_string() }.message(),
        "Network error: connection refused"
    );
    assert_eq!(Error::Http { status: 404 }.message(), "HTTP error: 404 Not Found");
    assert_eq!(Error::Http { status: 500 }.message(), "HTTP error: 500 Internal Server Error");
    assert_eq!(
        Error::MissingHeader { name: "content-length".to_string() }.message(),
        "Missing header: content-length"
    );
    assert_eq!(Error::Io { message: "disk full".to_string() }.message(), "disk full");
    assert_eq!(Error::UnexpectedContentLength(17).message(), "Unexpected content length: 17");
}

#[test]
fn status_without_a_reason_is_still_shown() {
    assert_eq!(Error::Http { status: 299 }.message(), "HTTP error: 299 <unknown status code>");
    assert_eq!(Error::Http { status: 42 }.message(), "HTTP error: 42");
    assert_eq!(Error::Http { status: 1000 }.message(), "HTTP error: 1000");
}
