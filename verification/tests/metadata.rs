//! The metadata a handle is opened with: length-header interpretation
//! and the pure accessors.

use http_file::{parse_content_length, HttpFile};

#[test]
fn length_header_parsing() {
    assert_eq!(parse_content_length(b"100"), Some(100));
    assert_eq!(parse_content_length(b"1"), Some(1));
    assert_eq!(parse_content_length(b"007"), Some(7));
    assert_eq!(parse_content_length(b"18446744073709551615"), Some(u64::MAX));
    // Overflow, zero, emptiness and stray characters all leave the
    // length unknown.
    assert_eq!(parse_content_length(b"18446744073709551616"), None);
    assert_eq!(parse_content_length(b"0"), None);
    assert_eq!(parse_content_length(b"000"), None);
    assert_eq!(parse_content_length(b""), None);
    assert_eq!(parse_content_length(b"12x"), None);
    assert_eq!(parse_content_length(b"-5"), None);
    assert_eq!(parse_content_length(b" 5"), None);
}

#[test]
fn accessors_report_probe_results() {
    let f = HttpFile::new(
        "http://localhost:8080/files/random_access_test_file.bin".to_string(),
        Some(b"13567"),
        Some("\"etag-value\"".to_string()),
        Some("application/octet-stream".to_string()),
    );
    assert_eq!(f.url().as_str(), "http://localhost:8080/files/random_access_test_file.bin");
    assert_eq!(f.content_length(), Some(13567), "content length should be the same");
    assert_eq!(f.etag(), Some("\"etag-value\""));
    assert_eq!(f.mime(), Some("application/octet-stream"));
    assert_eq!(f.position(), 0);
}

#[test]
fn bad_length_header_leaves_length_unknown() {
    let f = HttpFile::new(
        "http://localhost/files/x.bin".to_string(),
        Some(b"not-a-number"),
        None,
        None,
    );
    assert_eq!(f.content_length(), None);
    assert_eq!(f.etag(), None);
    assert_eq!(f.mime(), None);
}
