use snapshot_downloader::decimal::{append_decimal, parse_u64, parse_u64_in};
use snapshot_downloader::headers::{
    byte_range, extract_size_from_content_length, extract_size_from_content_range,
};
use snapshot_downloader::paths::{file_name_from_url, join_path};

#[test]
fn parses_decimal_numbers_like_std() {
    assert_eq!(parse_u64("0"), Some(0));
    assert_eq!(parse_u64("1234"), Some(1234));
    assert_eq!(parse_u64("+17"), Some(17));
    assert_eq!(parse_u64("007"), Some(7));
    assert_eq!(parse_u64("18446744073709551615"), Some(u64::MAX));
    assert_eq!(parse_u64("18446744073709551616"), None);
    assert_eq!(parse_u64(""), None);
    assert_eq!(parse_u64("+"), None);
    assert_eq!(parse_u64("-1"), None);
    assert_eq!(parse_u64("12a"), None);
    assert_eq!(parse_u64(" 12"), None);
    for s in ["0", "42", "+9", "99999999999999999999", "x", ""] {
        assert_eq!(parse_u64(s), s.parse::<u64>().ok(), "{}", s);
    }
}

#[test]
fn parses_a_slice_of_text() {
    assert_eq!(parse_u64_in("ab123cd", 2, 5), Some(123));
    assert_eq!(parse_u64_in("ab123cd", 2, 2), None);
}

#[test]
fn renders_decimal_numbers() {
    let mut s = String::from("n=");
    append_decimal(&mut s, 0);
    assert_eq!(s, "n=0");
    let mut s = String::new();
    append_decimal(&mut s, u64::MAX);
    assert_eq!(s, u64::MAX.to_string());
    let mut s = String::new();
    append_decimal(&mut s, 1050);
    assert_eq!(s, "1050");
}

#[test]
fn content_range_total() {
    assert_eq!(extract_size_from_content_range("bytes 0-0/1234"), Some(1234));
    assert_eq!(extract_size_from_content_range("bytes 500-999/1000"), Some(1000));
    assert_eq!(extract_size_from_content_range("bytes 0-0/*"), None);
    assert_eq!(extract_size_from_content_range("bytes 0-0"), None);
    assert_eq!(extract_size_from_content_range("bytes 0-0/12/34"), Some(12));
    assert_eq!(extract_size_from_content_range("/"), None);
}

#[test]
fn content_length_value() {
    assert_eq!(extract_size_from_content_length("1000"), Some(1000));
    assert_eq!(extract_size_from_content_length("ten"), None);
}

#[test]
fn range_header_values() {
    assert_eq!(byte_range(0, Some(0)), "bytes=0-0");
    assert_eq!(byte_range(500, None), "bytes=500-");
    assert_eq!(byte_range(12, Some(345)), "bytes=12-345");
}

#[test]
fn url_file_names() {
    assert_eq!(file_name_from_url("http://x/test.bin"), "test.bin");
    assert_eq!(file_name_from_url("test.bin"), "test.bin");
    assert_eq!(file_name_from_url("http://x/"), "");
    assert_eq!(file_name_from_url(""), "");
}

#[test]
fn joined_paths() {
    assert_eq!(join_path("out", "a.bin"), "out/a.bin");
    assert_eq!(join_path("out/", "a.bin"), "out/a.bin");
    assert_eq!(join_path("", "a.bin"), "a.bin");
    for dir in ["out", "out/", "", "/abs/dir"] {
        let expected = std::path::Path::new(dir).join("a.bin");
        assert_eq!(join_path(dir, "a.bin"), expected.to_str().unwrap());
    }
}
