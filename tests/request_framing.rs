use proj::headers::{content_length, eq_ignore_ascii_case, is_text, HeaderCache};
use proj::network::HandleData;
use proj::request::{error_buffer_bytes, parse_content_length, push_decimal, range_header_value, take_chunk};
use proj::ProjError;

fn h(name: &str, value: &[u8]) -> (Vec<u8>, Vec<u8>) {
    (name.as_bytes().to_vec(), value.to_vec())
}

#[test]
fn range_header_includes_both_ends() {
    assert_eq!(range_header_value(0, 16384), "bytes=0-16383");
    assert_eq!(range_header_value(100, 1), "bytes=100-100");
    assert_eq!(range_header_value(10, 90), "bytes=10-99");
    assert_eq!(
        range_header_value(u64::MAX - 9, 10),
        format!("bytes={}-{}", u64::MAX - 9, u64::MAX)
    );
}

#[test]
fn decimal_digits() {
    let mut s = String::from("n=");
    push_decimal(&mut s, 0);
    assert_eq!(s, "n=0");
    let mut s = String::new();
    push_decimal(&mut s, 1234567890);
    assert_eq!(s, "1234567890");
}

#[test]
fn content_length_parses_like_std() {
    assert_eq!(parse_content_length(b"123"), Some(123));
    assert_eq!(parse_content_length(b"+5"), Some(5));
    assert_eq!(parse_content_length(b"007"), Some(7));
    assert_eq!(parse_content_length(b""), None);
    assert_eq!(parse_content_length(b"+"), None);
    assert_eq!(parse_content_length(b"-1"), None);
    assert_eq!(parse_content_length(b"12a"), None);
    assert_eq!(parse_content_length(b" 12"), None);
    let max = usize::MAX.to_string();
    assert_eq!(parse_content_length(max.as_bytes()), Some(usize::MAX));
    let over = format!("{}0", usize::MAX);
    assert_eq!(parse_content_length(over.as_bytes()), None);
}

#[test]
fn content_length_from_headers() {
    let headers = vec![
        h("content-type", b"image/tiff"),
        h("Content-Length", b"42"),
        h("content-length", b"7"),
    ];
    assert_eq!(content_length(&headers).unwrap(), 42);
    let missing = vec![h("content-type", b"image/tiff")];
    assert!(matches!(content_length(&missing), Err(ProjError::ContentLength)));
    let bad = vec![h("content-length", b"lots")];
    assert!(matches!(content_length(&bad), Err(ProjError::ContentLength)));
}

#[test]
fn chunk_is_cut_to_smallest_bound() {
    let body: Vec<u8> = (0u8..10).collect();
    assert_eq!(take_chunk(body.clone(), 4, 8), vec![0, 1, 2, 3]);
    assert_eq!(take_chunk(body.clone(), 8, 3), vec![0, 1, 2]);
    assert_eq!(take_chunk(body.clone(), 100, 100), body);
    assert_eq!(take_chunk(Vec::new(), 5, 5), Vec::<u8>::new());
}

#[test]
fn error_buffer_is_terminated_and_bounded() {
    assert_eq!(error_buffer_bytes("oops", 128), b"oops\0".to_vec());
    assert_eq!(error_buffer_bytes("abcdef", 4), b"abc\0".to_vec());
    assert_eq!(error_buffer_bytes("ab\0cd", 128), b"ab\0".to_vec());
    assert_eq!(error_buffer_bytes("abc", 1), b"\0".to_vec());
    let long = "x".repeat(300);
    let out = error_buffer_bytes(&long, 128);
    assert_eq!(out.len(), 128);
    assert_eq!(out[127], 0);
}

#[test]
fn header_names_compare_without_case() {
    assert!(eq_ignore_ascii_case(b"Content-Length", b"content-length"));
    assert!(!eq_ignore_ascii_case(b"content-length", b"content-lengths"));
    assert!(!eq_ignore_ascii_case(b"etag", b"etah"));
    assert!(is_text(b"bytes 0-9/100\t"));
    assert!(!is_text(b"caf\xc3\xa9"));
    assert!(!is_text(b"a\x7f"));
}

#[test]
fn header_cache_keeps_text_values_and_last_wins() {
    let cache = HeaderCache::from_response(vec![
        h("x-amz-version-id", b"one"),
        h("etag", b"\"abc\""),
        h("x-bin", b"\xff\xfe"),
        h("x-amz-version-id", b"two"),
    ]);
    assert_eq!(cache.get(b"ETag").unwrap().as_slice(), b"\"abc\"");
    assert_eq!(cache.get(b"X-Amz-Version-Id").unwrap().as_slice(), b"two");
    assert!(cache.get(b"x-bin").is_none());
    assert!(cache.get(b"content-range").is_none());
    assert!(HeaderCache::new().get(b"etag").is_none());
}

#[test]
fn handle_data_refreshes_headers_and_keeps_url() {
    let url = "https://cdn.proj.org/uk_os_OSTN15_NTv2_OSGBtoETRS.tif".to_string();
    let first = HeaderCache::from_response(vec![h("content-range", b"bytes 0-9/100")]);
    let mut hd = HandleData::new(url.clone(), first);
    assert_eq!(hd.header_value(b"Content-Range").unwrap().as_slice(), b"bytes 0-9/100");
    hd.replace_headers(HeaderCache::from_response(vec![h("content-range", b"bytes 10-19/100")]));
    assert_eq!(hd.header_value(b"content-range").unwrap().as_slice(), b"bytes 10-19/100");
    assert_eq!(hd.url(), &url);
}
