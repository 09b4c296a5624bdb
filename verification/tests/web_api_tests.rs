use nano_runtime::runtime::buffer::{
    blob_init, buffer_alloc, buffer_from_string, dom_exception, format_console_args, text_decode, text_encode,
};
use nano_runtime::runtime::env::dns_select;
use nano_runtime::runtime::fetch::fetch_response;
use nano_runtime::runtime::request::{request_array_buffer, request_json_text, request_text};
use nano_runtime::runtime::url::{parse_query, url_parts};
use nano_runtime::runtime::zlib::{
    compression_level, one_shot, parse_kind, stream_kind, zlib_sync, ZStreamTable, ZlibKind,
};

#[test]
fn test_text_encoder_basic() {
    let encoded = text_encode("Hello, World!");
    assert!(encoded.len() == 13 && encoded[0] == 72, "TextEncoder should encode 'Hello, World!' correctly");
}

#[test]
fn test_text_encoder_utf8() {
    let bytes = text_encode("🎉");
    assert_eq!(bytes.len().to_string(), "4");
    assert_eq!(bytes, vec![240, 159, 142, 137]);
}

#[test]
fn test_text_decoder_basic() {
    let original = "Hello, UTF-8! 🎉";
    let decoded = text_decode(&text_encode(original));
    let result_str = if decoded == original { "PASS".to_string() } else { format!("FAIL: {}", decoded) };
    assert!(result_str.starts_with("PASS"), "Roundtrip failed: {}", result_str);
}

#[test]
fn test_text_decoder_invalid_utf8() {
    let result_str = text_decode(&[0xFF, 0xFE]);
    assert!(
        result_str.contains('\u{FFFD}') || result_str.len() > 0,
        "Invalid UTF-8 should produce replacement characters"
    );
    assert_eq!(result_str, "\u{FFFD}\u{FFFD}");
}

#[test]
fn test_dom_exception() {
    let err = dom_exception(Some("Something went wrong".to_string()), Some("AbortError".to_string()));
    assert!(err.name == "AbortError" && err.message == "Something went wrong");
    assert_eq!(err.stack, "DOMException: Something went wrong");
    let plain = dom_exception(None, None);
    assert_eq!(plain.name, "Error");
    assert_eq!(plain.message, "");
}

#[test]
fn test_buffer_alloc_and_from() {
    assert_eq!(buffer_alloc(3, 7), vec![7, 7, 7]);
    assert_eq!(buffer_alloc(0, 1), Vec::<u8>::new());
    assert_eq!(buffer_from_string("68656c6c6f", "hex"), b"hello".to_vec());
    assert_eq!(buffer_from_string("68656C6C6F", "HEX"), b"hello".to_vec());
    assert_eq!(buffer_from_string("6g6", "hex"), Vec::<u8>::new());
    assert_eq!(buffer_from_string("+1ff0", "hex"), vec![1, 0xff]);
    assert_eq!(buffer_from_string("abc", "hex"), vec![0xab]);
    assert_eq!(buffer_from_string("héllo", "utf8"), "héllo".as_bytes().to_vec());
    assert_eq!(buffer_from_string("abc", "base64"), b"abc".to_vec());
}

#[test]
fn test_request_body_readers() {
    assert_eq!(request_text(Some("aGVsbG8=")), "hello");
    assert_eq!(request_text(Some("!!not base64")), "");
    assert_eq!(request_text(None), "");
    assert_eq!(request_array_buffer(Some("AAEC")), vec![0, 1, 2]);
    assert_eq!(request_array_buffer(None), Vec::<u8>::new());
    assert_eq!(request_json_text(Some("eyJhIjoxfQ==")), Some("{\"a\":1}".to_string()));
    assert_eq!(request_json_text(Some("%")), None);
}

#[test]
fn test_dns_select() {
    let addrs = vec![
        ("127.0.0.1".to_string(), 4),
        ("::1".to_string(), 6),
        ("10.0.0.1".to_string(), 4),
    ];
    assert_eq!(dns_select("h", addrs.clone(), 0).unwrap().len(), 3);
    assert_eq!(
        dns_select("h", addrs.clone(), 4).unwrap(),
        vec![("127.0.0.1".to_string(), 4), ("10.0.0.1".to_string(), 4)]
    );
    assert_eq!(dns_select("h", addrs.clone(), 6).unwrap(), vec![("::1".to_string(), 6)]);
    let e = dns_select("nowhere.invalid", vec![], 0).unwrap_err();
    assert_eq!(e.code, "ENOTFOUND");
    assert_eq!(e.message, "getaddrinfo ENOTFOUND nowhere.invalid");
    assert_eq!(e.syscall, "getaddrinfo");
    assert!(dns_select("h", vec![("::1".to_string(), 6)], 4).is_err());
}

#[test]
fn test_fetch_invalid_url() {
    let result = fetch_response("file:///etc/passwd", None);
    assert!(result.is_err(), "fetch() with invalid URL should throw TypeError");
    assert_eq!(result.unwrap_err(), "URL scheme not allowed: file:///etc/passwd");
    assert!(fetch_response("javascript:alert(1)", None).is_err());
    assert!(fetch_response("ftp://host/x", None).is_err());
}

#[test]
fn test_fetch_returns_response() {
    let response = fetch_response("https://example.com", None).unwrap();
    assert!(response.status == 200 && response.ok);
    assert_eq!(response.status_text, "OK");
    assert_eq!(response.url, "https://example.com");
    assert_eq!(response.method, "GET");
}

#[test]
fn test_fetch_post_with_body() {
    let response = fetch_response("https://example.com", Some("post")).unwrap();
    assert_eq!(response.status, 200);
    assert_eq!(response.method, "POST");
}

#[test]
fn test_url_parts() {
    let p = url_parts("https://user@example.com:8080/a/b?x=1&y=2#frag").unwrap();
    assert_eq!(p.href, "https://user@example.com:8080/a/b?x=1&y=2#frag");
    assert_eq!(p.protocol, "https:");
    assert_eq!(p.host, "example.com:8080");
    assert_eq!(p.hostname, "example.com");
    assert_eq!(p.port, "8080");
    assert_eq!(p.pathname, "/a/b");
    assert_eq!(p.search, "?x=1&y=2");
    assert_eq!(p.hash, "#frag");
    assert_eq!(p.query, "x=1&y=2");
    let d = url_parts("https://example.com:443/").unwrap();
    assert_eq!(d.port, "");
    assert_eq!(d.host, "example.com");
    let fallback = url_parts("not a url").unwrap();
    assert_eq!(fallback.href, "http://localhost/");
    assert_eq!(fallback.search, "");
    assert_eq!(fallback.hash, "");
}

#[test]
fn test_parse_query() {
    let pairs = parse_query("foo=bar&baz=qux");
    assert_eq!(pairs, vec![("foo".to_string(), "bar".to_string()), ("baz".to_string(), "qux".to_string())]);
    let pairs = parse_query("a&&b=&=x&c=1=2");
    assert_eq!(
        pairs,
        vec![
            ("a".to_string(), "".to_string()),
            ("b".to_string(), "".to_string()),
            ("".to_string(), "x".to_string()),
            ("c".to_string(), "1=2".to_string()),
        ]
    );
    assert!(parse_query("").is_empty());
}

#[test]
fn test_zlib_round_trips() {
    let data = b"hello hello hello hello zlib".to_vec();
    for (enc, dec) in [
        ("gzip", "gunzip"),
        ("deflate", "inflate"),
        ("deflateRaw", "inflateRaw"),
        ("brotliCompress", "brotliDecompress"),
        ("gzip", "unzip"),
        ("deflate", "unzip"),
    ] {
        let packed = one_shot(enc, &data, Some(9)).unwrap();
        assert_eq!(one_shot(dec, &packed, None).unwrap(), data, "{} then {}", enc, dec);
    }
    let gz = one_shot("gzip", &data, None).unwrap();
    assert_eq!(&gz[..2], &[0x1f, 0x8b]);
}

#[test]
fn test_zlib_errors() {
    assert_eq!(one_shot("lz4", b"x", None).unwrap_err(), "unknown zlib kind: lz4");
    let e = zlib_sync("gunzip", b"definitely not gzip", None).unwrap_err();
    assert_eq!(e.code, "Z_DATA_ERROR");
    assert!(e.message.starts_with("zlib gunzip: "));
    let e = stream_kind("lz4").unwrap_err();
    assert_eq!(e.code, "ERR_ZLIB_INITIALIZATION_FAILED");
    assert_eq!(e.message, "unknown zlib kind: lz4");
    assert_eq!(stream_kind("unzip").unwrap(), ZlibKind::Unzip);
    assert_eq!(parse_kind("brotliCompress"), Some(ZlibKind::BrotliCompress));
    assert_eq!(compression_level(Some(3)), 3);
    assert_eq!(compression_level(Some(10)), 6);
    assert_eq!(compression_level(None), 6);
}

#[test]
fn test_zstream_table() {
    let mut t: ZStreamTable<&str> = ZStreamTable::new();
    let a = t.create("a");
    let b = t.create("b");
    assert_eq!((a, b), (1, 2));
    assert!(t.contains(a));
    assert_eq!(t.take(a), Some("a"));
    assert!(!t.contains(a));
    t.put(a, "a2");
    assert_eq!(t.take(a), Some("a2"));
    t.free(b);
    assert_eq!(t.take(b), None);
    let c = t.create("c");
    assert_eq!(c, 3);
    t.clear();
    assert!(!t.contains(c));
    assert_eq!(t.create("d"), 4);
}

#[test]
fn test_blob_init() {
    let b = blob_init(&vec!["ab".to_string(), "é".to_string()], "text/plain".to_string());
    assert_eq!(b.size, 4);
    assert_eq!(b.text, "abé");
    assert_eq!(b.blob_type, "text/plain");
    assert_eq!(blob_init(&vec![], String::new()).size, 0);
}

#[test]
fn test_format_console_args() {
    let args = vec!["a".to_string(), "1".to_string(), "[object Object]".to_string()];
    assert_eq!(format_console_args(&args), "a 1 [object Object]");
    assert_eq!(format_console_args(&vec![]), "");
    assert_eq!(format_console_args(&vec!["x".to_string()]), "x");
}

#[test]
fn test_zlib_level_above_nine_uses_default() {
    let data = b"level level level level level".to_vec();
    for (enc, dec) in [("gzip", "gunzip"), ("deflate", "inflate"), ("deflateRaw", "inflateRaw")] {
        let high = one_shot(enc, &data, Some(12)).unwrap();
        assert_eq!(high, one_shot(enc, &data, None).unwrap());
        assert_eq!(one_shot(dec, &high, None).unwrap(), data);
    }
}
