use include_url_macro::codec::{
    compression_outcome, decode, encode, BROTLI_QUALITY, BROTLI_WINDOW, CODEC_BUFFER,
};
use include_url_macro::encoding::EncodingKind;
use include_url_macro::error::{ErrorKind, FetchError, FetchPhase, IoStep};
use include_url_macro::hex::to_hex_lower;
use include_url_macro::key::{CacheKey, SEPARATOR};
use include_url_macro::resource::{RemoteResource, USER_AGENT};
use include_url_macro::validator::validate_structured;

#[test]
fn hex_of_bytes() {
    assert_eq!(to_hex_lower(&[10, 20, 30]), "0a141e");
    assert_eq!(to_hex_lower(&[]), "");
    assert_eq!(to_hex_lower(&[0x00, 0xff, 0x9a, 0xbc, 0xde, 0xf0]), "00ff9abcdef0");
}

#[test]
fn hex_has_two_lower_case_digits_per_byte() {
    let bytes: Vec<u8> = (0..=255).collect();
    let text = to_hex_lower(&bytes);
    assert_eq!(text.len(), 512);
    assert!(text.chars().all(|c| "0123456789abcdef".contains(c)));
    for (i, byte) in bytes.iter().enumerate() {
        assert_eq!(&text[2 * i..2 * i + 2], format!("{:02x}", byte));
    }
}

#[test]
fn tag_of_each_encoding() {
    let mut out = vec![7u8];
    EncodingKind::Identity.write_tag(&mut out);
    assert_eq!(out, b"\x07None");
    let mut out = Vec::new();
    EncodingKind::Brotli.write_tag(&mut out);
    assert_eq!(out, b"Brotli");
}

#[test]
fn key_is_the_digest_of_namespace_url_and_encoding() {
    assert_eq!(SEPARATOR, 0);
    assert_eq!(
        CacheKey::derive("ns", "http://stub/x", EncodingKind::Identity).as_str(),
        "bcececa44512d232f36a6b736ae84d1f7e9cd1da832de02157d76a901224eced"
    );
    assert_eq!(
        CacheKey::derive("ns", "http://stub/x", EncodingKind::Brotli).as_str(),
        "1e05e863de04fb904b2e30ba00d8acc93ff5fa773eb5608bcbb42e46a99a2290"
    );
    assert_eq!(
        CacheKey::derive("other", "http://stub/x", EncodingKind::Identity).as_str(),
        "1087d10ca3ed547b4a785dfcfa5d2569189a01369e1858ca9d8e1112011f9e2c"
    );
    assert_eq!(
        CacheKey::derive("", "", EncodingKind::Identity).as_str(),
        "24161a00d23b29ec78db53fffc51be7fbab2431c16f994f9565532e6422791f8"
    );
    assert_eq!(
        CacheKey::derive("unknown", "https://example.com", EncodingKind::Identity).as_str(),
        "2622b7d6a32ee0f65b251579215d5bed02b3555e411295ef6454cd699cc5f4f9"
    );
    assert_eq!(
        CacheKey::derive("crate-\u{e9}", "https://example.com/\u{fc}", EncodingKind::Brotli).as_str(),
        "90cfe7f767e0d8a49cbcdd16be5abc1c7a4346ab062e33d68bfad3daeaf31152"
    );
}

#[test]
fn key_is_the_same_every_time() {
    let one = CacheKey::derive("ns", "https://example.com/a", EncodingKind::Brotli);
    let other = CacheKey::derive("ns", "https://example.com/a", EncodingKind::Brotli);
    assert_eq!(one.as_str(), other.as_str());
    assert_eq!(one.as_str().len(), 64);
}

#[test]
fn key_changes_with_each_input() {
    let base = CacheKey::derive("ns", "https://example.com/a", EncodingKind::Identity);
    let encoding = CacheKey::derive("ns", "https://example.com/a", EncodingKind::Brotli);
    let namespace = CacheKey::derive("nt", "https://example.com/a", EncodingKind::Identity);
    let url = CacheKey::derive("ns", "https://example.com/b", EncodingKind::Identity);
    assert_ne!(base.as_str(), encoding.as_str());
    assert_ne!(base.as_str(), namespace.as_str());
    assert_ne!(base.as_str(), url.as_str());
    let shifted = CacheKey::derive("nshttps", "://example.com/a", EncodingKind::Identity);
    assert_ne!(base.as_str(), shifted.as_str());
}

#[test]
fn separator_keeps_namespace_and_url_apart() {
    let one = CacheKey::derive("ab", "c", EncodingKind::Identity);
    let other = CacheKey::derive("a", "bc", EncodingKind::Identity);
    assert_ne!(one.as_str(), other.as_str());
    let inside = CacheKey::derive("a\0b", "c", EncodingKind::Identity);
    let outside = CacheKey::derive("a", "b\0c", EncodingKind::Identity);
    assert_eq!(inside.as_str(), outside.as_str());
}

#[test]
fn fetcher_names_itself() {
    assert_eq!(USER_AGENT, "include_url_macro");
}

#[test]
fn validation_accepts_http_and_https() {
    for url in ["http://example.com", "https://example.com/a?b=c#d", "HTTPS://EXAMPLE.COM", "http://127.0.0.1:8080/x"] {
        let resource = RemoteResource::parse(url).unwrap();
        assert_eq!(resource.as_str(), url);
    }
}

#[test]
fn validation_rejects_other_schemes() {
    for url in ["ftp://example.com", "file:///tmp/x", "data:text/plain,hello", "httpx://example.com"] {
        let error = RemoteResource::parse(url).err().unwrap();
        assert!(matches!(error, FetchError::UnsupportedScheme));
        assert_eq!(error.message(), "Only HTTP and HTTPS URLs are supported");
    }
}

#[test]
fn validation_rejects_what_is_no_url() {
    let error = RemoteResource::parse("not-a-url").err().unwrap();
    assert_eq!(error.kind(), ErrorKind::InvalidUrl);
    assert_eq!(error.message(), "Invalid URL: relative URL without a base");
    let error = RemoteResource::parse("http://[::1").err().unwrap();
    assert_eq!(error.kind(), ErrorKind::InvalidUrl);
    assert_eq!(error.message(), "Invalid URL: invalid IPv6 address");
    assert_eq!(RemoteResource::parse("").err().unwrap().kind(), ErrorKind::InvalidUrl);
}

#[test]
fn identity_hands_the_bytes_back() {
    for bytes in [Vec::new(), b"hello".to_vec(), vec![0, 159, 146, 150, 255]] {
        assert_eq!(encode(bytes.clone(), EncodingKind::Identity).unwrap(), bytes);
        assert_eq!(decode(&bytes, EncodingKind::Identity).unwrap(), bytes);
    }
}

#[test]
fn brotli_round_trip() {
    let mut long = Vec::new();
    for i in 0..200_000u32 {
        long.push((i.wrapping_mul(2654435761) >> 13) as u8);
    }
    let repeated = b"The quick brown fox jumps over the lazy dog. ".repeat(500);
    let every_byte: Vec<u8> = (0..=255).collect();
    for bytes in [Vec::new(), vec![0], b"hello".to_vec(), vec![0xff, 0xfe, 0xc0, 0x80], every_byte, repeated, long] {
        let stored = encode(bytes.clone(), EncodingKind::Brotli).unwrap();
        assert_eq!(decode(&stored, EncodingKind::Brotli).unwrap(), bytes);
    }
}

#[test]
fn brotli_compresses() {
    let repeated = b"The quick brown fox jumps over the lazy dog. ".repeat(500);
    let stored = encode(repeated.clone(), EncodingKind::Brotli).unwrap();
    assert!(stored.len() < repeated.len() / 10);
    let empty = encode(Vec::new(), EncodingKind::Brotli).unwrap();
    assert!(!empty.is_empty());
    let hello = encode(b"hello".to_vec(), EncodingKind::Brotli).unwrap();
    assert_ne!(hello, b"hello");
}

#[test]
fn brotli_settings() {
    assert_eq!(BROTLI_QUALITY, 11);
    assert_eq!(BROTLI_WINDOW, 22);
    assert_eq!(CODEC_BUFFER, 4096);
}

#[test]
fn decode_refuses_what_is_no_stream() {
    assert!(decode(b"hello", EncodingKind::Brotli).is_none());
    assert!(decode(b"", EncodingKind::Brotli).is_none());
    let stored = encode(b"hello hello hello".to_vec(), EncodingKind::Brotli).unwrap();
    assert!(decode(&stored[..stored.len() - 1], EncodingKind::Brotli).is_none());
}

#[test]
fn decode_stops_at_the_end_of_the_stream() {
    let stored = encode(b"hello hello hello".to_vec(), EncodingKind::Brotli).unwrap();
    let mut trailing = stored.clone();
    trailing.extend_from_slice(b"more");
    assert_eq!(decode(&trailing, EncodingKind::Brotli).unwrap(), b"hello hello hello");
}

#[test]
fn compressor_failure_becomes_an_io_error() {
    let flush = std::io::Error::new(std::io::ErrorKind::Other, "sink closed");
    let error = compression_outcome(Err((IoStep::CompressFlush, flush))).unwrap_err();
    assert_eq!(error.kind(), ErrorKind::IoError);
    assert!(matches!(error, FetchError::IoError { step: IoStep::CompressFlush, .. }));
    assert_eq!(error.message(), "Failed to flush compressed content: sink closed");
    let write = std::io::Error::new(std::io::ErrorKind::InvalidData, "Invalid Data");
    let error = compression_outcome(Err((IoStep::CompressWrite, write))).unwrap_err();
    assert_eq!(error.message(), "Failed to write compressed content: Invalid Data");
    assert_eq!(compression_outcome(Ok(vec![1, 2, 3])).unwrap(), vec![1, 2, 3]);
}

#[test]
fn validator_accepts_json() {
    for text in ["{\"a\":1}", "[]", "null", " \"text\" ", "[1, 2.5e3, true, {\"k\": [null]}]", "-0"] {
        assert!(validate_structured(text.as_bytes()).is_ok(), "{}", text);
    }
}

#[test]
fn validator_rejects_what_is_no_json() {
    for text in ["not json", "", "{\"a\":1", "{\"a\":1} x", "{'a':1}", "[1,]"] {
        let error = validate_structured(text.as_bytes()).unwrap_err();
        assert_eq!(error.kind(), ErrorKind::ValidationError, "{}", text);
        assert!(error.message().starts_with("Invalid JSON content from URL: "));
    }
    assert!(validate_structured(&[b'"', 0xff, b'"']).is_err());
}

#[test]
fn validator_reports_where_reading_stopped() {
    let error = validate_structured(b"not json").unwrap_err();
    assert_eq!(
        error.message(),
        "Invalid JSON content from URL: expected ident at line 1 column 2"
    );
}

#[test]
fn typed_reading_is_a_separate_matter() {
    let post = b"{\"userId\": 1, \"id\": 1, \"title\": \"t\", \"body\": \"b\"}";
    assert!(validate_structured(post).is_ok());
    let value: serde_json::Value = serde_json::from_slice(post).unwrap();
    assert!(value.get("email").is_none());
}

#[test]
fn messages() {
    let cause = || "cause".to_string();
    assert_eq!(FetchError::InvalidUrl { cause: cause() }.message(), "Invalid URL: cause");
    assert_eq!(
        FetchError::UnsupportedScheme.message(),
        "Only HTTP and HTTPS URLs are supported"
    );
    assert_eq!(
        FetchError::NetworkError { phase: FetchPhase::Send, cause: cause() }.message(),
        "Failed to fetch URL: cause"
    );
    assert_eq!(
        FetchError::NetworkError { phase: FetchPhase::ReadBody, cause: cause() }.message(),
        "Failed to read response body: cause"
    );
    assert_eq!(
        FetchError::IoError { step: IoStep::CreateCacheDir, cause: cause() }.message(),
        "Failed to create cache directory: cause"
    );
    assert_eq!(
        FetchError::IoError { step: IoStep::CompressWrite, cause: cause() }.message(),
        "Failed to write compressed content: cause"
    );
    assert_eq!(
        FetchError::IoError { step: IoStep::CompressFlush, cause: cause() }.message(),
        "Failed to flush compressed content: cause"
    );
    assert_eq!(
        FetchError::IoError { step: IoStep::OpenEntry, cause: cause() }.message(),
        "Failed to open cache file: cause"
    );
    assert_eq!(
        FetchError::IoError { step: IoStep::WriteEntry, cause: cause() }.message(),
        "Failed to write cache file: cause"
    );
    assert_eq!(
        FetchError::ValidationError { cause: cause() }.message(),
        "Invalid JSON content from URL: cause"
    );
}

#[test]
fn kinds() {
    let cause = || String::new();
    assert_eq!(FetchError::InvalidUrl { cause: cause() }.kind(), ErrorKind::InvalidUrl);
    assert_eq!(FetchError::UnsupportedScheme.kind(), ErrorKind::UnsupportedScheme);
    assert_eq!(
        FetchError::NetworkError { phase: FetchPhase::Send, cause: cause() }.kind(),
        ErrorKind::NetworkError
    );
    assert_eq!(
        FetchError::IoError { step: IoStep::WriteEntry, cause: cause() }.kind(),
        ErrorKind::IoError
    );
    assert_eq!(FetchError::ValidationError { cause: cause() }.kind(), ErrorKind::ValidationError);
}
