use ccurlshortener::codec::fingerprint;
use ccurlshortener::codec::fingerprint_from_bytes;
use ccurlshortener::codec::DecodeError;
use ccurlshortener::mapping::UrlMapping;
use std::collections::hash_map::DefaultHasher;
use std::hash::Hasher;

fn hash_byte_by_byte(url: &str) -> i64 {
    let mut hasher = DefaultHasher::new();
    for byte in url.as_bytes() {
        hasher.write_u8(*byte);
    }
    hasher.finish() as i64
}

#[test]
fn fingerprint_of_known_urls() {
    assert_eq!(fingerprint("https://example.com/a"), 2160629995982712861);
    assert_eq!(fingerprint("https://example.com/b"), -5233122114283810812);
    assert_eq!(fingerprint("a"), 4644417185603328019);
    assert_eq!(fingerprint(""), -3315872660926475476);
}

#[test]
fn fingerprint_is_the_default_hash_of_the_bytes() {
    for url in ["", "a", "https://example.com/a", "https://example.com/?q=\u{e9}\u{4e16}"] {
        assert_eq!(fingerprint(url), hash_byte_by_byte(url));
    }
}

#[test]
fn fingerprint_is_stable_and_order_sensitive() {
    assert_eq!(fingerprint("https://example.com/a"), fingerprint("https://example.com/a"));
    assert_ne!(fingerprint("ab"), fingerprint("ba"));
    assert_ne!(fingerprint("https://example.com/a"), fingerprint("https://example.com/b"));
}

#[test]
fn slug_of_known_fingerprints() {
    assert_eq!(UrlMapping::get_slug(0), "AAAAAAAAAAA=");
    assert_eq!(UrlMapping::get_slug(1), "AQAAAAAAAAA=");
    assert_eq!(UrlMapping::get_slug(255), "_wAAAAAAAAA=");
    assert_eq!(UrlMapping::get_slug(256), "AAEAAAAAAAA=");
    assert_eq!(UrlMapping::get_slug(-1), "__________8=");
    assert_eq!(UrlMapping::get_slug(-2), "_v________8=");
    assert_eq!(UrlMapping::get_slug(0x0102030405060708), "CAcGBQQDAgE=");
    assert_eq!(UrlMapping::get_slug(i64::MAX), "_________38=");
    assert_eq!(UrlMapping::get_slug(i64::MIN), "AAAAAAAAAIA=");
}

#[test]
fn slug_is_little_endian() {
    assert_eq!(UrlMapping::slug_to_int(&"AQAAAAAAAAA=".to_string()), Ok(1));
    assert_eq!(UrlMapping::slug_to_int(&"AAAAAAAAAAE=".to_string()), Ok(1 << 56));
}

#[test]
fn slug_uses_the_url_safe_alphabet() {
    let slug = UrlMapping::get_slug(-1);
    assert!(!slug.contains('+'));
    assert!(!slug.contains('/'));
    assert_eq!(UrlMapping::slug_to_int(&"__________8=".to_string()), Ok(-1));
    assert_eq!(
        UrlMapping::slug_to_int(&"//////////8=".to_string()),
        Err(DecodeError::InvalidBase64)
    );
    assert_eq!(
        UrlMapping::slug_to_int(&"++++++++++8=".to_string()),
        Err(DecodeError::InvalidBase64)
    );
}

#[test]
fn slug_round_trip() {
    let samples = [
        0,
        1,
        -1,
        2,
        -2,
        255,
        256,
        65535,
        0x0102030405060708,
        -0x0102030405060708,
        2160629995982712861,
        -5233122114283810812,
        i64::MAX,
        i64::MIN,
        i64::MAX - 1,
        i64::MIN + 1,
    ];
    for x in samples {
        assert_eq!(UrlMapping::slug_to_int(&UrlMapping::get_slug(x)), Ok(x));
        assert_eq!(UrlMapping::from_slug(UrlMapping::get_slug(x)), Ok(x));
    }
}

#[test]
fn slug_round_trip_over_a_range() {
    let mut x: i64 = -3000;
    while x <= 3000 {
        assert_eq!(UrlMapping::slug_to_int(&UrlMapping::get_slug(x)), Ok(x));
        x += 1;
    }
    let mut shift = 0;
    while shift < 63 {
        let y: i64 = 1 << shift;
        assert_eq!(UrlMapping::slug_to_int(&UrlMapping::get_slug(y)), Ok(y));
        assert_eq!(UrlMapping::slug_to_int(&UrlMapping::get_slug(-y)), Ok(-y));
        shift += 1;
    }
}

#[test]
fn slug_is_not_its_fingerprint_printed() {
    assert_ne!(UrlMapping::get_slug(12345), "12345");
    assert_eq!(UrlMapping::get_slug(12345).len(), 12);
}

#[test]
fn text_that_is_not_base64_is_refused() {
    for text in ["not base64!", "AAAA AAAA", "AAAAAAAAAAA", "AAAAAAAAAAA=\n", "=AAAAAAAAAAA", "AAAAAAAAAAB=", "AAAAAAAAAAA+", "\u{e9}"] {
        assert_eq!(
            UrlMapping::slug_to_int(&text.to_string()),
            Err(DecodeError::InvalidBase64),
            "{}",
            text
        );
    }
}

#[test]
fn base64_of_another_length_is_refused() {
    for text in ["", "AA==", "AAA=", "AAAA", "AAAAAAAAAA==", "AAAAAAAAAAAA", "AAAAAAAAAAAAAAAA"] {
        assert_eq!(
            UrlMapping::slug_to_int(&text.to_string()),
            Err(DecodeError::InvalidLength),
            "{}",
            text
        );
    }
}

#[test]
fn from_slug_agrees_with_slug_to_int() {
    for text in ["AQAAAAAAAAA=", "AAAA", "??", ""] {
        assert_eq!(
            UrlMapping::from_slug(text.to_string()),
            UrlMapping::slug_to_int(&text.to_string())
        );
    }
}

#[test]
fn fingerprint_from_decoded_bytes() {
    assert_eq!(fingerprint_from_bytes(None), Err(DecodeError::InvalidBase64));
    assert_eq!(fingerprint_from_bytes(Some(vec![])), Err(DecodeError::InvalidLength));
    assert_eq!(fingerprint_from_bytes(Some(vec![1, 2, 3, 4, 5, 6, 7])), Err(DecodeError::InvalidLength));
    assert_eq!(
        fingerprint_from_bytes(Some(vec![1, 2, 3, 4, 5, 6, 7, 8, 9])),
        Err(DecodeError::InvalidLength)
    );
    assert_eq!(fingerprint_from_bytes(Some(vec![1, 0, 0, 0, 0, 0, 0, 0])), Ok(1));
    assert_eq!(fingerprint_from_bytes(Some(vec![8, 7, 6, 5, 4, 3, 2, 1])), Ok(0x0102030405060708));
    assert_eq!(fingerprint_from_bytes(Some(vec![255; 8])), Ok(-1));
    assert_eq!(fingerprint_from_bytes(Some(vec![0, 0, 0, 0, 0, 0, 0, 128])), Ok(i64::MIN));
}
