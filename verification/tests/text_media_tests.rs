use cazzmachine_lib::media::{image_data_url, image_mime_type};
use cazzmachine_lib::recency::recency_minutes;
use cazzmachine_lib::text::{decimal_string, join_strings, str_contains, str_equal};

#[test]
fn decimal_rendering() {
    assert_eq!(decimal_string(0), "0");
    assert_eq!(decimal_string(7), "7");
    assert_eq!(decimal_string(10), "10");
    assert_eq!(decimal_string(1234), "1234");
    assert_eq!(decimal_string(u64::MAX), u64::MAX.to_string());
}

#[test]
fn string_helpers() {
    assert!(str_equal("abc", "abc"));
    assert!(!str_equal("abc", "abd"));
    assert!(str_contains("https://i.redd.it/x.png?w=1", ".png"));
    assert!(!str_contains("https://i.redd.it/x.jpg", ".png"));
    assert!(str_contains("abc", ""));
    assert!(!str_contains("", "a"));
    let parts = vec!["a".to_string(), "bb".to_string(), "c".to_string()];
    assert_eq!(join_strings(&parts, ", "), "a, bb, c");
    assert_eq!(join_strings(&Vec::new(), ", "), "");
}

#[test]
fn mime_types_from_url() {
    assert_eq!(image_mime_type("https://x/y.png"), "image/png");
    assert_eq!(image_mime_type("https://x/y.gif"), "image/gif");
    assert_eq!(image_mime_type("https://x/y.webp"), "image/webp");
    assert_eq!(image_mime_type("https://x/y.jpg"), "image/jpeg");
    assert_eq!(image_mime_type("https://x/a.gif.png"), "image/png");
}

#[test]
fn data_url_embeds_base64() {
    assert_eq!(
        image_data_url("https://x/y.png", b"hello"),
        "data:image/png;base64,aGVsbG8="
    );
    assert_eq!(image_data_url("https://x/y", b""), "data:image/jpeg;base64,");
    assert_eq!(image_data_url("https://x/a.gif", b"GIF"), "data:image/gif;base64,R0lG");
    assert_eq!(image_data_url("https://x/a", b"GIF8"), "data:image/jpeg;base64,R0lGOA==");
    assert_eq!(image_data_url("https://x/a", &[0xfb, 0xff]), "data:image/jpeg;base64,+/8=");
}

#[test]
fn recency_of_missing_or_bad_timestamp() {
    assert_eq!(recency_minutes(None), None);
    assert_eq!(recency_minutes(Some("yesterday")), None);
    let m = recency_minutes(Some("2024-01-01T00:00:00"));
    assert!(m.is_some());
    assert!(m.unwrap() > 0);
}
