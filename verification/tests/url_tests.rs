use rustify::errors::ClientError;
use rustify::query::QueryValue;
use rustify::url::build_url;

fn ok_url(base: &str, path: &str, query: Vec<(String, QueryValue)>) -> Vec<u8> {
    build_url(base, path, &query).unwrap()
}

fn is_rejected(base: &str) -> bool {
    match build_url(base, "p", &Vec::new()) {
        Err(ClientError::UrlParseError { url }) => url == base,
        _ => false,
    }
}

#[test]
fn plain_join_appends_segments() {
    assert_eq!(
        ok_url("http://api.example.com", "v1/items", Vec::new()),
        b"http://api.example.com/v1/items".to_vec()
    );
}

#[test]
fn empty_path_keeps_a_single_slash() {
    assert_eq!(ok_url("http://host", "", Vec::new()), b"http://host/".to_vec());
}

#[test]
fn base_path_is_preserved() {
    assert_eq!(
        ok_url("https://host/api/v2", "things", Vec::new()),
        b"https://host/api/v2/things".to_vec()
    );
}

#[test]
fn non_ascii_segments_are_percent_encoded() {
    assert_eq!(
        ok_url("http://host", "caf\u{e9}/menu", Vec::new()),
        b"http://host/caf%C3%A9/menu".to_vec()
    );
}

#[test]
fn reserved_bytes_in_segments_are_percent_encoded() {
    assert_eq!(
        ok_url("http://host", "a b/c?d", Vec::new()),
        b"http://host/a%20b/c%3Fd".to_vec()
    );
}

#[test]
fn query_keys_and_values_are_percent_encoded() {
    let q = vec![(String::from("k v"), QueryValue::Str(String::from("x&y")))];
    assert_eq!(ok_url("http://host", "p", q), b"http://host/p?k%20v=x%26y".to_vec());
}

#[test]
fn schemes_other_than_http_are_accepted() {
    assert_eq!(
        ok_url("custom+scheme-1.2://host", "p", Vec::new()),
        b"custom+scheme-1.2://host/p".to_vec()
    );
}

#[test]
fn malformed_bases_are_rejected_with_the_offending_string() {
    assert!(is_rejected("no separator"));
    assert!(is_rejected("://missing.scheme"));
    assert!(is_rejected("1digit://first"));
    assert!(is_rejected("http://"));
    assert!(is_rejected("http:///slash.first"));
    assert!(is_rejected("http://host/path?query=embedded"));
    assert!(is_rejected("http://host with spaces"));
}
