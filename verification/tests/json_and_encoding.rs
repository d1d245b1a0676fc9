use spotify_api::apis::{first_playlist_id, wiki_description};
use spotify_api::command::communicator::{Communicator, HttpOutcome};
use spotify_api::command::Command;
use spotify_api::json::{element_of, member_of, strip_outer_chars, unquoted, JsonNumber, JsonValue};
use spotify_api::text::{decimal_string, str_eq, text_contains, text_less};
use spotify_api::token_retrieval::client_credentials;

fn sample() -> JsonValue {
    JsonValue::Object(vec![
        (
            "a".to_string(),
            JsonValue::Object(vec![(
                "b".to_string(),
                JsonValue::Array(vec![
                    JsonValue::Number(JsonNumber::from_u64(1)),
                    JsonValue::String("x".to_string()),
                    JsonValue::Null,
                    JsonValue::Bool(true),
                ]),
            )]),
        ),
        ("id".to_string(), JsonValue::String("37i9dQZF1DX".to_string())),
        ("n".to_string(), JsonValue::Number(JsonNumber::from_i64(-12))),
        ("q".to_string(), JsonValue::String("a\"b\n".to_string())),
    ])
}

#[test]
fn navigation_follows_value_indexing() {
    let v = sample();
    let b = member_of(v.get("a"), "b");
    assert!(b.is_some());
    match element_of(b, 0) {
        Some(JsonValue::Number(n)) => assert_eq!(n.as_u64(), Some(1)),
        _ => panic!("expected a number"),
    }
    assert_eq!(element_of(b, 1).unwrap().as_str(), Some("x"));
    assert!(matches!(element_of(b, 2), Some(JsonValue::Null)));
    assert!(matches!(element_of(b, 3), Some(JsonValue::Bool(true))));
    assert!(element_of(b, 4).is_none());
    assert!(v.get("missing").is_none());
    assert!(member_of(v.get("missing"), "deeper").is_none());
    assert!(v.is_object());
    assert!(v.at(0).is_none());
    assert_eq!(JsonNumber::from_i64(-3).as_i128(), Some(-3));
    assert_eq!(JsonNumber::from_i64(3).as_u64(), Some(3));
}

#[test]
fn unquoted_strips_the_printed_form() {
    let v = sample();
    assert_eq!(unquoted(v.get("id")), "37i9dQZF1DX");
    // a string keeps its escapes, a number loses its first and last character,
    // a missing value prints as null
    assert_eq!(unquoted(v.get("q")), "a\\\"b\\n");
    assert_eq!(unquoted(v.get("n")), "1");
    assert_eq!(unquoted(v.get("missing")), "ul");
    assert_eq!(unquoted(Some(&JsonValue::Bool(false))), "als");
    assert_eq!(strip_outer_chars("x"), "");
    assert_eq!(strip_outer_chars("[abc]"), "abc");
}

#[test]
fn answers_are_parsed_as_json() {
    assert_eq!(first_playlist_id("{\"playlists\": {\"items\": [{\"id\": \"p9\"}]}}"), Some("p9".to_string()));
    assert_eq!(first_playlist_id("{\"playlists\": "), None);
    assert_eq!(first_playlist_id(""), None);
    // objects print compactly: the first page's extract is printed as JSON
    let body = "{\"query\": {\"pages\": {\"1\": {\"extract\": {\"k\": [null, 2]}}}}}";
    assert_eq!(wiki_description(body), Some("{\"k\":[null,2]}".to_string()));
}

#[test]
fn search_text_is_percent_encoded() {
    let c = Command::new();
    assert_eq!(c.search("Daft Punk", "album").url, "https://api.spotify.com/v1/search?q=Daft%20Punk&type=album");
    assert_eq!(c.search("a&b=c", "album").url, "https://api.spotify.com/v1/search?q=a&b=c&type=album");
    assert_eq!(
        c.search("\"#<>`?{}", "album").url,
        "https://api.spotify.com/v1/search?q=%22%23%3C%3E%60%3F%7B%7D&type=album"
    );
    assert_eq!(c.search("é", "album").url, "https://api.spotify.com/v1/search?q=%C3%A9&type=album");
}

#[test]
fn credentials_are_base64() {
    assert_eq!(client_credentials("id", "secret"), "aWQ6c2VjcmV0");
    assert_eq!(client_credentials("a", ""), "YTo=");
    assert_eq!(client_credentials("ab", "cd"), "YWI6Y2Q=");
}

#[test]
fn answers_must_be_utf8() {
    let get = Communicator::perform("https://x", "", "", vec![], "GET").ok().unwrap();
    let r = Communicator::read_outcome(&get, HttpOutcome { performed: true, code: 200, body: vec![104, 105] });
    assert!(matches!(r, Some(Ok(ref s)) if s == "hi"));
    let r = Communicator::read_outcome(&get, HttpOutcome { performed: true, code: 200, body: vec![0xff, 0xfe] });
    assert!(r.is_none());
}

#[test]
fn text_helpers() {
    assert!(str_eq("abc", "abc"));
    assert!(!str_eq("abc", "abd"));
    assert_eq!(decimal_string(0), "0");
    assert_eq!(decimal_string(1234), "1234");
    assert!(text_less("Abba", "Beatles"));
    assert!(!text_less("b", "b"));
    assert!(text_less("b", "ba"));
    assert!(text_contains("Random Access Memories", "Access"));
    assert!(text_contains("abc", ""));
    assert!(!text_contains("abc", "abcd"));
}
