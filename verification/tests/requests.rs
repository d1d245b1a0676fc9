use spotify_api::command::communicator::{ApiError, Communicator, ErrorKind, HttpOutcome, HttpRequest, TransferMode};
use spotify_api::command::Command;

fn strings(v: &[&str]) -> Vec<String> {
    v.iter().map(|s| s.to_string()).collect()
}

fn ok_outcome(body: &str) -> HttpOutcome {
    HttpOutcome { performed: true, code: 200, body: body.as_bytes().to_vec() }
}

fn assert_get(r: &HttpRequest, url: &str, token: &str) {
    assert_eq!(r.mode, TransferMode::Download);
    assert_eq!(r.url, url);
    assert_eq!(r.body, "");
    assert_eq!(r.headers, strings(&[&format!("Authorization: Bearer {}", token)]));
}

#[test]
fn new_command_carries_placeholder_token() {
    let c = Command::new();
    let r = c.get_currently_playing();
    assert_get(&r, "https://api.spotify.com/v1/me/player/currently-playing", "NULL");
}

#[test]
fn play_with_album_context() {
    let c = Command::new();
    let r = c.play("t1", "track", "a1", "album");
    assert_eq!(r.mode, TransferMode::Upload);
    assert_eq!(r.url, "https://api.spotify.com/v1/me/player/play");
    assert_eq!(
        r.body,
        "{\"context_uri\":\"spotify:album:a1\",\"offset\": {\"uri\": \"spotify:track:t1\"}}"
    );
    assert_eq!(
        r.headers,
        strings(&["Accept: application/json", "Content-Type: application/json", "Authorization: Bearer NULL"])
    );
}

#[test]
fn play_without_context_and_resume() {
    let c = Command::new();
    assert_eq!(c.play("t1", "track", "", "").body, "{\"uris\": [\"spotify:track:t1\"]}");
    assert_eq!(c.play("", "", "", "").body, "");
}

#[test]
fn search_request_encodes_the_text() {
    let c = Command::new();
    let r = c.search("Daft Punk", "playlist");
    assert_get(&r, "https://api.spotify.com/v1/search?q=Daft%20Punk&type=playlist", "NULL");
}

#[test]
fn library_page_requests() {
    let c = Command::new();
    assert_get(&c.get_my_albums(100, 50), "https://api.spotify.com/v1/me/albums?limit=50&offset=100", "NULL");
    assert_get(&c.get_my_albums(0, 1), "https://api.spotify.com/v1/me/albums?limit=1&offset=0", "NULL");
}

#[test]
fn album_artist_and_player_requests() {
    let c = Command::new();
    assert_get(&c.get_tracks_from_album("abc"), "https://api.spotify.com/v1/albums/abc/tracks", "NULL");
    assert_get(&c.get_albums_from_artist("xyz"), "https://api.spotify.com/v1/artists/xyz/albums", "NULL");
    assert_get(&c.get_artist_data("xyz"), "https://api.spotify.com/v1/artists/xyz", "NULL");
    assert_get(&c.get_playback_state(), "https://api.spotify.com/v1/me/player", "NULL");
}

#[test]
fn wiki_request_has_no_header() {
    let c = Command::new();
    let r = c.get_wiki_description("Daft Punk");
    assert_eq!(r.mode, TransferMode::Download);
    assert_eq!(
        r.url,
        "https://en.wikipedia.org/w/api.php?action=query&prop=extracts&explaintext=true&format=json&exchars=300&titles=Daft%20Punk"
    );
    assert!(r.headers.is_empty());
}

#[test]
fn token_requests() {
    let c = Command::new();
    let r = c.refresh("c2VjcmV0", "rt");
    assert_eq!(r.mode, TransferMode::FormPost);
    assert_eq!(r.url, "https://accounts.spotify.com/api/token");
    assert_eq!(r.body, "grant_type=refresh_token&refresh_token=rt");
    assert_eq!(r.headers, strings(&["Authorization: Basic c2VjcmV0"]));
    let r = c.retrieve_refresh_token("c2VjcmV0", "code1");
    assert_eq!(
        r.body,
        "grant_type=authorization_code&code=code1&redirect_uri=http%3A%2F%2Flocalhost:8000%2F"
    );
}

#[test]
fn refresh_takes_the_new_token() {
    let mut c = Command::new();
    let r = c.finish_refresh(ok_outcome("{\"access_token\": \"tok\", \"expires_in\": 3600}"));
    assert!(matches!(r, Some(Ok(()))));
    assert_get(&c.get_playback_state(), "https://api.spotify.com/v1/me/player", "tok");
}

#[test]
fn refresh_failures_keep_the_token() {
    let mut c = Command::new();
    let r = c.finish_refresh(HttpOutcome { performed: false, code: 0, body: vec![] });
    match r {
        Some(Err(ApiError { kind, message })) => {
            assert_eq!(kind, ErrorKind::NotConnected);
            assert_eq!(message, "Connection error");
        }
        _ => panic!("expected a connection error"),
    }
    let r = c.finish_refresh(HttpOutcome { performed: true, code: 400, body: b"{}".to_vec() });
    match r {
        Some(Err(e)) => {
            assert_eq!(e.kind, ErrorKind::Other);
            assert_eq!(e.message, "400");
        }
        _ => panic!("expected a status error"),
    }
    assert!(c.finish_refresh(ok_outcome("not json")).is_none());
    assert_get(&c.get_playback_state(), "https://api.spotify.com/v1/me/player", "NULL");
}

#[test]
fn retrieved_refresh_token() {
    let r = Command::finish_retrieve_refresh_token(ok_outcome("{\"refresh_token\": \"R1\"}"));
    assert_eq!(r, Some("R1".to_string()));
}

#[test]
fn perform_builds_requests_by_type() {
    let h = strings(&["h"]);
    let r = Communicator::perform("https://x", "a=1", "", h.clone(), "GET").ok().unwrap();
    assert_eq!(r.mode, TransferMode::Download);
    assert_eq!(r.url, "https://x?a=1");
    let r = Communicator::perform("https://x", "", "b", h.clone(), "PUT").ok().unwrap();
    assert_eq!(r.mode, TransferMode::Upload);
    assert_eq!(r.url, "https://x");
    assert_eq!(r.body, "b");
    let r = Communicator::perform("https://x", "", "", h.clone(), "POST").ok().unwrap();
    assert_eq!(r.mode, TransferMode::Unsent);
    match Communicator::perform("https://x", "", "", h, "DELETE") {
        Err(e) => {
            assert_eq!(e.kind, ErrorKind::NotFound);
            assert_eq!(e.message, "type not recognized");
        }
        Ok(_) => panic!("expected an error"),
    }
}

#[test]
fn reading_outcomes() {
    let get = Communicator::perform("https://x", "", "", vec![], "GET").ok().unwrap();
    match Communicator::read_outcome(&get, HttpOutcome { performed: false, code: 0, body: vec![] }) {
        Some(Err(e)) => assert_eq!(e.kind, ErrorKind::NotConnected),
        _ => panic!("expected a connection error"),
    }
    match Communicator::read_outcome(&get, HttpOutcome { performed: true, code: 404, body: vec![] }) {
        Some(Err(e)) => {
            assert_eq!(e.kind, ErrorKind::Other);
            assert_eq!(e.message, "404");
        }
        _ => panic!("expected a status error"),
    }
    match Communicator::read_outcome(&get, ok_outcome("hello")) {
        Some(Ok(s)) => assert_eq!(s, "hello"),
        _ => panic!("expected the text"),
    }
    let no_content = HttpOutcome { performed: true, code: 204, body: vec![] };
    match Communicator::read_outcome(&get, no_content) {
        Some(Ok(s)) => assert_eq!(s, ""),
        _ => panic!("expected an empty text"),
    }
    assert!(Communicator::read_outcome(&get, HttpOutcome { performed: true, code: 200, body: vec![0xff] }).is_none());
}

#[test]
fn communicator_token() {
    let mut c = Communicator::new("first");
    assert_eq!(c.get_access_token(), "first");
    c.set_access_token("second");
    assert_eq!(c.get_access_token(), "second");
}

#[test]
fn answers_of_uploads_are_not_collected() {
    let put = Communicator::perform("https://x", "", "body", vec![], "PUT").ok().unwrap();
    match Communicator::read_outcome(&put, ok_outcome("something came back")) {
        Some(Ok(s)) => assert_eq!(s, ""),
        _ => panic!("expected an empty text"),
    }
    let bad = HttpOutcome { performed: true, code: 200, body: vec![0xff] };
    assert!(matches!(Communicator::read_outcome(&put, bad), Some(Ok(ref s)) if s.is_empty()));
    match Communicator::read_outcome(&put, HttpOutcome { performed: true, code: 404, body: vec![] }) {
        Some(Err(e)) => assert_eq!(e.message, "404"),
        _ => panic!("expected a status error"),
    }
}
