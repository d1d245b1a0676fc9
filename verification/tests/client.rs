use spotify_api::client::{
    album_chunk, album_tracks, currently_playing_artist_name, currently_playing_track_name, playlist_names, Album,
    Command, Track,
};
use spotify_api::command::communicator::{HttpOutcome, TransferMode};

#[test]
fn client_play_bodies() {
    let c = Command::construct();
    let r = c.play("37i9dQZF1DX", "playlist");
    assert_eq!(r.mode, TransferMode::Upload);
    assert_eq!(r.url, "https://api.spotify.com/v1/me/player/play");
    assert_eq!(r.body, "{\"context_uri\":\"spotify:playlist:37i9dQZF1DX\"}");
    assert_eq!(r.headers[2], "Authorization: Bearer NULL");
    let r = c.play("t1", "track");
    assert_eq!(r.body, "{\"uris\": [\"spotify:track:t1\"]}");
}

#[test]
fn client_requests() {
    let c = Command::construct();
    let r = c.search("Daft Punk", "playlist");
    assert_eq!(r.url, "https://api.spotify.com/v1/search?q=Daft%20Punk&type=playlist");
    assert_eq!(r.headers, vec!["Authorization: Bearer NULL".to_string()]);
    assert_eq!(c.get_my_albums(150).url, "https://api.spotify.com/v1/me/albums?limit=50&offset=150");
    assert_eq!(c.get_tracks_from_album("al1").url, "https://api.spotify.com/v1/albums/al1/tracks");
    assert_eq!(c.get_currently_playing().url, "https://api.spotify.com/v1/me/player/currently-playing");
    let r = c.refresh("c2VjcmV0", "rt");
    assert_eq!(r.body, "grant_type=refresh_token&refresh_token=rt");
    c.pause();
    c.next();
}

#[test]
fn client_refresh_takes_the_token() {
    let mut c = Command::construct();
    let outcome = HttpOutcome { performed: true, code: 200, body: b"{\"access_token\":\"abc\"}".to_vec() };
    assert!(matches!(c.finish_refresh(outcome), Some(Ok(()))));
    assert_eq!(c.get_currently_playing().headers[0], "Authorization: Bearer abc");
}

#[test]
fn names_of_found_playlists() {
    let body = "{\"playlists\": {\"items\": [{\"name\": \"Chill\"}, {\"name\": \"Rock \\\"n\\\" Roll\"}, {}]}}";
    let names = playlist_names(body).unwrap();
    // names are read as printed JSON without their outer quotes; a missing one reads "ul"
    assert_eq!(names, vec!["Chill".to_string(), "Rock \\\"n\\\" Roll".to_string(), "ul".to_string()]);
    assert!(playlist_names("{\"playlists\": {}}").is_none());
    assert!(playlist_names("nope").is_none());
}

#[test]
fn client_albums_and_tracks() {
    let body = "{\"items\": [{\"album\": {\"name\": \"RAM\", \"id\": \"a1\"}}, {\"album\": {\"name\": \"Discovery\", \"id\": \"a2\"}}]}";
    let albums: Vec<Album> = album_chunk(body).unwrap();
    assert_eq!(albums.len(), 2);
    assert_eq!(albums[1].name, "Discovery");
    assert_eq!(albums[0].id, "a1");
    let body = "{\"items\": [{\"name\": \"Contact\", \"id\": \"t13\"}]}";
    let tracks: Vec<Track> = album_tracks(body).unwrap();
    assert_eq!(tracks[0].name, "Contact");
    assert_eq!(tracks[0].id, "t13");
    assert!(album_tracks("{\"items\": {}}").is_none());
}

#[test]
fn client_item_playing_now() {
    assert_eq!(currently_playing_artist_name(""), Some(String::new()));
    assert_eq!(currently_playing_track_name(""), Some(String::new()));
    let body = "{\"item\": {\"name\": \"Get Lucky\", \"artists\": [{\"name\": \"Daft Punk\"}]}}";
    assert_eq!(currently_playing_artist_name(body), Some("Daft Punk".to_string()));
    assert_eq!(currently_playing_track_name(body), Some("Get Lucky".to_string()));
    assert_eq!(currently_playing_track_name("{"), None);
}
