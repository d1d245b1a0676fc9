use spotify_api::apis::{
    album_chunk_results, albums_count, first_artist_ids, keep_albums, playback_state, albums_from_artist_results, apply_artist_genres, artists_results,
    artists_to_write, currently_playing_artist, currently_playing_track, first_playlist_id,
    genres_from_artist_results, library_results, library_to_write, search_album_results, search_artist_results,
    search_playlist_results, search_track_results, tracks_from_album_results, wiki_description,
};
use spotify_api::command::communicator::ErrorKind;
use spotify_api::model::album::FullAlbum;
use spotify_api::model::senum::{AlbumType, Type};

fn artist_json(id: &str, name: &str) -> String {
    format!(
        "{{\"external_urls\": {{\"spotify\": \"https://open.spotify.com/artist/{id}\"}}, \"href\": \"h\", \"id\": \"{id}\", \"name\": \"{name}\", \"type\": \"artist\", \"uri\": \"spotify:artist:{id}\"}}"
    )
}

fn track_json(id: &str, name: &str, number: u32) -> String {
    format!(
        "{{\"artists\": [{}], \"disc_number\": 1, \"duration_ms\": 215000, \"explicit\": false, \"external_urls\": {{}}, \"href\": \"h\", \"id\": \"{id}\", \"name\": \"{name}\", \"preview_url\": null, \"track_number\": {number}, \"type\": \"track\", \"uri\": \"spotify:track:{id}\"}}",
        artist_json("ar1", "Daft Punk")
    )
}

fn full_album_json(id: &str, name: &str, date: &str) -> String {
    format!(
        "{{\"artists\": [{}], \"album_type\": \"album\", \"available_markets\": [\"FR\", \"US\"], \"external_urls\": {{}}, \"genres\": [], \"href\": \"h\", \"id\": \"{id}\", \"images\": [{{\"height\": 640, \"url\": \"u\", \"width\": null}}], \"name\": \"{name}\", \"release_date\": \"{date}\", \"release_date_precision\": \"day\", \"tracks\": {{\"href\": \"h\", \"items\": [{}], \"limit\": 50, \"next\": null, \"offset\": 0, \"previous\": null, \"total\": 1}}, \"type\": \"album\", \"uri\": \"spotify:album:{id}\"}}",
        artist_json("ar1", "Daft Punk"),
        track_json("t1", "Give Life Back to Music", 1)
    )
}

fn simplified_album_json(id: &str, name: &str) -> String {
    format!(
        "{{\"artists\": [{}], \"album_type\": \"album\", \"available_markets\": [], \"external_urls\": {{}}, \"href\": \"h\", \"id\": \"{id}\", \"images\": [], \"name\": \"{name}\", \"type\": \"album\", \"uri\": \"spotify:album:{id}\", \"release_date\": \"2013-05-17\"}}",
        artist_json("ar1", "Daft Punk")
    )
}

fn playlist_json(id: &str, name: &str) -> String {
    format!(
        "{{\"collaborative\": false, \"external_urls\": {{}}, \"href\": \"h\", \"id\": \"{id}\", \"images\": [], \"name\": \"{name}\", \"public\": null, \"snapshot_id\": \"s\", \"type\": \"playlist\", \"uri\": \"spotify:playlist:{id}\"}}"
    )
}

fn first_album(text: &str) -> FullAlbum {
    let (albums, e) = library_results(text).unwrap();
    assert!(e.is_none());
    albums[0].clone()
}

#[test]
fn search_playlists() {
    let body = format!("{{\"playlists\": {{\"items\": [{}, {}]}}}}", playlist_json("p1", "Chill"), playlist_json("p2", "Rock"));
    let r = search_playlist_results(&body).unwrap().ok().unwrap();
    assert_eq!(r.len(), 2);
    assert_eq!(r[0].id, "p1");
    assert_eq!(r[1].name, "Rock");
    assert_eq!(r[1]._type, Type::Playlist);
    assert_eq!(r[0].public, None);
    assert_eq!(first_playlist_id(&body), Some("p1".to_string()));
}

#[test]
fn search_results_of_other_kinds() {
    let body = format!("{{\"albums\": {{\"items\": [{}]}}}}", simplified_album_json("al1", "RAM"));
    let r = search_album_results(&body).unwrap().ok().unwrap();
    assert_eq!(r[0].name, "RAM");
    assert_eq!(r[0].album_type, "album");
    let body = format!("{{\"tracks\": {{\"items\": [{}]}}}}", track_json("t9", "Contact", 13));
    let r = search_track_results(&body).unwrap().ok().unwrap();
    assert_eq!(r[0].track_number, 13);
    let body = "{\"artists\": {\"items\": []}}";
    assert_eq!(search_artist_results(body).unwrap().ok().unwrap().len(), 0);
}

#[test]
fn search_results_with_wrong_shapes() {
    // not JSON, or no list where the list is expected: nothing can be read
    assert!(search_playlist_results("oops").is_none());
    assert!(search_playlist_results("{\"playlists\": {}}").is_none());
    // a list whose element is not a playlist: an error of kind InvalidData
    match search_playlist_results("{\"playlists\": {\"items\": [1]}}") {
        Some(Err(e)) => assert_eq!(e.kind, ErrorKind::InvalidData),
        _ => panic!("expected an InvalidData error"),
    }
}

#[test]
fn first_playlist_id_of_an_empty_search() {
    // the client reads `null` and strips it as it would strip quotes
    assert_eq!(first_playlist_id("{\"playlists\": {\"items\": []}}"), Some("ul".to_string()));
    assert_eq!(first_playlist_id("garbage"), None);
}

#[test]
fn tracks_albums_and_genres_of_artists() {
    let body = format!("{{\"items\": [{}, {}]}}", track_json("t1", "One", 1), track_json("t2", "Two", 2));
    let r = tracks_from_album_results(&body).unwrap().ok().unwrap();
    assert_eq!(r.len(), 2);
    assert_eq!(r[1].id, "t2");
    assert_eq!(r[0].duration_ms, 215000);
    let body = format!("{{\"items\": [{}]}}", simplified_album_json("al2", "Discovery"));
    let r = albums_from_artist_results(&body).unwrap().ok().unwrap();
    assert_eq!(r[0].id, "al2");
    let r = genres_from_artist_results("{\"genres\": [\"french house\", \"electro\"]}").unwrap().ok().unwrap();
    assert_eq!(r, vec!["french house".to_string(), "electro".to_string()]);
    match genres_from_artist_results("{\"genres\": [1]}") {
        Some(Err(e)) => assert_eq!(e.kind, ErrorKind::InvalidData),
        _ => panic!("expected an InvalidData error"),
    }
    assert!(genres_from_artist_results("{}").is_none());
}

#[test]
fn album_page_of_the_library() {
    let body = format!("{{\"items\": [{{\"added_at\": \"x\", \"album\": {}}}]}}", full_album_json("al1", "RAM", "2013-05-17"));
    let (albums, e) = album_chunk_results(&body).unwrap();
    assert!(e.is_none());
    assert_eq!(albums.len(), 1);
    assert_eq!(albums[0].name, "RAM");
    assert_eq!(albums[0].album_type, AlbumType::Album);
    assert_eq!(albums[0].available_markets, vec!["FR".to_string(), "US".to_string()]);
    assert_eq!(albums[0].tracks.items[0].name, "Give Life Back to Music");
    assert_eq!(albums[0].images[0].height, Some(640));
    assert_eq!(albums[0].images[0].width, None);
}

#[test]
fn album_page_stops_at_a_broken_album() {
    let body = format!("{{\"items\": [{{\"album\": {}}}, {{\"album\": 3}}, {{\"album\": {}}}]}}",
        full_album_json("a", "A", "2000"), full_album_json("b", "B", "2001"));
    let (albums, e) = album_chunk_results(&body).unwrap();
    assert_eq!(albums.len(), 1);
    assert_eq!(e.unwrap().kind, ErrorKind::InvalidData);
    assert!(album_chunk_results("{\"items\": 3}").is_none());
}

#[test]
fn keeping_an_album_with_the_artist_genres() {
    let mut album = first_album(&format!("[{}]", full_album_json("al1", "RAM", "2013-05-17")));
    apply_artist_genres(&mut album, Some(vec!["house".to_string()]));
    assert_eq!(album.genres, vec!["house".to_string()]);
    assert!(album.available_markets.is_empty());
    apply_artist_genres(&mut album, Some(vec![]));
    assert_eq!(album.genres, vec!["house".to_string()]);
    apply_artist_genres(&mut album, None);
    assert_eq!(album.genres, vec!["house".to_string()]);
    assert_eq!(album.id, "al1");
}

#[test]
fn number_of_albums() {
    assert_eq!(albums_count("{\"total\": 321}"), Some(321));
    assert_eq!(albums_count("{\"total\": -1}"), None);
    assert_eq!(albums_count("{}"), None);
    assert_eq!(albums_count("nope"), None);
    assert_eq!(albums_count("{\"total\": 4294967297}"), Some(1));
}

#[test]
fn kept_library_and_artists() {
    let text = format!("[{}, {}]", full_album_json("a", "A", "2000"), full_album_json("b", "B", "2001"));
    let (albums, e) = library_results(&text).unwrap();
    assert!(e.is_none());
    assert_eq!(albums.len(), 2);
    assert!(library_results("{}").is_none());
    let text = format!("[{}, 5]", artist_json("x", "X"));
    let (artists, e) = artists_results(&text).unwrap();
    assert_eq!(artists.len(), 1);
    assert_eq!(e.unwrap().kind, ErrorKind::InvalidData);
}

#[test]
fn library_to_write_merges_by_identifier() {
    let kept = format!("[{}, {}]", full_album_json("a", "A", "2000"), full_album_json("b", "B", "2001"));
    let incoming = library_results(&format!("[{}, {}]", full_album_json("b", "B2", "2001"), full_album_json("c", "C", "2002")))
        .unwrap().0;
    let r = library_to_write(Some(&kept), incoming.clone()).unwrap();
    let ids: Vec<&str> = r.iter().map(|a| a.id.as_str()).collect();
    assert_eq!(ids, vec!["a", "b", "c"]);
    assert_eq!(r[1].name, "B");
    // no kept library: the downloaded albums alone
    let r = library_to_write(None, incoming.clone()).unwrap();
    assert_eq!(r.len(), 2);
    // a kept library with a broken album: the downloaded albums alone
    let broken = format!("[{}, 1]", full_album_json("a", "A", "2000"));
    let r = library_to_write(Some(&broken), incoming.clone()).unwrap();
    assert_eq!(r.len(), 2);
    assert_eq!(r[0].id, "b");
    // a kept text that is no JSON array
    assert!(library_to_write(Some("{}"), incoming).is_none());
}

#[test]
fn artists_to_write_merges_by_identifier() {
    let kept = format!("[{}]", artist_json("x", "X"));
    let incoming = artists_results(&format!("[{}, {}]", artist_json("x", "X again"), artist_json("y", "Y"))).unwrap().0;
    let r = artists_to_write(Some(&kept), incoming).unwrap();
    assert_eq!(r.len(), 2);
    assert_eq!(r[0].name, "X");
    assert_eq!(r[1].id, "y");
}

#[test]
fn wikipedia_introduction() {
    let body = "{\"query\": {\"pages\": {\"123\": {\"extract\": \"Daft Punk were a duo.\"}}}}";
    assert_eq!(wiki_description(body), Some("\"Daft Punk were a duo.\"".to_string()));
    let body = "{\"query\": {\"pages\": {\"-1\": {\"missing\": \"\"}}}}";
    assert_eq!(wiki_description(body), Some("null".to_string()));
    assert_eq!(wiki_description("{\"query\": {\"pages\": {}}}"), None);
    assert_eq!(wiki_description("{}"), None);
}

#[test]
fn item_playing_now() {
    assert!(matches!(currently_playing_track(""), Some(None)));
    assert!(matches!(currently_playing_artist(""), Some(None)));
    let body = format!(
        "{{\"item\": {{\"album\": {}, \"artists\": [{}], \"disc_number\": 1, \"duration_ms\": 1000, \"explicit\": false, \"external_urls\": {{}}, \"href\": \"h\", \"id\": \"t\", \"name\": \"Get Lucky\", \"popularity\": 80, \"preview_url\": null, \"track_number\": 8, \"type\": \"track\", \"uri\": \"u\"}}}}",
        simplified_album_json("al1", "RAM"),
        artist_json("ar1", "Daft Punk")
    );
    match currently_playing_track(&body) {
        Some(Some(t)) => {
            assert_eq!(t.name, "Get Lucky");
            assert_eq!(t.album.name, "RAM");
            assert_eq!(t.popularity, 80);
        }
        _ => panic!("expected a track"),
    }
    match currently_playing_artist(&body) {
        Some(Some(a)) => {
            assert_eq!(a.name, "Daft Punk");
            assert_eq!(a.id, "ar1");
        }
        _ => panic!("expected an artist"),
    }
    // an item with no artist cannot be read
    assert!(currently_playing_artist("{\"item\": {\"artists\": []}}").is_none());
}

#[test]
fn page_albums_take_their_artist_genres() {
    let text = format!("[{}, {}]", full_album_json("a", "A", "2000"), full_album_json("b", "B", "2001"));
    let (albums, _) = library_results(&text).unwrap();
    let ids = first_artist_ids(&albums).unwrap();
    assert_eq!(ids, vec!["ar1".to_string(), "ar1".to_string()]);
    let kept = keep_albums(albums, vec![Some(vec!["house".to_string()]), None]);
    assert_eq!(kept.len(), 2);
    assert_eq!(kept[0].genres, vec!["house".to_string()]);
    assert!(kept[1].genres.is_empty());
    assert!(kept[0].available_markets.is_empty());
    assert!(kept[1].available_markets.is_empty());
    assert_eq!(kept[1].id, "b");
    let no_artist = full_album_json("c", "C", "2002").replacen(&format!("[{}]", artist_json("ar1", "Daft Punk")), "[]", 1);
    let (albums, _) = library_results(&format!("[{}]", no_artist)).unwrap();
    assert!(first_artist_ids(&albums).is_none());
}

#[test]
fn state_of_the_player() {
    assert!(matches!(playback_state(""), Some(None)));
    match playback_state("{\"timestamp\": 1600000000000, \"progress_ms\": 1500, \"is_playing\": true, \"item\": null}") {
        Some(Some(c)) => {
            assert_eq!(c.timestamp, 1600000000000);
            assert_eq!(c.progress_ms, Some(1500));
            assert!(c.is_playing);
            assert!(c.item.is_none());
        }
        _ => panic!("expected a player state"),
    }
    assert!(playback_state("{\"is_playing\": true}").is_none());
    assert!(playback_state("[").is_none());
}

#[test]
fn writing_the_same_albums_again_keeps_the_library() {
    let text = format!("[{}, {}, {}]", full_album_json("a", "A", "2000"), full_album_json("b", "B", "2001"), full_album_json("a", "A", "2000"));
    let written = library_results(&text).unwrap().0;
    let again = library_to_write(Some(&text), written.clone()).unwrap();
    let ids: Vec<&str> = again.iter().map(|a| a.id.as_str()).collect();
    assert_eq!(ids, vec!["a", "b", "a"]);
    assert_eq!(again[1].name, written[1].name);
}
