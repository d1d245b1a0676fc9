use spotify_api::apis::{artists_results, library_results};
use spotify_api::library::{merge_albums, merge_artists};
use spotify_api::model::album::FullAlbum;
use spotify_api::model::artist::SimplifiedArtist;

fn artist_json(id: &str, name: &str) -> String {
    format!("{{\"external_urls\": {{\"spotify\": \"s\"}}, \"href\": \"h\", \"id\": \"{id}\", \"name\": \"{name}\", \"genres\": [\"g\"], \"type\": \"artist\", \"uri\": \"u\"}}")
}

fn album_json(id: &str, name: &str) -> String {
    format!(
        "{{\"artists\": [{}], \"album_type\": \"single\", \"available_markets\": [\"FR\"], \"external_urls\": {{}}, \"genres\": [], \"href\": \"h\", \"id\": \"{id}\", \"images\": [], \"name\": \"{name}\", \"release_date\": \"2001\", \"release_date_precision\": \"year\", \"tracks\": {{\"href\": \"h\", \"items\": [], \"limit\": 50, \"next\": null, \"offset\": 0, \"previous\": null, \"total\": 0}}, \"type\": \"album\", \"uri\": \"spotify:album:{id}\"}}",
        artist_json("ar", "Artist")
    )
}

fn albums(ids: &[&str]) -> Vec<FullAlbum> {
    let parts: Vec<String> = ids.iter().map(|id| album_json(id, &format!("name {}", id))).collect();
    library_results(&format!("[{}]", parts.join(","))).unwrap().0
}

fn artists(ids: &[&str]) -> Vec<SimplifiedArtist> {
    let parts: Vec<String> = ids.iter().map(|id| artist_json(id, id)).collect();
    artists_results(&format!("[{}]", parts.join(","))).unwrap().0
}

fn album_ids(xs: &[FullAlbum]) -> Vec<String> {
    xs.iter().map(|a| a.id.clone()).collect()
}

#[test]
fn merge_keeps_existing_and_adds_new_ones() {
    let r = merge_albums(albums(&["a", "b"]), albums(&["b", "c", "c", "d"]));
    assert_eq!(album_ids(&r), vec!["a", "b", "c", "d"]);
}

#[test]
fn merge_of_nothing_new_changes_nothing() {
    let kept = albums(&["a", "b"]);
    let r = merge_albums(kept.clone(), albums(&["a"]));
    assert_eq!(album_ids(&r), vec!["a", "b"]);
    let r = merge_albums(kept, Vec::new());
    assert_eq!(album_ids(&r), vec!["a", "b"]);
}

#[test]
fn merge_is_idempotent() {
    let once = merge_albums(albums(&["a"]), albums(&["b", "a", "c"]));
    let twice = merge_albums(once.clone(), albums(&["b", "a", "c"]));
    assert_eq!(album_ids(&once), album_ids(&twice));
}

#[test]
fn merge_into_an_empty_library_drops_repeats() {
    let r = merge_albums(Vec::new(), albums(&["x", "y", "x"]));
    assert_eq!(album_ids(&r), vec!["x", "y"]);
}

#[test]
fn artists_merge_by_identifier() {
    let r = merge_artists(artists(&["p", "q"]), artists(&["q", "r"]));
    let names: Vec<String> = r.iter().map(|a| a.id.clone()).collect();
    assert_eq!(names, vec!["p", "q", "r"]);
}

#[test]
fn artists_are_equal_by_identifier() {
    let a = artists(&["same"]);
    let mut b = artists(&["same"]);
    b[0].name = "renamed".to_string();
    assert!(a[0] == b[0]);
    let c = artists(&["other"]);
    assert!(a[0] != c[0]);
}

#[test]
fn album_to_simplified() {
    let mut xs = albums(&["a"]);
    let s = xs[0].to_simplified();
    assert_eq!(s.id, "a");
    assert_eq!(s.name, "name a");
    assert_eq!(s.album_type, "single");
    assert_eq!(s.release_date, "2001");
    assert_eq!(s.available_markets, vec!["FR".to_string()]);
    assert_eq!(s.uri, "spotify:album:a");
    assert_eq!(s.artists[0].id, "ar");
    assert_eq!(s.artists[0].genres, Some(vec!["g".to_string()]));
    assert_eq!(xs[0].id, "a");
}

#[test]
fn merging_a_list_into_itself_gives_it_back() {
    let xs = albums(&["a", "b", "a", "c"]);
    let r = merge_albums(xs.clone(), xs.clone());
    assert_eq!(album_ids(&r), album_ids(&xs));
    let r = merge_albums(Vec::new(), Vec::new());
    assert!(r.is_empty());
}
