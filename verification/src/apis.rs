//! What the client makes of the answers of the Spotify Web API: search
//! results, the albums of the user's library, the artists' genres, the item
//! playing now, Wikipedia introductions; and how it keeps its local library.

use vstd::prelude::*;
use crate::command::communicator::{ApiError, ErrorKind, HttpRequest};
use crate::command::{is_play_request, Command};
use crate::json::{element_of, member_of, index_key, index_pos, or_null, parse_json, spec_json_text, spec_parse_json, view_elements, strip_outer,
    unquoted, JsonSpec, JsonValue, lemma_view_elements_index, lemma_view_elements_len};
use crate::model::album::{FullAlbum, SimplifiedAlbum, full_album_decodable, full_album_decodes, full_album_of,
    simplified_album_list_decodable, simplified_album_list_decodes, simplified_album_list_of};
use crate::model::artist::{FullArtist, SimplifiedArtist, full_artist_list_decodable, full_artist_list_decodes,
    full_artist_list_of, simplified_artist_decodable, simplified_artist_decodes, simplified_artist_of};
use crate::model::context::{FullPlayingContext, full_playing_context_decodable, full_playing_context_decodes,
    full_playing_context_of};
use crate::model::fields::{dec_str_list, str_list_of, str_views};
use crate::library::{has_key, law_merge_known_keys, merged, merge_albums, merge_artists, Keyed};
use crate::model::playlist::{SimplifiedPlaylist, simplified_playlist_list_decodable, simplified_playlist_list_decodes,
    simplified_playlist_list_of};
use crate::model::track::{FullTrack, SimplifiedTrack, full_track_decodable, full_track_decodes, full_track_of,
    simplified_track_list_decodable, simplified_track_list_decodes, simplified_track_list_of};

verus! {

/// The error for a value that has not the expected shape.
pub fn shape_error() -> (e: ApiError)
    ensures
        e.kind == ErrorKind::InvalidData,
{
    ApiError { kind: ErrorKind::InvalidData, message: "unexpected JSON shape".to_owned() }
}

/// The view of an optional key.
pub open spec fn opt_view(s: Option<&str>) -> Option<Seq<char>> {
    match s {
        Some(x) => Some(x@),
        None => None,
    }
}

/// The `k`-th element of the array `l`, or its member `sub` when there is one.
pub open spec fn item_at(l: JsonSpec, k: int, sub: Option<Seq<char>>) -> JsonSpec {
    match sub {
        Some(s) => index_key(l->Array_0[k], s),
        None => l->Array_0[k],
    }
}

/// What reading a list of simplified playlists from the value `l` gives: `None` where
/// `l` is no array, an `InvalidData` error where an element is not simplified playlist.
pub open spec fn simplified_playlist_list_result(l: JsonSpec, r: Option<Result<Vec<SimplifiedPlaylist>, ApiError>>) -> bool {
    if !(l is Array) {
        r is None
    } else if simplified_playlist_list_decodable(l) {
        r matches Some(Ok(xs)) && simplified_playlist_list_decodes(l, xs@)
    } else {
        r matches Some(Err(e)) && e.kind == ErrorKind::InvalidData
    }
}

fn simplified_playlist_results(l: Option<&JsonValue>) -> (r: Option<Result<Vec<SimplifiedPlaylist>, ApiError>>)
    ensures
        simplified_playlist_list_result(or_null(l), r),
{
    match l {
        Some(JsonValue::Array(_)) => match simplified_playlist_list_of(l) {
            Some(xs) => Some(Ok(xs)),
            None => Some(Err(shape_error())),
        },
        _ => None,
    }
}

/// What reading a list of simplified albums from the value `l` gives: `None` where
/// `l` is no array, an `InvalidData` error where an element is not simplified album.
pub open spec fn simplified_album_list_result(l: JsonSpec, r: Option<Result<Vec<SimplifiedAlbum>, ApiError>>) -> bool {
    if !(l is Array) {
        r is None
    } else if simplified_album_list_decodable(l) {
        r matches Some(Ok(xs)) && simplified_album_list_decodes(l, xs@)
    } else {
        r matches Some(Err(e)) && e.kind == ErrorKind::InvalidData
    }
}

fn simplified_album_results(l: Option<&JsonValue>) -> (r: Option<Result<Vec<SimplifiedAlbum>, ApiError>>)
    ensures
        simplified_album_list_result(or_null(l), r),
{
    match l {
        Some(JsonValue::Array(_)) => match simplified_album_list_of(l) {
            Some(xs) => Some(Ok(xs)),
            None => Some(Err(shape_error())),
        },
        _ => None,
    }
}

/// What reading a list of simplified tracks from the value `l` gives: `None` where
/// `l` is no array, an `InvalidData` error where an element is not simplified track.
pub open spec fn simplified_track_list_result(l: JsonSpec, r: Option<Result<Vec<SimplifiedTrack>, ApiError>>) -> bool {
    if !(l is Array) {
        r is None
    } else if simplified_track_list_decodable(l) {
        r matches Some(Ok(xs)) && simplified_track_list_decodes(l, xs@)
    } else {
        r matches Some(Err(e)) && e.kind == ErrorKind::InvalidData
    }
}

fn simplified_track_results(l: Option<&JsonValue>) -> (r: Option<Result<Vec<SimplifiedTrack>, ApiError>>)
    ensures
        simplified_track_list_result(or_null(l), r),
{
    match l {
        Some(JsonValue::Array(_)) => match simplified_track_list_of(l) {
            Some(xs) => Some(Ok(xs)),
            None => Some(Err(shape_error())),
        },
        _ => None,
    }
}

/// What reading a list of full artists from the value `l` gives: `None` where
/// `l` is no array, an `InvalidData` error where an element is not full artist.
pub open spec fn full_artist_list_result(l: JsonSpec, r: Option<Result<Vec<FullArtist>, ApiError>>) -> bool {
    if !(l is Array) {
        r is None
    } else if full_artist_list_decodable(l) {
        r matches Some(Ok(xs)) && full_artist_list_decodes(l, xs@)
    } else {
        r matches Some(Err(e)) && e.kind == ErrorKind::InvalidData
    }
}

fn full_artist_results(l: Option<&JsonValue>) -> (r: Option<Result<Vec<FullArtist>, ApiError>>)
    ensures
        full_artist_list_result(or_null(l), r),
{
    match l {
        Some(JsonValue::Array(_)) => match full_artist_list_of(l) {
            Some(xs) => Some(Ok(xs)),
            None => Some(Err(shape_error())),
        },
        _ => None,
    }
}

/// Reads the playlists found by a search: the elements of `playlists.items` of
/// the answer. `None` where the answer is no JSON or holds no such array.
pub fn search_playlist_results(body: &str) -> (r: Option<Result<Vec<SimplifiedPlaylist>, ApiError>>)
    ensures
        match spec_parse_json(body@) {
            None => r is None,
            Some(v) => simplified_playlist_list_result(index_key(index_key(v, "playlists"@), "items"@), r),
        },
{
    match parse_json(body) {
        None => None,
        Some(v) => match v.get("playlists") {
            Some(k) => simplified_playlist_results(k.get("items")),
            None => simplified_playlist_results(None),
        },
    }
}

/// Reads the albums found by a search: the elements of `albums.items` of
/// the answer. `None` where the answer is no JSON or holds no such array.
pub fn search_album_results(body: &str) -> (r: Option<Result<Vec<SimplifiedAlbum>, ApiError>>)
    ensures
        match spec_parse_json(body@) {
            None => r is None,
            Some(v) => simplified_album_list_result(index_key(index_key(v, "albums"@), "items"@), r),
        },
{
    match parse_json(body) {
        None => None,
        Some(v) => match v.get("albums") {
            Some(k) => simplified_album_results(k.get("items")),
            None => simplified_album_results(None),
        },
    }
}

/// Reads the tracks found by a search: the elements of `tracks.items` of
/// the answer. `None` where the answer is no JSON or holds no such array.
pub fn search_track_results(body: &str) -> (r: Option<Result<Vec<SimplifiedTrack>, ApiError>>)
    ensures
        match spec_parse_json(body@) {
            None => r is None,
            Some(v) => simplified_track_list_result(index_key(index_key(v, "tracks"@), "items"@), r),
        },
{
    match parse_json(body) {
        None => None,
        Some(v) => match v.get("tracks") {
            Some(k) => simplified_track_results(k.get("items")),
            None => simplified_track_results(None),
        },
    }
}

/// Reads the artists found by a search: the elements of `artists.items` of
/// the answer. `None` where the answer is no JSON or holds no such array.
pub fn search_artist_results(body: &str) -> (r: Option<Result<Vec<FullArtist>, ApiError>>)
    ensures
        match spec_parse_json(body@) {
            None => r is None,
            Some(v) => full_artist_list_result(index_key(index_key(v, "artists"@), "items"@), r),
        },
{
    match parse_json(body) {
        None => None,
        Some(v) => match v.get("artists") {
            Some(k) => full_artist_results(k.get("items")),
            None => full_artist_results(None),
        },
    }
}

/// Whether `xs` and `e` are what reading full albums one after the other
/// from the elements of the array `l` gives (each element itself, or its
/// member `sub` when there is one): the values read before the first
/// element that is not one, and an `InvalidData` error when there is
/// such an element.
pub open spec fn full_album_prefix_result(l: JsonSpec, sub: Option<Seq<char>>, xs: Seq<FullAlbum>, e: Option<ApiError>) -> bool {
    &&& l is Array
    &&& xs.len() <= l->Array_0.len()
    &&& forall|k: int| 0 <= k < xs.len() ==> full_album_decodable(#[trigger] item_at(l, k, sub))
        && full_album_decodes(item_at(l, k, sub), xs[k])
    &&& if xs.len() < l->Array_0.len() {
        &&& !full_album_decodable(item_at(l, xs.len() as int, sub))
        &&& e matches Some(err) && err.kind == ErrorKind::InvalidData
    } else {
        e is None
    }
}

fn full_album_prefix(a: &Vec<JsonValue>, sub: Option<&str>) -> (r: (Vec<FullAlbum>, Option<ApiError>))
    ensures
        full_album_prefix_result(JsonSpec::Array(view_elements(a@)), opt_view(sub), r.0@, r.1),
{
    let ghost l = JsonSpec::Array(view_elements(a@));
    let mut out: Vec<FullAlbum> = Vec::new();
    let mut i: usize = 0;
    proof { lemma_view_elements_len(a@); }
    while i < a.len()
        invariant
            i <= a@.len(),
            l == JsonSpec::Array(view_elements(a@)),
            view_elements(a@).len() == a@.len(),
            out@.len() == i,
            forall|k: int| 0 <= k < i ==> full_album_decodable(#[trigger] item_at(l, k, opt_view(sub)))
                && full_album_decodes(item_at(l, k, opt_view(sub)), out@[k]),
        decreases a@.len() - i,
    {
        proof { lemma_view_elements_index(a@, i as int); }
        let item = match sub {
            Some(s) => a[i].get(s),
            None => Some(&a[i]),
        };
        assert(or_null(item) == item_at(l, i as int, opt_view(sub)));
        match full_album_of(item) {
            Some(x) => out.push(x),
            None => return (out, Some(shape_error())),
        }
        i = i + 1;
    }
    (out, None)
}

/// Whether `xs` and `e` are what reading simplified artists one after the other
/// from the elements of the array `l` gives (each element itself, or its
/// member `sub` when there is one): the values read before the first
/// element that is not one, and an `InvalidData` error when there is
/// such an element.
pub open spec fn simplified_artist_prefix_result(l: JsonSpec, sub: Option<Seq<char>>, xs: Seq<SimplifiedArtist>, e: Option<ApiError>) -> bool {
    &&& l is Array
    &&& xs.len() <= l->Array_0.len()
    &&& forall|k: int| 0 <= k < xs.len() ==> simplified_artist_decodable(#[trigger] item_at(l, k, sub))
        && simplified_artist_decodes(item_at(l, k, sub), xs[k])
    &&& if xs.len() < l->Array_0.len() {
        &&& !simplified_artist_decodable(item_at(l, xs.len() as int, sub))
        &&& e matches Some(err) && err.kind == ErrorKind::InvalidData
    } else {
        e is None
    }
}

fn simplified_artist_prefix(a: &Vec<JsonValue>, sub: Option<&str>) -> (r: (Vec<SimplifiedArtist>, Option<ApiError>))
    ensures
        simplified_artist_prefix_result(JsonSpec::Array(view_elements(a@)), opt_view(sub), r.0@, r.1),
{
    let ghost l = JsonSpec::Array(view_elements(a@));
    let mut out: Vec<SimplifiedArtist> = Vec::new();
    let mut i: usize = 0;
    proof { lemma_view_elements_len(a@); }
    while i < a.len()
        invariant
            i <= a@.len(),
            l == JsonSpec::Array(view_elements(a@)),
            view_elements(a@).len() == a@.len(),
            out@.len() == i,
            forall|k: int| 0 <= k < i ==> simplified_artist_decodable(#[trigger] item_at(l, k, opt_view(sub)))
                && simplified_artist_decodes(item_at(l, k, opt_view(sub)), out@[k]),
        decreases a@.len() - i,
    {
        proof { lemma_view_elements_index(a@, i as int); }
        let item = match sub {
            Some(s) => a[i].get(s),
            None => Some(&a[i]),
        };
        assert(or_null(item) == item_at(l, i as int, opt_view(sub)));
        match simplified_artist_of(item) {
            Some(x) => out.push(x),
            None => return (out, Some(shape_error())),
        }
        i = i + 1;
    }
    (out, None)
}

/// What reading a list of strings from the value `l` gives: `None` where
/// `l` is no array, an `InvalidData` error where an element is no string.
pub open spec fn str_list_result(l: JsonSpec, r: Option<Result<Vec<String>, ApiError>>) -> bool {
    if !(l is Array) {
        r is None
    } else {
        match dec_str_list(l) {
            Some(xs) => r matches Some(Ok(ys)) && str_views(ys@) == xs,
            None => r matches Some(Err(e)) && e.kind == ErrorKind::InvalidData,
        }
    }
}

/// Reads the tracks of an album: the elements of `items` of the answer.
/// `None` where the answer is no JSON or holds no such array.
pub fn tracks_from_album_results(body: &str) -> (r: Option<Result<Vec<SimplifiedTrack>, ApiError>>)
    ensures
        match spec_parse_json(body@) {
            None => r is None,
            Some(v) => simplified_track_list_result(index_key(v, "items"@), r),
        },
{
    match parse_json(body) {
        None => None,
        Some(v) => simplified_track_results(v.get("items")),
    }
}

/// Reads the albums of an artist: the elements of `items` of the answer.
/// `None` where the answer is no JSON or holds no such array.
pub fn albums_from_artist_results(body: &str) -> (r: Option<Result<Vec<SimplifiedAlbum>, ApiError>>)
    ensures
        match spec_parse_json(body@) {
            None => r is None,
            Some(v) => simplified_album_list_result(index_key(v, "items"@), r),
        },
{
    match parse_json(body) {
        None => None,
        Some(v) => simplified_album_results(v.get("items")),
    }
}

/// Reads the genres of an artist: the strings of `genres` of the answer.
/// `None` where the answer is no JSON or holds no such array.
pub fn genres_from_artist_results(body: &str) -> (r: Option<Result<Vec<String>, ApiError>>)
    ensures
        match spec_parse_json(body@) {
            None => r is None,
            Some(v) => str_list_result(index_key(v, "genres"@), r),
        },
{
    match parse_json(body) {
        None => None,
        Some(v) => {
            let l = v.get("genres");
            match l {
                Some(JsonValue::Array(_)) => match str_list_of(l) {
                    Some(xs) => Some(Ok(xs)),
                    None => Some(Err(shape_error())),
                },
                _ => None,
            }
        },
    }
}

/// The identifier of the first playlist found by a search, as the client
/// reads it: `playlists.items[0].id` printed and unquoted. `None` where
/// the answer is no JSON.
pub fn first_playlist_id(body: &str) -> (r: Option<String>)
    ensures
        match spec_parse_json(body@) {
            None => r is None,
            Some(v) => r matches Some(s) && s@ == strip_outer(spec_json_text(
                index_key(index_pos(index_key(index_key(v, "playlists"@), "items"@), 0), "id"@))),
        },
{
    match parse_json(body) {
        None => None,
        Some(v) => {
            let items = member_of(v.get("playlists"), "items");
            Some(unquoted(member_of(element_of(items, 0), "id")))
        },
    }
}

/// Reads a page of the user's saved albums: the member `album` of each
/// element of `items`, one after the other, up to the first that is no
/// full album. `None` where the answer is no JSON or holds no such array.
pub fn album_chunk_results(body: &str) -> (r: Option<(Vec<FullAlbum>, Option<ApiError>)>)
    ensures
        match spec_parse_json(body@) {
            None => r is None,
            Some(v) => if !(index_key(v, "items"@) is Array) {
                r is None
            } else {
                r matches Some((xs, e)) && full_album_prefix_result(index_key(v, "items"@), Some("album"@), xs@, e)
            },
        },
{
    match parse_json(body) {
        None => None,
        Some(v) => match v.get("items") {
            Some(JsonValue::Array(a)) => Some(full_album_prefix(a, Some("album"))),
            _ => None,
        },
    }
}

/// Whether `kept` is `album` prepared for keeping with the genres found for
/// its first artist: those genres when there are some, its markets
/// forgotten, all else the same.
pub open spec fn kept_as(album: FullAlbum, genres: Option<Vec<String>>, kept: FullAlbum) -> bool {
    &&& kept.genres@ == (match genres {
        Some(g) => if g@.len() > 0 { g@ } else { album.genres@ },
        None => album.genres@,
    })
    &&& kept.available_markets@.len() == 0
    &&& kept.id == album.id
    &&& kept.name == album.name
    &&& kept.artists@ == album.artists@
    &&& kept.album_type == album.album_type
    &&& kept.external_urls@ == album.external_urls@
    &&& kept.href == album.href
    &&& kept.images@ == album.images@
    &&& kept.release_date == album.release_date
    &&& kept.release_date_precision == album.release_date_precision
    &&& kept.tracks == album.tracks
    &&& kept._type == album._type
    &&& kept.uri == album.uri
}

/// Prepares an album of the user's library for keeping: takes the genres
/// of its first artist when there are some, and forgets its markets.
pub fn apply_artist_genres(album: &mut FullAlbum, genres: Option<Vec<String>>)
    ensures
        kept_as(*old(album), genres, *final(album)),
{
    match genres {
        Some(g) => {
            if g.len() > 0 {
                album.genres = g;
            }
        },
        None => {},
    }
    album.available_markets = Vec::new();
}

/// The identifiers of the first artists of the albums, in order, whose
/// genres the albums take; `None` when an album has no artist.
pub fn first_artist_ids(albums: &Vec<FullAlbum>) -> (r: Option<Vec<String>>)
    ensures
        match r {
            Some(ids) => {
                &&& ids@.len() == albums@.len()
                &&& forall|i: int| 0 <= i < albums@.len() ==> (#[trigger] albums@[i]).artists@.len() > 0
                    && ids@[i]@ == albums@[i].artists@[0].id@
            },
            None => exists|i: int| 0 <= i < albums@.len() && (#[trigger] albums@[i]).artists@.len() == 0,
        },
{
    let mut ids: Vec<String> = Vec::new();
    let mut i: usize = 0;
    while i < albums.len()
        invariant
            i <= albums@.len(),
            ids@.len() == i,
            forall|k: int| 0 <= k < i ==> (#[trigger] albums@[k]).artists@.len() > 0
                && ids@[k]@ == albums@[k].artists@[0].id@,
        decreases albums@.len() - i,
    {
        if albums[i].artists.len() == 0 {
            assert(albums@[i as int].artists@.len() == 0);
            return None;
        }
        ids.push(albums[i].artists[0].id.clone());
        i = i + 1;
    }
    Some(ids)
}

/// Prepares a page of albums for keeping, each with the genres found for its
/// first artist (`None` where they could not be had).
pub fn keep_albums(albums: Vec<FullAlbum>, genres: Vec<Option<Vec<String>>>) -> (r: Vec<FullAlbum>)
    requires
        genres@.len() == albums@.len(),
    ensures
        r@.len() == albums@.len(),
        forall|i: int| 0 <= i < albums@.len() ==> kept_as(albums@[i], genres@[i], #[trigger] r@[i]),
{
    let ghost given = albums@;
    let ghost found = genres@;
    let mut rest = albums;
    let mut rest_genres = genres;
    let mut out: Vec<FullAlbum> = Vec::new();
    while rest.len() > 0
        invariant
            rest@.len() == rest_genres@.len(),
            out@.len() + rest@.len() == given.len(),
            rest@ == given.skip(out@.len() as int),
            rest_genres@ == found.skip(out@.len() as int),
            found.len() == given.len(),
            forall|i: int| 0 <= i < out@.len() ==> kept_as(given[i], found[i], #[trigger] out@[i]),
        decreases rest@.len(),
    {
        let ghost n = out@.len() as int;
        let mut album = rest.remove(0);
        let g = rest_genres.remove(0);
        assert(album == given[n]);
        assert(g == found[n]);
        apply_artist_genres(&mut album, g);
        out.push(album);
        assert(rest@ =~= given.skip(out@.len() as int));
        assert(rest_genres@ =~= found.skip(out@.len() as int));
    }
    out
}

/// The number of albums in the user's library, as the answer's `total`
/// (a non-negative integer) cut to 32 bits. `None` where the answer is no
/// JSON or its `total` is no such integer.
pub fn albums_count(body: &str) -> (r: Option<u32>)
    ensures
        match spec_parse_json(body@) {
            None => r is None,
            Some(v) => match crate::json::spec_as_u64(index_key(v, "total"@)) {
                Some(n) => r == Some(n as u32),
                None => r is None,
            },
        },
{
    match parse_json(body) {
        None => None,
        Some(v) => match v.get("total") {
            Some(t) => match t.as_u64() {
                Some(n) => Some(n as u32),
                None => None,
            },
            None => None,
        },
    }
}

/// Reads the locally kept library: full albums, one after the other, up to
/// the first element that is none. `None` where the text is no JSON array.
pub fn library_results(text: &str) -> (r: Option<(Vec<FullAlbum>, Option<ApiError>)>)
    ensures
        match spec_parse_json(text@) {
            None => r is None,
            Some(v) => if !(v is Array) {
                r is None
            } else {
                r matches Some((xs, e)) && full_album_prefix_result(v, None, xs@, e)
            },
        },
{
    match parse_json(text) {
        Some(JsonValue::Array(a)) => Some(full_album_prefix(&a, None)),
        _ => None,
    }
}

/// Reads the locally kept artists: simplified artists, one after the
/// other, up to the first element that is none. `None` where the text is no
/// JSON array.
pub fn artists_results(text: &str) -> (r: Option<(Vec<SimplifiedArtist>, Option<ApiError>)>)
    ensures
        match spec_parse_json(text@) {
            None => r is None,
            Some(v) => if !(v is Array) {
                r is None
            } else {
                r matches Some((xs, e)) && simplified_artist_prefix_result(v, None, xs@, e)
            },
        },
{
    match parse_json(text) {
        Some(JsonValue::Array(a)) => Some(simplified_artist_prefix(&a, None)),
        _ => None,
    }
}

/// What the client keeps of its library after a download: with no kept
/// library (`stored` is `None`), or one that stops at an element that is
/// no full album, the downloaded albums alone; else the kept albums
/// followed by each downloaded album not kept yet. `None` where the kept
/// text is no JSON array.
pub fn library_to_write(stored: Option<&str>, incoming: Vec<FullAlbum>) -> (r: Option<Vec<FullAlbum>>)
    ensures
        match stored {
            None => r matches Some(xs) && xs@ == incoming@,
            Some(text) => match spec_parse_json(text@) {
                Some(JsonSpec::Array(l)) => r matches Some(xs) && exists|kept: Seq<FullAlbum>, e: Option<ApiError>|
                    #[trigger] full_album_prefix_result(JsonSpec::Array(l), None, kept, e)
                    && xs@ == (if e is None { merged(kept, incoming@) } else { incoming@ }),
                _ => r is None,
            },
        },
{
    match stored {
        None => Some(incoming),
        Some(text) => match library_results(text) {
            None => None,
            Some((kept, None)) => Some(merge_albums(kept, incoming)),
            Some((_, Some(_))) => Some(incoming),
        },
    }
}

/// Writing the same albums a second time leaves the kept library as the
/// first write left it. When the kept text `l` reads back as the albums
/// `written` (every element a full album, read as `written[i]`), whatever
/// the client reads from it holds the same albums in the same order (the
/// same identifiers, read from the same elements), and writing `written`
/// over it keeps exactly what was read: `library_to_write` writes that
/// list back unchanged.
pub proof fn law_rewrite_keeps_library(l: Seq<JsonSpec>, written: Seq<FullAlbum>, kept: Seq<FullAlbum>, e: Option<ApiError>)
    requires
        full_album_prefix_result(JsonSpec::Array(l), None, written, None),
        full_album_prefix_result(JsonSpec::Array(l), None, kept, e),
    ensures
        e is None,
        kept.len() == written.len(),
        forall|i: int| 0 <= i < kept.len() ==> full_album_decodes(l[i], #[trigger] kept[i])
            && full_album_decodes(l[i], written[i]) && kept[i].id@ == written[i].id@,
        merged(kept, written) == kept,
{
    let j = JsonSpec::Array(l);
    assert(j->Array_0 == l);
    if kept.len() < l.len() {
        let k = kept.len() as int;
        assert(full_album_decodable(item_at(j, k, None)));
        assert(false);
    }
    assert forall|i: int| 0 <= i < kept.len() implies full_album_decodes(l[i], #[trigger] kept[i])
        && full_album_decodes(l[i], written[i]) && kept[i].id@ == written[i].id@ by {
        assert(item_at(j, i, None) == l[i]);
        assert(full_album_decodable(item_at(j, i, None)));
    }
    assert forall|i: int| 0 <= i < written.len() implies has_key(kept, (#[trigger] written[i]).key()) by {
        assert(item_at(j, i, None) == l[i]);
        assert(full_album_decodable(item_at(j, i, None)));
        assert(kept[i].key() == written[i].key());
    }
    law_merge_known_keys(kept, written);
}

/// What the client keeps of the artists after a download, as
/// [`library_to_write`] does for the albums.
pub fn artists_to_write(stored: Option<&str>, incoming: Vec<SimplifiedArtist>) -> (r: Option<Vec<SimplifiedArtist>>)
    ensures
        match stored {
            None => r matches Some(xs) && xs@ == incoming@,
            Some(text) => match spec_parse_json(text@) {
                Some(JsonSpec::Array(l)) => r matches Some(xs) && exists|kept: Seq<SimplifiedArtist>, e: Option<ApiError>|
                    #[trigger] simplified_artist_prefix_result(JsonSpec::Array(l), None, kept, e)
                    && xs@ == (if e is None { merged(kept, incoming@) } else { incoming@ }),
                _ => r is None,
            },
        },
{
    match stored {
        None => Some(incoming),
        Some(text) => match artists_results(text) {
            None => None,
            Some((kept, None)) => Some(merge_artists(kept, incoming)),
            Some((_, Some(_))) => Some(incoming),
        },
    }
}

/// The introduction of a Wikipedia article: the member `extract` of the
/// first page in `query.pages`, printed as JSON (a quoted string when
/// there is one, `null` otherwise). `None` where the answer is no JSON, or
/// `query.pages` is no object or an empty one.
pub fn wiki_description(body: &str) -> (r: Option<String>)
    ensures
        match spec_parse_json(body@) {
            None => r is None,
            Some(v) => match index_key(index_key(v, "query"@), "pages"@) {
                JsonSpec::Object(pages) => if pages.len() > 0 {
                    r matches Some(s) && s@ == spec_json_text(index_key(pages[0].1, "extract"@))
                } else {
                    r is None
                },
                _ => r is None,
            },
        },
{
    match parse_json(body) {
        None => None,
        Some(v) => {
            let pages = member_of(v.get("query"), "pages");
            match pages {
                Some(JsonValue::Object(m)) => {
                    if m.len() == 0 {
                        return None;
                    }
                    proof { crate::json::lemma_view_members_index(m@, 0); }
                    let extract = m[0].1.get("extract");
                    let text = match extract {
                        Some(x) => crate::json::json_text(x),
                        None => crate::json::json_text(&JsonValue::Null),
                    };
                    Some(text)
                },
                _ => {
                    proof {
                        if or_null(pages) is Object {
                            assert(false);
                        }
                    }
                    None
                },
            }
        },
    }
}

/// The artist playing now: the first of the artists of the item playing,
/// `item.artists[0]`. `Some(None)` when nothing plays (an empty answer),
/// `None` where the answer is no JSON or that value is no simplified
/// artist.
pub fn currently_playing_artist(body: &str) -> (r: Option<Option<SimplifiedArtist>>)
    ensures
        body@.len() == 0 ==> r == Some(None::<SimplifiedArtist>),
        body@.len() != 0 ==> match spec_parse_json(body@) {
            None => r is None,
            Some(v) => {
                let a = index_pos(index_key(index_key(v, "item"@), "artists"@), 0);
                if simplified_artist_decodable(a) {
                    r matches Some(Some(x)) && simplified_artist_decodes(a, x)
                } else {
                    r is None
                }
            },
        },
{
    if body.is_empty() {
        return Some(None);
    }
    match parse_json(body) {
        None => None,
        Some(v) => {
            let a = element_of(member_of(v.get("item"), "artists"), 0);
            match simplified_artist_of(a) {
                Some(x) => Some(Some(x)),
                None => None,
            }
        },
    }
}

/// The track playing now, read from `item`: `Some(None)` when nothing
/// plays (an empty answer), `None` where the answer is no JSON or `item` is
/// no full track.
pub fn currently_playing_track(body: &str) -> (r: Option<Option<FullTrack>>)
    ensures
        body@.len() == 0 ==> r == Some(None::<FullTrack>),
        body@.len() != 0 ==> match spec_parse_json(body@) {
            None => r is None,
            Some(v) => {
                let t = index_key(v, "item"@);
                if full_track_decodable(t) {
                    r matches Some(Some(x)) && full_track_decodes(t, x)
                } else {
                    r is None
                }
            },
        },
{
    if body.is_empty() {
        return Some(None);
    }
    match parse_json(body) {
        None => None,
        Some(v) => match full_track_of(v.get("item")) {
            Some(x) => Some(Some(x)),
            None => None,
        },
    }
}

/// The state of the player: `Some(None)` when there is none (an empty
/// answer), `None` where the answer is no JSON or no such state.
pub fn playback_state(body: &str) -> (r: Option<Option<FullPlayingContext>>)
    ensures
        body@.len() == 0 ==> r == Some(None::<FullPlayingContext>),
        body@.len() != 0 ==> match spec_parse_json(body@) {
            None => r is None,
            Some(v) => if full_playing_context_decodable(v) {
                r matches Some(Some(x)) && full_playing_context_decodes(v, x)
            } else {
                r is None
            },
        },
{
    if body.is_empty() {
        return Some(None);
    }
    match parse_json(body) {
        None => None,
        Some(v) => match full_playing_context_of(Some(&v)) {
            Some(x) => Some(Some(x)),
            None => None,
        },
    }
}

/// The request that plays `track`, within the album `context` when there
/// is one.
pub fn play_track_request(command: &Command, track: &SimplifiedTrack, context: Option<&SimplifiedAlbum>) -> (r: HttpRequest)
    ensures
        match context {
            Some(album) => is_play_request(r, track.id@, "track"@, album.id@, "album"@, command.token()),
            None => is_play_request(r, track.id@, "track"@, ""@, ""@, command.token()),
        },
{
    match context {
        Some(album) => command.play(track.id.as_str(), "track", album.id.as_str(), "album"),
        None => command.play(track.id.as_str(), "track", "", ""),
    }
}

} // verus!
