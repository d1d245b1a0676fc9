//! The terminal client's own, lighter view of the Web API: tracks and
//! albums known by a name and an identifier, the requests it sends for
//! them, and how it reads them out of the answers.

use vstd::prelude::*;
use vstd::utf8::*;
use crate::apis::{item_at, opt_view};
use crate::command::{bearer, is_authorized_get, spec_search_query};
use crate::command::communicator::{ApiError, Communicator, HttpOutcome, HttpRequest, TransferMode, spec_token_result, is_error};
use crate::encoding::percent_encode_default;
use crate::json::{element_of, index_key, index_pos, lemma_view_elements_index, lemma_view_elements_len, member_of,
    parse_json, spec_json_text, spec_parse_json, strip_outer, unquoted, view_elements, JsonSpec, JsonValue};
use crate::model::fields::str_views;
use crate::text::{decimal, push_decimal};

verus! {

/// A track, by name and identifier.
#[derive(Debug, Clone)]
pub struct Track {
    pub name: String,
    pub id: String,
}

/// An album, by name and identifier.
#[derive(Debug, Clone)]
pub struct Album {
    pub name: String,
    pub id: String,
}

/// An artist; the client keeps nothing of one yet.
pub struct Artist {}

/// A playlist; the client keeps nothing of one yet.
pub struct Playlist {}

/// The body of a play request: a track is played by its URI, anything
/// else (a playlist, an album) as the context to play.
pub open spec fn client_play_body(spotify_id: Seq<char>, type_: Seq<char>) -> Seq<char> {
    if type_ != "track"@ {
        "{\"context_uri\":\"spotify:"@ + type_ + ":"@ + spotify_id + "\"}"@
    } else {
        "{\"uris\": [\"spotify:track:"@ + spotify_id + "\"]}"@
    }
}

/// The members `key` of the elements of the array `l` (or of their member
/// `sub`, when there is one), each printed and without its outer
/// characters.
pub open spec fn unquoted_members(l: JsonSpec, sub: Option<Seq<char>>, key: Seq<char>) -> Seq<Seq<char>> {
    Seq::new(l->Array_0.len(), |k: int| strip_outer(spec_json_text(index_key(item_at(l, k, sub), key))))
}

/// The member `first` of `v`, or the member `second` of that.
pub open spec fn member_path(v: JsonSpec, first: Seq<char>, second: Option<Seq<char>>) -> JsonSpec {
    match second {
        Some(s) => index_key(index_key(v, first), s),
        None => index_key(v, first),
    }
}

/// The list that the member path leads to in the answer, if the answer is
/// JSON and that value is an array.
pub open spec fn answer_list(body: Seq<char>, first: Seq<char>, second: Option<Seq<char>>) -> Option<JsonSpec> {
    match spec_parse_json(body) {
        None => None,
        Some(v) => if member_path(v, first, second) is Array {
            Some(member_path(v, first, second))
        } else {
            None
        },
    }
}

/// Sends the Web API calls of the terminal client.
pub struct Command {
    communicator: Communicator,
}

impl Command {
    /// The access token the requests carry.
    pub closed spec fn token(&self) -> Seq<char> {
        self.communicator.token()
    }

    /// A command whose access token is the placeholder "NULL", until it is
    /// refreshed.
    pub fn construct() -> (r: Command)
        ensures
            r.token() == "NULL"@,
    {
        Command { communicator: Communicator::new("NULL") }
    }

    fn get(&self, url: String) -> (r: HttpRequest)
        ensures
            is_authorized_get(r, url@, self.token()),
    {
        let mut auth = "Authorization: Bearer ".to_owned();
        auth.append(self.communicator.get_access_token());
        let mut headers: Vec<String> = Vec::new();
        headers.push(auth);
        HttpRequest { mode: TransferMode::Download, url, body: String::new(), headers }
    }

    /// The request that plays `spotify_id`: a track by its URI, anything
    /// else as a context of kind `type_`.
    pub fn play(&self, spotify_id: &str, type_: &str) -> (r: HttpRequest)
        ensures
            r.mode == TransferMode::Upload,
            r.url@ == "https://api.spotify.com/v1/me/player/play"@,
            r.body@ == client_play_body(spotify_id@, type_@),
            r.headers@.len() == 3,
            r.headers@[0]@ == "Accept: application/json"@,
            r.headers@[1]@ == "Content-Type: application/json"@,
            r.headers@[2]@ == bearer(self.token()),
    {
        let mut body = String::new();
        if !crate::text::str_eq(type_, "track") {
            body.append("{\"context_uri\":\"spotify:");
            body.append(type_);
            body.append(":");
            body.append(spotify_id);
            body.append("\"}");
        } else {
            body.append("{\"uris\": [\"spotify:track:");
            body.append(spotify_id);
            body.append("\"]}");
        }
        let mut auth = "Authorization: Bearer ".to_owned();
        auth.append(self.communicator.get_access_token());
        let mut headers: Vec<String> = Vec::new();
        headers.push("Accept: application/json".to_owned());
        headers.push("Content-Type: application/json".to_owned());
        headers.push(auth);
        let r = HttpRequest {
            mode: TransferMode::Upload,
            url: "https://api.spotify.com/v1/me/player/play".to_owned(),
            body,
            headers,
        };
        assert(r.body@ =~= client_play_body(spotify_id@, type_@));
        r
    }

    /// Pausing is not offered yet: nothing is sent.
    pub fn pause(&self) {
    }

    /// Skipping is not offered yet: nothing is sent.
    pub fn next(&self) {
    }

    /// The request that searches for `name` among the items of kind `type_`.
    pub fn search(&self, name: &str, type_: &str) -> (r: HttpRequest)
        ensures
            is_authorized_get(r, "https://api.spotify.com/v1/search?"@ + spec_search_query(name@, type_@), self.token()),
    {
        let mut url = "https://api.spotify.com/v1/search?".to_owned();
        url.append("q=");
        let encoded = percent_encode_default(name);
        url.append(encoded.as_str());
        url.append("&type=");
        url.append(type_);
        let r = self.get(url);
        assert(r.url@ =~= "https://api.spotify.com/v1/search?"@ + spec_search_query(name@, type_@));
        r
    }

    /// The request for fifty albums of the user's library, from position
    /// `offset`.
    pub fn get_my_albums(&self, offset: u16) -> (r: HttpRequest)
        ensures
            is_authorized_get(r, "https://api.spotify.com/v1/me/albums?limit=50&offset="@ + decimal(offset as nat),
                self.token()),
    {
        let mut url = "https://api.spotify.com/v1/me/albums?limit=50&offset=".to_owned();
        push_decimal(&mut url, offset as u64);
        let r = self.get(url);
        assert(r.url@ =~= "https://api.spotify.com/v1/me/albums?limit=50&offset="@ + decimal(offset as nat));
        r
    }

    /// The request for the tracks of the album `id`.
    pub fn get_tracks_from_album(&self, id: &str) -> (r: HttpRequest)
        ensures
            is_authorized_get(r, "https://api.spotify.com/v1/albums/"@ + id@ + "/tracks"@, self.token()),
    {
        let mut url = "https://api.spotify.com/v1/albums/".to_owned();
        url.append(id);
        url.append("/tracks");
        let r = self.get(url);
        assert(r.url@ =~= "https://api.spotify.com/v1/albums/"@ + id@ + "/tracks"@);
        r
    }

    /// The request for the item playing now.
    pub fn get_currently_playing(&self) -> (r: HttpRequest)
        ensures
            is_authorized_get(r, "https://api.spotify.com/v1/me/player/currently-playing"@, self.token()),
    {
        self.get("https://api.spotify.com/v1/me/player/currently-playing".to_owned())
    }

    /// The request for a new access token.
    pub fn refresh(&self, base_64_secret: &str, refresh_token: &str) -> (r: HttpRequest)
        ensures
            r.mode == TransferMode::FormPost,
            r.url@ == "https://accounts.spotify.com/api/token"@,
            r.body@ == crate::command::communicator::spec_refresh_body(refresh_token@),
            r.headers@.len() == 1,
            r.headers@[0]@ == "Authorization: Basic "@ + base_64_secret@,
    {
        Communicator::refresh(base_64_secret, refresh_token)
    }

    /// Takes the new access token from the answer to a refresh request.
    pub fn finish_refresh(&mut self, outcome: HttpOutcome) -> (r: Option<Result<(), ApiError>>)
        ensures
            match (r, spec_token_result(outcome.performed, outcome.code, outcome.body@, "access_token"@)) {
                (None, None) => final(self).token() == old(self).token(),
                (Some(Ok(())), Some(Ok(t))) => final(self).token() == t,
                (Some(Err(e)), Some(Err((k, m)))) => is_error(e, k, m) && final(self).token() == old(self).token(),
                _ => false,
            },
    {
        self.communicator.finish_refresh(outcome)
    }
}

fn read_members(a: &Vec<JsonValue>, sub: Option<&str>, key: &str) -> (r: Vec<String>)
    ensures
        str_views(r@) == unquoted_members(JsonSpec::Array(view_elements(a@)), opt_view(sub), key@),
{
    let ghost l = JsonSpec::Array(view_elements(a@));
    let mut out: Vec<String> = Vec::new();
    let mut i: usize = 0;
    proof { lemma_view_elements_len(a@); }
    while i < a.len()
        invariant
            i <= a@.len(),
            l == JsonSpec::Array(view_elements(a@)),
            view_elements(a@).len() == a@.len(),
            out@.len() == i,
            forall|k: int| 0 <= k < i ==> (#[trigger] out@[k])@
                == strip_outer(spec_json_text(index_key(item_at(l, k, opt_view(sub)), key@))),
        decreases a@.len() - i,
    {
        proof { lemma_view_elements_index(a@, i as int); }
        let e = &a[i];
        assert(l->Array_0[i as int] == e@);
        let x = match sub {
            Some(s) => e.get(s),
            None => Some(e),
        };
        let name = unquoted(member_of(x, key));
        out.push(name);
        i = i + 1;
    }
    assert(str_views(out@) =~= unquoted_members(l, opt_view(sub), key@));
    out
}

/// Reads the array at `path` in the answer, if there is one.
fn answer_array<'a>(v: &'a JsonValue, first: &str, second: Option<&str>) -> (r: Option<&'a Vec<JsonValue>>)
    ensures
        match r {
            Some(a) => member_path(v@, first@, opt_view(second)) == JsonSpec::Array(view_elements(a@)),
            None => !(member_path(v@, first@, opt_view(second)) is Array),
        },
{
    let x = match second {
        Some(s) => member_of(v.get(first), s),
        None => v.get(first),
    };
    match x {
        Some(JsonValue::Array(a)) => Some(a),
        _ => None,
    }
}

/// The names of the playlists a search found, as the client reads them:
/// `playlists.items[k].name`, printed and unquoted. `None` where the
/// answer is no JSON or `playlists.items` is no array.
pub fn playlist_names(body: &str) -> (r: Option<Vec<String>>)
    ensures
        match answer_list(body@, "playlists"@, Some("items"@)) {
            None => r is None,
            Some(l) => r matches Some(xs) && str_views(xs@) == unquoted_members(l, None, "name"@),
        },
{
    match parse_json(body) {
        None => None,
        Some(v) => match answer_array(&v, "playlists", Some("items")) {
            None => None,
            Some(a) => Some(read_members(a, None, "name")),
        },
    }
}

/// The albums of a page of the user's library, as the client reads them:
/// the name and identifier of `items[k].album`, printed and unquoted.
/// `None` where the answer is no JSON or `items` is no array.
pub fn album_chunk(body: &str) -> (r: Option<Vec<Album>>)
    ensures
        match answer_list(body@, "items"@, None) {
            None => r is None,
            Some(l) => r matches Some(xs) && xs@.len() == l->Array_0.len() && forall|k: int| 0 <= k < xs@.len() ==> {
                &&& (#[trigger] xs@[k]).name@ == unquoted_members(l, Some("album"@), "name"@)[k]
                &&& xs@[k].id@ == unquoted_members(l, Some("album"@), "id"@)[k]
            },
        },
{
    match parse_json(body) {
        None => None,
        Some(v) => match answer_array(&v, "items", None) {
            None => None,
            Some(a) => {
                let names = read_members(a, Some("album"), "name");
                let ids = read_members(a, Some("album"), "id");
                let ghost l = JsonSpec::Array(view_elements(a@));
                proof {
                    assert(str_views(names@).len() == names@.len());
                    assert(str_views(ids@).len() == ids@.len());
                }
                let mut out: Vec<Album> = Vec::new();
                let mut i: usize = 0;
                while i < names.len()
                    invariant
                        i <= names@.len(),
                        names@.len() == ids@.len(),
                        str_views(names@) == unquoted_members(l, Some("album"@), "name"@),
                        str_views(ids@) == unquoted_members(l, Some("album"@), "id"@),
                        out@.len() == i,
                        forall|k: int| 0 <= k < i ==> (#[trigger] out@[k]).name@ == names@[k]@ && out@[k].id@ == ids@[k]@,
                    decreases names@.len() - i,
                {
                    out.push(Album { name: names[i].clone(), id: ids[i].clone() });
                    i = i + 1;
                }
                proof {
                    assert forall|k: int| 0 <= k < out@.len() implies
                        (#[trigger] out@[k]).name@ == unquoted_members(l, Some("album"@), "name"@)[k]
                        && out@[k].id@ == unquoted_members(l, Some("album"@), "id"@)[k] by {
                        assert(str_views(names@)[k] == names@[k]@);
                        assert(str_views(ids@)[k] == ids@[k]@);
                    }
                }
                Some(out)
            },
        },
    }
}

/// The tracks of an album, as the client reads them: the name and
/// identifier of `items[k]`, printed and unquoted. `None` where the answer
/// is no JSON or `items` is no array.
pub fn album_tracks(body: &str) -> (r: Option<Vec<Track>>)
    ensures
        match answer_list(body@, "items"@, None) {
            None => r is None,
            Some(l) => r matches Some(xs) && xs@.len() == l->Array_0.len() && forall|k: int| 0 <= k < xs@.len() ==> {
                &&& (#[trigger] xs@[k]).name@ == unquoted_members(l, None, "name"@)[k]
                &&& xs@[k].id@ == unquoted_members(l, None, "id"@)[k]
            },
        },
{
    match parse_json(body) {
        None => None,
        Some(v) => match answer_array(&v, "items", None) {
            None => None,
            Some(a) => {
                let names = read_members(a, None, "name");
                let ids = read_members(a, None, "id");
                let ghost l = JsonSpec::Array(view_elements(a@));
                proof {
                    assert(str_views(names@).len() == names@.len());
                    assert(str_views(ids@).len() == ids@.len());
                }
                let mut out: Vec<Track> = Vec::new();
                let mut i: usize = 0;
                while i < names.len()
                    invariant
                        i <= names@.len(),
                        names@.len() == ids@.len(),
                        str_views(names@) == unquoted_members(l, None, "name"@),
                        str_views(ids@) == unquoted_members(l, None, "id"@),
                        out@.len() == i,
                        forall|k: int| 0 <= k < i ==> (#[trigger] out@[k]).name@ == names@[k]@ && out@[k].id@ == ids@[k]@,
                    decreases names@.len() - i,
                {
                    out.push(Track { name: names[i].clone(), id: ids[i].clone() });
                    i = i + 1;
                }
                proof {
                    assert forall|k: int| 0 <= k < out@.len() implies
                        (#[trigger] out@[k]).name@ == unquoted_members(l, None, "name"@)[k]
                        && out@[k].id@ == unquoted_members(l, None, "id"@)[k] by {
                        assert(str_views(names@)[k] == names@[k]@);
                        assert(str_views(ids@)[k] == ids@[k]@);
                    }
                }
                Some(out)
            },
        },
    }
}

/// The name of the first artist of the item playing now, as the client
/// reads it (`item.artists[0].name`, printed and unquoted); empty when
/// nothing plays (an empty answer). `None` where the answer is no JSON.
pub fn currently_playing_artist_name(body: &str) -> (r: Option<String>)
    ensures
        body@.len() == 0 ==> (r matches Some(s) && s@.len() == 0),
        body@.len() != 0 ==> match spec_parse_json(body@) {
            None => r is None,
            Some(v) => r matches Some(s) && s@ == strip_outer(spec_json_text(
                index_key(index_pos(index_key(index_key(v, "item"@), "artists"@), 0), "name"@))),
        },
{
    if body.is_empty() {
        return Some(String::new());
    }
    match parse_json(body) {
        None => None,
        Some(v) => {
            let artists = member_of(v.get("item"), "artists");
            Some(unquoted(member_of(element_of(artists, 0), "name")))
        },
    }
}

/// The name of the item playing now, as the client reads it (`item.name`,
/// printed and unquoted); empty when nothing plays (an empty answer).
/// `None` where the answer is no JSON.
pub fn currently_playing_track_name(body: &str) -> (r: Option<String>)
    ensures
        body@.len() == 0 ==> (r matches Some(s) && s@.len() == 0),
        body@.len() != 0 ==> match spec_parse_json(body@) {
            None => r is None,
            Some(v) => r matches Some(s) && s@ == strip_outer(spec_json_text(
                index_key(index_key(v, "item"@), "name"@))),
        },
{
    if body.is_empty() {
        return Some(String::new());
    }
    match parse_json(body) {
        None => None,
        Some(v) => Some(unquoted(member_of(v.get("item"), "name"))),
    }
}

} // verus!
