//! Builds the requests of the Spotify Web API calls the client makes, each
//! carrying the access token of its [`Communicator`].

pub mod communicator;

use vstd::prelude::*;
use vstd::utf8::*;
use crate::encoding::{percent_encode_default, percent_encoded};
use crate::text::{decimal, push_decimal};
use self::communicator::{ApiError, Communicator, HttpOutcome, HttpRequest, TransferMode, matches_spec, spec_token_result};

verus! {

/// The header that authorizes a request with an access token.
pub open spec fn bearer(token: Seq<char>) -> Seq<char> {
    "Authorization: Bearer "@ + token
}

/// The body of a play request: with a context, the context to play and
/// the item to start at; without one, the item alone; with neither (a
/// plain resume), nothing.
pub open spec fn spec_play_body(spotify_id: Seq<char>, type_: Seq<char>, context_id: Seq<char>, context_type: Seq<char>) -> Seq<char> {
    if context_id.len() > 0 {
        "{"@ + "\"context_uri\":\"spotify:"@ + context_type + ":"@ + context_id + "\""@
            + ",\"offset\": {\"uri\": \"spotify:"@ + type_ + ":"@ + spotify_id + "\"}}"@
    } else if type_.len() > 0 {
        "{\"uris\": [\"spotify:"@ + type_ + ":"@ + spotify_id + "\"]}"@
    } else {
        Seq::empty()
    }
}

/// What a play request asks for: within a context, the context's URI and,
/// as the offset, the URI of the item (`spotify:<kind>:<id>`); without one,
/// the item's URI alone, named by the kind given; with no kind either (a
/// plain resume), nothing.
pub proof fn law_play_body(spotify_id: Seq<char>, type_: Seq<char>, context_id: Seq<char>, context_type: Seq<char>)
    ensures
        context_id.len() > 0 ==> spec_play_body(spotify_id, type_, context_id, context_type)
            == "{\"context_uri\":\"spotify:"@ + context_type + ":"@ + context_id
                + "\",\"offset\": {\"uri\": \"spotify:"@ + type_ + ":"@ + spotify_id + "\"}}"@,
        context_id.len() == 0 && type_.len() > 0 ==> spec_play_body(spotify_id, type_, context_id, context_type)
            == "{\"uris\": [\"spotify:"@ + type_ + ":"@ + spotify_id + "\"]}"@,
        context_id.len() == 0 && type_.len() == 0 ==> spec_play_body(spotify_id, type_, context_id, context_type).len() == 0,
{
    if context_id.len() > 0 {
        reveal_strlit("{");
        reveal_strlit("\"context_uri\":\"spotify:");
        reveal_strlit("{\"context_uri\":\"spotify:");
        reveal_strlit("\"");
        reveal_strlit(",\"offset\": {\"uri\": \"spotify:");
        reveal_strlit("\",\"offset\": {\"uri\": \"spotify:");
        assert("{\"context_uri\":\"spotify:"@ =~= "{"@ + "\"context_uri\":\"spotify:"@);
        assert("\",\"offset\": {\"uri\": \"spotify:"@ =~= "\""@ + ",\"offset\": {\"uri\": \"spotify:"@);
        assert(spec_play_body(spotify_id, type_, context_id, context_type)
            =~= "{\"context_uri\":\"spotify:"@ + context_type + ":"@ + context_id
                + "\",\"offset\": {\"uri\": \"spotify:"@ + type_ + ":"@ + spotify_id + "\"}}"@);
    }
}

/// The query of a search for `name` among the items of kind `type_`.
pub open spec fn spec_search_query(name: Seq<char>, type_: Seq<char>) -> Seq<char> {
    "q="@ + percent_encoded(encode_utf8(name)) + "&type="@ + type_
}

/// A GET of `url` authorized by `token`.
pub open spec fn is_authorized_get(r: HttpRequest, url: Seq<char>, token: Seq<char>) -> bool {
    &&& r.mode == TransferMode::Download
    &&& r.url@ == url
    &&& r.body@ == Seq::<char>::empty()
    &&& r.headers@.len() == 1
    &&& r.headers@[0]@ == bearer(token)
}

/// The request for the introduction of the Wikipedia article `search`: a
/// GET with no header.
pub open spec fn is_wiki_request(r: HttpRequest, search: Seq<char>) -> bool {
    &&& r.mode == TransferMode::Download
    &&& r.url@ == "https://en.wikipedia.org/w/api.php?action=query&prop=extracts&explaintext=true&format=json&exchars=300&titles="@
        + percent_encoded(encode_utf8(search))
    &&& r.body@ == Seq::<char>::empty()
    &&& r.headers@.len() == 0
}

/// The request that plays the item `spotify_id` of kind `type_` within the
/// context `context_id` of kind `context_type`, carrying `token`.
pub open spec fn is_play_request(r: HttpRequest, spotify_id: Seq<char>, type_: Seq<char>, context_id: Seq<char>,
    context_type: Seq<char>, token: Seq<char>) -> bool {
    &&& r.mode == TransferMode::Upload
    &&& r.url@ == "https://api.spotify.com/v1/me/player/play"@
    &&& r.body@ == spec_play_body(spotify_id, type_, context_id, context_type)
    &&& r.headers@.len() == 3
    &&& r.headers@[0]@ == "Accept: application/json"@
    &&& r.headers@[1]@ == "Content-Type: application/json"@
    &&& r.headers@[2]@ == bearer(token)
}

/// Sends the Spotify Web API calls of the client.
pub struct Command {
    communicator: Communicator,
}

impl Command {
    /// The access token the requests carry.
    pub closed spec fn token(&self) -> Seq<char> {
        self.communicator.token()
    }

    /// A command whose access token is the placeholder "NULL", until it is
    /// refreshed.
    pub fn new() -> (r: Command)
        ensures
            r.token() == "NULL"@,
    {
        Command { communicator: Communicator::new("NULL") }
    }

    fn authorization(&self) -> (r: Vec<String>)
        ensures
            r@.len() == 1,
            r@[0]@ == bearer(self.token()),
    {
        let mut auth = "Authorization: Bearer ".to_owned();
        auth.append(self.communicator.get_access_token());
        let mut headers: Vec<String> = Vec::new();
        headers.push(auth);
        headers
    }

    fn get(&self, url: String) -> (r: HttpRequest)
        ensures
            is_authorized_get(r, url@, self.token()),
    {
        HttpRequest { mode: TransferMode::Download, url, body: String::new(), headers: self.authorization() }
    }

    /// The request that plays the item `spotify_id` of kind `type_`, within
    /// the context `context_id` of kind `context_type` when there is one.
    pub fn play(&self, spotify_id: &str, type_: &str, context_id: &str, context_type: &str) -> (r: HttpRequest)
        ensures
            is_play_request(r, spotify_id@, type_@, context_id@, context_type@, self.token()),
            context_id@.len() > 0 ==> r.body@ == "{\"context_uri\":\"spotify:"@ + context_type@ + ":"@ + context_id@
                + "\",\"offset\": {\"uri\": \"spotify:"@ + type_@ + ":"@ + spotify_id@ + "\"}}"@,
            context_id@.len() == 0 && type_@.len() > 0 ==> r.body@ == "{\"uris\": [\"spotify:"@ + type_@ + ":"@
                + spotify_id@ + "\"]}"@,
            context_id@.len() == 0 && type_@.len() == 0 ==> r.body@.len() == 0,
    {
        proof { law_play_body(spotify_id@, type_@, context_id@, context_type@); }
        let mut body = String::new();
        if !context_id.is_empty() {
            body.append("{");
            body.append("\"context_uri\":\"spotify:");
            body.append(context_type);
            body.append(":");
            body.append(context_id);
            body.append("\"");
            body.append(",\"offset\": {\"uri\": \"spotify:");
            body.append(type_);
            body.append(":");
            body.append(spotify_id);
            body.append("\"}}");
        } else if !type_.is_empty() {
            body.append("{\"uris\": [\"spotify:");
            body.append(type_);
            body.append(":");
            body.append(spotify_id);
            body.append("\"]}");
        }
        let mut auth = "Authorization: Bearer ".to_owned();
        auth.append(self.communicator.get_access_token());
        let mut headers: Vec<String> = Vec::new();
        headers.push("Accept: application/json".to_owned());
        headers.push("Content-Type: application/json".to_owned());
        headers.push(auth);
        let r = HttpRequest {
            mode: TransferMode::Upload,
            url: "https://api.spotify.com/v1/me/player/play".to_owned(),
            body,
            headers,
        };
        assert(r.body@ =~= spec_play_body(spotify_id@, type_@, context_id@, context_type@));
        r
    }

    /// The request that searches for `name` among the items of kind `type_`.
    pub fn search(&self, name: &str, type_: &str) -> (r: HttpRequest)
        ensures
            is_authorized_get(r, "https://api.spotify.com/v1/search?"@ + spec_search_query(name@, type_@), self.token()),
    {
        let mut url = "https://api.spotify.com/v1/search?".to_owned();
        url.append("q=");
        let encoded = percent_encode_default(name);
        url.append(encoded.as_str());
        url.append("&type=");
        url.append(type_);
        let r = self.get(url);
        assert(r.url@ =~= "https://api.spotify.com/v1/search?"@ + spec_search_query(name@, type_@));
        r
    }

    /// The request for `page_size` albums of the user's library, from
    /// position `offset`.
    pub fn get_my_albums(&self, offset: u16, page_size: u16) -> (r: HttpRequest)
        ensures
            is_authorized_get(r, "https://api.spotify.com/v1/me/albums?limit="@ + decimal(page_size as nat)
                + "&offset="@ + decimal(offset as nat), self.token()),
    {
        let mut url = "https://api.spotify.com/v1/me/albums?limit=".to_owned();
        push_decimal(&mut url, page_size as u64);
        url.append("&offset=");
        push_decimal(&mut url, offset as u64);
        let r = self.get(url);
        assert(r.url@ =~= "https://api.spotify.com/v1/me/albums?limit="@ + decimal(page_size as nat)
                + "&offset="@ + decimal(offset as nat));
        r
    }

    /// The request for the tracks of the album `id`.
    pub fn get_tracks_from_album(&self, id: &str) -> (r: HttpRequest)
        ensures
            is_authorized_get(r, "https://api.spotify.com/v1/albums/"@ + id@ + "/tracks"@, self.token()),
    {
        let mut url = "https://api.spotify.com/v1/albums/".to_owned();
        url.append(id);
        url.append("/tracks");
        self.get(url)
    }

    /// The request for the albums of the artist `id`.
    pub fn get_albums_from_artist(&self, id: &str) -> (r: HttpRequest)
        ensures
            is_authorized_get(r, "https://api.spotify.com/v1/artists/"@ + id@ + "/albums"@, self.token()),
    {
        let mut url = "https://api.spotify.com/v1/artists/".to_owned();
        url.append(id);
        url.append("/albums");
        self.get(url)
    }

    /// The request for the data of the artist `id`.
    pub fn get_artist_data(&self, id: &str) -> (r: HttpRequest)
        ensures
            is_authorized_get(r, "https://api.spotify.com/v1/artists/"@ + id@, self.token()),
    {
        let mut url = "https://api.spotify.com/v1/artists/".to_owned();
        url.append(id);
        self.get(url)
    }

    /// The request for the item playing now.
    pub fn get_currently_playing(&self) -> (r: HttpRequest)
        ensures
            is_authorized_get(r, "https://api.spotify.com/v1/me/player/currently-playing"@, self.token()),
    {
        self.get("https://api.spotify.com/v1/me/player/currently-playing".to_owned())
    }

    /// The request for the state of the player.
    pub fn get_playback_state(&self) -> (r: HttpRequest)
        ensures
            is_authorized_get(r, "https://api.spotify.com/v1/me/player"@, self.token()),
    {
        self.get("https://api.spotify.com/v1/me/player".to_owned())
    }

    /// The request for a new access token.
    pub fn refresh(&self, base_64_secret: &str, refresh_token: &str) -> (r: HttpRequest)
        ensures
            r.mode == TransferMode::FormPost,
            r.url@ == "https://accounts.spotify.com/api/token"@,
            r.body@ == communicator::spec_refresh_body(refresh_token@),
            r.headers@.len() == 1,
            r.headers@[0]@ == "Authorization: Basic "@ + base_64_secret@,
    {
        Communicator::refresh(base_64_secret, refresh_token)
    }

    /// Takes the new access token from the answer to a refresh request; the
    /// requests that follow carry it.
    pub fn finish_refresh(&mut self, outcome: HttpOutcome) -> (r: Option<Result<(), ApiError>>)
        ensures
            match (r, spec_token_result(outcome.performed, outcome.code, outcome.body@, "access_token"@)) {
                (None, None) => final(self).token() == old(self).token(),
                (Some(Ok(())), Some(Ok(t))) => final(self).token() == t,
                (Some(Err(e)), Some(Err((k, m)))) => communicator::is_error(e, k, m) && final(self).token() == old(self).token(),
                _ => false,
            },
    {
        self.communicator.finish_refresh(outcome)
    }

    /// The request for a refresh token from an authorization code.
    pub fn retrieve_refresh_token(&self, base_64_secret: &str, authorization_code: &str) -> (r: HttpRequest)
        ensures
            r.mode == TransferMode::FormPost,
            r.url@ == "https://accounts.spotify.com/api/token"@,
            r.body@ == communicator::spec_authorization_body(authorization_code@),
            r.headers@.len() == 1,
            r.headers@[0]@ == "Authorization: Basic "@ + base_64_secret@,
    {
        Communicator::retrieve_refresh_token(base_64_secret, authorization_code)
    }

    /// The refresh token in the answer to an authorization request; `None`
    /// where the client cannot go on, a failed request among them.
    pub fn finish_retrieve_refresh_token(outcome: HttpOutcome) -> (r: Option<String>)
        ensures
            match spec_token_result(outcome.performed, outcome.code, outcome.body@, "refresh_token"@) {
                Some(Ok(t)) => r matches Some(s) && s@ == t,
                _ => r is None,
            },
    {
        match Communicator::finish_retrieve_refresh_token(outcome) {
            Some(Ok(token)) => Some(token),
            _ => None,
        }
    }

    /// The request for the introduction of the Wikipedia article `search`.
    pub fn get_wiki_description(&self, search: &str) -> (r: HttpRequest)
        ensures
            is_wiki_request(r, search@),
    {
        let mut url = "https://en.wikipedia.org/w/api.php?action=query&prop=extracts&explaintext=true&format=json&exchars=300&titles=".to_owned();
        let encoded = percent_encode_default(search);
        url.append(encoded.as_str());
        HttpRequest { mode: TransferMode::Download, url, body: String::new(), headers: Vec::new() }
    }
}

} // verus!
