//! The communication with the Spotify Web API: the access token, the
//! requests the client sends and how it reads the answers.
//!
//! The transfer itself is the caller's: the library says what to send
//! ([`HttpRequest`]) and decides from what came back ([`HttpOutcome`]).

use vstd::prelude::*;
use vstd::utf8::*;
use crate::json::{index_key, parse_json, spec_json_text, spec_parse_json, strip_outer, unquoted, JsonSpec};
use crate::text::{decimal, str_eq, decimal_string};

verus! {

/// The kinds of failure the client reports.
#[derive(PartialEq, Eq, Structural, Clone, Copy, Debug)]
pub enum ErrorKind {
    /// Something asked for does not exist (an unknown request type, a
    /// missing key file).
    NotFound,
    /// The transfer could not be made.
    NotConnected,
    /// The Web API answered with a status other than 200 or 204.
    Other,
    /// A value did not have the shape that was expected.
    InvalidData,
}

/// A failure, with its kind and its message.
#[derive(Debug)]
pub struct ApiError {
    pub kind: ErrorKind,
    pub message: String,
}

/// Whether `e` is the error of kind `kind` with message `message`.
pub open spec fn is_error(e: ApiError, kind: ErrorKind, message: Seq<char>) -> bool {
    e.kind == kind && e.message@ == message
}

/// How the transfer of a request goes.
#[derive(PartialEq, Eq, Structural, Clone, Copy, Debug)]
pub enum TransferMode {
    /// A GET whose answer is collected.
    Download,
    /// A PUT that sends the body.
    Upload,
    /// A POST that sends the body as form fields and collects the answer.
    FormPost,
    /// A POST that is set up but not transferred.
    Unsent,
}

/// A request as the client sends it.
#[derive(Debug)]
pub struct HttpRequest {
    pub mode: TransferMode,
    pub url: String,
    pub body: String,
    pub headers: Vec<String>,
}

/// What came back of a request: whether the transfer went through, the
/// status code that the handle reports afterwards, and the bytes received.
#[derive(Debug)]
pub struct HttpOutcome {
    pub performed: bool,
    pub code: u32,
    pub body: Vec<u8>,
}

/// A status the client takes as success.
pub open spec fn status_ok(code: u32) -> bool {
    code == 200 || code == 204
}

/// What a generic request yields: `None` where the client cannot go on
/// (the answer of a successful GET is no UTF-8), else the text of the
/// answer (empty for a request that is not a GET, whose answer is not
/// collected) or the error, as (kind, message).
pub open spec fn spec_perform_result(mode: TransferMode, outcome_performed: bool, code: u32, body: Seq<u8>)
    -> Option<Result<Seq<char>, (ErrorKind, Seq<char>)>>
{
    if mode == TransferMode::Download && !outcome_performed {
        Some(Err((ErrorKind::NotConnected, "Connection error"@)))
    } else if !status_ok(code) {
        Some(Err((ErrorKind::Other, decimal(code as nat))))
    } else if mode != TransferMode::Download {
        Some(Ok(Seq::empty()))
    } else if valid_utf8(body) {
        Some(Ok(decode_utf8(body)))
    } else {
        None
    }
}

/// What a token request yields: `None` where the client cannot go on (an
/// answer that is no UTF-8, or a successful answer that is no JSON), else
/// the named member of the answer as the client prints and unquotes it, or
/// the error.
pub open spec fn spec_token_result(outcome_performed: bool, code: u32, body: Seq<u8>, key: Seq<char>)
    -> Option<Result<Seq<char>, (ErrorKind, Seq<char>)>>
{
    if !outcome_performed {
        Some(Err((ErrorKind::NotConnected, "Connection error"@)))
    } else if !valid_utf8(body) {
        None
    } else if !status_ok(code) {
        Some(Err((ErrorKind::Other, decimal(code as nat))))
    } else {
        match spec_parse_json(decode_utf8(body)) {
            None => None,
            Some(v) => Some(Ok(strip_outer(spec_json_text(index_key(v, key))))),
        }
    }
}

/// Whether `r` is what the specification `s` describes.
pub open spec fn matches_spec<T>(r: Option<Result<T, ApiError>>, s: Option<Result<Seq<char>, (ErrorKind, Seq<char>)>>, view: spec_fn(T) -> Seq<char>) -> bool {
    match (r, s) {
        (None, None) => true,
        (Some(Ok(x)), Some(Ok(y))) => view(x) == y,
        (Some(Err(e)), Some(Err((k, m)))) => is_error(e, k, m),
        _ => false,
    }
}

/// The error of kind `kind` with message `message`.
pub fn api_error(kind: ErrorKind, message: &str) -> (e: ApiError)
    ensures
        is_error(e, kind, message@),
{
    ApiError { kind, message: message.to_owned() }
}

/// Keeps the access token for the Spotify Web API.
pub struct Communicator {
    access_token: String,
}

/// The request for a new access token from a refresh token.
pub open spec fn spec_refresh_body(refresh_token: Seq<char>) -> Seq<char> {
    "grant_type=refresh_token&refresh_token="@ + refresh_token
}

/// The request for a refresh token from an authorization code.
pub open spec fn spec_authorization_body(code: Seq<char>) -> Seq<char> {
    "grant_type=authorization_code&code="@ + code + "&redirect_uri=http%3A%2F%2Flocalhost:8000%2F"@
}

impl Communicator {
    /// The access token.
    pub closed spec fn token(&self) -> Seq<char> {
        self.access_token@
    }

    /// A communicator holding `access_token`.
    pub fn new(access_token: &str) -> (r: Communicator)
        ensures
            r.token() == access_token@,
    {
        Communicator { access_token: access_token.to_owned() }
    }

    /// The access token.
    pub fn get_access_token(&self) -> (r: &str)
        ensures
            r@ == self.token(),
    {
        self.access_token.as_str()
    }

    /// Sets the access token.
    pub fn set_access_token(&mut self, access_token: &str)
        ensures
            final(self).token() == access_token@,
    {
        self.access_token = access_token.to_owned();
    }

    /// The request `perform` sends: `url`, followed by `?` and `query` when
    /// the query is not empty, with the given body and headers, transferred
    /// as a GET, a PUT or a POST by `type_`. Any other type is refused
    /// (`NotFound`, "type not recognized").
    pub fn perform(url: &str, query: &str, body: &str, headers: Vec<String>, type_: &str) -> (r: Result<HttpRequest, ApiError>)
        ensures
            match r {
                Ok(req) => {
                    &&& (type_@ == "GET"@ && req.mode == TransferMode::Download)
                        || (type_@ == "PUT"@ && req.mode == TransferMode::Upload)
                        || (type_@ == "POST"@ && req.mode == TransferMode::Unsent)
                    &&& req.url@ == (if query@.len() == 0 { url@ } else { url@ + "?"@ + query@ })
                    &&& req.body@ == body@
                    &&& req.headers@ == headers@
                },
                Err(e) => type_@ != "GET"@ && type_@ != "PUT"@ && type_@ != "POST"@
                    && is_error(e, ErrorKind::NotFound, "type not recognized"@),
            },
    {
        let mode = if str_eq(type_, "GET") {
            TransferMode::Download
        } else if str_eq(type_, "PUT") {
            TransferMode::Upload
        } else if str_eq(type_, "POST") {
            TransferMode::Unsent
        } else {
            return Err(api_error(ErrorKind::NotFound, "type not recognized"));
        };
        let mut full_url = url.to_owned();
        if !query.is_empty() {
            full_url.append("?");
            full_url.append(query);
        }
        Ok(HttpRequest { mode, url: full_url, body: body.to_owned(), headers })
    }

    /// Reads the outcome of a request that `perform` made: a GET that did
    /// not go through is `NotConnected` ("Connection error"); a status
    /// other than 200 or 204 is `Other`, with the status as message; else
    /// the text received by a GET (`None` where it is no UTF-8), and an
    /// empty text for any other request, whose answer is not collected.
    pub fn read_outcome(request: &HttpRequest, outcome: HttpOutcome) -> (r: Option<Result<String, ApiError>>)
        requires
            request.mode == TransferMode::Upload ==> outcome.performed,
        ensures
            matches_spec(r, spec_perform_result(request.mode, outcome.performed, outcome.code, outcome.body@), |s: String| s@),
    {
        if request.mode == TransferMode::Download && !outcome.performed {
            return Some(Err(api_error(ErrorKind::NotConnected, "Connection error")));
        }
        if outcome.code != 200 && outcome.code != 204 {
            let message = decimal_string(outcome.code as u64);
            return Some(Err(ApiError { kind: ErrorKind::Other, message }));
        }
        if request.mode != TransferMode::Download {
            return Some(Ok(String::new()));
        }
        match crate::encoding::utf8_decode(outcome.body) {
            Some(text) => Some(Ok(text)),
            None => None,
        }
    }

    /// The request for a new access token, given the Base64 of the client
    /// credentials and a refresh token.
    pub fn refresh(base64_secret: &str, refresh_token: &str) -> (r: HttpRequest)
        ensures
            r.mode == TransferMode::FormPost,
            r.url@ == "https://accounts.spotify.com/api/token"@,
            r.body@ == spec_refresh_body(refresh_token@),
            r.headers@.len() == 1,
            r.headers@[0]@ == "Authorization: Basic "@ + base64_secret@,
    {
        let mut body = "grant_type=refresh_token&refresh_token=".to_owned();
        body.append(refresh_token);
        Self::token_request(base64_secret, body)
    }

    /// The request for a refresh token, given the Base64 of the client
    /// credentials and an authorization code.
    pub fn retrieve_refresh_token(base64_secret: &str, code: &str) -> (r: HttpRequest)
        ensures
            r.mode == TransferMode::FormPost,
            r.url@ == "https://accounts.spotify.com/api/token"@,
            r.body@ == spec_authorization_body(code@),
            r.headers@.len() == 1,
            r.headers@[0]@ == "Authorization: Basic "@ + base64_secret@,
    {
        let mut body = "grant_type=authorization_code&code=".to_owned();
        body.append(code);
        body.append("&redirect_uri=http%3A%2F%2Flocalhost:8000%2F");
        Self::token_request(base64_secret, body)
    }

    fn token_request(base64_secret: &str, body: String) -> (r: HttpRequest)
        ensures
            r.mode == TransferMode::FormPost,
            r.url@ == "https://accounts.spotify.com/api/token"@,
            r.body@ == body@,
            r.headers@.len() == 1,
            r.headers@[0]@ == "Authorization: Basic "@ + base64_secret@,
    {
        let mut auth = "Authorization: Basic ".to_owned();
        auth.append(base64_secret);
        let mut headers: Vec<String> = Vec::new();
        headers.push(auth);
        HttpRequest {
            mode: TransferMode::FormPost,
            url: "https://accounts.spotify.com/api/token".to_owned(),
            body,
            headers,
        }
    }

    /// Reads the answer to a token request and gives the member `key` of
    /// the JSON answer, printed and unquoted.
    pub fn read_token(outcome: HttpOutcome, key: &str) -> (r: Option<Result<String, ApiError>>)
        ensures
            matches_spec(r, spec_token_result(outcome.performed, outcome.code, outcome.body@, key@), |s: String| s@),
    {
        if !outcome.performed {
            return Some(Err(api_error(ErrorKind::NotConnected, "Connection error")));
        }
        let code = outcome.code;
        let text = match crate::encoding::utf8_decode(outcome.body) {
            Some(t) => t,
            None => return None,
        };
        if code != 200 && code != 204 {
            let message = decimal_string(code as u64);
            return Some(Err(ApiError { kind: ErrorKind::Other, message }));
        }
        match parse_json(text.as_str()) {
            None => None,
            Some(v) => Some(Ok(unquoted(v.get(key)))),
        }
    }

    /// Takes the new access token from the answer to a refresh request.
    pub fn finish_refresh(&mut self, outcome: HttpOutcome) -> (r: Option<Result<(), ApiError>>)
        ensures
            match (r, spec_token_result(outcome.performed, outcome.code, outcome.body@, "access_token"@)) {
                (None, None) => final(self).token() == old(self).token(),
                (Some(Ok(())), Some(Ok(t))) => final(self).token() == t,
                (Some(Err(e)), Some(Err((k, m)))) => is_error(e, k, m) && final(self).token() == old(self).token(),
                _ => false,
            },
    {
        match Self::read_token(outcome, "access_token") {
            None => None,
            Some(Err(e)) => Some(Err(e)),
            Some(Ok(token)) => {
                self.access_token = token;
                Some(Ok(()))
            },
        }
    }

    /// Takes the refresh token from the answer to an authorization request.
    pub fn finish_retrieve_refresh_token(outcome: HttpOutcome) -> (r: Option<Result<String, ApiError>>)
        ensures
            matches_spec(r, spec_token_result(outcome.performed, outcome.code, outcome.body@, "refresh_token"@), |s: String| s@),
    {
        Self::read_token(outcome, "refresh_token")
    }
}

} // verus!
