//! The first-run authorization: the client credentials are kept as Base64,
//! the user authorizes the application in a browser, and the code that the
//! browser hands back to the local server is exchanged for a refresh token.

use vstd::prelude::*;
use vstd::utf8::*;
use crate::encoding::{base64_encode, base64_encoded};
use crate::text::{contains_text, occurs_at};
use vstd::string::*;

verus! {

/// The page where the user authorizes the application; its answer comes
/// back to the local server on port 8000.
pub open spec fn spec_authorize_url(client_id: Seq<char>) -> Seq<char> {
    "https://accounts.spotify.com/authorize/?client_id="@ + client_id + "&response_type=code&redirect_uri=http%3A%2F%2Flocalhost:8000%2F&scope=user-read-private%20user-read-email%20playlist-read-private%20playlist-read-collaborative%20playlist-modify-public%20playlist-modify-private%20user-follow-modify%20user-follow-read%20user-library-read%20user-library-modify%20user-read-private%20user-read-birthdate%20user-read-email%20user-top-read%20ugc-image-upload%20user-read-playback-state%20user-modify-playback-state%20user-read-currently-playing%20user-read-recently-played"@
}

/// A text that occurs in the end of a text occurs in the whole.
proof fn lemma_contains_in_suffix(head: Seq<char>, tail: Seq<char>, t: Seq<char>)
    requires
        contains_text(tail, t),
    ensures
        contains_text(head + tail, t),
{
    let i = choose|i: int| occurs_at(tail, t, i);
    assert((head + tail).subrange(head.len() + i, head.len() + i + t.len()) =~= tail.subrange(i, i + t.len()));
    assert(occurs_at(head + tail, t, head.len() + i));
}

/// The authorization page asks for every permission the client uses: to
/// read the user's saved albums, to read and change the playback, and to
/// read what is playing now; and it sends the user back to the local
/// server on port 8000 with a code.
pub proof fn law_authorize_url_scopes(client_id: Seq<char>)
    ensures
        spec_authorize_url(client_id).subrange(0, 50) == "https://accounts.spotify.com/authorize/?client_id="@,
        contains_text(spec_authorize_url(client_id), "client_id="@ + client_id + "&response_type=code"@),
        contains_text(spec_authorize_url(client_id), "redirect_uri=http%3A%2F%2Flocalhost:8000%2F"@),
        contains_text(spec_authorize_url(client_id), "user-library-read"@),
        contains_text(spec_authorize_url(client_id), "user-read-playback-state"@),
        contains_text(spec_authorize_url(client_id), "user-modify-playback-state"@),
        contains_text(spec_authorize_url(client_id), "user-read-currently-playing"@),
        contains_text(spec_authorize_url(client_id), "user-read-private"@),
        contains_text(spec_authorize_url(client_id), "playlist-read-private"@),
{
    let p = "https://accounts.spotify.com/authorize/?client_id="@;
    let q = "&response_type=code&redirect_uri=http%3A%2F%2Flocalhost:8000%2F&scope=user-read-private%20user-read-email%20playlist-read-private%20playlist-read-collaborative%20playlist-modify-public%20playlist-modify-private%20user-follow-modify%20user-follow-read%20user-library-read%20user-library-modify%20user-read-private%20user-read-birthdate%20user-read-email%20user-top-read%20ugc-image-upload%20user-read-playback-state%20user-modify-playback-state%20user-read-currently-playing%20user-read-recently-played"@;
    reveal_strlit("https://accounts.spotify.com/authorize/?client_id=");
    reveal_strlit("&response_type=code&redirect_uri=http%3A%2F%2Flocalhost:8000%2F&scope=user-read-private%20user-read-email%20playlist-read-private%20playlist-read-collaborative%20playlist-modify-public%20playlist-modify-private%20user-follow-modify%20user-follow-read%20user-library-read%20user-library-modify%20user-read-private%20user-read-birthdate%20user-read-email%20user-top-read%20ugc-image-upload%20user-read-playback-state%20user-modify-playback-state%20user-read-currently-playing%20user-read-recently-played");
    assert(p.len() == 50);
    let u = spec_authorize_url(client_id);
    assert(u.subrange(0, 50) =~= p);
    reveal_strlit("client_id=");
    reveal_strlit("&response_type=code");
    let t0 = "client_id="@ + client_id + "&response_type=code"@;
    assert(u.subrange(40, 40 + t0.len() as int) =~= t0);
    assert(occurs_at(u, t0, 40));
    let red = "redirect_uri=http%3A%2F%2Flocalhost:8000%2F"@;
    reveal_strlit("redirect_uri=http%3A%2F%2Flocalhost:8000%2F");
    assert(q.subrange(20, 63) =~= red);
    assert(occurs_at(q, red, 20));
    lemma_contains_in_suffix(p + client_id, q, red);
    reveal_strlit("user-library-read");
    assert(q.subrange(253, 270) =~= "user-library-read"@);
    assert(occurs_at(q, "user-library-read"@, 253));
    lemma_contains_in_suffix(p + client_id, q, "user-library-read"@);
    reveal_strlit("user-read-playback-state");
    assert(q.subrange(390, 414) =~= "user-read-playback-state"@);
    assert(occurs_at(q, "user-read-playback-state"@, 390));
    lemma_contains_in_suffix(p + client_id, q, "user-read-playback-state"@);
    reveal_strlit("user-modify-playback-state");
    assert(q.subrange(417, 443) =~= "user-modify-playback-state"@);
    assert(occurs_at(q, "user-modify-playback-state"@, 417));
    lemma_contains_in_suffix(p + client_id, q, "user-modify-playback-state"@);
    reveal_strlit("user-read-currently-playing");
    assert(q.subrange(446, 473) =~= "user-read-currently-playing"@);
    assert(occurs_at(q, "user-read-currently-playing"@, 446));
    lemma_contains_in_suffix(p + client_id, q, "user-read-currently-playing"@);
    reveal_strlit("user-read-private");
    assert(q.subrange(70, 87) =~= "user-read-private"@);
    assert(occurs_at(q, "user-read-private"@, 70));
    lemma_contains_in_suffix(p + client_id, q, "user-read-private"@);
    reveal_strlit("playlist-read-private");
    assert(q.subrange(108, 129) =~= "playlist-read-private"@);
    assert(occurs_at(q, "playlist-read-private"@, 108));
    lemma_contains_in_suffix(p + client_id, q, "playlist-read-private"@);
}

/// The address of the authorization page for the application `client_id`.
pub fn authorize_url(client_id: &str) -> (r: String)
    ensures
        r@ == spec_authorize_url(client_id@),
        r@ == "https://accounts.spotify.com/authorize/?client_id="@ + client_id@ + "&response_type=code&redirect_uri=http%3A%2F%2Flocalhost:8000%2F&scope=user-read-private%20user-read-email%20playlist-read-private%20playlist-read-collaborative%20playlist-modify-public%20playlist-modify-private%20user-follow-modify%20user-follow-read%20user-library-read%20user-library-modify%20user-read-private%20user-read-birthdate%20user-read-email%20user-top-read%20ugc-image-upload%20user-read-playback-state%20user-modify-playback-state%20user-read-currently-playing%20user-read-recently-played"@,
        contains_text(r@, "user-library-read"@),
        contains_text(r@, "user-read-playback-state"@),
        contains_text(r@, "user-modify-playback-state"@),
        contains_text(r@, "user-read-currently-playing"@),
{
    proof { law_authorize_url_scopes(client_id@); }
    let mut url = "https://accounts.spotify.com/authorize/?client_id=".to_owned();
    url.append(client_id);
    url.append("&response_type=code&redirect_uri=http%3A%2F%2Flocalhost:8000%2F&scope=user-read-private%20user-read-email%20playlist-read-private%20playlist-read-collaborative%20playlist-modify-public%20playlist-modify-private%20user-follow-modify%20user-follow-read%20user-library-read%20user-library-modify%20user-read-private%20user-read-birthdate%20user-read-email%20user-top-read%20ugc-image-upload%20user-read-playback-state%20user-modify-playback-state%20user-read-currently-playing%20user-read-recently-played");
    url
}

/// The client credentials as the token requests carry them: the Base64
/// of `client_id:client_secret`.
pub fn client_credentials(client_id: &str, client_secret: &str) -> (r: String)
    ensures
        r@ == base64_encoded(encode_utf8(client_id@ + ":"@ + client_secret@)),
{
    let mut pair = client_id.to_owned();
    pair.append(":");
    pair.append(client_secret);
    base64_encode(pair.as_str())
}

/// The authorization code in the path that the browser requests from the
/// local server: what follows its first seven bytes (`/?code=`). The
/// path must have seven bytes or more, the seventh ending a character.
pub fn authorization_code(path: &str) -> (r: String)
    requires
        encode_utf8(path@).len() >= 7,
        is_char_boundary(encode_utf8(path@), 7),
    ensures
        encode_utf8(r@) == encode_utf8(path@).subrange(7, encode_utf8(path@).len() as int),
{
    assert(path.spec_bytes() == encode_utf8(path@));
    let (_, code) = path.split_at(7);
    assert(code.spec_bytes() == encode_utf8(code@));
    code.to_owned()
}

} // verus!
