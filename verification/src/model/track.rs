//! All objects related to tracks, as the Spotify Web API defines them.

use vstd::prelude::*;
use crate::json::{index_key, or_null, view_elements, JsonSpec, JsonValue, lemma_view_elements_index, lemma_view_elements_len};

use crate::model::album::{SimplifiedAlbum, simplified_album_decodable, simplified_album_decodes, simplified_album_of};
use crate::model::artist::{SimplifiedArtist, simplified_artist_list_decodable, simplified_artist_list_decodes, simplified_artist_list_of};
use crate::model::fields::{bool_of, dec_bool, dec_i32, dec_opt_str, dec_str, dec_str_map, dec_u32, i32_of, opt_str_of, opt_str_view, pair_views, str_map_of, str_of, u32_of};
use crate::model::senum::{Type, dec_type, type_of};

verus! {

/// A simplified track object.
#[derive(Clone, Debug)]
pub struct SimplifiedTrack {
    pub artists: Vec<SimplifiedArtist>,
    pub disc_number: i32,
    pub duration_ms: u32,
    pub explicit: bool,
    pub external_urls: Vec<(String, String)>,
    pub href: String,
    pub id: String,
    pub name: String,
    pub preview_url: Option<String>,
    pub track_number: u32,
    pub _type: Type,
    pub uri: String,
}

/// Whether `j` is an object from which a simplified track can be read.
pub open spec fn simplified_track_decodable(j: JsonSpec) -> bool {
    &&& j is Object
    &&& simplified_artist_list_decodable(index_key(j, "artists"@))
    &&& dec_i32(index_key(j, "disc_number"@)) is Some
    &&& dec_u32(index_key(j, "duration_ms"@)) is Some
    &&& dec_bool(index_key(j, "explicit"@)) is Some
    &&& dec_str_map(index_key(j, "external_urls"@)) is Some
    &&& dec_str(index_key(j, "href"@)) is Some
    &&& dec_str(index_key(j, "id"@)) is Some
    &&& dec_str(index_key(j, "name"@)) is Some
    &&& dec_opt_str(index_key(j, "preview_url"@)) is Some
    &&& dec_u32(index_key(j, "track_number"@)) is Some
    &&& dec_type(index_key(j, "type"@)) is Some
    &&& dec_str(index_key(j, "uri"@)) is Some
}

/// Whether `x` is a simplified track as read from the object `j`.
pub open spec fn simplified_track_decodes(j: JsonSpec, x: SimplifiedTrack) -> bool {
    &&& j is Object
    &&& simplified_artist_list_decodes(index_key(j, "artists"@), x.artists@)
    &&& dec_i32(index_key(j, "disc_number"@)) == Some(x.disc_number)
    &&& dec_u32(index_key(j, "duration_ms"@)) == Some(x.duration_ms)
    &&& dec_bool(index_key(j, "explicit"@)) == Some(x.explicit)
    &&& dec_str_map(index_key(j, "external_urls"@)) == Some(pair_views(x.external_urls@))
    &&& dec_str(index_key(j, "href"@)) == Some(x.href@)
    &&& dec_str(index_key(j, "id"@)) == Some(x.id@)
    &&& dec_str(index_key(j, "name"@)) == Some(x.name@)
    &&& dec_opt_str(index_key(j, "preview_url"@)) == Some(opt_str_view(x.preview_url))
    &&& dec_u32(index_key(j, "track_number"@)) == Some(x.track_number)
    &&& dec_type(index_key(j, "type"@)) == Some(x._type)
    &&& dec_str(index_key(j, "uri"@)) == Some(x.uri@)
}

/// Reads a simplified track from a looked-up value; `None` where it has not the shape.
pub fn simplified_track_of(v: Option<&JsonValue>) -> (r: Option<SimplifiedTrack>)
    ensures
        r is Some <==> simplified_track_decodable(or_null(v)),
        r matches Some(x) ==> simplified_track_decodes(or_null(v), x),
{
    let j = match v {
        Some(j) => j,
        None => return None,
    };
    if !j.is_object() {
        return None;
    }
    let artists = match simplified_artist_list_of(j.get("artists")) {
        Some(x) => x,
        None => return None,
    };
    let disc_number = match i32_of(j.get("disc_number")) {
        Some(x) => x,
        None => return None,
    };
    let duration_ms = match u32_of(j.get("duration_ms")) {
        Some(x) => x,
        None => return None,
    };
    let explicit = match bool_of(j.get("explicit")) {
        Some(x) => x,
        None => return None,
    };
    let external_urls = match str_map_of(j.get("external_urls")) {
        Some(x) => x,
        None => return None,
    };
    let href = match str_of(j.get("href")) {
        Some(x) => x,
        None => return None,
    };
    let id = match str_of(j.get("id")) {
        Some(x) => x,
        None => return None,
    };
    let name = match str_of(j.get("name")) {
        Some(x) => x,
        None => return None,
    };
    let preview_url = match opt_str_of(j.get("preview_url")) {
        Some(x) => x,
        None => return None,
    };
    let track_number = match u32_of(j.get("track_number")) {
        Some(x) => x,
        None => return None,
    };
    let _type = match type_of(j.get("type")) {
        Some(x) => x,
        None => return None,
    };
    let uri = match str_of(j.get("uri")) {
        Some(x) => x,
        None => return None,
    };
    Some(SimplifiedTrack { artists, disc_number, duration_ms, explicit, external_urls, href, id, name, preview_url, track_number, _type, uri })
}

/// Whether `j` is an array of which each element can be read as a simplified track.
pub open spec fn simplified_track_list_decodable(j: JsonSpec) -> bool {
    &&& j is Array
    &&& forall|i: int| 0 <= i < j->Array_0.len() ==> simplified_track_decodable(#[trigger] j->Array_0[i])
}

/// Whether `xs` are the elements of the array `j`, each read as a simplified track.
pub open spec fn simplified_track_list_decodes(j: JsonSpec, xs: Seq<SimplifiedTrack>) -> bool {
    &&& j is Array
    &&& j->Array_0.len() == xs.len()
    &&& forall|i: int| 0 <= i < xs.len() ==> simplified_track_decodes(#[trigger] j->Array_0[i], xs[i])
}

/// Reads each element of an array as a simplified track.
pub fn simplified_track_list_of(v: Option<&JsonValue>) -> (r: Option<Vec<SimplifiedTrack>>)
    ensures
        r is Some <==> simplified_track_list_decodable(or_null(v)),
        r matches Some(xs) ==> simplified_track_list_decodes(or_null(v), xs@),
{
    match v {
        Some(JsonValue::Array(a)) => {
            let mut out: Vec<SimplifiedTrack> = Vec::new();
            let mut i: usize = 0;
            proof { lemma_view_elements_len(a@); }
            while i < a.len()
                invariant
                    i <= a@.len(),
                    view_elements(a@).len() == a@.len(),
                    or_null(v) == JsonSpec::Array(view_elements(a@)),
                    out@.len() == i,
                    forall|k: int| 0 <= k < i ==> simplified_track_decodable(#[trigger] view_elements(a@)[k])
                        && simplified_track_decodes(view_elements(a@)[k], out@[k]),
                decreases a@.len() - i,
            {
                proof { lemma_view_elements_index(a@, i as int); }
                match simplified_track_of(Some(&a[i])) {
                    Some(x) => out.push(x),
                    None => {
                        assert(!simplified_track_decodable(view_elements(a@)[i as int]));
                        proof {
                            let ve = view_elements(a@);
                            if simplified_track_list_decodable(JsonSpec::Array(ve)) {
                                let j = JsonSpec::Array(ve);
                                assert(j->Array_0 == ve);
                                let e = j->Array_0[i as int];
                                assert(simplified_track_decodable(e));
                            }
                        }
                        return None;
                    },
                }
                i = i + 1;
            }
            Some(out)
        },
        _ => None,
    }
}
/// A full track object.
#[derive(Clone, Debug)]
pub struct FullTrack {
    pub album: SimplifiedAlbum,
    pub artists: Vec<SimplifiedArtist>,
    pub disc_number: i32,
    pub duration_ms: u32,
    pub explicit: bool,
    pub external_urls: Vec<(String, String)>,
    pub href: String,
    pub id: String,
    pub name: String,
    pub popularity: u32,
    pub preview_url: Option<String>,
    pub track_number: u32,
    pub _type: Type,
    pub uri: String,
}

/// Whether `j` is an object from which a full track can be read.
pub open spec fn full_track_decodable(j: JsonSpec) -> bool {
    &&& j is Object
    &&& simplified_album_decodable(index_key(j, "album"@))
    &&& simplified_artist_list_decodable(index_key(j, "artists"@))
    &&& dec_i32(index_key(j, "disc_number"@)) is Some
    &&& dec_u32(index_key(j, "duration_ms"@)) is Some
    &&& dec_bool(index_key(j, "explicit"@)) is Some
    &&& dec_str_map(index_key(j, "external_urls"@)) is Some
    &&& dec_str(index_key(j, "href"@)) is Some
    &&& dec_str(index_key(j, "id"@)) is Some
    &&& dec_str(index_key(j, "name"@)) is Some
    &&& dec_u32(index_key(j, "popularity"@)) is Some
    &&& dec_opt_str(index_key(j, "preview_url"@)) is Some
    &&& dec_u32(index_key(j, "track_number"@)) is Some
    &&& dec_type(index_key(j, "type"@)) is Some
    &&& dec_str(index_key(j, "uri"@)) is Some
}

/// Whether `x` is a full track as read from the object `j`.
pub open spec fn full_track_decodes(j: JsonSpec, x: FullTrack) -> bool {
    &&& j is Object
    &&& simplified_album_decodes(index_key(j, "album"@), x.album)
    &&& simplified_artist_list_decodes(index_key(j, "artists"@), x.artists@)
    &&& dec_i32(index_key(j, "disc_number"@)) == Some(x.disc_number)
    &&& dec_u32(index_key(j, "duration_ms"@)) == Some(x.duration_ms)
    &&& dec_bool(index_key(j, "explicit"@)) == Some(x.explicit)
    &&& dec_str_map(index_key(j, "external_urls"@)) == Some(pair_views(x.external_urls@))
    &&& dec_str(index_key(j, "href"@)) == Some(x.href@)
    &&& dec_str(index_key(j, "id"@)) == Some(x.id@)
    &&& dec_str(index_key(j, "name"@)) == Some(x.name@)
    &&& dec_u32(index_key(j, "popularity"@)) == Some(x.popularity)
    &&& dec_opt_str(index_key(j, "preview_url"@)) == Some(opt_str_view(x.preview_url))
    &&& dec_u32(index_key(j, "track_number"@)) == Some(x.track_number)
    &&& dec_type(index_key(j, "type"@)) == Some(x._type)
    &&& dec_str(index_key(j, "uri"@)) == Some(x.uri@)
}

/// Reads a full track from a looked-up value; `None` where it has not the shape.
pub fn full_track_of(v: Option<&JsonValue>) -> (r: Option<FullTrack>)
    ensures
        r is Some <==> full_track_decodable(or_null(v)),
        r matches Some(x) ==> full_track_decodes(or_null(v), x),
{
    let j = match v {
        Some(j) => j,
        None => return None,
    };
    if !j.is_object() {
        return None;
    }
    let album = match simplified_album_of(j.get("album")) {
        Some(x) => x,
        None => return None,
    };
    let artists = match simplified_artist_list_of(j.get("artists")) {
        Some(x) => x,
        None => return None,
    };
    let disc_number = match i32_of(j.get("disc_number")) {
        Some(x) => x,
        None => return None,
    };
    let duration_ms = match u32_of(j.get("duration_ms")) {
        Some(x) => x,
        None => return None,
    };
    let explicit = match bool_of(j.get("explicit")) {
        Some(x) => x,
        None => return None,
    };
    let external_urls = match str_map_of(j.get("external_urls")) {
        Some(x) => x,
        None => return None,
    };
    let href = match str_of(j.get("href")) {
        Some(x) => x,
        None => return None,
    };
    let id = match str_of(j.get("id")) {
        Some(x) => x,
        None => return None,
    };
    let name = match str_of(j.get("name")) {
        Some(x) => x,
        None => return None,
    };
    let popularity = match u32_of(j.get("popularity")) {
        Some(x) => x,
        None => return None,
    };
    let preview_url = match opt_str_of(j.get("preview_url")) {
        Some(x) => x,
        None => return None,
    };
    let track_number = match u32_of(j.get("track_number")) {
        Some(x) => x,
        None => return None,
    };
    let _type = match type_of(j.get("type")) {
        Some(x) => x,
        None => return None,
    };
    let uri = match str_of(j.get("uri")) {
        Some(x) => x,
        None => return None,
    };
    Some(FullTrack { album, artists, disc_number, duration_ms, explicit, external_urls, href, id, name, popularity, preview_url, track_number, _type, uri })
}

/// Whether `j` is an array of which each element can be read as a full track.
pub open spec fn full_track_list_decodable(j: JsonSpec) -> bool {
    &&& j is Array
    &&& forall|i: int| 0 <= i < j->Array_0.len() ==> full_track_decodable(#[trigger] j->Array_0[i])
}

/// Whether `xs` are the elements of the array `j`, each read as a full track.
pub open spec fn full_track_list_decodes(j: JsonSpec, xs: Seq<FullTrack>) -> bool {
    &&& j is Array
    &&& j->Array_0.len() == xs.len()
    &&& forall|i: int| 0 <= i < xs.len() ==> full_track_decodes(#[trigger] j->Array_0[i], xs[i])
}

/// Reads each element of an array as a full track.
pub fn full_track_list_of(v: Option<&JsonValue>) -> (r: Option<Vec<FullTrack>>)
    ensures
        r is Some <==> full_track_list_decodable(or_null(v)),
        r matches Some(xs) ==> full_track_list_decodes(or_null(v), xs@),
{
    match v {
        Some(JsonValue::Array(a)) => {
            let mut out: Vec<FullTrack> = Vec::new();
            let mut i: usize = 0;
            proof { lemma_view_elements_len(a@); }
            while i < a.len()
                invariant
                    i <= a@.len(),
                    view_elements(a@).len() == a@.len(),
                    or_null(v) == JsonSpec::Array(view_elements(a@)),
                    out@.len() == i,
                    forall|k: int| 0 <= k < i ==> full_track_decodable(#[trigger] view_elements(a@)[k])
                        && full_track_decodes(view_elements(a@)[k], out@[k]),
                decreases a@.len() - i,
            {
                proof { lemma_view_elements_index(a@, i as int); }
                match full_track_of(Some(&a[i])) {
                    Some(x) => out.push(x),
                    None => {
                        assert(!full_track_decodable(view_elements(a@)[i as int]));
                        proof {
                            let ve = view_elements(a@);
                            if full_track_list_decodable(JsonSpec::Array(ve)) {
                                let j = JsonSpec::Array(ve);
                                assert(j->Array_0 == ve);
                                let e = j->Array_0[i as int];
                                assert(full_track_decodable(e));
                            }
                        }
                        return None;
                    },
                }
                i = i + 1;
            }
            Some(out)
        },
        _ => None,
    }
}
/// Whether `j` is `null` or can be read as a full track.
pub open spec fn opt_full_track_decodable(j: JsonSpec) -> bool {
    j is Null || full_track_decodable(j)
}

/// Whether `x` is what `j` reads as: nothing for `null`, else a full track.
pub open spec fn opt_full_track_decodes(j: JsonSpec, x: Option<FullTrack>) -> bool {
    match x {
        None => j is Null,
        Some(y) => full_track_decodes(j, y),
    }
}

/// Reads an optional FullTrack: `null` gives `Some(None)`.
pub fn opt_full_track_of(v: Option<&JsonValue>) -> (r: Option<Option<FullTrack>>)
    ensures
        r is Some <==> opt_full_track_decodable(or_null(v)),
        r matches Some(x) ==> opt_full_track_decodes(or_null(v), x),
{
    match v {
        None => Some(None),
        Some(JsonValue::Null) => Some(None),
        _ => match full_track_of(v) {
            Some(x) => Some(Some(x)),
            None => None,
        },
    }
}
} // verus!
