//! All objects related to artists, as the Spotify Web API defines them.

use vstd::prelude::*;
use crate::json::{index_key, or_null, view_elements, JsonSpec, JsonValue, lemma_view_elements_index, lemma_view_elements_len};


use crate::model::album::{SimplifiedAlbum};
use crate::model::fields::{dec_opt_json_map, dec_opt_str_list, dec_str, dec_str_list, dec_str_map, dec_u32, opt_json_map_of, opt_json_map_views, opt_str_list_of, opt_str_views, pair_views, str_list_of, str_map_of, str_of, str_views, u32_of};
use crate::model::image::{Image, image_list_decodable, image_list_decodes, image_list_of};
use crate::model::page::{CursorBasedPage};
use crate::model::senum::{Type, dec_type, type_of};

verus! {

/// A simplified artist object.
#[derive(Clone, Debug)]
pub struct SimplifiedArtist {
    pub external_urls: Vec<(String, String)>,
    pub href: String,
    pub id: String,
    pub name: String,
    pub genres: Option<Vec<String>>,
    pub _type: Type,
    pub uri: String,
}

/// Whether `j` is an object from which a simplified artist can be read.
pub open spec fn simplified_artist_decodable(j: JsonSpec) -> bool {
    &&& j is Object
    &&& dec_str_map(index_key(j, "external_urls"@)) is Some
    &&& dec_str(index_key(j, "href"@)) is Some
    &&& dec_str(index_key(j, "id"@)) is Some
    &&& dec_str(index_key(j, "name"@)) is Some
    &&& dec_opt_str_list(index_key(j, "genres"@)) is Some
    &&& dec_type(index_key(j, "type"@)) is Some
    &&& dec_str(index_key(j, "uri"@)) is Some
}

/// Whether `x` is a simplified artist as read from the object `j`.
pub open spec fn simplified_artist_decodes(j: JsonSpec, x: SimplifiedArtist) -> bool {
    &&& j is Object
    &&& dec_str_map(index_key(j, "external_urls"@)) == Some(pair_views(x.external_urls@))
    &&& dec_str(index_key(j, "href"@)) == Some(x.href@)
    &&& dec_str(index_key(j, "id"@)) == Some(x.id@)
    &&& dec_str(index_key(j, "name"@)) == Some(x.name@)
    &&& dec_opt_str_list(index_key(j, "genres"@)) == Some(opt_str_views(x.genres))
    &&& dec_type(index_key(j, "type"@)) == Some(x._type)
    &&& dec_str(index_key(j, "uri"@)) == Some(x.uri@)
}

/// Reads a simplified artist from a looked-up value; `None` where it has not the shape.
pub fn simplified_artist_of(v: Option<&JsonValue>) -> (r: Option<SimplifiedArtist>)
    ensures
        r is Some <==> simplified_artist_decodable(or_null(v)),
        r matches Some(x) ==> simplified_artist_decodes(or_null(v), x),
{
    let j = match v {
        Some(j) => j,
        None => return None,
    };
    if !j.is_object() {
        return None;
    }
    let external_urls = match str_map_of(j.get("external_urls")) {
        Some(x) => x,
        None => return None,
    };
    let href = match str_of(j.get("href")) {
        Some(x) => x,
        None => return None,
    };
    let id = match str_of(j.get("id")) {
        Some(x) => x,
        None => return None,
    };
    let name = match str_of(j.get("name")) {
        Some(x) => x,
        None => return None,
    };
    let genres = match opt_str_list_of(j.get("genres")) {
        Some(x) => x,
        None => return None,
    };
    let _type = match type_of(j.get("type")) {
        Some(x) => x,
        None => return None,
    };
    let uri = match str_of(j.get("uri")) {
        Some(x) => x,
        None => return None,
    };
    Some(SimplifiedArtist { external_urls, href, id, name, genres, _type, uri })
}

/// Whether `j` is an array of which each element can be read as a simplified artist.
pub open spec fn simplified_artist_list_decodable(j: JsonSpec) -> bool {
    &&& j is Array
    &&& forall|i: int| 0 <= i < j->Array_0.len() ==> simplified_artist_decodable(#[trigger] j->Array_0[i])
}

/// Whether `xs` are the elements of the array `j`, each read as a simplified artist.
pub open spec fn simplified_artist_list_decodes(j: JsonSpec, xs: Seq<SimplifiedArtist>) -> bool {
    &&& j is Array
    &&& j->Array_0.len() == xs.len()
    &&& forall|i: int| 0 <= i < xs.len() ==> simplified_artist_decodes(#[trigger] j->Array_0[i], xs[i])
}

/// Reads each element of an array as a simplified artist.
pub fn simplified_artist_list_of(v: Option<&JsonValue>) -> (r: Option<Vec<SimplifiedArtist>>)
    ensures
        r is Some <==> simplified_artist_list_decodable(or_null(v)),
        r matches Some(xs) ==> simplified_artist_list_decodes(or_null(v), xs@),
{
    match v {
        Some(JsonValue::Array(a)) => {
            let mut out: Vec<SimplifiedArtist> = Vec::new();
            let mut i: usize = 0;
            proof { lemma_view_elements_len(a@); }
            while i < a.len()
                invariant
                    i <= a@.len(),
                    view_elements(a@).len() == a@.len(),
                    or_null(v) == JsonSpec::Array(view_elements(a@)),
                    out@.len() == i,
                    forall|k: int| 0 <= k < i ==> simplified_artist_decodable(#[trigger] view_elements(a@)[k])
                        && simplified_artist_decodes(view_elements(a@)[k], out@[k]),
                decreases a@.len() - i,
            {
                proof { lemma_view_elements_index(a@, i as int); }
                match simplified_artist_of(Some(&a[i])) {
                    Some(x) => out.push(x),
                    None => {
                        assert(!simplified_artist_decodable(view_elements(a@)[i as int]));
                        proof {
                            let ve = view_elements(a@);
                            if simplified_artist_list_decodable(JsonSpec::Array(ve)) {
                                let j = JsonSpec::Array(ve);
                                assert(j->Array_0 == ve);
                                let e = j->Array_0[i as int];
                                assert(simplified_artist_decodable(e));
                            }
                        }
                        return None;
                    },
                }
                i = i + 1;
            }
            Some(out)
        },
        _ => None,
    }
}
/// Two simplified artists are the same artist when their identifiers agree.
impl PartialEq for SimplifiedArtist {
    fn eq(&self, other: &Self) -> (r: bool) {
        self.id == other.id
    }
}

impl vstd::std_specs::cmp::PartialEqSpecImpl for SimplifiedArtist {
    open spec fn obeys_eq_spec() -> bool {
        true
    }

    open spec fn eq_spec(&self, other: &Self) -> bool {
        self.id@ == other.id@
    }
}

/// A full artist object.

pub struct FullArtist {
    pub external_urls: Vec<(String, String)>,
    pub followers: Vec<(String, Option<JsonValue>)>,
    pub genres: Vec<String>,
    pub href: String,
    pub id: String,
    pub images: Vec<Image>,
    pub name: String,
    pub popularity: u32,
    pub _type: Type,
    pub uri: String,
}

/// Whether `j` is an object from which a full artist can be read.
pub open spec fn full_artist_decodable(j: JsonSpec) -> bool {
    &&& j is Object
    &&& dec_str_map(index_key(j, "external_urls"@)) is Some
    &&& dec_opt_json_map(index_key(j, "followers"@)) is Some
    &&& dec_str_list(index_key(j, "genres"@)) is Some
    &&& dec_str(index_key(j, "href"@)) is Some
    &&& dec_str(index_key(j, "id"@)) is Some
    &&& image_list_decodable(index_key(j, "images"@))
    &&& dec_str(index_key(j, "name"@)) is Some
    &&& dec_u32(index_key(j, "popularity"@)) is Some
    &&& dec_type(index_key(j, "type"@)) is Some
    &&& dec_str(index_key(j, "uri"@)) is Some
}

/// Whether `x` is a full artist as read from the object `j`.
pub open spec fn full_artist_decodes(j: JsonSpec, x: FullArtist) -> bool {
    &&& j is Object
    &&& dec_str_map(index_key(j, "external_urls"@)) == Some(pair_views(x.external_urls@))
    &&& dec_opt_json_map(index_key(j, "followers"@)) == Some(opt_json_map_views(x.followers@))
    &&& dec_str_list(index_key(j, "genres"@)) == Some(str_views(x.genres@))
    &&& dec_str(index_key(j, "href"@)) == Some(x.href@)
    &&& dec_str(index_key(j, "id"@)) == Some(x.id@)
    &&& image_list_decodes(index_key(j, "images"@), x.images@)
    &&& dec_str(index_key(j, "name"@)) == Some(x.name@)
    &&& dec_u32(index_key(j, "popularity"@)) == Some(x.popularity)
    &&& dec_type(index_key(j, "type"@)) == Some(x._type)
    &&& dec_str(index_key(j, "uri"@)) == Some(x.uri@)
}

/// Reads a full artist from a looked-up value; `None` where it has not the shape.
pub fn full_artist_of(v: Option<&JsonValue>) -> (r: Option<FullArtist>)
    ensures
        r is Some <==> full_artist_decodable(or_null(v)),
        r matches Some(x) ==> full_artist_decodes(or_null(v), x),
{
    let j = match v {
        Some(j) => j,
        None => return None,
    };
    if !j.is_object() {
        return None;
    }
    let external_urls = match str_map_of(j.get("external_urls")) {
        Some(x) => x,
        None => return None,
    };
    let followers = match opt_json_map_of(j.get("followers")) {
        Some(x) => x,
        None => return None,
    };
    let genres = match str_list_of(j.get("genres")) {
        Some(x) => x,
        None => return None,
    };
    let href = match str_of(j.get("href")) {
        Some(x) => x,
        None => return None,
    };
    let id = match str_of(j.get("id")) {
        Some(x) => x,
        None => return None,
    };
    let images = match image_list_of(j.get("images")) {
        Some(x) => x,
        None => return None,
    };
    let name = match str_of(j.get("name")) {
        Some(x) => x,
        None => return None,
    };
    let popularity = match u32_of(j.get("popularity")) {
        Some(x) => x,
        None => return None,
    };
    let _type = match type_of(j.get("type")) {
        Some(x) => x,
        None => return None,
    };
    let uri = match str_of(j.get("uri")) {
        Some(x) => x,
        None => return None,
    };
    Some(FullArtist { external_urls, followers, genres, href, id, images, name, popularity, _type, uri })
}

/// Whether `j` is an array of which each element can be read as a full artist.
pub open spec fn full_artist_list_decodable(j: JsonSpec) -> bool {
    &&& j is Array
    &&& forall|i: int| 0 <= i < j->Array_0.len() ==> full_artist_decodable(#[trigger] j->Array_0[i])
}

/// Whether `xs` are the elements of the array `j`, each read as a full artist.
pub open spec fn full_artist_list_decodes(j: JsonSpec, xs: Seq<FullArtist>) -> bool {
    &&& j is Array
    &&& j->Array_0.len() == xs.len()
    &&& forall|i: int| 0 <= i < xs.len() ==> full_artist_decodes(#[trigger] j->Array_0[i], xs[i])
}

/// Reads each element of an array as a full artist.
pub fn full_artist_list_of(v: Option<&JsonValue>) -> (r: Option<Vec<FullArtist>>)
    ensures
        r is Some <==> full_artist_list_decodable(or_null(v)),
        r matches Some(xs) ==> full_artist_list_decodes(or_null(v), xs@),
{
    match v {
        Some(JsonValue::Array(a)) => {
            let mut out: Vec<FullArtist> = Vec::new();
            let mut i: usize = 0;
            proof { lemma_view_elements_len(a@); }
            while i < a.len()
                invariant
                    i <= a@.len(),
                    view_elements(a@).len() == a@.len(),
                    or_null(v) == JsonSpec::Array(view_elements(a@)),
                    out@.len() == i,
                    forall|k: int| 0 <= k < i ==> full_artist_decodable(#[trigger] view_elements(a@)[k])
                        && full_artist_decodes(view_elements(a@)[k], out@[k]),
                decreases a@.len() - i,
            {
                proof { lemma_view_elements_index(a@, i as int); }
                match full_artist_of(Some(&a[i])) {
                    Some(x) => out.push(x),
                    None => {
                        assert(!full_artist_decodable(view_elements(a@)[i as int]));
                        proof {
                            let ve = view_elements(a@);
                            if full_artist_list_decodable(JsonSpec::Array(ve)) {
                                let j = JsonSpec::Array(ve);
                                assert(j->Array_0 == ve);
                                let e = j->Array_0[i as int];
                                assert(full_artist_decodable(e));
                            }
                        }
                        return None;
                    },
                }
                i = i + 1;
            }
            Some(out)
        },
        _ => None,
    }
}
/// A list of full artists.
pub struct FullArtists {
    pub artists: Vec<FullArtist>,
}

/// Full artists in a cursor-based page.
pub struct CursorPageFullArtists {
    pub artists: CursorBasedPage<FullArtist>,
}

/// An artist with its albums and description, as the player shows it.
#[derive(Clone, Debug)]
pub struct SimplifiedArtistWithAlbums {
    pub data: SimplifiedArtist,
    pub albums: Vec<SimplifiedAlbum>,
    pub description: String,
    /// How many of the description and the albums have arrived, plus one
    /// once they were asked for (0: not asked yet).
    pub load_state: u8,
}

} // verus!
