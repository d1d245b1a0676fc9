//! All objects related to playlists, as the Spotify Web API defines them.

use vstd::prelude::*;
use crate::json::{index_key, or_null, view_elements, JsonSpec, JsonValue, lemma_view_elements_index, lemma_view_elements_len};

use crate::model::fields::{bool_of, dec_bool, dec_opt_bool, dec_str, dec_str_map, opt_bool_of, pair_views, str_map_of, str_of};
use crate::model::image::{Image, image_list_decodable, image_list_decodes, image_list_of};
use crate::model::senum::{Type, dec_type, type_of};

verus! {

/// A simplified playlist object.
#[derive(Clone, Debug)]
pub struct SimplifiedPlaylist {
    pub collaborative: bool,
    pub external_urls: Vec<(String, String)>,
    pub href: String,
    pub id: String,
    pub images: Vec<Image>,
    pub name: String,
    pub public: Option<bool>,
    pub snapshot_id: String,
    pub _type: Type,
    pub uri: String,
}

/// Whether `j` is an object from which a simplified playlist can be read.
pub open spec fn simplified_playlist_decodable(j: JsonSpec) -> bool {
    &&& j is Object
    &&& dec_bool(index_key(j, "collaborative"@)) is Some
    &&& dec_str_map(index_key(j, "external_urls"@)) is Some
    &&& dec_str(index_key(j, "href"@)) is Some
    &&& dec_str(index_key(j, "id"@)) is Some
    &&& image_list_decodable(index_key(j, "images"@))
    &&& dec_str(index_key(j, "name"@)) is Some
    &&& dec_opt_bool(index_key(j, "public"@)) is Some
    &&& dec_str(index_key(j, "snapshot_id"@)) is Some
    &&& dec_type(index_key(j, "type"@)) is Some
    &&& dec_str(index_key(j, "uri"@)) is Some
}

/// Whether `x` is a simplified playlist as read from the object `j`.
pub open spec fn simplified_playlist_decodes(j: JsonSpec, x: SimplifiedPlaylist) -> bool {
    &&& j is Object
    &&& dec_bool(index_key(j, "collaborative"@)) == Some(x.collaborative)
    &&& dec_str_map(index_key(j, "external_urls"@)) == Some(pair_views(x.external_urls@))
    &&& dec_str(index_key(j, "href"@)) == Some(x.href@)
    &&& dec_str(index_key(j, "id"@)) == Some(x.id@)
    &&& image_list_decodes(index_key(j, "images"@), x.images@)
    &&& dec_str(index_key(j, "name"@)) == Some(x.name@)
    &&& dec_opt_bool(index_key(j, "public"@)) == Some(x.public)
    &&& dec_str(index_key(j, "snapshot_id"@)) == Some(x.snapshot_id@)
    &&& dec_type(index_key(j, "type"@)) == Some(x._type)
    &&& dec_str(index_key(j, "uri"@)) == Some(x.uri@)
}

/// Reads a simplified playlist from a looked-up value; `None` where it has not the shape.
pub fn simplified_playlist_of(v: Option<&JsonValue>) -> (r: Option<SimplifiedPlaylist>)
    ensures
        r is Some <==> simplified_playlist_decodable(or_null(v)),
        r matches Some(x) ==> simplified_playlist_decodes(or_null(v), x),
{
    let j = match v {
        Some(j) => j,
        None => return None,
    };
    if !j.is_object() {
        return None;
    }
    let collaborative = match bool_of(j.get("collaborative")) {
        Some(x) => x,
        None => return None,
    };
    let external_urls = match str_map_of(j.get("external_urls")) {
        Some(x) => x,
        None => return None,
    };
    let href = match str_of(j.get("href")) {
        Some(x) => x,
        None => return None,
    };
    let id = match str_of(j.get("id")) {
        Some(x) => x,
        None => return None,
    };
    let images = match image_list_of(j.get("images")) {
        Some(x) => x,
        None => return None,
    };
    let name = match str_of(j.get("name")) {
        Some(x) => x,
        None => return None,
    };
    let public = match opt_bool_of(j.get("public")) {
        Some(x) => x,
        None => return None,
    };
    let snapshot_id = match str_of(j.get("snapshot_id")) {
        Some(x) => x,
        None => return None,
    };
    let _type = match type_of(j.get("type")) {
        Some(x) => x,
        None => return None,
    };
    let uri = match str_of(j.get("uri")) {
        Some(x) => x,
        None => return None,
    };
    Some(SimplifiedPlaylist { collaborative, external_urls, href, id, images, name, public, snapshot_id, _type, uri })
}

/// Whether `j` is an array of which each element can be read as a simplified playlist.
pub open spec fn simplified_playlist_list_decodable(j: JsonSpec) -> bool {
    &&& j is Array
    &&& forall|i: int| 0 <= i < j->Array_0.len() ==> simplified_playlist_decodable(#[trigger] j->Array_0[i])
}

/// Whether `xs` are the elements of the array `j`, each read as a simplified playlist.
pub open spec fn simplified_playlist_list_decodes(j: JsonSpec, xs: Seq<SimplifiedPlaylist>) -> bool {
    &&& j is Array
    &&& j->Array_0.len() == xs.len()
    &&& forall|i: int| 0 <= i < xs.len() ==> simplified_playlist_decodes(#[trigger] j->Array_0[i], xs[i])
}

/// Reads each element of an array as a simplified playlist.
pub fn simplified_playlist_list_of(v: Option<&JsonValue>) -> (r: Option<Vec<SimplifiedPlaylist>>)
    ensures
        r is Some <==> simplified_playlist_list_decodable(or_null(v)),
        r matches Some(xs) ==> simplified_playlist_list_decodes(or_null(v), xs@),
{
    match v {
        Some(JsonValue::Array(a)) => {
            let mut out: Vec<SimplifiedPlaylist> = Vec::new();
            let mut i: usize = 0;
            proof { lemma_view_elements_len(a@); }
            while i < a.len()
                invariant
                    i <= a@.len(),
                    view_elements(a@).len() == a@.len(),
                    or_null(v) == JsonSpec::Array(view_elements(a@)),
                    out@.len() == i,
                    forall|k: int| 0 <= k < i ==> simplified_playlist_decodable(#[trigger] view_elements(a@)[k])
                        && simplified_playlist_decodes(view_elements(a@)[k], out@[k]),
                decreases a@.len() - i,
            {
                proof { lemma_view_elements_index(a@, i as int); }
                match simplified_playlist_of(Some(&a[i])) {
                    Some(x) => out.push(x),
                    None => {
                        assert(!simplified_playlist_decodable(view_elements(a@)[i as int]));
                        proof {
                            let ve = view_elements(a@);
                            if simplified_playlist_list_decodable(JsonSpec::Array(ve)) {
                                let j = JsonSpec::Array(ve);
                                assert(j->Array_0 == ve);
                                let e = j->Array_0[i as int];
                                assert(simplified_playlist_decodable(e));
                            }
                        }
                        return None;
                    },
                }
                i = i + 1;
            }
            Some(out)
        },
        _ => None,
    }
}
} // verus!
