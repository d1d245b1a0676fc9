//! All objects related to albums, as the Spotify Web API defines them.

use vstd::prelude::*;
use crate::json::{index_key, or_null, view_elements, JsonSpec, JsonValue, lemma_view_elements_index, lemma_view_elements_len};

use crate::model::artist::{SimplifiedArtist, simplified_artist_list_decodable, simplified_artist_list_decodes, simplified_artist_list_of};
use crate::model::clone::{clone_artists, clone_images, clone_pairs, clone_strings, same_artists};
use crate::model::fields::{dec_str, dec_str_list, dec_str_map, pair_views, str_list_of, str_map_of, str_of, str_views};
use crate::model::image::{Image, image_list_decodable, image_list_decodes, image_list_of};
use crate::model::page::{Page, simplified_track_page_decodable, simplified_track_page_decodes, simplified_track_page_of};
use crate::model::senum::{AlbumType, Type, album_type_name, album_type_of, dec_album_type, dec_type, type_of};
use crate::model::track::{SimplifiedTrack};

verus! {

/// A simplified album object.
#[derive(Clone, Debug)]
pub struct SimplifiedAlbum {
    pub artists: Vec<SimplifiedArtist>,
    pub album_type: String,
    pub available_markets: Vec<String>,
    pub external_urls: Vec<(String, String)>,
    pub href: String,
    pub id: String,
    pub images: Vec<Image>,
    pub name: String,
    pub _type: Type,
    pub uri: String,
    pub release_date: String,
}

/// Whether `j` is an object from which a simplified album can be read.
pub open spec fn simplified_album_decodable(j: JsonSpec) -> bool {
    &&& j is Object
    &&& simplified_artist_list_decodable(index_key(j, "artists"@))
    &&& dec_str(index_key(j, "album_type"@)) is Some
    &&& dec_str_list(index_key(j, "available_markets"@)) is Some
    &&& dec_str_map(index_key(j, "external_urls"@)) is Some
    &&& dec_str(index_key(j, "href"@)) is Some
    &&& dec_str(index_key(j, "id"@)) is Some
    &&& image_list_decodable(index_key(j, "images"@))
    &&& dec_str(index_key(j, "name"@)) is Some
    &&& dec_type(index_key(j, "type"@)) is Some
    &&& dec_str(index_key(j, "uri"@)) is Some
    &&& dec_str(index_key(j, "release_date"@)) is Some
}

/// Whether `x` is a simplified album as read from the object `j`.
pub open spec fn simplified_album_decodes(j: JsonSpec, x: SimplifiedAlbum) -> bool {
    &&& j is Object
    &&& simplified_artist_list_decodes(index_key(j, "artists"@), x.artists@)
    &&& dec_str(index_key(j, "album_type"@)) == Some(x.album_type@)
    &&& dec_str_list(index_key(j, "available_markets"@)) == Some(str_views(x.available_markets@))
    &&& dec_str_map(index_key(j, "external_urls"@)) == Some(pair_views(x.external_urls@))
    &&& dec_str(index_key(j, "href"@)) == Some(x.href@)
    &&& dec_str(index_key(j, "id"@)) == Some(x.id@)
    &&& image_list_decodes(index_key(j, "images"@), x.images@)
    &&& dec_str(index_key(j, "name"@)) == Some(x.name@)
    &&& dec_type(index_key(j, "type"@)) == Some(x._type)
    &&& dec_str(index_key(j, "uri"@)) == Some(x.uri@)
    &&& dec_str(index_key(j, "release_date"@)) == Some(x.release_date@)
}

/// Reads a simplified album from a looked-up value; `None` where it has not the shape.
pub fn simplified_album_of(v: Option<&JsonValue>) -> (r: Option<SimplifiedAlbum>)
    ensures
        r is Some <==> simplified_album_decodable(or_null(v)),
        r matches Some(x) ==> simplified_album_decodes(or_null(v), x),
{
    let j = match v {
        Some(j) => j,
        None => return None,
    };
    if !j.is_object() {
        return None;
    }
    let artists = match simplified_artist_list_of(j.get("artists")) {
        Some(x) => x,
        None => return None,
    };
    let album_type = match str_of(j.get("album_type")) {
        Some(x) => x,
        None => return None,
    };
    let available_markets = match str_list_of(j.get("available_markets")) {
        Some(x) => x,
        None => return None,
    };
    let external_urls = match str_map_of(j.get("external_urls")) {
        Some(x) => x,
        None => return None,
    };
    let href = match str_of(j.get("href")) {
        Some(x) => x,
        None => return None,
    };
    let id = match str_of(j.get("id")) {
        Some(x) => x,
        None => return None,
    };
    let images = match image_list_of(j.get("images")) {
        Some(x) => x,
        None => return None,
    };
    let name = match str_of(j.get("name")) {
        Some(x) => x,
        None => return None,
    };
    let _type = match type_of(j.get("type")) {
        Some(x) => x,
        None => return None,
    };
    let uri = match str_of(j.get("uri")) {
        Some(x) => x,
        None => return None,
    };
    let release_date = match str_of(j.get("release_date")) {
        Some(x) => x,
        None => return None,
    };
    Some(SimplifiedAlbum { artists, album_type, available_markets, external_urls, href, id, images, name, _type, uri, release_date })
}

/// Whether `j` is an array of which each element can be read as a simplified album.
pub open spec fn simplified_album_list_decodable(j: JsonSpec) -> bool {
    &&& j is Array
    &&& forall|i: int| 0 <= i < j->Array_0.len() ==> simplified_album_decodable(#[trigger] j->Array_0[i])
}

/// Whether `xs` are the elements of the array `j`, each read as a simplified album.
pub open spec fn simplified_album_list_decodes(j: JsonSpec, xs: Seq<SimplifiedAlbum>) -> bool {
    &&& j is Array
    &&& j->Array_0.len() == xs.len()
    &&& forall|i: int| 0 <= i < xs.len() ==> simplified_album_decodes(#[trigger] j->Array_0[i], xs[i])
}

/// Reads each element of an array as a simplified album.
pub fn simplified_album_list_of(v: Option<&JsonValue>) -> (r: Option<Vec<SimplifiedAlbum>>)
    ensures
        r is Some <==> simplified_album_list_decodable(or_null(v)),
        r matches Some(xs) ==> simplified_album_list_decodes(or_null(v), xs@),
{
    match v {
        Some(JsonValue::Array(a)) => {
            let mut out: Vec<SimplifiedAlbum> = Vec::new();
            let mut i: usize = 0;
            proof { lemma_view_elements_len(a@); }
            while i < a.len()
                invariant
                    i <= a@.len(),
                    view_elements(a@).len() == a@.len(),
                    or_null(v) == JsonSpec::Array(view_elements(a@)),
                    out@.len() == i,
                    forall|k: int| 0 <= k < i ==> simplified_album_decodable(#[trigger] view_elements(a@)[k])
                        && simplified_album_decodes(view_elements(a@)[k], out@[k]),
                decreases a@.len() - i,
            {
                proof { lemma_view_elements_index(a@, i as int); }
                match simplified_album_of(Some(&a[i])) {
                    Some(x) => out.push(x),
                    None => {
                        assert(!simplified_album_decodable(view_elements(a@)[i as int]));
                        proof {
                            let ve = view_elements(a@);
                            if simplified_album_list_decodable(JsonSpec::Array(ve)) {
                                let j = JsonSpec::Array(ve);
                                assert(j->Array_0 == ve);
                                let e = j->Array_0[i as int];
                                assert(simplified_album_decodable(e));
                            }
                        }
                        return None;
                    },
                }
                i = i + 1;
            }
            Some(out)
        },
        _ => None,
    }
}
/// A full album object.
#[derive(Clone, Debug)]
pub struct FullAlbum {
    pub artists: Vec<SimplifiedArtist>,
    pub album_type: AlbumType,
    pub available_markets: Vec<String>,
    pub external_urls: Vec<(String, String)>,
    pub genres: Vec<String>,
    pub href: String,
    pub id: String,
    pub images: Vec<Image>,
    pub name: String,
    pub release_date: String,
    pub release_date_precision: String,
    pub tracks: Page<SimplifiedTrack>,
    pub _type: Type,
    pub uri: String,
}

/// Whether `j` is an object from which a full album can be read.
pub open spec fn full_album_decodable(j: JsonSpec) -> bool {
    &&& j is Object
    &&& simplified_artist_list_decodable(index_key(j, "artists"@))
    &&& dec_album_type(index_key(j, "album_type"@)) is Some
    &&& dec_str_list(index_key(j, "available_markets"@)) is Some
    &&& dec_str_map(index_key(j, "external_urls"@)) is Some
    &&& dec_str_list(index_key(j, "genres"@)) is Some
    &&& dec_str(index_key(j, "href"@)) is Some
    &&& dec_str(index_key(j, "id"@)) is Some
    &&& image_list_decodable(index_key(j, "images"@))
    &&& dec_str(index_key(j, "name"@)) is Some
    &&& dec_str(index_key(j, "release_date"@)) is Some
    &&& dec_str(index_key(j, "release_date_precision"@)) is Some
    &&& simplified_track_page_decodable(index_key(j, "tracks"@))
    &&& dec_type(index_key(j, "type"@)) is Some
    &&& dec_str(index_key(j, "uri"@)) is Some
}

/// Whether `x` is a full album as read from the object `j`.
pub open spec fn full_album_decodes(j: JsonSpec, x: FullAlbum) -> bool {
    &&& j is Object
    &&& simplified_artist_list_decodes(index_key(j, "artists"@), x.artists@)
    &&& dec_album_type(index_key(j, "album_type"@)) == Some(x.album_type)
    &&& dec_str_list(index_key(j, "available_markets"@)) == Some(str_views(x.available_markets@))
    &&& dec_str_map(index_key(j, "external_urls"@)) == Some(pair_views(x.external_urls@))
    &&& dec_str_list(index_key(j, "genres"@)) == Some(str_views(x.genres@))
    &&& dec_str(index_key(j, "href"@)) == Some(x.href@)
    &&& dec_str(index_key(j, "id"@)) == Some(x.id@)
    &&& image_list_decodes(index_key(j, "images"@), x.images@)
    &&& dec_str(index_key(j, "name"@)) == Some(x.name@)
    &&& dec_str(index_key(j, "release_date"@)) == Some(x.release_date@)
    &&& dec_str(index_key(j, "release_date_precision"@)) == Some(x.release_date_precision@)
    &&& simplified_track_page_decodes(index_key(j, "tracks"@), x.tracks)
    &&& dec_type(index_key(j, "type"@)) == Some(x._type)
    &&& dec_str(index_key(j, "uri"@)) == Some(x.uri@)
}

/// Reads a full album from a looked-up value; `None` where it has not the shape.
pub fn full_album_of(v: Option<&JsonValue>) -> (r: Option<FullAlbum>)
    ensures
        r is Some <==> full_album_decodable(or_null(v)),
        r matches Some(x) ==> full_album_decodes(or_null(v), x),
{
    let j = match v {
        Some(j) => j,
        None => return None,
    };
    if !j.is_object() {
        return None;
    }
    let artists = match simplified_artist_list_of(j.get("artists")) {
        Some(x) => x,
        None => return None,
    };
    let album_type = match album_type_of(j.get("album_type")) {
        Some(x) => x,
        None => return None,
    };
    let available_markets = match str_list_of(j.get("available_markets")) {
        Some(x) => x,
        None => return None,
    };
    let external_urls = match str_map_of(j.get("external_urls")) {
        Some(x) => x,
        None => return None,
    };
    let genres = match str_list_of(j.get("genres")) {
        Some(x) => x,
        None => return None,
    };
    let href = match str_of(j.get("href")) {
        Some(x) => x,
        None => return None,
    };
    let id = match str_of(j.get("id")) {
        Some(x) => x,
        None => return None,
    };
    let images = match image_list_of(j.get("images")) {
        Some(x) => x,
        None => return None,
    };
    let name = match str_of(j.get("name")) {
        Some(x) => x,
        None => return None,
    };
    let release_date = match str_of(j.get("release_date")) {
        Some(x) => x,
        None => return None,
    };
    let release_date_precision = match str_of(j.get("release_date_precision")) {
        Some(x) => x,
        None => return None,
    };
    let tracks = match simplified_track_page_of(j.get("tracks")) {
        Some(x) => x,
        None => return None,
    };
    let _type = match type_of(j.get("type")) {
        Some(x) => x,
        None => return None,
    };
    let uri = match str_of(j.get("uri")) {
        Some(x) => x,
        None => return None,
    };
    Some(FullAlbum { artists, album_type, available_markets, external_urls, genres, href, id, images, name, release_date, release_date_precision, tracks, _type, uri })
}

/// Whether `j` is an array of which each element can be read as a full album.
pub open spec fn full_album_list_decodable(j: JsonSpec) -> bool {
    &&& j is Array
    &&& forall|i: int| 0 <= i < j->Array_0.len() ==> full_album_decodable(#[trigger] j->Array_0[i])
}

/// Whether `xs` are the elements of the array `j`, each read as a full album.
pub open spec fn full_album_list_decodes(j: JsonSpec, xs: Seq<FullAlbum>) -> bool {
    &&& j is Array
    &&& j->Array_0.len() == xs.len()
    &&& forall|i: int| 0 <= i < xs.len() ==> full_album_decodes(#[trigger] j->Array_0[i], xs[i])
}

/// Reads each element of an array as a full album.
pub fn full_album_list_of(v: Option<&JsonValue>) -> (r: Option<Vec<FullAlbum>>)
    ensures
        r is Some <==> full_album_list_decodable(or_null(v)),
        r matches Some(xs) ==> full_album_list_decodes(or_null(v), xs@),
{
    match v {
        Some(JsonValue::Array(a)) => {
            let mut out: Vec<FullAlbum> = Vec::new();
            let mut i: usize = 0;
            proof { lemma_view_elements_len(a@); }
            while i < a.len()
                invariant
                    i <= a@.len(),
                    view_elements(a@).len() == a@.len(),
                    or_null(v) == JsonSpec::Array(view_elements(a@)),
                    out@.len() == i,
                    forall|k: int| 0 <= k < i ==> full_album_decodable(#[trigger] view_elements(a@)[k])
                        && full_album_decodes(view_elements(a@)[k], out@[k]),
                decreases a@.len() - i,
            {
                proof { lemma_view_elements_index(a@, i as int); }
                match full_album_of(Some(&a[i])) {
                    Some(x) => out.push(x),
                    None => {
                        assert(!full_album_decodable(view_elements(a@)[i as int]));
                        proof {
                            let ve = view_elements(a@);
                            if full_album_list_decodable(JsonSpec::Array(ve)) {
                                let j = JsonSpec::Array(ve);
                                assert(j->Array_0 == ve);
                                let e = j->Array_0[i as int];
                                assert(full_album_decodable(e));
                            }
                        }
                        return None;
                    },
                }
                i = i + 1;
            }
            Some(out)
        },
        _ => None,
    }
}

impl FullAlbum {
    /// The simplified album with the same artists, kind, markets, name,
    /// identifier, links, images and release date; the kind of album
    /// becomes its name.
    pub fn to_simplified(&mut self) -> (r: SimplifiedAlbum)
        ensures
            *final(self) == *old(self),
            same_artists(r.artists@, old(self).artists@),
            r._type == old(self)._type,
            r.available_markets@ == old(self).available_markets@,
            r.name@ == old(self).name@,
            r.id@ == old(self).id@,
            r.album_type@ == album_type_name(old(self).album_type),
            r.external_urls@ == old(self).external_urls@,
            r.href@ == old(self).href@,
            r.images@ == old(self).images@,
            r.uri@ == old(self).uri@,
            r.release_date@ == old(self).release_date@,
    {
        SimplifiedAlbum {
            artists: clone_artists(&self.artists),
            _type: self._type,
            available_markets: clone_strings(&self.available_markets),
            name: self.name.clone(),
            id: self.id.clone(),
            album_type: self.album_type.as_str().to_owned(),
            external_urls: clone_pairs(&self.external_urls),
            href: self.href.clone(),
            images: clone_images(&self.images),
            uri: self.uri.clone(),
            release_date: self.release_date.clone(),
        }
    }
}

/// Full albums.
#[derive(Clone, Debug)]
pub struct FullAlbums {
    pub albums: Vec<FullAlbum>,
}

/// Simplified albums in a page.
#[derive(Clone, Debug)]
pub struct PageSimpliedAlbums {
    pub albums: Page<SimplifiedAlbum>,
}

/// An album of the user's library, with the time it was saved, as the
/// RFC 3339 text the API writes.
#[derive(Clone, Debug)]
pub struct SavedAlbum {
    pub added_at: String,
    pub album: FullAlbum,
}

/// A simplified album with its tracks, as the player shows it.
#[derive(Clone, Debug)]
pub struct SimplifiedAlbumWithTracks {
    pub data: SimplifiedAlbum,
    pub tracks: Vec<SimplifiedTrack>,
}
} // verus!
