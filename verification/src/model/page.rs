//! Pages: the slices of a list that the Spotify Web API hands out.

use vstd::prelude::*;
use crate::json::{index_key, or_null, view_elements, JsonSpec, JsonValue, lemma_view_elements_index, lemma_view_elements_len};

use crate::model::fields::{dec_opt_str, dec_str, dec_u32, opt_str_of, opt_str_view, str_of, u32_of};
use crate::model::track::{SimplifiedTrack, simplified_track_list_decodable, simplified_track_list_decodes, simplified_track_list_of};

verus! {

/// A page of a list.
#[derive(Clone, Debug)]
pub struct Page<T> {
    pub href: String,
    pub items: Vec<T>,
    pub limit: u32,
    pub next: Option<String>,
    pub offset: u32,
    pub previous: Option<String>,
    pub total: u32,
}

/// The position after which a cursor-based page continues.
#[derive(Clone, Debug)]
pub struct Cursor {
    pub after: Option<String>,
}

/// A page of a list that is walked with a cursor.
#[derive(Clone, Debug)]
pub struct CursorBasedPage<T> {
    pub href: String,
    pub items: Vec<T>,
    pub limit: u32,
    pub next: Option<String>,
    pub cursors: Cursor,
    pub total: Option<u32>,
}

/// Whether `j` is an object from which a page of simplified tracks can be read.
pub open spec fn simplified_track_page_decodable(j: JsonSpec) -> bool {
    &&& j is Object
    &&& dec_str(index_key(j, "href"@)) is Some
    &&& simplified_track_list_decodable(index_key(j, "items"@))
    &&& dec_u32(index_key(j, "limit"@)) is Some
    &&& dec_opt_str(index_key(j, "next"@)) is Some
    &&& dec_u32(index_key(j, "offset"@)) is Some
    &&& dec_opt_str(index_key(j, "previous"@)) is Some
    &&& dec_u32(index_key(j, "total"@)) is Some
}

/// Whether `x` is a page of simplified tracks as read from the object `j`.
pub open spec fn simplified_track_page_decodes(j: JsonSpec, x: Page<SimplifiedTrack>) -> bool {
    &&& j is Object
    &&& dec_str(index_key(j, "href"@)) == Some(x.href@)
    &&& simplified_track_list_decodes(index_key(j, "items"@), x.items@)
    &&& dec_u32(index_key(j, "limit"@)) == Some(x.limit)
    &&& dec_opt_str(index_key(j, "next"@)) == Some(opt_str_view(x.next))
    &&& dec_u32(index_key(j, "offset"@)) == Some(x.offset)
    &&& dec_opt_str(index_key(j, "previous"@)) == Some(opt_str_view(x.previous))
    &&& dec_u32(index_key(j, "total"@)) == Some(x.total)
}

/// Reads a page of simplified tracks from a looked-up value; `None` where it has not the shape.
pub fn simplified_track_page_of(v: Option<&JsonValue>) -> (r: Option<Page<SimplifiedTrack>>)
    ensures
        r is Some <==> simplified_track_page_decodable(or_null(v)),
        r matches Some(x) ==> simplified_track_page_decodes(or_null(v), x),
{
    let j = match v {
        Some(j) => j,
        None => return None,
    };
    if !j.is_object() {
        return None;
    }
    let href = match str_of(j.get("href")) {
        Some(x) => x,
        None => return None,
    };
    let items = match simplified_track_list_of(j.get("items")) {
        Some(x) => x,
        None => return None,
    };
    let limit = match u32_of(j.get("limit")) {
        Some(x) => x,
        None => return None,
    };
    let next = match opt_str_of(j.get("next")) {
        Some(x) => x,
        None => return None,
    };
    let offset = match u32_of(j.get("offset")) {
        Some(x) => x,
        None => return None,
    };
    let previous = match opt_str_of(j.get("previous")) {
        Some(x) => x,
        None => return None,
    };
    let total = match u32_of(j.get("total")) {
        Some(x) => x,
        None => return None,
    };
    Some(Page { href, items, limit, next, offset, previous, total })
}

} // verus!
