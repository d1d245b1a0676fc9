//! The state of the player.

use vstd::prelude::*;
use crate::json::{index_key, or_null, view_elements, JsonSpec, JsonValue, lemma_view_elements_index, lemma_view_elements_len};

use crate::model::fields::{bool_of, dec_bool, dec_opt_u32, dec_u64, opt_u32_of, u64_of};
use crate::model::track::{FullTrack, opt_full_track_decodable, opt_full_track_decodes, opt_full_track_of};

verus! {

/// The state of the player: when it was read, how far into the item it is, whether it plays, and the item.
#[derive(Clone, Debug)]
pub struct FullPlayingContext {
    pub timestamp: u64,
    pub progress_ms: Option<u32>,
    pub is_playing: bool,
    pub item: Option<FullTrack>,
}

/// Whether `j` is an object from which the state of the player can be read.
pub open spec fn full_playing_context_decodable(j: JsonSpec) -> bool {
    &&& j is Object
    &&& dec_u64(index_key(j, "timestamp"@)) is Some
    &&& dec_opt_u32(index_key(j, "progress_ms"@)) is Some
    &&& dec_bool(index_key(j, "is_playing"@)) is Some
    &&& opt_full_track_decodable(index_key(j, "item"@))
}

/// Whether `x` is the state of the player as read from the object `j`.
pub open spec fn full_playing_context_decodes(j: JsonSpec, x: FullPlayingContext) -> bool {
    &&& j is Object
    &&& dec_u64(index_key(j, "timestamp"@)) == Some(x.timestamp)
    &&& dec_opt_u32(index_key(j, "progress_ms"@)) == Some(x.progress_ms)
    &&& dec_bool(index_key(j, "is_playing"@)) == Some(x.is_playing)
    &&& opt_full_track_decodes(index_key(j, "item"@), x.item)
}

/// Reads the state of the player from a looked-up value; `None` where it has not the shape.
pub fn full_playing_context_of(v: Option<&JsonValue>) -> (r: Option<FullPlayingContext>)
    ensures
        r is Some <==> full_playing_context_decodable(or_null(v)),
        r matches Some(x) ==> full_playing_context_decodes(or_null(v), x),
{
    let j = match v {
        Some(j) => j,
        None => return None,
    };
    if !j.is_object() {
        return None;
    }
    let timestamp = match u64_of(j.get("timestamp")) {
        Some(x) => x,
        None => return None,
    };
    let progress_ms = match opt_u32_of(j.get("progress_ms")) {
        Some(x) => x,
        None => return None,
    };
    let is_playing = match bool_of(j.get("is_playing")) {
        Some(x) => x,
        None => return None,
    };
    let item = match opt_full_track_of(j.get("item")) {
        Some(x) => x,
        None => return None,
    };
    Some(FullPlayingContext { timestamp, progress_ms, is_playing, item })
}

} // verus!
