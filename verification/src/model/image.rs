//! Images of the Spotify object model.

use vstd::prelude::*;
use crate::json::{index_key, or_null, view_elements, JsonSpec, JsonValue, lemma_view_elements_index, lemma_view_elements_len};


use crate::model::fields::{dec_opt_u32, dec_str, opt_u32_of, str_of};

verus! {

/// An image: its address and, when known, its size in pixels.
#[derive(Clone, Debug)]
pub struct Image {
    pub height: Option<u32>,
    pub url: String,
    pub width: Option<u32>,
}

/// Whether `j` is an object from which an image can be read.
pub open spec fn image_decodable(j: JsonSpec) -> bool {
    &&& j is Object
    &&& dec_opt_u32(index_key(j, "height"@)) is Some
    &&& dec_str(index_key(j, "url"@)) is Some
    &&& dec_opt_u32(index_key(j, "width"@)) is Some
}

/// Whether `x` is an image as read from the object `j`.
pub open spec fn image_decodes(j: JsonSpec, x: Image) -> bool {
    &&& j is Object
    &&& dec_opt_u32(index_key(j, "height"@)) == Some(x.height)
    &&& dec_str(index_key(j, "url"@)) == Some(x.url@)
    &&& dec_opt_u32(index_key(j, "width"@)) == Some(x.width)
}

/// Reads an image from a looked-up value; `None` where it has not the shape.
pub fn image_of(v: Option<&JsonValue>) -> (r: Option<Image>)
    ensures
        r is Some <==> image_decodable(or_null(v)),
        r matches Some(x) ==> image_decodes(or_null(v), x),
{
    let j = match v {
        Some(j) => j,
        None => return None,
    };
    if !j.is_object() {
        return None;
    }
    let height = match opt_u32_of(j.get("height")) {
        Some(x) => x,
        None => return None,
    };
    let url = match str_of(j.get("url")) {
        Some(x) => x,
        None => return None,
    };
    let width = match opt_u32_of(j.get("width")) {
        Some(x) => x,
        None => return None,
    };
    Some(Image { height, url, width })
}

/// Whether `j` is an array of which each element can be read as an image.
pub open spec fn image_list_decodable(j: JsonSpec) -> bool {
    &&& j is Array
    &&& forall|i: int| 0 <= i < j->Array_0.len() ==> image_decodable(#[trigger] j->Array_0[i])
}

/// Whether `xs` are the elements of the array `j`, each read as an image.
pub open spec fn image_list_decodes(j: JsonSpec, xs: Seq<Image>) -> bool {
    &&& j is Array
    &&& j->Array_0.len() == xs.len()
    &&& forall|i: int| 0 <= i < xs.len() ==> image_decodes(#[trigger] j->Array_0[i], xs[i])
}

/// Reads each element of an array as an image.
pub fn image_list_of(v: Option<&JsonValue>) -> (r: Option<Vec<Image>>)
    ensures
        r is Some <==> image_list_decodable(or_null(v)),
        r matches Some(xs) ==> image_list_decodes(or_null(v), xs@),
{
    match v {
        Some(JsonValue::Array(a)) => {
            let mut out: Vec<Image> = Vec::new();
            let mut i: usize = 0;
            proof { lemma_view_elements_len(a@); }
            while i < a.len()
                invariant
                    i <= a@.len(),
                    view_elements(a@).len() == a@.len(),
                    or_null(v) == JsonSpec::Array(view_elements(a@)),
                    out@.len() == i,
                    forall|k: int| 0 <= k < i ==> image_decodable(#[trigger] view_elements(a@)[k])
                        && image_decodes(view_elements(a@)[k], out@[k]),
                decreases a@.len() - i,
            {
                proof { lemma_view_elements_index(a@, i as int); }
                match image_of(Some(&a[i])) {
                    Some(x) => out.push(x),
                    None => {
                        assert(!image_decodable(view_elements(a@)[i as int]));
                        proof {
                            let ve = view_elements(a@);
                            if image_list_decodable(JsonSpec::Array(ve)) {
                                let j = JsonSpec::Array(ve);
                                assert(j->Array_0 == ve);
                                let e = j->Array_0[i as int];
                                assert(image_decodable(e));
                            }
                        }
                        return None;
                    },
                }
                i = i + 1;
            }
            Some(out)
        },
        _ => None,
    }
}
} // verus!
