//! Copies of model values, with what stays the same stated over views.

use vstd::prelude::*;
use crate::model::artist::SimplifiedArtist;
use crate::model::fields::{opt_str_views, pair_views};
use crate::model::image::Image;

verus! {

/// A copy of a list of strings.
pub fn clone_strings(v: &Vec<String>) -> (r: Vec<String>)
    ensures
        r@ == v@,
{
    let mut out: Vec<String> = Vec::new();
    let mut i: usize = 0;
    while i < v.len()
        invariant
            i <= v@.len(),
            out@ == v@.take(i as int),
        decreases v@.len() - i,
    {
        out.push(v[i].clone());
        assert(out@ =~= v@.take(i + 1));
        i = i + 1;
    }
    assert(v@.take(v@.len() as int) =~= v@);
    out
}

/// A copy of a list of pairs of strings.
pub fn clone_pairs(v: &Vec<(String, String)>) -> (r: Vec<(String, String)>)
    ensures
        r@ == v@,
{
    let mut out: Vec<(String, String)> = Vec::new();
    let mut i: usize = 0;
    while i < v.len()
        invariant
            i <= v@.len(),
            out@ == v@.take(i as int),
        decreases v@.len() - i,
    {
        out.push((v[i].0.clone(), v[i].1.clone()));
        assert(out@ =~= v@.take(i + 1));
        i = i + 1;
    }
    assert(v@.take(v@.len() as int) =~= v@);
    out
}

/// A copy of a list of images.
pub fn clone_images(v: &Vec<Image>) -> (r: Vec<Image>)
    ensures
        r@ == v@,
{
    let mut out: Vec<Image> = Vec::new();
    let mut i: usize = 0;
    while i < v.len()
        invariant
            i <= v@.len(),
            out@ == v@.take(i as int),
        decreases v@.len() - i,
    {
        let x = &v[i];
        out.push(Image { height: x.height, url: x.url.clone(), width: x.width });
        assert(out@ =~= v@.take(i + 1));
        i = i + 1;
    }
    assert(v@.take(v@.len() as int) =~= v@);
    out
}

/// Whether two artists agree on every field.
pub open spec fn same_artist(a: SimplifiedArtist, b: SimplifiedArtist) -> bool {
    &&& a.external_urls@ == b.external_urls@
    &&& a.href == b.href
    &&& a.id == b.id
    &&& a.name == b.name
    &&& opt_str_views(a.genres) == opt_str_views(b.genres)
    &&& a._type == b._type
    &&& a.uri == b.uri
}

/// Whether two lists of artists agree element by element.
pub open spec fn same_artists(a: Seq<SimplifiedArtist>, b: Seq<SimplifiedArtist>) -> bool {
    a.len() == b.len() && forall|i: int| 0 <= i < a.len() ==> same_artist(#[trigger] a[i], b[i])
}

/// A copy of an artist.
pub fn clone_artist(a: &SimplifiedArtist) -> (r: SimplifiedArtist)
    ensures
        same_artist(r, *a),
{
    SimplifiedArtist {
        external_urls: clone_pairs(&a.external_urls),
        href: a.href.clone(),
        id: a.id.clone(),
        name: a.name.clone(),
        genres: match &a.genres {
            Some(g) => Some(clone_strings(g)),
            None => None,
        },
        _type: a._type,
        uri: a.uri.clone(),
    }
}

/// A copy of a list of artists.
pub fn clone_artists(v: &Vec<SimplifiedArtist>) -> (r: Vec<SimplifiedArtist>)
    ensures
        same_artists(r@, v@),
{
    let mut out: Vec<SimplifiedArtist> = Vec::new();
    let mut i: usize = 0;
    while i < v.len()
        invariant
            i <= v@.len(),
            out@.len() == i,
            forall|k: int| 0 <= k < i ==> same_artist(#[trigger] out@[k], v@[k]),
        decreases v@.len() - i,
    {
        out.push(clone_artist(&v[i]));
        i = i + 1;
    }
    out
}

} // verus!
