//! The local library: albums and artists kept on disk between runs. What
//! is written is only ever added to: an item whose identifier is already
//! kept is not written a second time.

use vstd::prelude::*;
use crate::model::album::FullAlbum;
use crate::model::artist::SimplifiedArtist;

verus! {

/// Items that are told apart by an identifier.
pub trait Keyed {
    /// The identifier.
    spec fn key(&self) -> Seq<char>;

    /// The identifier.
    fn key_str(&self) -> (r: &str)
        ensures
            r@ == self.key();
}

impl Keyed for FullAlbum {
    open spec fn key(&self) -> Seq<char> {
        self.id@
    }

    fn key_str(&self) -> (r: &str) {
        self.id.as_str()
    }
}

impl Keyed for SimplifiedArtist {
    open spec fn key(&self) -> Seq<char> {
        self.id@
    }

    fn key_str(&self) -> (r: &str) {
        self.id.as_str()
    }
}

/// Whether an item with identifier `k` is among `s`.
pub open spec fn has_key<T: Keyed>(s: Seq<T>, k: Seq<char>) -> bool {
    exists|i: int| 0 <= i < s.len() && (#[trigger] s[i]).key() == k
}

/// No identifier occurs twice among `s`.
pub open spec fn keys_distinct<T: Keyed>(s: Seq<T>) -> bool {
    forall|i: int, j: int| 0 <= i < j < s.len() ==> (#[trigger] s[i]).key() != (#[trigger] s[j]).key()
}

/// `acc` followed by each item of `incoming`, in order, whose identifier is
/// not among the items kept so far.
pub open spec fn merged<T: Keyed>(acc: Seq<T>, incoming: Seq<T>) -> Seq<T>
    decreases incoming.len(),
{
    if incoming.len() == 0 {
        acc
    } else {
        merged(
            if has_key(acc, incoming[0].key()) { acc } else { acc.push(incoming[0]) },
            incoming.drop_first(),
        )
    }
}

/// Whether an item with identifier `k` is among `s` (`Vec::contains` with
/// the equality by identifier).
pub fn contains_key<T: Keyed>(s: &Vec<T>, k: &str) -> (r: bool)
    ensures
        r == has_key(s@, k@),
{
    let mut i: usize = 0;
    while i < s.len()
        invariant
            i <= s@.len(),
            forall|j: int| 0 <= j < i ==> (#[trigger] s@[j]).key() != k@,
        decreases s@.len() - i,
    {
        if crate::text::str_eq(s[i].key_str(), k) {
            return true;
        }
        i = i + 1;
    }
    false
}

/// Adds to `existing` each item of `incoming` whose identifier is not
/// kept yet, in order.
pub fn merge_by_key<T: Keyed>(existing: Vec<T>, incoming: Vec<T>) -> (r: Vec<T>)
    ensures
        r@ == merged(existing@, incoming@),
{
    let mut acc = existing;
    let mut rest = incoming;
    let ghost target = merged(existing@, incoming@);
    while rest.len() > 0
        invariant
            merged(acc@, rest@) == target,
        decreases rest@.len(),
    {
        let x = rest.remove(0);
        if !contains_key(&acc, x.key_str()) {
            acc.push(x);
        }
    }
    acc
}

/// Adds to the kept albums each album not kept yet.
pub fn merge_albums(existing: Vec<FullAlbum>, incoming: Vec<FullAlbum>) -> (r: Vec<FullAlbum>)
    ensures
        r@ == merged(existing@, incoming@),
{
    merge_by_key(existing, incoming)
}

/// Adds to the kept artists each artist not kept yet.
pub fn merge_artists(existing: Vec<SimplifiedArtist>, incoming: Vec<SimplifiedArtist>) -> (r: Vec<SimplifiedArtist>)
    ensures
        r@ == merged(existing@, incoming@),
{
    merge_by_key(existing, incoming)
}

/// What is kept is only added to: the items kept before stay, in their
/// order, at the front.
pub proof fn law_merge_keeps_existing<T: Keyed>(existing: Seq<T>, incoming: Seq<T>)
    ensures
        merged(existing, incoming).len() >= existing.len(),
        merged(existing, incoming).subrange(0, existing.len() as int) == existing,
    decreases incoming.len(),
{
    if incoming.len() > 0 {
        let acc = if has_key(existing, incoming[0].key()) { existing } else { existing.push(incoming[0]) };
        law_merge_keeps_existing(acc, incoming.drop_first());
        let m = merged(acc, incoming.drop_first());
        assert(m.subrange(0, existing.len() as int) =~= acc.subrange(0, existing.len() as int));
        assert(acc.subrange(0, existing.len() as int) =~= existing);
    } else {
        assert(existing.subrange(0, existing.len() as int) =~= existing);
    }
}

proof fn lemma_merged_keeps_keys<T: Keyed>(acc: Seq<T>, incoming: Seq<T>, k: Seq<char>)
    requires
        has_key(acc, k),
    ensures
        has_key(merged(acc, incoming), k),
    decreases incoming.len(),
{
    if incoming.len() > 0 {
        let next = if has_key(acc, incoming[0].key()) { acc } else { acc.push(incoming[0]) };
        let i = choose|i: int| 0 <= i < acc.len() && (#[trigger] acc[i]).key() == k;
        assert(next[i] == acc[i]);
        lemma_merged_keeps_keys(next, incoming.drop_first(), k);
    }
}

/// Every item written is kept afterwards: each identifier of `incoming` is
/// among the merged items.
pub proof fn law_merge_covers_incoming<T: Keyed>(existing: Seq<T>, incoming: Seq<T>)
    ensures
        forall|i: int| 0 <= i < incoming.len() ==> has_key(merged(existing, incoming), (#[trigger] incoming[i]).key()),
    decreases incoming.len(),
{
    if incoming.len() > 0 {
        let acc = if has_key(existing, incoming[0].key()) { existing } else { existing.push(incoming[0]) };
        law_merge_covers_incoming(acc, incoming.drop_first());
        assert(has_key(acc, incoming[0].key())) by {
            if !has_key(existing, incoming[0].key()) {
                assert(acc[existing.len() as int] == incoming[0]);
            }
        }
        lemma_merged_keeps_keys(acc, incoming.drop_first(), incoming[0].key());
        assert forall|i: int| 0 <= i < incoming.len() implies has_key(merged(existing, incoming), (#[trigger] incoming[i]).key()) by {
            if i > 0 {
                assert(incoming[i] == incoming.drop_first()[i - 1]);
            }
        }
    }
}

/// Nothing is kept twice: when the kept items have distinct identifiers,
/// so have the merged ones.
pub proof fn law_merge_keeps_keys_distinct<T: Keyed>(existing: Seq<T>, incoming: Seq<T>)
    requires
        keys_distinct(existing),
    ensures
        keys_distinct(merged(existing, incoming)),
    decreases incoming.len(),
{
    if incoming.len() > 0 {
        let acc = if has_key(existing, incoming[0].key()) { existing } else { existing.push(incoming[0]) };
        assert(keys_distinct(acc)) by {
            if !has_key(existing, incoming[0].key()) {
                assert forall|i: int, j: int| 0 <= i < j < acc.len() implies (#[trigger] acc[i]).key() != (#[trigger] acc[j]).key() by {
                    if j == existing.len() {
                        assert(acc[i] == existing[i]);
                    } else {
                        assert(acc[i] == existing[i] && acc[j] == existing[j]);
                    }
                }
            }
        }
        law_merge_keeps_keys_distinct(acc, incoming.drop_first());
    }
}

proof fn lemma_merged_absorbs<T: Keyed>(acc: Seq<T>, incoming: Seq<T>)
    requires
        forall|i: int| 0 <= i < incoming.len() ==> has_key(acc, (#[trigger] incoming[i]).key()),
    ensures
        merged(acc, incoming) == acc,
    decreases incoming.len(),
{
    if incoming.len() > 0 {
        assert(has_key(acc, incoming[0].key()));
        assert forall|i: int| 0 <= i < incoming.drop_first().len() implies has_key(acc, (#[trigger] incoming.drop_first()[i]).key()) by {
            assert(incoming.drop_first()[i] == incoming[i + 1]);
        }
        lemma_merged_absorbs(acc, incoming.drop_first());
    }
}

/// Writing the same items twice keeps what writing them once kept.
pub proof fn law_merge_idempotent<T: Keyed>(existing: Seq<T>, incoming: Seq<T>)
    ensures
        merged(merged(existing, incoming), incoming) == merged(existing, incoming),
{
    law_merge_covers_incoming(existing, incoming);
    lemma_merged_absorbs(merged(existing, incoming), incoming);
}

/// Writing items that are all kept already changes nothing: the kept items
/// stay as they are.
pub proof fn law_merge_known_keys<T: Keyed>(kept: Seq<T>, incoming: Seq<T>)
    requires
        forall|i: int| 0 <= i < incoming.len() ==> has_key(kept, (#[trigger] incoming[i]).key()),
    ensures
        merged(kept, incoming) == kept,
{
    lemma_merged_absorbs(kept, incoming);
}

/// Merging a list into what it is already gives it back unchanged: a write
/// of the same items over the kept file, as the first write left it,
/// changes nothing.
pub proof fn law_merge_into_itself<T: Keyed>(items: Seq<T>)
    ensures
        merged(items, items) == items,
{
    assert forall|i: int| 0 <= i < items.len() implies has_key(items, (#[trigger] items[i]).key()) by {
        assert(items[i].key() == items[i].key());
    }
    lemma_merged_absorbs(items, items);
}

/// The merged items are kept items or written items.
pub proof fn law_merge_items_come_from_inputs<T: Keyed>(existing: Seq<T>, incoming: Seq<T>)
    ensures
        forall|i: int| 0 <= i < merged(existing, incoming).len() ==>
            existing.contains(#[trigger] merged(existing, incoming)[i]) || incoming.contains(merged(existing, incoming)[i]),
    decreases incoming.len(),
{
    if incoming.len() > 0 {
        let acc = if has_key(existing, incoming[0].key()) { existing } else { existing.push(incoming[0]) };
        law_merge_items_come_from_inputs(acc, incoming.drop_first());
        let m = merged(existing, incoming);
        let rest = incoming.drop_first();
        assert(m == merged(acc, rest));
        assert forall|i: int| 0 <= i < m.len() implies existing.contains(#[trigger] m[i]) || incoming.contains(m[i]) by {
            assert(acc.contains(merged(acc, rest)[i]) || rest.contains(merged(acc, rest)[i]));
            if acc.contains(m[i]) {
                let j = choose|j: int| 0 <= j < acc.len() && acc[j] == m[i];
                if j < existing.len() {
                    assert(existing[j] == m[i]);
                } else {
                    assert(incoming[0] == m[i]);
                }
            } else {
                let j = choose|j: int| 0 <= j < incoming.drop_first().len() && incoming.drop_first()[j] == m[i];
                assert(incoming[j + 1] == m[i]);
            }
        }
    }
}

} // verus!
