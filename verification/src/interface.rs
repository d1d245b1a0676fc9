//! The decisions of the player window: how the library is sorted and
//! filtered, how albums, tracks and times are written, which windows are
//! open, and when the data of an artist's window is asked for.

use vstd::prelude::*;
use rand::Rng;
use vstd::utf8::*;
use vstd::string::*;
use crate::model::album::{FullAlbum, SimplifiedAlbum, SimplifiedAlbumWithTracks};
use crate::model::artist::{SimplifiedArtist, SimplifiedArtistWithAlbums};
use crate::model::fields::str_views;
use crate::model::track::SimplifiedTrack;
use crate::command::{is_authorized_get, is_wiki_request, Command};
use crate::command::communicator::HttpRequest;
use crate::text::{contains_text, decimal, push_decimal, text_contains, text_lt, text_less, lemma_text_lt_irreflexive,
    lemma_text_lt_transitive, lemma_text_lt_total};

verus! {

broadcast use vstd::seq_lib::group_to_multiset_ensures;

/// What the windows of the client show, besides their fonts: the filter
/// typed over the library, the genres offered as filters, the artist and
/// album windows open, and the two switches of the menu bar.
pub struct UiState {
    pub filter_album: String,
    pub genres_available: Vec<String>,
    pub artists_displayed: Vec<SimplifiedArtistWithAlbums>,
    pub albums_displayed: Vec<SimplifiedAlbumWithTracks>,
    pub show_my_albums: bool,
    pub dark_theme: bool,
}

/// The state of the windows at start: no filter, no genre, no window open,
/// the library hidden, the dark theme on.
pub fn init_ui_state() -> (r: UiState)
    ensures
        r.filter_album@.len() == 0,
        r.genres_available@.len() == 0,
        r.artists_displayed@.len() == 0,
        r.albums_displayed@.len() == 0,
        !r.show_my_albums,
        r.dark_theme,
{
    UiState {
        filter_album: String::new(),
        genres_available: Vec::new(),
        artists_displayed: Vec::new(),
        albums_displayed: Vec::new(),
        show_my_albums: false,
        dark_theme: true,
    }
}

/// The title of an album's window: its first artist, a dash, its name.
pub fn album_window_title(album: &SimplifiedAlbum) -> (r: String)
    requires
        album.artists@.len() > 0,
    ensures
        r@ == album.artists@[0].name@ + " - "@ + album.name@,
{
    let mut r = album.artists[0].name.clone();
    r.append(" - ");
    r.append(album.name.as_str());
    r
}

/// The title of an artist's window: the name followed by a space.
pub fn artist_window_title(artist: &SimplifiedArtist) -> (r: String)
    ensures
        r@ == artist.name@ + " "@,
{
    let mut r = artist.name.clone();
    r.append(" ");
    r
}

/// The orders in which the library can be shown.
#[derive(Clone, Copy, Debug, PartialEq, Eq, Structural)]
pub enum SortOrder {
    /// Release date, most recent first.
    ReleaseDateRecentFirst,
    /// Release date, oldest first.
    ReleaseDateOldFirst,
    /// Name, A to Z.
    NameAToZ,
    /// Name, Z to A.
    NameZToA,
    /// Name of the first artist, A to Z.
    ArtistAToZ,
    /// Name of the first artist, Z to A.
    ArtistZToA,
}

/// Whether the order goes by the first artist.
pub open spec fn by_artist(o: SortOrder) -> bool {
    o == SortOrder::ArtistAToZ || o == SortOrder::ArtistZToA
}

/// Whether the order goes from the greatest key down.
pub open spec fn descending(o: SortOrder) -> bool {
    o == SortOrder::ReleaseDateRecentFirst || o == SortOrder::NameZToA || o == SortOrder::ArtistZToA
}

/// The text by which an album is ordered.
pub open spec fn sort_key(a: FullAlbum, o: SortOrder) -> Seq<char> {
    match o {
        SortOrder::ReleaseDateRecentFirst | SortOrder::ReleaseDateOldFirst => a.release_date@,
        SortOrder::NameAToZ | SortOrder::NameZToA => a.name@,
        SortOrder::ArtistAToZ | SortOrder::ArtistZToA => a.artists@[0].name@,
    }
}

/// Whether `a` is shown strictly before `b`.
pub open spec fn before(a: FullAlbum, b: FullAlbum, o: SortOrder) -> bool {
    if descending(o) {
        text_lt(sort_key(b, o), sort_key(a, o))
    } else {
        text_lt(sort_key(a, o), sort_key(b, o))
    }
}

/// Whether no album is shown after one that should come after it.
pub open spec fn sorted_by(s: Seq<FullAlbum>, o: SortOrder) -> bool {
    forall|i: int, j: int| 0 <= i < j < s.len() ==> !before(#[trigger] s[j], #[trigger] s[i], o)
}

/// Whether an album has what the order needs: a first artist, when the
/// order goes by artist.
pub open spec fn has_key(a: FullAlbum, o: SortOrder) -> bool {
    by_artist(o) ==> a.artists@.len() > 0
}

fn key_of(a: &FullAlbum, o: SortOrder) -> (r: &str)
    requires
        has_key(*a, o),
    ensures
        r@ == sort_key(*a, o),
{
    match o {
        SortOrder::ReleaseDateRecentFirst | SortOrder::ReleaseDateOldFirst => a.release_date.as_str(),
        SortOrder::NameAToZ | SortOrder::NameZToA => a.name.as_str(),
        SortOrder::ArtistAToZ | SortOrder::ArtistZToA => a.artists[0].name.as_str(),
    }
}

fn is_before(a: &FullAlbum, b: &FullAlbum, o: SortOrder) -> (r: bool)
    requires
        has_key(*a, o),
        has_key(*b, o),
    ensures
        r == before(*a, *b, o),
{
    let descending = o == SortOrder::ReleaseDateRecentFirst || o == SortOrder::NameZToA || o == SortOrder::ArtistZToA;
    if descending {
        text_less(key_of(b, o), key_of(a, o))
    } else {
        text_less(key_of(a, o), key_of(b, o))
    }
}

proof fn lemma_before_chain(x: FullAlbum, y: FullAlbum, z: FullAlbum, o: SortOrder)
    requires
        before(x, y, o),
        !before(z, y, o),
    ensures
        before(x, z, o),
        !before(z, x, o),
{
    let (kx, ky, kz) = (sort_key(x, o), sort_key(y, o), sort_key(z, o));
    lemma_text_lt_total(ky, kz);
    if descending(o) {
        if kz != ky {
            lemma_text_lt_transitive(kz, ky, kx);
        }
        if text_lt(kx, kz) {
            lemma_text_lt_transitive(kx, kz, kx);
            lemma_text_lt_irreflexive(kx);
        }
    } else {
        if kz != ky {
            lemma_text_lt_transitive(kx, ky, kz);
        }
        if text_lt(kz, kx) {
            lemma_text_lt_transitive(kz, kx, kz);
            lemma_text_lt_irreflexive(kz);
        }
    }
}

proof fn lemma_insert_sorted(s: Seq<FullAlbum>, p: int, x: FullAlbum, o: SortOrder)
    requires
        sorted_by(s, o),
        0 <= p <= s.len(),
        forall|k: int| 0 <= k < p ==> !before(x, #[trigger] s[k], o),
        p < s.len() ==> before(x, s[p], o),
    ensures
        sorted_by(s.insert(p, x), o),
{
    let t = s.insert(p, x);
    assert forall|i: int, j: int| 0 <= i < j < t.len() implies !before(#[trigger] t[j], #[trigger] t[i], o) by {
        if i < p && j < p {
            assert(t[i] == s[i] && t[j] == s[j]);
        } else if i < p && j == p {
            assert(t[i] == s[i] && t[j] == x);
        } else if i < p {
            assert(t[i] == s[i] && t[j] == s[j - 1]);
        } else if i == p {
            assert(t[i] == x && t[j] == s[j - 1]);
            if j - 1 > p {
                assert(!before(s[j - 1], s[p], o));
            } else {
                lemma_text_lt_irreflexive(sort_key(s[p], o));
            }
            lemma_before_chain(x, s[p], s[j - 1], o);
        } else {
            assert(t[i] == s[i - 1] && t[j] == s[j - 1]);
        }
    }
}

/// The albums of `s` whose key under the order is `k`, in their order in `s`.
pub open spec fn with_key(s: Seq<FullAlbum>, o: SortOrder, k: Seq<char>) -> Seq<FullAlbum> {
    s.filter(|a: FullAlbum| sort_key(a, o) == k)
}

proof fn lemma_filter_none(s: Seq<FullAlbum>, pred: spec_fn(FullAlbum) -> bool)
    requires
        forall|i: int| 0 <= i < s.len() ==> !pred(#[trigger] s[i]),
    ensures
        s.filter(pred) == Seq::<FullAlbum>::empty(),
    decreases s.len(),
{
    reveal(Seq::filter);
    if s.len() > 0 {
        lemma_filter_none(s.drop_last(), pred);
        assert(!pred(s[s.len() - 1]));
    }
}

proof fn lemma_filter_single(x: FullAlbum, pred: spec_fn(FullAlbum) -> bool)
    ensures
        seq![x].filter(pred) == (if pred(x) { seq![x] } else { Seq::<FullAlbum>::empty() }),
{
    reveal(Seq::filter);
    assert(seq![x].drop_last() =~= Seq::<FullAlbum>::empty());
    assert(Seq::<FullAlbum>::empty().filter(pred) =~= Seq::<FullAlbum>::empty());
    assert(Seq::<FullAlbum>::empty().push(x) =~= seq![x]);
}

/// Inserting `x` where insertion sort puts it adds it at the end of the
/// albums with its key, and leaves the albums with other keys as they were.
proof fn lemma_insert_keeps_key_order(s: Seq<FullAlbum>, p: int, x: FullAlbum, o: SortOrder, k: Seq<char>)
    requires
        sorted_by(s, o),
        0 <= p <= s.len(),
        p < s.len() ==> before(x, s[p], o),
    ensures
        with_key(s.insert(p, x), o, k) == with_key(s, o, k) + with_key(seq![x], o, k),
{
    let pr = |a: FullAlbum| sort_key(a, o) == k;
    let head = s.take(p);
    let tail = s.skip(p);
    assert(s.insert(p, x) =~= head + seq![x] + tail);
    assert(s =~= head + tail);
    Seq::filter_distributes_over_add(head + seq![x], tail, pr);
    Seq::filter_distributes_over_add(head, seq![x], pr);
    Seq::filter_distributes_over_add(head, tail, pr);
    lemma_filter_single(x, pr);
    if pr(x) {
        assert forall|i: int| 0 <= i < tail.len() implies !pr(#[trigger] tail[i]) by {
            let j = p + i;
            assert(tail[i] == s[j]);
            if j > p {
                assert(!before(s[j], s[p], o));
                lemma_before_chain(x, s[p], s[j], o);
            }
            assert(before(x, s[j], o));
            lemma_text_lt_irreflexive(sort_key(x, o));
        }
        lemma_filter_none(tail, pr);
        assert(tail.filter(pr) + seq![x] =~= seq![x]);
        assert(head.filter(pr) + Seq::<FullAlbum>::empty() =~= head.filter(pr));
        assert(head.filter(pr) + seq![x].filter(pr) + tail.filter(pr) =~= head.filter(pr) + tail.filter(pr) + seq![x]);
    } else {
        assert(head.filter(pr) + Seq::<FullAlbum>::empty() =~= head.filter(pr));
    }
}

/// What each order of the sort menu means for a sorted list, field by
/// field: by release date the oldest first (or the most recent first), by
/// name from A to Z (or Z to A), by the first artist's name from A to Z (or
/// Z to A). No album comes after one that the order puts after it.
pub proof fn law_sorted_by_fields(s: Seq<FullAlbum>, o: SortOrder)
    requires
        sorted_by(s, o),
    ensures
        o == SortOrder::ReleaseDateOldFirst ==> forall|i: int, j: int| 0 <= i < j < s.len()
            ==> !text_lt((#[trigger] s[j]).release_date@, (#[trigger] s[i]).release_date@),
        o == SortOrder::ReleaseDateRecentFirst ==> forall|i: int, j: int| 0 <= i < j < s.len()
            ==> !text_lt((#[trigger] s[i]).release_date@, (#[trigger] s[j]).release_date@),
        o == SortOrder::NameAToZ ==> forall|i: int, j: int| 0 <= i < j < s.len()
            ==> !text_lt((#[trigger] s[j]).name@, (#[trigger] s[i]).name@),
        o == SortOrder::NameZToA ==> forall|i: int, j: int| 0 <= i < j < s.len()
            ==> !text_lt((#[trigger] s[i]).name@, (#[trigger] s[j]).name@),
        o == SortOrder::ArtistAToZ ==> forall|i: int, j: int| 0 <= i < j < s.len()
            ==> !text_lt((#[trigger] s[j]).artists@[0].name@, (#[trigger] s[i]).artists@[0].name@),
        o == SortOrder::ArtistZToA ==> forall|i: int, j: int| 0 <= i < j < s.len()
            ==> !text_lt((#[trigger] s[i]).artists@[0].name@, (#[trigger] s[j]).artists@[0].name@),
{
    assert forall|i: int, j: int| 0 <= i < j < s.len() implies !before(#[trigger] s[j], #[trigger] s[i], o) by {}
}

/// Orders the albums of the library as the sort menu asks, keeping the same
/// albums. An order by artist needs a first artist on each album (it is
/// only looked at when there are two albums or more).
pub fn sort_albums(albums: &mut Vec<FullAlbum>, order: SortOrder)
    requires
        old(albums)@.len() >= 2 ==> forall|i: int| 0 <= i < old(albums)@.len() ==> has_key(#[trigger] old(albums)@[i], order),
    ensures
        final(albums)@.to_multiset() == old(albums)@.to_multiset(),
        sorted_by(final(albums)@, order),
        forall|k: Seq<char>| #[trigger] with_key(final(albums)@, order, k) == with_key(old(albums)@, order, k),
        order == SortOrder::ReleaseDateOldFirst ==> forall|i: int, j: int| 0 <= i < j < final(albums)@.len()
            ==> !text_lt((#[trigger] final(albums)@[j]).release_date@, (#[trigger] final(albums)@[i]).release_date@),
        order == SortOrder::ReleaseDateRecentFirst ==> forall|i: int, j: int| 0 <= i < j < final(albums)@.len()
            ==> !text_lt((#[trigger] final(albums)@[i]).release_date@, (#[trigger] final(albums)@[j]).release_date@),
        order == SortOrder::NameAToZ ==> forall|i: int, j: int| 0 <= i < j < final(albums)@.len()
            ==> !text_lt((#[trigger] final(albums)@[j]).name@, (#[trigger] final(albums)@[i]).name@),
        order == SortOrder::NameZToA ==> forall|i: int, j: int| 0 <= i < j < final(albums)@.len()
            ==> !text_lt((#[trigger] final(albums)@[i]).name@, (#[trigger] final(albums)@[j]).name@),
        order == SortOrder::ArtistAToZ ==> forall|i: int, j: int| 0 <= i < j < final(albums)@.len()
            ==> !text_lt((#[trigger] final(albums)@[j]).artists@[0].name@, (#[trigger] final(albums)@[i]).artists@[0].name@),
        order == SortOrder::ArtistZToA ==> forall|i: int, j: int| 0 <= i < j < final(albums)@.len()
            ==> !text_lt((#[trigger] final(albums)@[i]).artists@[0].name@, (#[trigger] final(albums)@[j]).artists@[0].name@),
{
    if albums.len() < 2 {
        proof {
            assert forall|i: int, j: int| 0 <= i < j < albums@.len() implies !before(#[trigger] albums@[j], #[trigger] albums@[i], order) by {}
            law_sorted_by_fields(albums@, order);
        }
        return;
    }
    let ghost given = albums@;
    let mut rest: Vec<FullAlbum> = Vec::new();
    std::mem::swap(&mut rest, albums);
    let mut out: Vec<FullAlbum> = Vec::new();
    while rest.len() > 0
        invariant
            out@.to_multiset().add(rest@.to_multiset()) == given.to_multiset(),
            forall|k: Seq<char>| #[trigger] with_key(given, order, k) == with_key(out@, order, k) + with_key(rest@, order, k),
            sorted_by(out@, order),
            forall|i: int| 0 <= i < out@.len() ==> has_key(#[trigger] out@[i], order),
            forall|i: int| 0 <= i < rest@.len() ==> has_key(#[trigger] rest@[i], order),
        decreases rest@.len(),
    {
        let ghost old_rest = rest@;
        let ghost old_out = out@;
        let x = rest.remove(0);
        proof {
            assert(old_rest.remove(0).to_multiset() == old_rest.to_multiset().remove(old_rest[0]));
            assert forall|i: int| 0 <= i < rest@.len() implies has_key(#[trigger] rest@[i], order) by {
                assert(rest@[i] == old_rest[i + 1]);
            }
        }
        let mut p: usize = 0;
        while p < out.len() && !is_before(&x, &out[p], order)
            invariant
                p <= out@.len(),
                out@ == old_out,
                has_key(x, order),
                forall|i: int| 0 <= i < out@.len() ==> has_key(#[trigger] out@[i], order),
                forall|k: int| 0 <= k < p ==> !before(x, #[trigger] out@[k], order),
            decreases out@.len() - p,
        {
            p = p + 1;
        }
        proof {
            assert forall|k: Seq<char>| #[trigger] with_key(given, order, k)
                == with_key(out@.insert(p as int, x), order, k) + with_key(rest@, order, k) by {
                let pr = |a: FullAlbum| sort_key(a, order) == k;
                lemma_insert_keeps_key_order(out@, p as int, x, order, k);
                assert(old_rest =~= seq![x] + rest@);
                Seq::filter_distributes_over_add(seq![x], rest@, pr);
                assert(with_key(out@, order, k) + with_key(old_rest, order, k)
                    =~= with_key(out@, order, k) + with_key(seq![x], order, k) + with_key(rest@, order, k));
            }
            lemma_insert_sorted(out@, p as int, x, order);
            assert(out@.insert(p as int, x).to_multiset() == out@.to_multiset().insert(x));
            assert(old_rest.to_multiset() == rest@.to_multiset().insert(x)) by {
                assert(old_rest[0] == x);
                assert(old_rest.to_multiset().contains(x)) by {
                    assert(old_rest.contains(x));
                }
            }
            assert(out@.to_multiset().insert(x).add(rest@.to_multiset()) =~= out@.to_multiset().add(rest@.to_multiset().insert(x)));
        }
        out.insert(p, x);
        proof {
            assert forall|i: int| 0 <= i < out@.len() implies has_key(#[trigger] out@[i], order) by {
                if i < p {
                    assert(out@[i] == old_out[i]);
                } else if i > p {
                    assert(out@[i] == old_out[i - 1]);
                }
            }
        }
    }
    proof {
        assert forall|k: Seq<char>| #[trigger] with_key(out@, order, k) == with_key(given, order, k) by {
            reveal(Seq::filter);
            assert(with_key(rest@, order, k) =~= Seq::<FullAlbum>::empty());
            assert(with_key(out@, order, k) + with_key(rest@, order, k) =~= with_key(out@, order, k));
        }
        assert(rest@.to_multiset() =~= vstd::multiset::Multiset::empty());
        assert(out@.to_multiset().add(vstd::multiset::Multiset::empty()) =~= out@.to_multiset());
        law_sorted_by_fields(out@, order);
    }
    *albums = out;
}


/// Whether the library shows an album under the filter text: always when
/// the filter is empty, else when its name, its release date or the name
/// of its first artist contains the filter.
pub open spec fn shown(a: FullAlbum, filter: Seq<char>) -> bool {
    ||| filter.len() == 0
    ||| contains_text(a.name@, filter)
    ||| contains_text(a.release_date@, filter)
    ||| contains_text(a.artists@[0].name@, filter)
}

/// An album is shown under a filter exactly when the filter is empty or
/// occurs in the album's name, in its release date or in the name of its
/// first artist.
pub proof fn law_shown_by_fields(a: FullAlbum, filter: Seq<char>)
    ensures
        shown(a, filter) == (filter.len() == 0 || contains_text(a.name@, filter) || contains_text(a.release_date@, filter)
            || contains_text(a.artists@[0].name@, filter)),
{
}

/// Whether the library shows `album` under the filter text. The first
/// artist is only looked at when the name and the release date do not
/// contain the filter.
pub fn album_shown(album: &FullAlbum, filter: &str) -> (r: bool)
    requires
        filter@.len() > 0 && !contains_text(album.name@, filter@) && !contains_text(album.release_date@, filter@)
            ==> album.artists@.len() > 0,
    ensures
        r == shown(*album, filter@),
        r == (filter@.len() == 0 || contains_text(album.name@, filter@) || contains_text(album.release_date@, filter@)
            || contains_text(album.artists@[0].name@, filter@)),
{
    proof { law_shown_by_fields(*album, filter@); }
    if filter.is_empty() {
        return true;
    }
    text_contains(album.name.as_str(), filter) || text_contains(album.release_date.as_str(), filter)
        || text_contains(album.artists[0].name.as_str(), filter)
}

/// The year shown beside an album: the first four bytes of its release
/// date, or nothing when the date is shorter.
pub fn release_year(release_date: &str) -> (r: String)
    requires
        encode_utf8(release_date@).len() >= 4 ==> is_char_boundary(encode_utf8(release_date@), 4),
    ensures
        encode_utf8(r@) == if encode_utf8(release_date@).len() >= 4 {
            encode_utf8(release_date@).subrange(0, 4)
        } else {
            Seq::empty()
        },
{
    assert(release_date.spec_bytes() == encode_utf8(release_date@));
    if release_date.as_bytes().len() >= 4 {
        let (year, _) = release_date.split_at(4);
        assert(year.spec_bytes() == encode_utf8(year@));
        year.to_owned()
    } else {
        let r = String::new();
        assert(r@ =~= Seq::empty());
        proof { assert(encode_utf8(Seq::<char>::empty()) =~= Seq::<u8>::empty()) by { reveal_with_fuel(encode_utf8, 1); } }
        r
    }
}

/// The name shown for a track: names of 34 bytes or more are cut to their
/// first 25 bytes and followed by "...".
pub fn track_display_name(name: &str) -> (r: String)
    requires
        encode_utf8(name@).len() >= 34 ==> is_char_boundary(encode_utf8(name@), 25),
    ensures
        encode_utf8(name@).len() >= 34 ==> encode_utf8(r@) == encode_utf8(name@).subrange(0, 25) + encode_utf8("..."@),
        encode_utf8(name@).len() < 34 ==> r@ == name@,
{
    assert(name.spec_bytes() == encode_utf8(name@));
    if name.as_bytes().len() >= 34 {
        let (head, _) = name.split_at(25);
        assert(head.spec_bytes() == encode_utf8(head@));
        let mut r = head.to_owned();
        r.append("...");
        proof { lemma_encode_utf8_concat(head@, "..."@); }
        r
    } else {
        name.to_owned()
    }
}

proof fn lemma_encode_utf8_concat(a: Seq<char>, b: Seq<char>)
    ensures
        encode_utf8(a + b) == encode_utf8(a) + encode_utf8(b),
    decreases a.len(),
{
    if a.len() == 0 {
        assert(a + b =~= b);
        assert(encode_utf8(a) =~= Seq::<u8>::empty());
        assert(encode_utf8(a) + encode_utf8(b) =~= encode_utf8(b));
    } else {
        lemma_encode_utf8_concat(a.drop_first(), b);
        assert((a + b).drop_first() =~= a.drop_first() + b);
        assert((a + b)[0] == a[0]);
        assert(encode_utf8(a + b) =~= encode_utf8(a) + encode_utf8(b));
    }
}

/// How long a track lasts, as the album window writes it: minutes (within
/// the hour) and seconds (within the minute) of its whole seconds.
pub fn track_duration_text(duration_ms: u32) -> (r: String)
    ensures
        r@ == decimal(((duration_ms / 1000) / 60 % 60) as nat) + ":"@ + decimal(((duration_ms / 1000) % 60) as nat),
{
    let secs = duration_ms / 1000;
    let mut r = String::new();
    push_decimal(&mut r, ((secs / 60) % 60) as u64);
    r.append(":");
    push_decimal(&mut r, (secs % 60) as u64);
    assert(r@ =~= decimal(((duration_ms / 1000) / 60 % 60) as nat) + ":"@ + decimal(((duration_ms / 1000) % 60) as nat));
    r
}

/// How far into its track the player is, in whole seconds: the progress it
/// reported, plus the time elapsed since the report while it plays.
pub open spec fn progress_seconds(progress_ms: u32, playing: bool, elapsed_secs: u64, elapsed_nanos: u32) -> int {
    if playing {
        (progress_ms / 1000) as int + elapsed_secs + ((progress_ms % 1000) * 1_000_000 + elapsed_nanos) / 1_000_000_000
    } else {
        (progress_ms / 1000) as int
    }
}

/// The progress line of the player: "<m>m<s>s / <m>m<s>s", the position in
/// the track and its length.
pub fn progress_text(progress_ms: u32, playing: bool, elapsed_secs: u64, elapsed_nanos: u32, duration_ms: u32) -> (r: String)
    requires
        elapsed_nanos < 1_000_000_000,
        playing ==> progress_seconds(progress_ms, playing, elapsed_secs, elapsed_nanos) <= u64::MAX,
    ensures
        ({
            let p = progress_seconds(progress_ms, playing, elapsed_secs, elapsed_nanos);
            let d = duration_ms / 1000;
            r@ == decimal((p / 60) as nat) + "m"@ + decimal((p % 60) as nat) + "s / "@
                + decimal((d / 60) as nat) + "m"@ + decimal((d % 60) as nat) + "s"@
        }),
{
    let p: u64 = if playing {
        let carry: u64 = (((progress_ms % 1000) as u64) * 1_000_000 + elapsed_nanos as u64) / 1_000_000_000;
        (progress_ms / 1000) as u64 + elapsed_secs + carry
    } else {
        (progress_ms / 1000) as u64
    };
    let d = duration_ms / 1000;
    let mut r = String::new();
    push_decimal(&mut r, p / 60);
    r.append("m");
    push_decimal(&mut r, p % 60);
    r.append("s / ");
    push_decimal(&mut r, (d / 60) as u64);
    r.append("m");
    push_decimal(&mut r, (d % 60) as u64);
    r.append("s");
    r
}

/// Whether an album window with identifier `id` is open.
pub open spec fn album_open(displayed: Seq<SimplifiedAlbumWithTracks>, id: Seq<char>) -> bool {
    exists|i: int| 0 <= i < displayed.len() && (#[trigger] displayed[i]).data.id@ == id
}

/// No two album windows show albums with the same identifier.
pub open spec fn album_windows_distinct(displayed: Seq<SimplifiedAlbumWithTracks>) -> bool {
    forall|i: int, j: int| 0 <= i < j < displayed.len() ==> (#[trigger] displayed[i]).data.id@ != (#[trigger] displayed[j]).data.id@
}

/// Opens a window for `album`, with no track loaded yet, unless a window
/// for an album with the same identifier is open.
pub fn open_album_window(displayed: &mut Vec<SimplifiedAlbumWithTracks>, album: SimplifiedAlbum)
    ensures
        album_open(final(displayed)@, album.id@),
        album_windows_distinct(old(displayed)@) ==> album_windows_distinct(final(displayed)@),
        album_open(old(displayed)@, album.id@) ==> final(displayed)@ == old(displayed)@,
        !album_open(old(displayed)@, album.id@) ==> {
            &&& final(displayed)@.len() == old(displayed)@.len() + 1
            &&& final(displayed)@.take(old(displayed)@.len() as int) == old(displayed)@
            &&& final(displayed)@.last().data == album
            &&& final(displayed)@.last().tracks@.len() == 0
        },
{
    let mut i: usize = 0;
    while i < displayed.len()
        invariant
            i <= displayed@.len(),
            forall|k: int| 0 <= k < i ==> (#[trigger] displayed@[k]).data.id@ != album.id@,
        decreases displayed@.len() - i,
    {
        if crate::text::str_eq(displayed[i].data.id.as_str(), album.id.as_str()) {
            assert(displayed@[i as int].data.id@ == album.id@);
            return;
        }
        i = i + 1;
    }
    let ghost before = displayed@;
    displayed.push(SimplifiedAlbumWithTracks { data: album, tracks: Vec::new() });
    assert(displayed@.take(before.len() as int) =~= before);
    assert(displayed@[before.len() as int].data.id@ == album.id@);
    assert(album_windows_distinct(before) ==> album_windows_distinct(displayed@)) by {
        if album_windows_distinct(before) {
            assert forall|a: int, b: int| 0 <= a < b < displayed@.len()
                implies (#[trigger] displayed@[a]).data.id@ != (#[trigger] displayed@[b]).data.id@ by {
                if b < before.len() {
                    assert(displayed@[a] == before[a] && displayed@[b] == before[b]);
                } else {
                    assert(displayed@[a] == before[a]);
                }
            }
        }
    }
}

/// Whether an artist window with identifier `id` is open.
pub open spec fn artist_open(displayed: Seq<SimplifiedArtistWithAlbums>, id: Seq<char>) -> bool {
    exists|i: int| 0 <= i < displayed.len() && (#[trigger] displayed[i]).data.id@ == id
}

/// The window of an artist as it opens: nothing loaded, nothing asked for.
pub fn new_artist_window(artist: SimplifiedArtist) -> (r: SimplifiedArtistWithAlbums)
    ensures
        r.data == artist,
        r.albums@.len() == 0,
        r.description@.len() == 0,
        r.load_state == 0,
{
    SimplifiedArtistWithAlbums { data: artist, albums: Vec::new(), description: String::new(), load_state: 0 }
}

/// No two artist windows show artists with the same identifier.
pub open spec fn artist_windows_distinct(displayed: Seq<SimplifiedArtistWithAlbums>) -> bool {
    forall|i: int, j: int| 0 <= i < j < displayed.len() ==> (#[trigger] displayed[i]).data.id@ != (#[trigger] displayed[j]).data.id@
}

/// Opens a window for `artist` unless a window for an artist with the same
/// identifier is open (the player's artist button).
pub fn open_artist_window(displayed: &mut Vec<SimplifiedArtistWithAlbums>, artist: SimplifiedArtist)
    ensures
        artist_open(final(displayed)@, artist.id@),
        artist_windows_distinct(old(displayed)@) ==> artist_windows_distinct(final(displayed)@),
        artist_open(old(displayed)@, artist.id@) ==> final(displayed)@ == old(displayed)@,
        !artist_open(old(displayed)@, artist.id@) ==> {
            &&& final(displayed)@.len() == old(displayed)@.len() + 1
            &&& final(displayed)@.take(old(displayed)@.len() as int) == old(displayed)@
            &&& final(displayed)@.last().data == artist
            &&& final(displayed)@.last().albums@.len() == 0
            &&& final(displayed)@.last().description@.len() == 0
            &&& final(displayed)@.last().load_state == 0
        },
{
    let mut i: usize = 0;
    while i < displayed.len()
        invariant
            i <= displayed@.len(),
            forall|k: int| 0 <= k < i ==> (#[trigger] displayed@[k]).data.id@ != artist.id@,
        decreases displayed@.len() - i,
    {
        if crate::text::str_eq(displayed[i].data.id.as_str(), artist.id.as_str()) {
            assert(displayed@[i as int].data.id@ == artist.id@);
            return;
        }
        i = i + 1;
    }
    let ghost before = displayed@;
    let ghost id = artist.id@;
    displayed.push(new_artist_window(artist));
    assert(displayed@.take(before.len() as int) =~= before);
    assert(displayed@[before.len() as int].data.id@ == id);
    assert(artist_windows_distinct(before) ==> artist_windows_distinct(displayed@)) by {
        if artist_windows_distinct(before) {
            assert forall|a: int, b: int| 0 <= a < b < displayed@.len()
                implies (#[trigger] displayed@[a]).data.id@ != (#[trigger] displayed@[b]).data.id@ by {
                if b < before.len() {
                    assert(displayed@[a] == before[a] && displayed@[b] == before[b]);
                } else {
                    assert(displayed@[a] == before[a]);
                }
            }
        }
    }
}

/// Closes the window that asked to close during a frame: `key_remove` is
/// one more than its position, 0 when none asked.
pub fn close_window<T>(displayed: &mut Vec<T>, key_remove: usize)
    requires
        key_remove <= old(displayed)@.len(),
    ensures
        key_remove == 0 ==> final(displayed)@ == old(displayed)@,
        key_remove > 0 ==> final(displayed)@ == old(displayed)@.remove(key_remove - 1),
{
    if key_remove > 0 {
        displayed.remove(key_remove - 1);
    }
}

/// What an artist's window asks for at its first frame (when nothing was
/// asked for yet): the Wikipedia introduction of the artist's name, and the
/// artist's albums. The window then notes that they were asked for; at any
/// later frame it asks for nothing.
pub fn artist_window_requests(command: &Command, artist: &mut SimplifiedArtistWithAlbums) -> (r: Option<(HttpRequest, HttpRequest)>)
    ensures
        (r is Some) == (old(artist).load_state == 0),
        r matches Some((description, albums)) ==> {
            &&& is_wiki_request(description, old(artist).data.name@)
            &&& is_authorized_get(albums, "https://api.spotify.com/v1/artists/"@ + old(artist).data.id@ + "/albums"@,
                command.token())
        },
        final(artist).load_state == (if old(artist).load_state == 0 { 1 } else { old(artist).load_state }),
        final(artist).data == old(artist).data,
        final(artist).albums == old(artist).albums,
        final(artist).description == old(artist).description,
{
    if begin_artist_load(artist) {
        let description = command.get_wiki_description(artist.data.name.as_str());
        let albums = command.get_albums_from_artist(artist.data.id.as_str());
        Some((description, albums))
    } else {
        None
    }
}

/// What an album's window asks for at a frame: the tracks of its album,
/// while it has none.
pub fn album_window_request(command: &Command, window: &SimplifiedAlbumWithTracks) -> (r: Option<HttpRequest>)
    ensures
        (r is Some) == (window.tracks@.len() == 0),
        r matches Some(req) ==> is_authorized_get(req, "https://api.spotify.com/v1/albums/"@ + window.data.id@ + "/tracks"@,
            command.token()),
{
    if window.tracks.len() == 0 {
        Some(command.get_tracks_from_album(window.data.id.as_str()))
    } else {
        None
    }
}

/// Takes into an album's window the tracks that arrived during a frame.
pub fn receive_album_tracks(window: &mut SimplifiedAlbumWithTracks, tracks: Option<Vec<SimplifiedTrack>>)
    ensures
        final(window).data == old(window).data,
        final(window).tracks == (match tracks {
            Some(t) => t,
            None => old(window).tracks,
        }),
{
    match tracks {
        Some(t) => window.tracks = t,
        None => {},
    }
}

/// Which window closes at the end of a frame, given for each window
/// whether its close button was clicked: the last one clicked, that is the
/// one at the highest position, as one more than its position; 0 when none
/// was clicked.
pub fn closed_window_key(clicks: &Vec<bool>) -> (r: usize)
    ensures
        r == 0 <==> forall|i: int| 0 <= i < clicks@.len() ==> !(#[trigger] clicks@[i]),
        r > 0 ==> {
            &&& r <= clicks@.len()
            &&& clicks@[r - 1]
            &&& forall|i: int| r <= i < clicks@.len() ==> !(#[trigger] clicks@[i])
        },
{
    let mut key_remove: usize = 0;
    let mut key: usize = 0;
    while key < clicks.len()
        invariant
            key <= clicks@.len(),
            key_remove <= key,
            key_remove == 0 <==> forall|i: int| 0 <= i < key ==> !(#[trigger] clicks@[i]),
            key_remove > 0 ==> clicks@[key_remove - 1] && forall|i: int| key_remove <= i < key ==> !(#[trigger] clicks@[i]),
        decreases clicks@.len() - key,
    {
        if clicks[key] {
            key_remove = key + 1;
        }
        key = key + 1;
    }
    key_remove
}

/// At the first frame of an artist's window, its description and albums
/// are asked for (the result says so) and the window notes it.
pub fn begin_artist_load(artist: &mut SimplifiedArtistWithAlbums) -> (r: bool)
    ensures
        r == (old(artist).load_state == 0),
        final(artist).load_state == (if r { 1 } else { old(artist).load_state }),
        final(artist).data == old(artist).data,
        final(artist).albums == old(artist).albums,
        final(artist).description == old(artist).description,
{
    if artist.load_state == 0 {
        artist.load_state = 1;
        true
    } else {
        false
    }
}

/// Whether an artist's window still takes in what arrives: until its
/// description and its albums have both come (its state counts up to 3).
pub fn artist_window_awaits(artist: &SimplifiedArtistWithAlbums) -> (r: bool)
    ensures
        r == (artist.load_state < 3),
{
    artist.load_state < 3
}

/// Takes into an artist's window what arrived during a frame, while not
/// everything has arrived: the description and the albums each count one.
pub fn receive_artist_data(artist: &mut SimplifiedArtistWithAlbums, description: Option<String>, albums: Option<Vec<SimplifiedAlbum>>)
    ensures
        old(artist).load_state < 3 ==> {
            &&& final(artist).load_state == old(artist).load_state + (if description is Some { 1int } else { 0 })
                + (if albums is Some { 1int } else { 0 })
            &&& final(artist).description == (match description { Some(d) => d, None => old(artist).description })
            &&& final(artist).albums == (match albums { Some(a) => a, None => old(artist).albums })
        },
        old(artist).load_state >= 3 ==> {
            &&& final(artist).load_state == old(artist).load_state
            &&& final(artist).description == old(artist).description
            &&& final(artist).albums == old(artist).albums
        },
        final(artist).data == old(artist).data,
{
    if artist.load_state < 3 {
        match description {
            Some(d) => {
                artist.description = d;
                artist.load_state = artist.load_state + 1;
            },
            None => {},
        }
        match albums {
            Some(a) => {
                artist.albums = a;
                artist.load_state = artist.load_state + 1;
            },
            None => {},
        }
    }
}

/// Whether an artist's description is shown: only one longer than ten
/// bytes (which leaves out "null" and "").
pub fn description_shown(description: &str) -> (r: bool)
    ensures
        r == (encode_utf8(description@).len() > 10),
{
    assert(description.spec_bytes() == encode_utf8(description@));
    description.as_bytes().len() > 10
}

/// The album picked by a random number `n` among `len` albums.
pub fn random_album_index(n: u16, len: usize) -> (r: usize)
    requires
        len > 0,
    ensures
        r == n as nat % len as nat,
        r < len,
{
    (n as usize) % len
}

/// A number drawn from `rand`'s thread-local generator
/// (`rand::thread_rng().gen::<u16>()`); the contract claims nothing of it.
#[verifier::external_body]
fn random_u16() -> (r: u16) {
    rand::thread_rng().gen::<u16>()
}

/// The album that the "Choose random" menu opens: a position drawn at
/// random among `len` albums.
pub fn choose_random_album(len: usize) -> (r: usize)
    requires
        len > 0,
    ensures
        r < len,
{
    random_album_index(random_u16(), len)
}

/// How the locally kept library is brought up to date with the user's
/// library of `count` albums.
pub struct SyncPlan {
    /// Whether the albums are fetched anew.
    pub redownload: bool,
    /// How many pages of albums are fetched.
    pub requests: u16,
}

/// Whether the kept library must be fetched anew: when its size differs
/// from the count (the size taken to 32 bits), or when it is empty.
pub open spec fn needs_redownload(local_len: usize, count: u32) -> bool {
    local_len as u32 != count || local_len == 0
}

/// The number of pages of `page_size` albums that hold `count` albums.
pub open spec fn pages_for(count: u32, page_size: u16) -> int {
    (count as int) / (page_size as int) + (if (count as int) % (page_size as int) > 0 { 1int } else { 0 })
}

/// The kept library is fetched anew exactly when its size differs from the
/// user's count of albums (in either direction) or when it is empty.
pub proof fn law_redownload_on_size_change(local_len: usize, count: u32)
    ensures
        local_len as u32 != count ==> needs_redownload(local_len, count),
        local_len == 0 ==> needs_redownload(local_len, count),
        local_len as u32 == count && local_len > 0 ==> !needs_redownload(local_len, count),
{
}

/// Plans the update of the kept library.
pub fn library_sync_plan(local_len: usize, count: u32, page_size: u16) -> (r: SyncPlan)
    requires
        page_size > 0,
        needs_redownload(local_len, count) ==> pages_for(count, page_size) <= u16::MAX,
    ensures
        r.redownload == needs_redownload(local_len, count),
        r.redownload ==> r.requests == pages_for(count, page_size),
        !r.redownload ==> r.requests == 0,
        local_len as u32 != count ==> r.redownload,
        local_len == 0 ==> r.redownload,
        local_len as u32 == count && local_len > 0 ==> !r.redownload,
        r.redownload ==> r.requests * page_size >= count,
        r.redownload && r.requests > 0 ==> (r.requests - 1) * page_size < count,
{
    proof {
        law_redownload_on_size_change(local_len, count);
        law_pages_cover_library(count, page_size, pages_for(count, page_size) - 1);
    }
    let redownload = local_len as u32 != count || local_len == 0;
    if redownload {
        let full = (count / page_size as u32) as u16;
        let extra: u16 = if count % page_size as u32 > 0 { 1 } else { 0 };
        SyncPlan { redownload, requests: full + extra }
    } else {
        SyncPlan { redownload, requests: 0 }
    }
}

/// The pages that a download fetches hold every album of the library, and
/// each of them starts within it: page `i` starts at `i * page_size`.
pub proof fn law_pages_cover_library(count: u32, page_size: u16, i: int)
    requires
        page_size > 0,
    ensures
        pages_for(count, page_size) * page_size >= count,
        0 <= i < pages_for(count, page_size) ==> i * page_size < count,
{
    let c = count as int;
    let ps = page_size as int;
    let q = c / ps;
    let r = c % ps;
    vstd::arithmetic::div_mod::lemma_fundamental_div_mod(c, ps);
    assert(c == ps * q + r);
    assert(0 <= r < ps);
    if r > 0 {
        assert((q + 1) * ps >= c) by (nonlinear_arith)
            requires c == ps * q + r, r < ps;
        if 0 <= i < q + 1 {
            assert(i * ps < c) by (nonlinear_arith)
                requires c == ps * q + r, r > 0, 0 <= i <= q, ps > 0;
        }
    } else {
        assert(q * ps >= c) by (nonlinear_arith)
            requires c == ps * q + r, r == 0;
        if 0 <= i < q {
            assert(i * ps < c) by (nonlinear_arith)
                requires c == ps * q, 0 <= i < q, ps > 0;
        }
    }
}

/// The position of the `i`-th page of `page_size` albums.
pub fn chunk_offset(i: u16, page_size: u16) -> (r: u16)
    requires
        i * page_size <= u16::MAX,
    ensures
        r == i * page_size,
{
    i * page_size
}


/// The genres of an album's first artist, as a set.
pub open spec fn album_genres(a: FullAlbum) -> Set<Seq<char>> {
    match a.artists@[0].genres {
        Some(g) => str_views(g@).to_set(),
        None => Set::empty(),
    }
}

/// The genres of the first artists of the albums.
pub open spec fn first_artist_genres(albums: Seq<FullAlbum>) -> Set<Seq<char>>
    decreases albums.len(),
{
    if albums.len() == 0 {
        Set::empty()
    } else {
        first_artist_genres(albums.drop_last()).union(album_genres(albums.last()))
    }
}

proof fn lemma_take_push_to_set(s: Seq<Seq<char>>, j: int)
    requires
        0 <= j < s.len(),
    ensures
        s.take(j + 1).to_set() == s.take(j).to_set().insert(s[j]),
{
    assert(s.take(j + 1) =~= s.take(j).push(s[j]));
    s.take(j).lemma_push_to_set_commute(s[j]);
}

/// Adds `g` to the genres unless it is there already.
fn add_genre(genres: &mut Vec<String>, g: &String)
    ensures
        str_views(final(genres)@).to_set() == str_views(old(genres)@).to_set().insert(g@),
        str_views(old(genres)@).no_duplicates() ==> str_views(final(genres)@).no_duplicates(),
{
    let mut i: usize = 0;
    while i < genres.len()
        invariant
            i <= genres@.len(),
            forall|k: int| 0 <= k < i ==> (#[trigger] genres@[k])@ != g@,
        decreases genres@.len() - i,
    {
        if crate::text::str_eq(genres[i].as_str(), g.as_str()) {
            proof {
                let v = str_views(genres@);
                assert(v[i as int] == g@);
                assert(v.to_set().contains(g@));
                assert(v.to_set().insert(g@) =~= v.to_set());
            }
            return;
        }
        i = i + 1;
    }
    let ghost before = genres@;
    genres.push(g.clone());
    proof {
        let v0 = str_views(before);
        let v1 = str_views(genres@);
        assert(v1 =~= v0.push(g@));
        v0.lemma_push_to_set_commute(g@);
        assert(!v0.contains(g@)) by {
            if v0.contains(g@) {
                let k = choose|k: int| 0 <= k < v0.len() && v0[k] == g@;
                assert(before[k]@ == g@);
            }
        }
        if v0.no_duplicates() {
            assert forall|a: int, b: int| 0 <= a < v1.len() && 0 <= b < v1.len() && a != b
                implies v1[a] != v1[b] by {
                if a < v0.len() && b < v0.len() {
                    assert(v1[a] == v0[a] && v1[b] == v0[b]);
                } else if a < v0.len() {
                    assert(v1[a] == v0[a]);
                } else if b < v0.len() {
                    assert(v1[b] == v0[b]);
                }
            }
        }
    }
}

/// Takes a chunk of albums into the library: they are added after the
/// albums shown so far, and the genres of their first artists join the
/// genres offered as filters, each once.
pub fn add_library_chunk(albums_data: &mut Vec<FullAlbum>, genres: &mut Vec<String>, albums: Vec<FullAlbum>)
    requires
        forall|i: int| 0 <= i < albums@.len() ==> (#[trigger] albums@[i]).artists@.len() > 0,
    ensures
        final(albums_data)@ == old(albums_data)@ + albums@,
        str_views(final(genres)@).to_set()
            == str_views(old(genres)@).to_set().union(first_artist_genres(albums@)),
        str_views(old(genres)@).no_duplicates() ==> str_views(final(genres)@).no_duplicates(),
{
    let ghost g0 = str_views(genres@).to_set();
    let ghost d0 = str_views(genres@).no_duplicates();
    let mut i: usize = 0;
    while i < albums.len()
        invariant
            i <= albums@.len(),
            forall|k: int| 0 <= k < albums@.len() ==> (#[trigger] albums@[k]).artists@.len() > 0,
            str_views(genres@).to_set() == g0.union(first_artist_genres(albums@.take(i as int))),
            d0 ==> str_views(genres@).no_duplicates(),
        decreases albums@.len() - i,
    {
        let ghost before = str_views(genres@).to_set();
        proof {
            assert(albums@.take(i + 1).drop_last() =~= albums@.take(i as int));
            assert(albums@.take(i + 1).last() == albums@[i as int]);
        }
        match &albums[i].artists[0].genres {
            Some(gs) => {
                let mut j: usize = 0;
                while j < gs.len()
                    invariant
                        j <= gs@.len(),
                        str_views(genres@).to_set() == before.union(str_views(gs@).take(j as int).to_set()),
                        d0 ==> str_views(genres@).no_duplicates(),
                    decreases gs@.len() - j,
                {
                    add_genre(genres, &gs[j]);
                    proof {
                        let s = str_views(gs@);
                        lemma_take_push_to_set(s, j as int);
                        assert(before.union(s.take(j + 1).to_set())
                            =~= before.union(s.take(j as int).to_set()).insert(gs@[j as int]@));
                    }
                    j = j + 1;
                }
                proof {
                    assert(str_views(gs@).take(gs@.len() as int) =~= str_views(gs@));
                    assert(album_genres(albums@[i as int]) == str_views(gs@).to_set());
                    assert(g0.union(first_artist_genres(albums@.take(i + 1)))
                        =~= before.union(str_views(gs@).to_set()));
                }
            },
            None => {
                proof {
                    assert(album_genres(albums@[i as int]) =~= Set::<Seq<char>>::empty());
                    assert(g0.union(first_artist_genres(albums@.take(i + 1))) =~= before);
                }
            },
        }
        i = i + 1;
    }
    assert(albums@.take(albums@.len() as int) =~= albums@);
    let mut rest = albums;
    let ghost start = albums_data@;
    let ghost all = rest@;
    let mut taken: Vec<FullAlbum> = Vec::new();
    std::mem::swap(&mut taken, &mut rest);
    while taken.len() > 0
        invariant
            albums_data@ + taken@ == start + all,
        decreases taken@.len(),
    {
        let x = taken.remove(0);
        albums_data.push(x);
        assert(albums_data@ + taken@ =~= start + all);
    }
    assert(albums_data@ =~= start + all);
}

} // verus!
