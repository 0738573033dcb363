//! Listings of the catalog in the order in which they are shown.

use crate::db::database::Database;
use crate::db::model::{row_exists, Catalog, TrackRow};
use crate::db::policy::title_of;
use crate::db::store::StoredTrack;
use crate::ident::TrackId;
use crate::tags::{lemma_view_at, TagKind};
use vstd::prelude::*;
use vstd::utf8::*;

verus! {

/// The order of byte strings: by the first byte in which they differ, and the shorter
/// first where one begins with the other.
pub open spec fn bytes_le(a: Seq<u8>, b: Seq<u8>) -> bool
    decreases a.len(),
{
    if a.len() == 0 {
        true
    } else if b.len() == 0 {
        false
    } else if a[0] != b[0] {
        a[0] < b[0]
    } else {
        bytes_le(a.drop_first(), b.drop_first())
    }
}

/// Of two byte strings one comes no later than the other.
pub proof fn lemma_bytes_le_total(a: Seq<u8>, b: Seq<u8>)
    ensures
        bytes_le(a, b) || bytes_le(b, a),
    decreases a.len(),
{
    if a.len() > 0 && b.len() > 0 && a[0] == b[0] {
        lemma_bytes_le_total(a.drop_first(), b.drop_first());
    }
}

/// Byte strings that agree in their first `i` bytes stand as what follows those bytes.
pub proof fn lemma_bytes_le_skips(a: Seq<u8>, b: Seq<u8>, i: int)
    requires
        0 <= i <= a.len(),
        i <= b.len(),
        a.take(i) == b.take(i),
    ensures
        bytes_le(a, b) == bytes_le(a.skip(i), b.skip(i)),
    decreases i,
{
    if i == 0 {
        assert(a.skip(0) =~= a);
        assert(b.skip(0) =~= b);
    } else {
        assert(a[0] == a.take(i)[0] && b[0] == b.take(i)[0]);
        assert(a.drop_first().take(i - 1) =~= a.take(i).drop_first());
        assert(b.drop_first().take(i - 1) =~= b.take(i).drop_first());
        lemma_bytes_le_skips(a.drop_first(), b.drop_first(), i - 1);
        assert(a.drop_first().skip(i - 1) =~= a.skip(i));
        assert(b.drop_first().skip(i - 1) =~= b.skip(i));
    }
}

/// A byte with capital letters of the Latin alphabet made small.
pub open spec fn fold_case(b: u8) -> u8 {
    if 0x41 <= b <= 0x5a {
        (b + 0x20) as u8
    } else {
        b
    }
}

/// A byte string with capital letters of the Latin alphabet made small.
pub open spec fn folded(s: Seq<u8>) -> Seq<u8> {
    s.map_values(|b: u8| fold_case(b))
}

fn fold(b: u8) -> (r: u8)
    ensures
        r == fold_case(b),
{
    if 0x41 <= b && b <= 0x5a {
        b + 0x20
    } else {
        b
    }
}

fn slice_le(a: &[u8], b: &[u8], ignore_case: bool) -> (r: bool)
    ensures
        r == if ignore_case {
            bytes_le(folded(a@), folded(b@))
        } else {
            bytes_le(a@, b@)
        },
{
    let ghost x = if ignore_case {
        folded(a@)
    } else {
        a@
    };
    let ghost y = if ignore_case {
        folded(b@)
    } else {
        b@
    };
    let mut i: usize = 0;
    proof {
        assert(x.take(0) =~= y.take(0));
    }
    while i < a.len() && i < b.len()
        invariant
            i <= a@.len(),
            i <= b@.len(),
            x.len() == a@.len(),
            y.len() == b@.len(),
            x == if ignore_case {
                folded(a@)
            } else {
                a@
            },
            y == if ignore_case {
                folded(b@)
            } else {
                b@
            },
            x.take(i as int) == y.take(i as int),
        decreases a@.len() - i,
    {
        let p = if ignore_case {
            fold(a[i])
        } else {
            a[i]
        };
        let q = if ignore_case {
            fold(b[i])
        } else {
            b[i]
        };
        if p != q {
            proof {
                lemma_bytes_le_skips(x, y, i as int);
                assert(x.skip(i as int)[0] == p && y.skip(i as int)[0] == q);
            }
            return p < q;
        }
        proof {
            assert(x.take(i + 1) =~= x.take(i as int).push(p));
            assert(y.take(i + 1) =~= y.take(i as int).push(q));
        }
        i += 1;
    }
    proof {
        lemma_bytes_le_skips(x, y, i as int);
        if i < a.len() {
            assert(y.skip(i as int).len() == 0);
            assert(x.skip(i as int).len() > 0);
        } else {
            assert(x.skip(i as int).len() == 0);
        }
    }
    i >= a.len()
}

/// By what a listing is ordered.
#[derive(Debug, Clone, Copy, PartialEq, Eq, Structural)]
pub enum TrackOrder {
    /// By the title of the track.
    Title,
    /// By the title of the album, capitals and small letters alike; tracks without an
    /// album come first.
    AlbumTitle,
}

/// The UTF-8 form of the title of the album of a track, if the track has an album.
pub open spec fn album_title_of(c: Catalog, track: TrackRow) -> Option<Seq<u8>> {
    match track.album_id {
        Some(a) => if row_exists(a, c.albums.len()) {
            Some(encode_utf8(c.albums[a - 1].title))
        } else {
            None
        },
        None => None,
    }
}

/// Whether one track comes no later than another in a listing.
pub open spec fn comes_first(c: Catalog, order: TrackOrder, a: TrackRow, b: TrackRow) -> bool {
    match order {
        TrackOrder::Title => bytes_le(
            encode_utf8(title_of(a.tags)),
            encode_utf8(title_of(b.tags)),
        ),
        TrackOrder::AlbumTitle => match (album_title_of(c, a), album_title_of(c, b)) {
            (None, _) => true,
            (Some(_), None) => false,
            (Some(x), Some(y)) => bytes_le(folded(x), folded(y)),
        },
    }
}

/// Whether the tracks at the given positions stand in the order of the listing.
pub open spec fn is_listed(c: Catalog, order: TrackOrder, positions: Seq<usize>) -> bool {
    &&& forall|k: int| 0 <= k < positions.len() ==> (#[trigger] positions[k]) < c.tracks.len()
    &&& forall|k: int|
        0 <= k < positions.len() - 1 ==> comes_first(
            c,
            order,
            c.tracks[#[trigger] positions[k] as int],
            c.tracks[positions[k + 1] as int],
        )
}

/// The positions of the tracks among the first `k` whose number is one of those given.
pub open spec fn selected(tracks: Seq<TrackRow>, ids: Seq<TrackId>, k: nat) -> Seq<usize>
    decreases k,
{
    if k == 0 {
        Seq::empty()
    } else if ids.contains(TrackId(tracks[k - 1].track_id)) {
        selected(tracks, ids, (k - 1) as nat).push((k - 1) as usize)
    } else {
        selected(tracks, ids, (k - 1) as nat)
    }
}

/// The positions of the first `k` tracks.
pub open spec fn all_positions(k: nat) -> Seq<usize> {
    Seq::new(k, |i: int| i as usize)
}

impl Database {
    fn album_title(&self, position: usize) -> (r: Option<&[u8]>)
        requires
            position < self.tracks@.len(),
        ensures
            match r {
                Some(bytes) => album_title_of(self@, self@.tracks[position as int]) == Some(
                    bytes@,
                ),
                None => album_title_of(self@, self@.tracks[position as int]) is None,
            },
    {
        match self.tracks[position].track.album_id {
            Some(a) => if a.0 >= 1 && a.0 as u64 <= self.albums.len() as u64 {
                Some(self.albums[(a.0 - 1) as usize].title.as_str().as_bytes())
            } else {
                None
            },
            None => None,
        }
    }

    fn before(&self, order: TrackOrder, a: usize, b: usize) -> (r: bool)
        requires
            a < self.tracks@.len(),
            b < self.tracks@.len(),
        ensures
            r == comes_first(self@, order, self@.tracks[a as int], self@.tracks[b as int]),
    {
        proof {
            lemma_view_at(self.tracks@[a as int].track.tags, TagKind::TrackTitle);
            lemma_view_at(self.tracks@[b as int].track.tags, TagKind::TrackTitle);
        }
        match order {
            TrackOrder::Title => slice_le(
                self.tracks[a].track.tags.track_title.as_str().as_bytes(),
                self.tracks[b].track.tags.track_title.as_str().as_bytes(),
                false,
            ),
            TrackOrder::AlbumTitle => match (self.album_title(a), self.album_title(b)) {
                (None, _) => true,
                (Some(_), None) => false,
                (Some(x), Some(y)) => slice_le(x, y, true),
            },
        }
    }

    fn insert_listed(&self, order: TrackOrder, listing: &mut Vec<usize>, position: usize)
        requires
            position < self.tracks@.len(),
            is_listed(self@, order, old(listing)@),
        ensures
            is_listed(self@, order, final(listing)@),
            final(listing)@.to_multiset() == old(listing)@.to_multiset().insert(position),
    {
        let mut at: usize = 0;
        while at < listing.len() && self.before(order, listing[at], position)
            invariant
                at <= listing@.len(),
                position < self.tracks@.len(),
                *listing == *old(listing),
                is_listed(self@, order, listing@),
                at > 0 ==> comes_first(
                    self@,
                    order,
                    self@.tracks[listing@[at - 1] as int],
                    self@.tracks[position as int],
                ),
            decreases listing@.len() - at,
        {
            at += 1;
        }
        proof {
            if at < listing@.len() {
                lemma_comes_first_total(
                    self@,
                    order,
                    self@.tracks[listing@[at as int] as int],
                    self@.tracks[position as int],
                );
            }
            vstd::seq_lib::to_multiset_insert(listing@, at as int, position);
        }
        let ghost before = listing@;
        listing.insert(at, position);
        proof {
            let after = listing@;
            assert forall|k: int| 0 <= k < after.len() - 1 implies comes_first(
                self@,
                order,
                self@.tracks[#[trigger] after[k] as int],
                self@.tracks[after[k + 1] as int],
            ) by {
                if k + 1 < at {
                    assert(after[k] == before[k] && after[k + 1] == before[k + 1]);
                } else if k + 1 == at {
                    assert(after[k] == before[k]);
                } else if k == at {
                    assert(after[k + 1] == before[k]);
                } else {
                    assert(after[k] == before[k - 1] && after[k + 1] == before[k]);
                    assert(comes_first(
                        self@,
                        order,
                        self@.tracks[before[k - 1] as int],
                        self@.tracks[before[k - 1 + 1] as int],
                    ));
                }
            }
            assert forall|k: int| 0 <= k < after.len() implies (#[trigger] after[k])
                < self@.tracks.len() by {
                if k < at {
                    assert(after[k] == before[k]);
                } else if k > at {
                    assert(after[k] == before[k - 1]);
                }
            }
        }
    }

    /// The tracks whose numbers are among those given, each once, ordered by their
    /// titles.
    pub fn get_tracks_by_id(&self, track_ids: &Vec<TrackId>) -> (r: Vec<&StoredTrack>)
        requires
            self.wf(),
        ensures
            exists|positions: Seq<usize>|
                {
                    &&& is_listed(self@, TrackOrder::Title, positions)
                    &&& positions.to_multiset() == selected(
                        self@.tracks,
                        track_ids@,
                        self@.tracks.len(),
                    ).to_multiset()
                    &&& r@.len() == positions.len()
                    &&& forall|k: int|
                        0 <= k < r@.len() ==> *(#[trigger] r@[k]) == self.tracks@[positions[k] as int]
                },
    {
        let mut listing: Vec<usize> = Vec::new();
        let mut i: usize = 0;
        while i < self.tracks.len()
            invariant
                i <= self.tracks@.len(),
                is_listed(self@, TrackOrder::Title, listing@),
                listing@.to_multiset() == selected(self@.tracks, track_ids@, i as nat).to_multiset(),
            decreases self.tracks@.len() - i,
        {
            let id = self.tracks[i].track_id;
            let mut wanted = false;
            let mut j: usize = 0;
            while j < track_ids.len()
                invariant
                    j <= track_ids@.len(),
                    wanted == exists|k: int| 0 <= k < j && track_ids@[k] == id,
                decreases track_ids@.len() - j,
            {
                if track_ids[j].0 == id.0 {
                    wanted = true;
                }
                j += 1;
            }
            proof {
                if wanted {
                    let k = choose|k: int| 0 <= k < track_ids@.len() && track_ids@[k] == id;
                    assert(track_ids@.contains(id));
                    vstd::seq_lib::to_multiset_build(
                        selected(self@.tracks, track_ids@, i as nat),
                        i,
                    );
                } else {
                    if track_ids@.contains(id) {
                        let k = choose|k: int| 0 <= k < track_ids@.len() && track_ids@[k] == id;
                    }
                }
            }
            if wanted {
                self.insert_listed(TrackOrder::Title, &mut listing, i);
            }
            i += 1;
        }
        let mut out: Vec<&StoredTrack> = Vec::new();
        let mut k: usize = 0;
        while k < listing.len()
            invariant
                k <= listing@.len(),
                is_listed(self@, TrackOrder::Title, listing@),
                out@.len() == k,
                forall|m: int| 0 <= m < k ==> *(#[trigger] out@[m]) == self.tracks@[listing@[m] as int],
            decreases listing@.len() - k,
        {
            out.push(&self.tracks[listing[k]]);
            k += 1;
        }
        out
    }

    /// The numbers of all tracks, ordered by the titles of their albums.
    pub fn get_track_listing(&self) -> (r: Vec<TrackId>)
        requires
            self.wf(),
        ensures
            exists|positions: Seq<usize>|
                {
                    &&& is_listed(self@, TrackOrder::AlbumTitle, positions)
                    &&& positions.to_multiset() == all_positions(self@.tracks.len()).to_multiset()
                    &&& r@.len() == positions.len()
                    &&& forall|k: int|
                        0 <= k < r@.len() ==> (#[trigger] r@[k]).0
                            == self@.tracks[positions[k] as int].track_id
                },
    {
        let mut listing: Vec<usize> = Vec::new();
        let mut i: usize = 0;
        proof {
            assert(all_positions(0) =~= Seq::empty());
        }
        while i < self.tracks.len()
            invariant
                i <= self.tracks@.len(),
                is_listed(self@, TrackOrder::AlbumTitle, listing@),
                listing@.to_multiset() == all_positions(i as nat).to_multiset(),
            decreases self.tracks@.len() - i,
        {
            proof {
                assert(all_positions((i + 1) as nat) =~= all_positions(i as nat).push(i));
                vstd::seq_lib::to_multiset_build(all_positions(i as nat), i);
            }
            self.insert_listed(TrackOrder::AlbumTitle, &mut listing, i);
            i += 1;
        }
        let mut out: Vec<TrackId> = Vec::new();
        let mut k: usize = 0;
        while k < listing.len()
            invariant
                k <= listing@.len(),
                is_listed(self@, TrackOrder::AlbumTitle, listing@),
                out@.len() == k,
                forall|m: int|
                    0 <= m < k ==> (#[trigger] out@[m]).0
                        == self@.tracks[listing@[m] as int].track_id,
            decreases listing@.len() - k,
        {
            out.push(self.tracks[listing[k]].track_id);
            k += 1;
        }
        out
    }
}

/// Of two tracks one comes no later than the other.
pub proof fn lemma_comes_first_total(c: Catalog, order: TrackOrder, a: TrackRow, b: TrackRow)
    ensures
        comes_first(c, order, a, b) || comes_first(c, order, b, a),
{
    match order {
        TrackOrder::Title => {
            lemma_bytes_le_total(encode_utf8(title_of(a.tags)), encode_utf8(title_of(b.tags)));
        },
        TrackOrder::AlbumTitle => {
            match (album_title_of(c, a), album_title_of(c, b)) {
                (Some(x), Some(y)) => {
                    lemma_bytes_le_total(folded(x), folded(y));
                },
                _ => {},
            }
        },
    }
}

} // verus!
