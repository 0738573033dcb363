//! Counting what the tracks of the catalog refer to.

use crate::db::model::{Catalog, TrackRow};
use crate::db::store::DbStats;
use vstd::prelude::*;

verus! {

/// The numbers that occur in a column, empty cells left out.
pub open spec fn present(column: Seq<Option<i64>>) -> Set<i64> {
    Set::new(|v: i64| column.contains(Some(v)))
}

/// The track groups of the tracks, one cell for each track.
pub open spec fn group_column(tracks: Seq<TrackRow>) -> Seq<Option<i64>> {
    tracks.map_values(|t: TrackRow| Some(t.track_group_id))
}

/// The albums of the tracks, one cell for each track.
pub open spec fn album_column(tracks: Seq<TrackRow>) -> Seq<Option<i64>> {
    tracks.map_values(|t: TrackRow| t.album_id)
}

/// The artists of the tracks, one cell for each track.
pub open spec fn artist_column(tracks: Seq<TrackRow>) -> Seq<Option<i64>> {
    tracks.map_values(|t: TrackRow| t.artist_id)
}

/// How much a catalog holds: its tracks, and the track groups, albums and artists that
/// some track belongs to, each counted once.
pub open spec fn stats_of(c: Catalog) -> DbStats {
    DbStats {
        num_tracks: c.tracks.len() as usize,
        num_track_groups: present(group_column(c.tracks)).len() as usize,
        num_albums: present(album_column(c.tracks)).len() as usize,
        num_artists: present(artist_column(c.tracks)).len() as usize,
    }
}

/// The numbers of a column are as many as the cells at most.
pub proof fn lemma_present_bounded(column: Seq<Option<i64>>)
    ensures
        present(column).finite(),
        present(column).len() <= column.len(),
    decreases column.len(),
{
    if column.len() == 0 {
        assert(present(column) =~= Set::empty());
    } else {
        let rest = column.drop_last();
        lemma_present_bounded(rest);
        lemma_present_push(rest, column.last());
        assert(rest.push(column.last()) =~= column);
    }
}

/// One more cell adds its number to the numbers of the column, if it has one.
pub proof fn lemma_present_push(column: Seq<Option<i64>>, cell: Option<i64>)
    ensures
        present(column.push(cell)) == match cell {
            Some(v) => present(column).insert(v),
            None => present(column),
        },
{
    let longer = column.push(cell);
    assert forall|v: i64| longer.contains(Some(v)) <==> (column.contains(Some(v)) || cell == Some(
        v,
    )) by {
        if longer.contains(Some(v)) {
            let i = choose|i: int| 0 <= i < longer.len() && longer[i] == Some(v);
            if i < column.len() {
                assert(column[i] == Some(v));
            }
        }
        if column.contains(Some(v)) {
            let i = choose|i: int| 0 <= i < column.len() && column[i] == Some(v);
            assert(longer[i] == Some(v));
        }
        if cell == Some(v) {
            assert(longer[column.len() as int] == Some(v));
        }
    }
    match cell {
        Some(v) => {
            assert(present(longer) =~= present(column).insert(v));
        },
        None => {
            assert(present(longer) =~= present(column));
        },
    }
}

/// How many different numbers a column holds.
pub fn count_distinct(column: &Vec<Option<i64>>) -> (r: usize)
    ensures
        r == present(column@).len(),
{
    let mut seen: Vec<i64> = Vec::new();
    let mut i: usize = 0;
    proof {
        assert(column@.take(0) =~= Seq::empty());
        assert(present(column@.take(0)) =~= Set::empty());
        assert(seen@.to_set() =~= Set::empty());
    }
    while i < column.len()
        invariant
            i <= column@.len(),
            seen@.no_duplicates(),
            seen@.len() <= i,
            seen@.to_set() == present(column@.take(i as int)),
        decreases column@.len() - i,
    {
        proof {
            assert(column@.take(i + 1) =~= column@.take(i as int).push(column@[i as int]));
            lemma_present_push(column@.take(i as int), column@[i as int]);
        }
        match column[i] {
            Some(v) => {
                let mut known = false;
                let mut j: usize = 0;
                while j < seen.len()
                    invariant
                        j <= seen@.len(),
                        known == exists|k: int| 0 <= k < j && seen@[k] == v,
                    decreases seen@.len() - j,
                {
                    if seen[j] == v {
                        known = true;
                    }
                    j += 1;
                }
                if !known {
                    let ghost before = seen@;
                    seen.push(v);
                    proof {
                        assert(!before.contains(v));
                        assert(seen@.to_set() =~= before.to_set().insert(v)) by {
                            assert forall|x: i64| seen@.contains(x) <==> (before.contains(x) || x
                                == v) by {
                                if seen@.contains(x) {
                                    let k = choose|k: int| 0 <= k < seen@.len() && seen@[k] == x;
                                    if k < before.len() {
                                        assert(before[k] == x);
                                    }
                                }
                                if before.contains(x) {
                                    let k = choose|k: int| 0 <= k < before.len() && before[k] == x;
                                    assert(seen@[k] == x);
                                }
                                if x == v {
                                    assert(seen@[before.len() as int] == v);
                                }
                            }
                        }
                    }
                } else {
                    proof {
                        assert(seen@.contains(v));
                        assert(seen@.to_set().insert(v) =~= seen@.to_set());
                    }
                }
            },
            None => {},
        }
        i += 1;
    }
    proof {
        assert(column@.take(column@.len() as int) =~= column@);
        seen@.unique_seq_to_set();
    }
    seen.len()
}

} // verus!
