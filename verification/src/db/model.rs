//! The catalog as plain values: the rows of its tables, and what a consistent catalog is.

use crate::ident::TrackKey;
use crate::tags::TagValueView;
use vstd::prelude::*;

verus! {

/// A row of the plugin table.
pub struct PluginRow {
    pub plugin_id: i64,
    pub uuid: u128,
}

/// A row of the artist table.
pub struct ArtistRow {
    pub artist_id: i64,
    pub name: Seq<char>,
    pub mbid: Option<u128>,
}

/// A row of the album table.
pub struct AlbumRow {
    pub album_id: i64,
    pub title: Seq<char>,
    pub mbid: Option<u128>,
    pub artist_id: Option<i64>,
}

/// A row of the track table.
pub struct TrackRow {
    pub track_id: i64,
    pub track_group_id: i64,
    pub artist_id: Option<i64>,
    pub album_artist_id: Option<i64>,
    pub album_id: Option<i64>,
    pub key: TrackKey,
    pub tags: Seq<TagValueView>,
}

/// The tables of the catalog. Track groups have no columns but their number, so the
/// table of groups is the count of groups made so far.
pub struct Catalog {
    pub plugins: Seq<PluginRow>,
    pub artists: Seq<ArtistRow>,
    pub albums: Seq<AlbumRow>,
    pub track_groups: nat,
    pub tracks: Seq<TrackRow>,
}

/// Whether `id` is the number of one of the first `count` rows of a table. Rows are
/// numbered from one, in the order in which they were made.
pub open spec fn row_exists(id: i64, count: nat) -> bool {
    1 <= id <= count
}

/// Whether an optional reference is empty or points at one of the first `count` rows.
pub open spec fn reference_holds(id: Option<i64>, count: nat) -> bool {
    id matches Some(n) ==> row_exists(n, count)
}

impl Catalog {
    /// A catalog without rows.
    pub open spec fn empty() -> Catalog {
        Catalog {
            plugins: Seq::empty(),
            artists: Seq::empty(),
            albums: Seq::empty(),
            track_groups: 0,
            tracks: Seq::empty(),
        }
    }

    /// Rows carry their position, counted from one, as their number.
    pub open spec fn numbered(self) -> bool {
        &&& forall|i: int| 0 <= i < self.plugins.len() ==> (#[trigger] self.plugins[i]).plugin_id == i + 1
        &&& forall|i: int| 0 <= i < self.artists.len() ==> (#[trigger] self.artists[i]).artist_id == i + 1
        &&& forall|i: int| 0 <= i < self.albums.len() ==> (#[trigger] self.albums[i]).album_id == i + 1
        &&& forall|i: int| 0 <= i < self.tracks.len() ==> (#[trigger] self.tracks[i]).track_id == i + 1
    }

    /// No plugin is registered twice, and no track of a plugin stands in two rows.
    pub open spec fn unique(self) -> bool {
        &&& forall|i: int, j: int|
            0 <= i < j < self.plugins.len() ==> (#[trigger] self.plugins[i]).uuid != (
            #[trigger] self.plugins[j]).uuid
        &&& forall|i: int, j: int|
            0 <= i < j < self.tracks.len() ==> (#[trigger] self.tracks[i]).key != (
            #[trigger] self.tracks[j]).key
    }

    /// Every reference points at a row: each track belongs to a track group that was
    /// made, its artists and its album exist, and so does the artist of each album. A
    /// track without an album has no album artist.
    pub open spec fn linked(self) -> bool {
        &&& forall|i: int|
            0 <= i < self.albums.len() ==> reference_holds(
                (#[trigger] self.albums[i]).artist_id,
                self.artists.len(),
            )
        &&& forall|i: int|
            0 <= i < self.tracks.len() ==> {
                let t = #[trigger] self.tracks[i];
                &&& row_exists(t.track_group_id, self.track_groups)
                &&& reference_holds(t.artist_id, self.artists.len())
                &&& reference_holds(t.album_artist_id, self.artists.len())
                &&& reference_holds(t.album_id, self.albums.len())
                &&& t.album_id is None ==> t.album_artist_id is None
            }
    }

    /// Every table has room for one more row under a 64-bit number.
    pub open spec fn bounded(self) -> bool {
        &&& self.plugins.len() <= i64::MAX
        &&& self.artists.len() <= i64::MAX
        &&& self.albums.len() <= i64::MAX
        &&& self.track_groups <= i64::MAX
        &&& self.tracks.len() <= i64::MAX
    }

    /// A consistent catalog.
    pub open spec fn wf(self) -> bool {
        &&& self.numbered()
        &&& self.unique()
        &&& self.linked()
        &&& self.bounded()
    }
}

/// The position of the first element that satisfies `pred`, if there is one.
pub open spec fn first_where<T>(s: Seq<T>, pred: spec_fn(T) -> bool) -> Option<int>
    decreases s.len(),
{
    if s.len() == 0 {
        None
    } else {
        match first_where(s.drop_last(), pred) {
            Some(i) => Some(i),
            None => if pred(s.last()) {
                Some(s.len() - 1)
            } else {
                None
            },
        }
    }
}

/// `first_where` finds an element that satisfies the predicate, and none stands before
/// it; it finds nothing only where no element satisfies the predicate.
pub proof fn lemma_first_where<T>(s: Seq<T>, pred: spec_fn(T) -> bool)
    ensures
        match first_where(s, pred) {
            Some(i) => 0 <= i < s.len() && pred(s[i]) && forall|j: int|
                0 <= j < i ==> !pred(#[trigger] s[j]),
            None => forall|j: int| 0 <= j < s.len() ==> !pred(#[trigger] s[j]),
        },
    decreases s.len(),
{
    if s.len() > 0 {
        lemma_first_where(s.drop_last(), pred);
        assert forall|j: int| 0 <= j < s.len() - 1 implies s.drop_last()[j] == s[j] by {}
        match first_where(s.drop_last(), pred) {
            Some(i) => {
                assert(s.drop_last()[i] == s[i]);
                assert forall|j: int| 0 <= j < i implies !pred(#[trigger] s[j]) by {
                    assert(s.drop_last()[j] == s[j]);
                }
            },
            None => {
                assert forall|j: int| 0 <= j < s.len() - 1 implies !pred(#[trigger] s[j]) by {
                    assert(s.drop_last()[j] == s[j]);
                }
            },
        }
    }
}

/// An element that satisfies the predicate, with none before it that does, is what
/// `first_where` finds.
pub proof fn lemma_first_where_is<T>(s: Seq<T>, pred: spec_fn(T) -> bool, i: int)
    requires
        0 <= i < s.len(),
        pred(s[i]),
        forall|j: int| 0 <= j < i ==> !pred(#[trigger] s[j]),
    ensures
        first_where(s, pred) == Some(i),
{
    lemma_first_where(s, pred);
}

/// Where no element satisfies the predicate, `first_where` finds nothing.
pub proof fn lemma_first_where_none<T>(s: Seq<T>, pred: spec_fn(T) -> bool)
    requires
        forall|j: int| 0 <= j < s.len() ==> !pred(#[trigger] s[j]),
    ensures
        first_where(s, pred) is None,
{
    lemma_first_where(s, pred);
}

} // verus!
