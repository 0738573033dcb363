//! How a scanned track finds its rows: the artist, the album and the track group it
//! belongs to are looked up by what the tags know of them, and made where they are
//! missing.

use crate::db::model::{first_where, AlbumRow, ArtistRow, Catalog, PluginRow, TrackRow};
use crate::ident::TrackKey;
use crate::tags::TagValueView;
use vstd::prelude::*;

verus! {

/// What the tags of a track know of an artist.
pub struct ArtistQuery {
    pub name: Option<Seq<char>>,
    pub mbid: Option<u128>,
}

/// What the tags of a track know of its album.
pub struct AlbumQuery {
    pub title: Option<Seq<char>>,
    pub mbid: Option<u128>,
    pub album_artist: ArtistQuery,
    pub artist: ArtistQuery,
}

/// What decides the track group of a track.
pub struct GroupQuery {
    pub title: Seq<char>,
    pub track_mbid: Option<u128>,
    pub album_id: Option<i64>,
}

/// The album of a track, and the artist that stands for the album.
pub struct AlbumFound {
    pub id: i64,
    pub album_artist_id: Option<i64>,
}

/// Position of the track title in the tags.
pub open spec fn title_of(tags: Seq<TagValueView>) -> Seq<char> {
    match tags[crate::tags::TagKind::TrackTitle.spec_index()] {
        TagValueView::Text(s) => s,
        _ => Seq::empty(),
    }
}

/// The text under a kind of tag, if there is any.
pub open spec fn text_of(tags: Seq<TagValueView>, kind: crate::tags::TagKind) -> Option<
    Seq<char>,
> {
    match tags[kind.spec_index()] {
        TagValueView::Text(s) => Some(s),
        _ => None,
    }
}

/// The identifier under a kind of tag, if there is any.
pub open spec fn id_of(tags: Seq<TagValueView>, kind: crate::tags::TagKind) -> Option<u128> {
    match tags[kind.spec_index()] {
        TagValueView::Id(u) => Some(u),
        _ => None,
    }
}

/// What the tags know of the artist of the track.
pub open spec fn track_artist_query(tags: Seq<TagValueView>) -> ArtistQuery {
    ArtistQuery {
        name: text_of(tags, crate::tags::TagKind::TrackArtist),
        mbid: id_of(tags, crate::tags::TagKind::MusicbrainzArtistId),
    }
}

/// What the tags know of the artist of the album.
pub open spec fn album_artist_query(tags: Seq<TagValueView>) -> ArtistQuery {
    ArtistQuery {
        name: text_of(tags, crate::tags::TagKind::AlbumArtist),
        mbid: id_of(tags, crate::tags::TagKind::MusicbrainzReleaseArtistId),
    }
}

/// What the tags know of the album.
pub open spec fn album_query(tags: Seq<TagValueView>) -> AlbumQuery {
    AlbumQuery {
        title: text_of(tags, crate::tags::TagKind::AlbumTitle),
        mbid: id_of(tags, crate::tags::TagKind::MusicbrainzReleaseGroupId),
        album_artist: album_artist_query(tags),
        artist: track_artist_query(tags),
    }
}

/// What decides the track group, given the album that was found for the track.
pub open spec fn group_query(tags: Seq<TagValueView>, album_id: Option<i64>) -> GroupQuery {
    GroupQuery {
        title: title_of(tags),
        track_mbid: id_of(tags, crate::tags::TagKind::MusicbrainzTrackId),
        album_id,
    }
}

impl ArtistQuery {
    /// Enough is known to look for the artist.
    pub open spec fn is_complete(self) -> bool {
        self.mbid is Some || self.name is Some
    }
}

impl AlbumQuery {
    /// Enough is known to look for the album.
    pub open spec fn is_complete(self) -> bool {
        self.mbid is Some || (self.title is Some && (self.album_artist.is_complete()
            || self.artist.is_complete()))
    }
}

/// Selects the artists with the given identifier.
pub open spec fn artist_has_mbid(mbid: u128) -> spec_fn(ArtistRow) -> bool {
    |r: ArtistRow| r.mbid == Some(mbid)
}

/// Selects the artists with the given name.
pub open spec fn artist_has_name(name: Seq<char>) -> spec_fn(ArtistRow) -> bool {
    |r: ArtistRow| r.name == name
}

/// Selects the albums with the given identifier.
pub open spec fn album_has_mbid(mbid: u128) -> spec_fn(AlbumRow) -> bool {
    |r: AlbumRow| r.mbid == Some(mbid)
}

/// Selects the albums with the given title by the given artist.
pub open spec fn album_is(title: Seq<char>, artist_id: i64) -> spec_fn(AlbumRow) -> bool {
    |r: AlbumRow| r.title == title && r.artist_id == Some(artist_id)
}

/// Selects the track of the given plugin under the given identifier.
pub open spec fn track_has_key(key: TrackKey) -> spec_fn(TrackRow) -> bool {
    |r: TrackRow| r.key == key
}

/// Selects the plugin with the given identifier.
pub open spec fn plugin_has_uuid(uuid: u128) -> spec_fn(PluginRow) -> bool {
    |r: PluginRow| r.uuid == uuid
}

/// The catalog with one more artist, and the number of the new row.
pub open spec fn create_artist(c: Catalog, name: Seq<char>, mbid: Option<u128>) -> (Catalog, i64) {
    let id = (c.artists.len() + 1) as i64;
    (Catalog { artists: c.artists.push(ArtistRow { artist_id: id, name, mbid }), ..c }, id)
}

/// Whether the search for an artist ends with a new row.
pub open spec fn artist_is_new(c: Catalog, q: ArtistQuery) -> bool {
    &&& q.name is Some
    &&& q.mbid matches Some(m) ==> first_where(c.artists, artist_has_mbid(m)) is None
    &&& first_where(c.artists, artist_has_name(q.name.unwrap())) is None
}

/// Finds the artist that a query means, or makes the row. An artist is looked up by
/// identifier first, then by name. A row found by name that has no identifier yet takes
/// the identifier of the query; a row that has another keeps its own. Where nothing is
/// found and the name is known, a new row is made. Without a name and an identifier
/// there is no artist, and neither is there one for an unknown identifier without a name.
pub open spec fn find_or_create_artist(c: Catalog, q: ArtistQuery) -> (Catalog, Option<i64>) {
    let by_mbid = match q.mbid {
        Some(m) => first_where(c.artists, artist_has_mbid(m)),
        None => None,
    };
    let by_name = match q.name {
        Some(n) => first_where(c.artists, artist_has_name(n)),
        None => None,
    };
    match by_mbid {
        Some(i) => (c, Some(c.artists[i].artist_id)),
        None => match by_name {
            Some(i) => {
                let row = c.artists[i];
                if q.mbid is Some && row.mbid is None {
                    (
                        Catalog {
                            artists: c.artists.update(i, ArtistRow { mbid: q.mbid, ..row }),
                            ..c
                        },
                        Some(row.artist_id),
                    )
                } else {
                    (c, Some(row.artist_id))
                }
            },
            None => match q.name {
                Some(n) => {
                    let (after, id) = create_artist(c, n, q.mbid);
                    (after, Some(id))
                },
                None => (c, None),
            },
        },
    }
}

/// The catalog with one more album, and the number of the new row.
pub open spec fn create_album(
    c: Catalog,
    title: Seq<char>,
    mbid: Option<u128>,
    artist_id: Option<i64>,
) -> (Catalog, i64) {
    let id = (c.albums.len() + 1) as i64;
    (Catalog { albums: c.albums.push(AlbumRow { album_id: id, title, mbid, artist_id }), ..c }, id)
}

/// The title under which a new album row is made: that of the query, or the empty title
/// where the query knows the album by its identifier alone.
pub open spec fn title_or_empty(title: Option<Seq<char>>) -> Seq<char> {
    match title {
        Some(t) => t,
        None => Seq::empty(),
    }
}

/// Finds the artist that stands for an album: the album artist where the tags know one,
/// else the artist of the track.
pub open spec fn find_or_create_album_artist(c: Catalog, q: AlbumQuery) -> (Catalog, Option<i64>) {
    let (first, album_artist) = find_or_create_artist(c, q.album_artist);
    match album_artist {
        Some(_) => (first, album_artist),
        None => find_or_create_artist(first, q.artist),
    }
}

/// Finds the album that a query means, or makes the row. Without an identifier, and
/// without a title together with something known of an artist, there is no album. An
/// album found by its identifier is the answer at once. Else the artist that stands for
/// the album is found or made, and the album is looked up by title and that artist; a row
/// found so that has no identifier yet takes that of the query, a row that has another
/// keeps its own. Where nothing is found a new row is made, under the title of the query;
/// an album of which only the identifier is known gets a row with an empty title.
pub open spec fn find_or_create_album(c: Catalog, q: AlbumQuery) -> (Catalog, Option<AlbumFound>) {
    let by_mbid = match q.mbid {
        Some(m) => first_where(c.albums, album_has_mbid(m)),
        None => None,
    };
    if !q.is_complete() {
        (c, None)
    } else {
        match by_mbid {
            Some(i) => (
                c,
                Some(AlbumFound { id: c.albums[i].album_id, album_artist_id: c.albums[i].artist_id }),
            ),
            None => {
                let (with_artist, album_artist_id) = find_or_create_album_artist(c, q);
                let by_title = match (q.title, album_artist_id) {
                    (Some(t), Some(a)) => first_where(with_artist.albums, album_is(t, a)),
                    _ => None,
                };
                match by_title {
                    Some(i) => {
                        let row = with_artist.albums[i];
                        let after = if q.mbid is Some && row.mbid is None {
                            Catalog {
                                albums: with_artist.albums.update(
                                    i,
                                    AlbumRow { mbid: q.mbid, ..row },
                                ),
                                ..with_artist
                            }
                        } else {
                            with_artist
                        };
                        (after, Some(AlbumFound { id: row.album_id, album_artist_id }))
                    },
                    None => {
                        let (after, id) = create_album(
                            with_artist,
                            title_or_empty(q.title),
                            q.mbid,
                            album_artist_id,
                        );
                        (after, Some(AlbumFound { id, album_artist_id }))
                    },
                }
            },
        }
    }
}

/// Selects the tracks that carry the given recording identifier.
pub open spec fn track_has_mbid(mbid: u128) -> spec_fn(TrackRow) -> bool {
    |r: TrackRow| id_of(r.tags, crate::tags::TagKind::MusicbrainzTrackId) == Some(mbid)
}

/// Selects the tracks with the given title on the given album.
pub open spec fn track_is_on(title: Seq<char>, album_id: i64) -> spec_fn(TrackRow) -> bool {
    |r: TrackRow| title_of(r.tags) == title && r.album_id == Some(album_id)
}

/// How many of the first `k` tracks satisfy `pred` and belong to `group`.
pub open spec fn group_count(
    tracks: Seq<TrackRow>,
    pred: spec_fn(TrackRow) -> bool,
    group: i64,
    k: nat,
) -> nat
    decreases k,
{
    if k == 0 {
        0
    } else {
        group_count(tracks, pred, group, (k - 1) as nat) + if pred(tracks[k - 1]) && tracks[k
            - 1].track_group_id == group {
            1nat
        } else {
            0nat
        }
    }
}

/// Whether group `a` is preferred over group `b`: it has more of the selected tracks, or as
/// many and the smaller number.
pub open spec fn preferred(
    tracks: Seq<TrackRow>,
    pred: spec_fn(TrackRow) -> bool,
    a: i64,
    b: i64,
) -> bool {
    let count_a = group_count(tracks, pred, a, tracks.len());
    let count_b = group_count(tracks, pred, b, tracks.len());
    count_a > count_b || (count_a == count_b && a <= b)
}

/// The preferred group among the groups of the selected tracks within the first `k`.
pub open spec fn most_common_group(
    tracks: Seq<TrackRow>,
    pred: spec_fn(TrackRow) -> bool,
    k: nat,
) -> Option<i64>
    decreases k,
{
    if k == 0 {
        None
    } else {
        let before = most_common_group(tracks, pred, (k - 1) as nat);
        let row = tracks[k - 1];
        if pred(row) {
            match before {
                Some(best) => if preferred(tracks, pred, best, row.track_group_id) {
                    Some(best)
                } else {
                    Some(row.track_group_id)
                },
                None => Some(row.track_group_id),
            }
        } else {
            before
        }
    }
}

/// Finds the track group that a track belongs to, or makes one. Where the recording
/// identifier is known and tracks carry it, the track joins the group that most of them
/// belong to. Else, where the track has an album, it joins the group that most tracks of
/// its title on that album belong to. Else it gets a group of its own.
pub open spec fn find_or_create_track_group(c: Catalog, q: GroupQuery) -> (Catalog, i64) {
    let by_mbid = match q.track_mbid {
        Some(m) => most_common_group(c.tracks, track_has_mbid(m), c.tracks.len()),
        None => None,
    };
    let by_title = match q.album_id {
        Some(a) => most_common_group(c.tracks, track_is_on(q.title, a), c.tracks.len()),
        None => None,
    };
    match by_mbid {
        Some(g) => (c, g),
        None => match by_title {
            Some(g) => (c, g),
            None => {
                let id = (c.track_groups + 1) as i64;
                (Catalog { track_groups: c.track_groups + 1, ..c }, id)
            },
        },
    }
}

/// Enters a track under its key: the row of that key takes the new values and keeps its
/// number; where the key is new, a row is added.
pub open spec fn upsert_track(c: Catalog, row: TrackRow) -> (Catalog, i64) {
    match first_where(c.tracks, track_has_key(row.key)) {
        Some(i) => {
            let id = c.tracks[i].track_id;
            (Catalog { tracks: c.tracks.update(i, TrackRow { track_id: id, ..row }), ..c }, id)
        },
        None => {
            let id = (c.tracks.len() + 1) as i64;
            (Catalog { tracks: c.tracks.push(TrackRow { track_id: id, ..row }), ..c }, id)
        },
    }
}

/// Takes a scanned track into the catalog: its album is found or made, then its artist,
/// then its track group, and the track is entered under its key.
pub open spec fn find_or_create_track(c: Catalog, key: TrackKey, tags: Seq<TagValueView>) -> (
    Catalog,
    i64,
) {
    let (with_album, album) = find_or_create_album(c, album_query(tags));
    let (with_artist, artist_id) = find_or_create_artist(with_album, track_artist_query(tags));
    let album_id = match album {
        Some(a) => Some(a.id),
        None => None,
    };
    let album_artist_id = match album {
        Some(a) => a.album_artist_id,
        None => None,
    };
    let (with_group, track_group_id) = find_or_create_track_group(
        with_artist,
        group_query(tags, album_id),
    );
    upsert_track(
        with_group,
        TrackRow { track_id: 0, track_group_id, artist_id, album_artist_id, album_id, key, tags },
    )
}

/// Whether a plugin can be registered: it is known already, or the table has room for one
/// more.
pub open spec fn can_register(c: Catalog, uuid: u128) -> bool {
    first_where(c.plugins, plugin_has_uuid(uuid)) is Some || c.plugins.len() < i64::MAX
}

/// Registers a plugin: a plugin that is known keeps its number, a new one gets the next.
pub open spec fn register_plugin(c: Catalog, uuid: u128) -> (Catalog, i64) {
    match first_where(c.plugins, plugin_has_uuid(uuid)) {
        Some(i) => (c, c.plugins[i].plugin_id),
        None => {
            let id = (c.plugins.len() + 1) as i64;
            (Catalog { plugins: c.plugins.push(PluginRow { plugin_id: id, uuid }), ..c }, id)
        },
    }
}

/// Whether the tables have room for what taking in a track may add: three artists, one
/// album, one track group and one track.
pub open spec fn has_room(c: Catalog) -> bool {
    &&& c.artists.len() + 3 <= i64::MAX
    &&& c.albums.len() < i64::MAX
    &&& c.track_groups < i64::MAX
    &&& c.tracks.len() < i64::MAX
}

} // verus!
