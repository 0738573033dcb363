//! What holds of the catalog whatever is scanned.

use crate::db::database::{lemma_artist_result_exists, lemma_most_common_is_used};
use crate::db::model::{first_where, lemma_first_where, Catalog, TrackRow};
use crate::db::policy::{
    album_has_mbid, album_is, album_query, artist_has_mbid, artist_has_name, create_album,
    find_or_create_album, find_or_create_album_artist, find_or_create_artist,
    find_or_create_track, find_or_create_track_group, group_count, group_query, has_room,
    most_common_group, plugin_has_uuid, preferred, register_plugin, track_artist_query,
    track_has_key, upsert_track, AlbumQuery, ArtistQuery, GroupQuery,
};
use crate::ident::TrackKey;
use crate::tags::TagValueView;
use vstd::prelude::*;

verus! {

/// An artist that is known by name and without identifier takes the identifier that a
/// query for that name brings, and the query is answered with that very artist: this
/// holds where no artist has the identifier yet and the first artist of that name is the
/// one without identifier.
pub proof fn lemma_artist_identifier_is_filled_in(
    c: Catalog,
    name: Seq<char>,
    mbid: u128,
    i: int,
)
    requires
        c.wf(),
        first_where(c.artists, artist_has_mbid(mbid)) is None,
        first_where(c.artists, artist_has_name(name)) == Some(i),
        c.artists[i].mbid is None,
    ensures
        ({
            let (after, found) = find_or_create_artist(
                c,
                ArtistQuery { name: Some(name), mbid: Some(mbid) },
            );
            &&& found == Some(c.artists[i].artist_id)
            &&& after.artists.len() == c.artists.len()
            &&& after.artists[i].mbid == Some(mbid)
            &&& after.artists[i].name == name
            &&& after.artists[i].artist_id == c.artists[i].artist_id
            &&& forall|j: int| 0 <= j < c.artists.len() && j != i ==> after.artists[j] == c.artists[j]
        }),
{
    lemma_first_where(c.artists, artist_has_name(name));
}

/// A search for an artist never lets go of an identifier that an artist has.
pub proof fn lemma_artist_identifier_is_kept(c: Catalog, q: ArtistQuery, j: int)
    requires
        c.wf(),
        0 <= j < c.artists.len(),
        c.artists[j].mbid is Some,
    ensures
        find_or_create_artist(c, q).0.artists[j] == c.artists[j],
{
    if q.name is Some {
        lemma_first_where(c.artists, artist_has_name(q.name.unwrap()));
    }
    if q.mbid is Some {
        lemma_first_where(c.artists, artist_has_mbid(q.mbid.unwrap()));
    }
}

/// Entering a track leaves exactly one row under its key, with the values entered; every
/// other row stays as it was.
pub proof fn lemma_upsert_holds_latest(c: Catalog, row: TrackRow)
    requires
        c.wf(),
        c.tracks.len() < i64::MAX,
    ensures
        ({
            let (after, id) = upsert_track(c, row);
            &&& 1 <= id <= after.tracks.len()
            &&& after.tracks[id - 1] == (TrackRow { track_id: id, ..row })
            &&& first_where(after.tracks, track_has_key(row.key)) == Some(id - 1)
            &&& forall|j: int|
                0 <= j < after.tracks.len() && j != id - 1 ==> (#[trigger] after.tracks[j]).key
                    != row.key
            &&& forall|j: int|
                0 <= j < c.tracks.len() && j != id - 1 ==> after.tracks[j] == c.tracks[j]
            &&& c.tracks.len() <= after.tracks.len() <= c.tracks.len() + 1
        }),
{
    lemma_first_where(c.tracks, track_has_key(row.key));
    let (after, id) = upsert_track(c, row);
    match first_where(c.tracks, track_has_key(row.key)) {
        Some(i) => {
            assert forall|j: int| 0 <= j < after.tracks.len() && j != i implies (
            #[trigger] after.tracks[j]).key != row.key by {
                if j < i {
                    assert(!(track_has_key(row.key))(c.tracks[j]));
                } else {
                    assert(c.tracks[i].key != c.tracks[j].key);
                }
            }
            crate::db::model::lemma_first_where_is(after.tracks, track_has_key(row.key), i);
        },
        None => {
            assert forall|j: int| 0 <= j < c.tracks.len() implies (#[trigger] after.tracks[j]).key
                != row.key by {
                assert(!(track_has_key(row.key))(c.tracks[j]));
            }
            crate::db::model::lemma_first_where_is(
                after.tracks,
                track_has_key(row.key),
                c.tracks.len() as int,
            );
        },
    }
}

/// Taking in a track keeps the catalog consistent.
pub proof fn lemma_import_keeps_consistency(c: Catalog, key: TrackKey, tags: Seq<TagValueView>)
    requires
        c.wf(),
        has_room(c),
    ensures
        find_or_create_track(c, key, tags).0.wf(),
{
    lemma_album_keeps_consistency(c, album_query(tags));
    let (with_album, album) = find_or_create_album(c, album_query(tags));
    lemma_artist_result_exists(with_album, track_artist_query(tags));
    let (with_artist, artist_id) = find_or_create_artist(with_album, track_artist_query(tags));
    let album_id = match album {
        Some(a) => Some(a.id),
        None => None,
    };
    lemma_group_keeps_consistency(with_artist, group_query(tags, album_id));
    let (with_group, group) = find_or_create_track_group(
        with_artist,
        group_query(tags, album_id),
    );
    let album_artist_id = match album {
        Some(a) => a.album_artist_id,
        None => None,
    };
    let row = TrackRow {
        track_id: 0,
        track_group_id: group,
        artist_id,
        album_artist_id,
        album_id,
        key,
        tags,
    };
    lemma_upsert_holds_latest(with_group, row);
    lemma_first_where(with_group.tracks, track_has_key(key));
}

/// The search for an album keeps the catalog consistent, and what it finds are rows of
/// the catalog it leaves.
pub proof fn lemma_album_keeps_consistency(c: Catalog, q: AlbumQuery)
    requires
        c.wf(),
        c.artists.len() + 2 <= i64::MAX,
        c.albums.len() < i64::MAX,
    ensures
        find_or_create_album(c, q).0.wf(),
        find_or_create_album(c, q).0.tracks == c.tracks,
        find_or_create_album(c, q).0.track_groups == c.track_groups,
        find_or_create_album(c, q).0.plugins == c.plugins,
        c.artists.len() <= find_or_create_album(c, q).0.artists.len() <= c.artists.len() + 2,
        c.albums.len() <= find_or_create_album(c, q).0.albums.len() <= c.albums.len() + 1,
        find_or_create_album(c, q).1 matches Some(a) ==> {
            &&& crate::db::model::row_exists(a.id, find_or_create_album(c, q).0.albums.len())
            &&& crate::db::model::reference_holds(
                a.album_artist_id,
                find_or_create_album(c, q).0.artists.len(),
            )
        },
{
    if q.mbid is Some {
        lemma_first_where(c.albums, album_has_mbid(q.mbid.unwrap()));
    }
    lemma_artist_result_exists(c, q.album_artist);
    let (first, album_artist) = find_or_create_artist(c, q.album_artist);
    lemma_artist_result_exists(first, q.artist);
    let (with_artist, album_artist_id) = find_or_create_album_artist(c, q);
    if q.title is Some && album_artist_id is Some {
        lemma_first_where(
            with_artist.albums,
            album_is(q.title.unwrap(), album_artist_id.unwrap()),
        );
    }
}

/// The search for a track group keeps the catalog consistent, and the group it finds was
/// made.
pub proof fn lemma_group_keeps_consistency(c: Catalog, q: GroupQuery)
    requires
        c.wf(),
        c.track_groups < i64::MAX,
    ensures
        find_or_create_track_group(c, q).0.wf(),
        crate::db::model::row_exists(
            find_or_create_track_group(c, q).1,
            find_or_create_track_group(c, q).0.track_groups,
        ),
        find_or_create_track_group(c, q).0.tracks == c.tracks,
        find_or_create_track_group(c, q).0.artists == c.artists,
        find_or_create_track_group(c, q).0.albums == c.albums,
        find_or_create_track_group(c, q).0.plugins == c.plugins,
{
    if q.track_mbid is Some {
        lemma_most_common_is_used(
            c,
            crate::db::policy::track_has_mbid(q.track_mbid.unwrap()),
            c.tracks.len(),
        );
    }
    if q.album_id is Some {
        lemma_most_common_is_used(
            c,
            crate::db::policy::track_is_on(q.title, q.album_id.unwrap()),
            c.tracks.len(),
        );
    }
}

/// When the same track is taken in twice, with whatever tags, the catalog holds one row
/// for it, under the number it got the first time, and the row carries the tags that
/// came last.
pub proof fn lemma_latest_import_wins(
    c: Catalog,
    key: TrackKey,
    first: Seq<TagValueView>,
    second: Seq<TagValueView>,
)
    requires
        c.wf(),
        has_room(c),
        has_room(find_or_create_track(c, key, first).0),
    ensures
        ({
            let (once, id) = find_or_create_track(c, key, first);
            let (twice, again) = find_or_create_track(once, key, second);
            &&& again == id
            &&& twice.tracks.len() == once.tracks.len()
            &&& twice.tracks[id - 1].tags == second
            &&& twice.tracks[id - 1].key == key
            &&& forall|j: int|
                0 <= j < twice.tracks.len() && j != id - 1 ==> (#[trigger] twice.tracks[j]).key
                    != key
        }),
{
    let (once, id) = find_or_create_track(c, key, first);
    lemma_import_keeps_consistency(c, key, first);
    lemma_import_reaches_row(c, key, first);
    lemma_import_reaches_row(once, key, second);
}

/// After a track was taken in, the row under its key carries the tags taken in, and no
/// other row has the key; rows under other keys are as many as before.
pub proof fn lemma_import_reaches_row(c: Catalog, key: TrackKey, tags: Seq<TagValueView>)
    requires
        c.wf(),
        has_room(c),
    ensures
        ({
            let (after, id) = find_or_create_track(c, key, tags);
            &&& 1 <= id <= after.tracks.len()
            &&& after.tracks[id - 1].tags == tags
            &&& after.tracks[id - 1].key == key
            &&& after.tracks[id - 1].track_id == id
            &&& first_where(after.tracks, track_has_key(key)) == Some(id - 1)
            &&& forall|j: int|
                0 <= j < after.tracks.len() && j != id - 1 ==> (#[trigger] after.tracks[j]).key
                    != key
            &&& match first_where(c.tracks, track_has_key(key)) {
                Some(i) => after.tracks.len() == c.tracks.len() && id == i + 1,
                None => after.tracks.len() == c.tracks.len() + 1 && id == c.tracks.len() + 1,
            }
        }),
{
    lemma_album_keeps_consistency(c, album_query(tags));
    let (with_album, album) = find_or_create_album(c, album_query(tags));
    lemma_artist_result_exists(with_album, track_artist_query(tags));
    let (with_artist, artist_id) = find_or_create_artist(with_album, track_artist_query(tags));
    let album_id = match album {
        Some(a) => Some(a.id),
        None => None,
    };
    lemma_group_keeps_consistency(with_artist, group_query(tags, album_id));
    let (with_group, group) = find_or_create_track_group(
        with_artist,
        group_query(tags, album_id),
    );
    let album_artist_id = match album {
        Some(a) => a.album_artist_id,
        None => None,
    };
    let row = TrackRow {
        track_id: 0,
        track_group_id: group,
        artist_id,
        album_artist_id,
        album_id,
        key,
        tags,
    };
    lemma_upsert_holds_latest(with_group, row);
    lemma_first_where(with_group.tracks, track_has_key(key));
}

/// The group that a track joins has at least as many of the selected tracks as any other
/// group, and among the groups with as many it has the smallest number.
pub proof fn lemma_most_common_is_preferred(
    tracks: Seq<TrackRow>,
    pred: spec_fn(TrackRow) -> bool,
    k: nat,
    i: int,
)
    requires
        k <= tracks.len(),
        0 <= i < k,
        pred(tracks[i]),
    ensures
        most_common_group(tracks, pred, k) matches Some(best) && preferred(
            tracks,
            pred,
            best,
            tracks[i].track_group_id,
        ),
    decreases k,
{
    if i < k - 1 {
        lemma_most_common_is_preferred(tracks, pred, (k - 1) as nat, i);
    } else {
        if most_common_group(tracks, pred, (k - 1) as nat) is None {
        }
    }
}

/// Registering a plugin twice gives the same number, and no second row.
pub proof fn lemma_registration_is_idempotent(c: Catalog, uuid: u128)
    requires
        c.wf(),
        c.plugins.len() < i64::MAX,
    ensures
        register_plugin(c, uuid).0.wf(),
        register_plugin(register_plugin(c, uuid).0, uuid) == register_plugin(c, uuid),
{
    lemma_first_where(c.plugins, plugin_has_uuid(uuid));
    let (after, id) = register_plugin(c, uuid);
    match first_where(c.plugins, plugin_has_uuid(uuid)) {
        Some(i) => {},
        None => {
            assert forall|j: int| 0 <= j < c.plugins.len() implies !(plugin_has_uuid(uuid))(
                #[trigger] after.plugins[j],
            ) by {
                assert(!(plugin_has_uuid(uuid))(c.plugins[j]));
            }
            crate::db::model::lemma_first_where_is(
                after.plugins,
                plugin_has_uuid(uuid),
                c.plugins.len() as int,
            );
        },
    }
}

/// The search for an album ends without an album exactly where it knows neither an
/// identifier nor a title together with something of an artist, and then it leaves the
/// catalog as it was. In particular an identifier that no album has, without a title,
/// gets a row of its own, with that identifier.
pub proof fn lemma_album_is_found_or_made(c: Catalog, q: AlbumQuery)
    ensures
        find_or_create_album(c, q).1 is None <==> !q.is_complete(),
        find_or_create_album(c, q).1 is None ==> find_or_create_album(c, q).0 == c,
        q.mbid is Some && q.title is None && first_where(c.albums, album_has_mbid(q.mbid->0))
            is None && c.albums.len() < i64::MAX ==> {
            let (after, found) = find_or_create_album(c, q);
            &&& found is Some
            &&& after.albums.len() == c.albums.len() + 1
            &&& after.albums.last().album_id == found->0.id
            &&& after.albums.last().mbid == q.mbid
            &&& after.albums.last().title == Seq::<char>::empty()
        },
{
}

} // verus!
