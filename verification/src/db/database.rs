//! The operations of the catalog.

use crate::db::model::{
    first_where, lemma_first_where_is, lemma_first_where_none, AlbumRow, ArtistRow, Catalog,
    PluginRow, TrackRow,
};
use crate::db::policy;
use crate::db::stats::{
    album_column, artist_column, count_distinct, group_column, lemma_present_bounded, stats_of,
};
use crate::db::store::{
    album_found, album_ref, album_rows, artist_ref, artist_rows, plugin_rows, track_rows, Album,
    AlbumInfo, Artist, ArtistInfo, CreatedAlbum, DbError, DbStats, StoredPlugin, StoredTrack,
    Track, TrackGroupInfo,
};
use crate::ident::{
    AlbumId, ArtistId, PluginId, TrackGroupId, TrackId, TrackKey, UniqueTrackIdentifier,
};
use crate::tags::{lemma_view_at, TagKind, Tags};
use crate::text::str_equal;
use vstd::prelude::*;

verus! {

/// The catalog: plugins, artists, albums, track groups and tracks.
#[derive(Debug)]
pub struct Database {
    pub plugins: Vec<StoredPlugin>,
    pub artists: Vec<Artist>,
    pub albums: Vec<Album>,
    /// How many track groups were made.
    pub track_groups: u64,
    pub tracks: Vec<StoredTrack>,
    /// The statistics as they were last refreshed.
    pub stats: DbStats,
}

impl View for Database {
    type V = Catalog;

    open spec fn view(&self) -> Catalog {
        Catalog {
            plugins: plugin_rows(self.plugins@),
            artists: artist_rows(self.artists@),
            albums: album_rows(self.albums@),
            track_groups: self.track_groups as nat,
            tracks: track_rows(self.tracks@),
        }
    }
}

/// What selects the tracks that decide a track group.
#[derive(Clone, Copy)]
pub enum GroupSelector<'a> {
    /// The tracks that carry a recording identifier.
    Recording(u128),
    /// The tracks of a title on an album.
    TitleOnAlbum(&'a str, AlbumId),
}

impl<'a> GroupSelector<'a> {
    /// The tracks that the selector selects.
    pub open spec fn selects(self) -> spec_fn(TrackRow) -> bool {
        match self {
            GroupSelector::Recording(m) => policy::track_has_mbid(m),
            GroupSelector::TitleOnAlbum(t, a) => policy::track_is_on(t@, a.0),
        }
    }

    fn accepts(&self, row: &StoredTrack) -> (r: bool)
        ensures
            r == (self.selects())(row@),
    {
        proof {
            lemma_view_at(row.track.tags, TagKind::MusicbrainzTrackId);
            lemma_view_at(row.track.tags, TagKind::TrackTitle);
        }
        match self {
            GroupSelector::Recording(m) => match row.track.tags.musicbrainz_track_id {
                Some(found) => found == *m,
                None => false,
            },
            GroupSelector::TitleOnAlbum(t, a) => str_equal(row.track.tags.track_title.as_str(), t)
                && match row.track.album_id {
                Some(found) => found.0 == a.0,
                None => false,
            },
        }
    }
}

impl Database {
    /// The catalog is consistent.
    pub open spec fn wf(&self) -> bool {
        self@.wf()
    }

    /// A catalog without rows.
    pub fn new() -> (r: Database)
        ensures
            r.wf(),
            r@ == Catalog::empty(),
            r.stats == (DbStats { num_tracks: 0, num_track_groups: 0, num_albums: 0, num_artists: 0 }),
    {
        let r = Database {
            plugins: Vec::new(),
            artists: Vec::new(),
            albums: Vec::new(),
            track_groups: 0,
            tracks: Vec::new(),
            stats: DbStats::default(),
        };
        assert(r@.plugins =~= Seq::empty());
        assert(r@.artists =~= Seq::empty());
        assert(r@.albums =~= Seq::empty());
        assert(r@.tracks =~= Seq::empty());
        r
    }

    /// The statistics as they were last refreshed.
    pub fn stats(&self) -> (r: DbStats)
        ensures
            r == self.stats,
    {
        self.stats
    }

    /// The number of the plugin with the given identifier, if it is registered.
    pub fn get_plugin_id(&self, uuid: u128) -> (r: Option<PluginId>)
        requires
            self.wf(),
        ensures
            match first_where(self@.plugins, policy::plugin_has_uuid(uuid)) {
                Some(i) => r == Some(PluginId(self@.plugins[i].plugin_id)),
                None => r is None,
            },
    {
        let mut i: usize = 0;
        while i < self.plugins.len()
            invariant
                i <= self.plugins@.len(),
                forall|j: int| 0 <= j < i ==> !(policy::plugin_has_uuid(uuid))(#[trigger] self@.plugins[j]),
            decreases self.plugins@.len() - i,
        {
            if self.plugins[i].uuid == uuid {
                proof {
                    lemma_first_where_is(self@.plugins, policy::plugin_has_uuid(uuid), i as int);
                }
                return Some(self.plugins[i].plugin_id);
            }
            i += 1;
        }
        proof {
            lemma_first_where_none(self@.plugins, policy::plugin_has_uuid(uuid));
        }
        None
    }

    /// Registers a plugin under its identifier. A plugin that is known keeps its number;
    /// a new one gets the next number, unless the table is full.
    pub fn register_plugin(&mut self, uuid: u128) -> (r: Result<PluginId, DbError>)
        requires
            old(self).wf(),
        ensures
            final(self).wf(),
            final(self).stats == old(self).stats,
            match r {
                Ok(id) => policy::can_register(old(self)@, uuid) && (final(self)@, id.0)
                    == policy::register_plugin(old(self)@, uuid),
                Err(e) => !policy::can_register(old(self)@, uuid) && e == DbError::Full
                    && final(self)@ == old(self)@,
            },
    {
        match self.get_plugin_id(uuid) {
            Some(id) => Ok(id),
            None => {
                if self.plugins.len() as u64 >= i64::MAX as u64 {
                    return Err(DbError::Full);
                }
                let id = PluginId((self.plugins.len() as u64 + 1) as i64);
                let row = StoredPlugin { plugin_id: id, uuid };
                self.plugins.push(row);
                proof {
                    crate::db::model::lemma_first_where(
                        old(self)@.plugins,
                        policy::plugin_has_uuid(uuid),
                    );
                    assert(final(self)@.plugins =~= old(self)@.plugins.push(row@));
                }
                Ok(id)
            },
        }
    }

    fn artist_by_mbid(&self, mbid: u128) -> (r: Option<usize>)
        ensures
            match r {
                Some(i) => first_where(self@.artists, policy::artist_has_mbid(mbid)) == Some(
                    i as int,
                ) && i < self.artists@.len(),
                None => first_where(self@.artists, policy::artist_has_mbid(mbid)) is None,
            },
    {
        let mut i: usize = 0;
        while i < self.artists.len()
            invariant
                i <= self.artists@.len(),
                forall|j: int| 0 <= j < i ==> !(policy::artist_has_mbid(mbid))(#[trigger] self@.artists[j]),
            decreases self.artists@.len() - i,
        {
            let hit = match self.artists[i].mbid {
                Some(found) => found == mbid,
                None => false,
            };
            if hit {
                proof {
                    lemma_first_where_is(self@.artists, policy::artist_has_mbid(mbid), i as int);
                }
                return Some(i);
            }
            i += 1;
        }
        proof {
            lemma_first_where_none(self@.artists, policy::artist_has_mbid(mbid));
        }
        None
    }

    fn artist_by_name(&self, name: &str) -> (r: Option<usize>)
        ensures
            match r {
                Some(i) => first_where(self@.artists, policy::artist_has_name(name@)) == Some(
                    i as int,
                ) && i < self.artists@.len(),
                None => first_where(self@.artists, policy::artist_has_name(name@)) is None,
            },
    {
        let mut i: usize = 0;
        while i < self.artists.len()
            invariant
                i <= self.artists@.len(),
                forall|j: int| 0 <= j < i ==> !(policy::artist_has_name(name@))(#[trigger] self@.artists[j]),
            decreases self.artists@.len() - i,
        {
            if str_equal(self.artists[i].name.as_str(), name) {
                proof {
                    lemma_first_where_is(self@.artists, policy::artist_has_name(name@), i as int);
                }
                return Some(i);
            }
            i += 1;
        }
        proof {
            lemma_first_where_none(self@.artists, policy::artist_has_name(name@));
        }
        None
    }

    /// Adds an artist and returns the number of the new row.
    pub fn create_artist(&mut self, name: &str, mbid: Option<u128>) -> (r: Result<
        ArtistId,
        DbError,
    >)
        requires
            old(self).wf(),
        ensures
            final(self).wf(),
            final(self).stats == old(self).stats,
            match r {
                Ok(id) => (final(self)@, id.0) == policy::create_artist(old(self)@, name@, mbid),
                Err(_) => old(self)@.artists.len() >= i64::MAX && final(self)@ == old(self)@,
            },
    {
        if self.artists.len() as u64 >= i64::MAX as u64 {
            return Err(DbError::Full);
        }
        let id = ArtistId((self.artists.len() as u64 + 1) as i64);
        let row = Artist { id, mbid, name: name.to_owned() };
        self.artists.push(row);
        proof {
            assert(final(self)@.artists =~= old(self)@.artists.push(row@));
        }
        Ok(id)
    }

    /// Finds the artist that is meant, or makes the row.
    pub fn find_or_create_artist(&mut self, artist_info: ArtistInfo<'_>) -> (r: Result<
        Option<ArtistId>,
        DbError,
    >)
        requires
            old(self).wf(),
        ensures
            final(self).wf(),
            final(self).stats == old(self).stats,
            final(self)@.artists.len() <= old(self)@.artists.len() + 1,
            match r {
                Ok(id) => (final(self)@, artist_ref(id)) == policy::find_or_create_artist(
                    old(self)@,
                    artist_info@,
                ),
                Err(_) => policy::artist_is_new(old(self)@, artist_info@) && old(self)@.artists.len()
                    >= i64::MAX && final(self)@ == old(self)@,
            },
    {
        if !artist_info.is_complete() {
            return Ok(None);
        }
        if let Some(mbid) = artist_info.mbid {
            if let Some(i) = self.artist_by_mbid(mbid) {
                return Ok(Some(self.artists[i].id));
            }
        }
        if let Some(name) = artist_info.name {
            if let Some(i) = self.artist_by_name(name) {
                let id = self.artists[i].id;
                if artist_info.mbid.is_some() && self.artists[i].mbid.is_none() {
                    self.artists[i].mbid = artist_info.mbid;
                    proof {
                        let row = old(self)@.artists[i as int];
                        assert(final(self)@.artists =~= old(self)@.artists.update(
                            i as int,
                            ArtistRow { mbid: artist_info.mbid, ..row },
                        ));
                    }
                }
                return Ok(Some(id));
            }
            return match self.create_artist(name, artist_info.mbid) {
                Ok(id) => Ok(Some(id)),
                Err(e) => Err(e),
            };
        }
        Ok(None)
    }
}


/// Whether the tables have room for what the search for an album may add: two artists and
/// one album.
pub open spec fn album_room(c: Catalog) -> bool {
    c.artists.len() + 2 <= i64::MAX && c.albums.len() < i64::MAX
}

impl Database {
    fn album_by_mbid(&self, mbid: u128) -> (r: Option<usize>)
        ensures
            match r {
                Some(i) => first_where(self@.albums, policy::album_has_mbid(mbid)) == Some(
                    i as int,
                ) && i < self.albums@.len(),
                None => first_where(self@.albums, policy::album_has_mbid(mbid)) is None,
            },
    {
        let mut i: usize = 0;
        while i < self.albums.len()
            invariant
                i <= self.albums@.len(),
                forall|j: int| 0 <= j < i ==> !(policy::album_has_mbid(mbid))(#[trigger] self@.albums[j]),
            decreases self.albums@.len() - i,
        {
            let hit = match self.albums[i].mbid {
                Some(found) => found == mbid,
                None => false,
            };
            if hit {
                proof {
                    lemma_first_where_is(self@.albums, policy::album_has_mbid(mbid), i as int);
                }
                return Some(i);
            }
            i += 1;
        }
        proof {
            lemma_first_where_none(self@.albums, policy::album_has_mbid(mbid));
        }
        None
    }

    fn album_by_title(&self, title: &str, artist_id: ArtistId) -> (r: Option<usize>)
        ensures
            match r {
                Some(i) => first_where(self@.albums, policy::album_is(title@, artist_id.0))
                    == Some(i as int) && i < self.albums@.len(),
                None => first_where(self@.albums, policy::album_is(title@, artist_id.0)) is None,
            },
    {
        let mut i: usize = 0;
        while i < self.albums.len()
            invariant
                i <= self.albums@.len(),
                forall|j: int|
                    0 <= j < i ==> !(policy::album_is(title@, artist_id.0))(#[trigger] self@.albums[j]),
            decreases self.albums@.len() - i,
        {
            let by_artist = match self.albums[i].artist_id {
                Some(found) => found.0 == artist_id.0,
                None => false,
            };
            if by_artist && str_equal(self.albums[i].title.as_str(), title) {
                proof {
                    lemma_first_where_is(
                        self@.albums,
                        policy::album_is(title@, artist_id.0),
                        i as int,
                    );
                }
                return Some(i);
            }
            i += 1;
        }
        proof {
            lemma_first_where_none(self@.albums, policy::album_is(title@, artist_id.0));
        }
        None
    }

    /// Adds an album and returns the number of the new row. The artist of the album, if
    /// one is given, must be a row of the catalog.
    pub fn create_album(
        &mut self,
        title: &str,
        mbid: Option<u128>,
        album_artist_id: Option<ArtistId>,
    ) -> (r: Result<AlbumId, DbError>)
        requires
            old(self).wf(),
            crate::db::model::reference_holds(
                artist_ref(album_artist_id),
                old(self)@.artists.len(),
            ),
        ensures
            final(self).wf(),
            final(self).stats == old(self).stats,
            match r {
                Ok(id) => (final(self)@, id.0) == policy::create_album(
                    old(self)@,
                    title@,
                    mbid,
                    artist_ref(album_artist_id),
                ),
                Err(_) => old(self)@.albums.len() >= i64::MAX && final(self)@ == old(self)@,
            },
    {
        if self.albums.len() as u64 >= i64::MAX as u64 {
            return Err(DbError::Full);
        }
        let id = AlbumId((self.albums.len() as u64 + 1) as i64);
        let row = Album { id, title: title.to_owned(), mbid, artist_id: album_artist_id };
        self.albums.push(row);
        proof {
            assert(final(self)@.albums =~= old(self)@.albums.push(row@));
        }
        Ok(id)
    }

    /// Finds the album that is meant, or makes the row, and with it the artist that
    /// stands for the album. There is no album, and nothing is made, exactly where the
    /// search knows neither an identifier nor a title together with something of an
    /// artist. Nothing is looked up or made where the tables lack the room for what the
    /// search may add.
    pub fn find_or_create_album(&mut self, album_info: AlbumInfo<'_>) -> (r: Result<
        Option<CreatedAlbum>,
        DbError,
    >)
        requires
            old(self).wf(),
        ensures
            final(self).wf(),
            final(self).stats == old(self).stats,
            final(self)@.tracks == old(self)@.tracks,
            final(self)@.track_groups == old(self)@.track_groups,
            final(self)@.plugins == old(self)@.plugins,
            final(self)@.artists.len() <= old(self)@.artists.len() + 2,
            final(self)@.albums.len() <= old(self)@.albums.len() + 1,
            match r {
                Ok(found) => album_room(old(self)@) && (final(self)@, album_found(found))
                    == policy::find_or_create_album(old(self)@, album_info@)
                    && (found is None <==> !album_info@.is_complete())
                    && (found is None ==> final(self)@ == old(self)@) && (
                found matches Some(a) ==> crate::db::model::row_exists(
                    a.id.0,
                    final(self)@.albums.len(),
                ) && crate::db::model::reference_holds(
                    artist_ref(a.album_artist_id),
                    final(self)@.artists.len(),
                )),
                Err(_) => !album_room(old(self)@) && final(self)@ == old(self)@,
            },
    {
        if self.artists.len() as u64 + 2 > i64::MAX as u64 || self.albums.len() as u64
            >= i64::MAX as u64 {
            return Err(DbError::Full);
        }
        if !album_info.is_complete() {
            return Ok(None);
        }
        if let Some(mbid) = album_info.mbid {
            if let Some(i) = self.album_by_mbid(mbid) {
                return Ok(
                    Some(
                        CreatedAlbum {
                            id: self.albums[i].id,
                            album_artist_id: self.albums[i].artist_id,
                        },
                    ),
                );
            }
        }
        let album_artist = match self.find_or_create_artist(album_info.album_artist) {
            Ok(found) => found,
            Err(e) => {
                return Err(e);
            },
        };
        let album_artist_id = match album_artist {
            Some(id) => Some(id),
            None => match self.find_or_create_artist(album_info.artist) {
                Ok(found) => found,
                Err(e) => {
                    return Err(e);
                },
            },
        };
        proof {
            lemma_artist_result_exists(old(self)@, album_info@.album_artist);
            if album_artist is None {
                lemma_artist_result_exists(
                    policy::find_or_create_artist(old(self)@, album_info@.album_artist).0,
                    album_info@.artist,
                );
            }
        }
        if let Some(title) = album_info.title {
            if let Some(artist_id) = album_artist_id {
                if let Some(i) = self.album_by_title(title, artist_id) {
                    let id = self.albums[i].id;
                    if album_info.mbid.is_some() && self.albums[i].mbid.is_none() {
                        let ghost before = self@;
                        self.albums[i].mbid = album_info.mbid;
                        proof {
                            let row = before.albums[i as int];
                            assert(final(self)@.albums =~= before.albums.update(
                                i as int,
                                AlbumRow { mbid: album_info.mbid, ..row },
                            ));
                        }
                    }
                    return Ok(Some(CreatedAlbum { id, album_artist_id }));
                }
            }
        }
        let title = match album_info.title {
            Some(title) => title,
            None => {
                proof {
                    reveal_strlit("");
                    assert(""@ =~= Seq::<char>::empty());
                }
                ""
            },
        };
        match self.create_album(title, album_info.mbid, album_artist_id) {
            Ok(id) => Ok(Some(CreatedAlbum { id, album_artist_id })),
            Err(e) => Err(e),
        }
    }
}

/// The artist that a search ends with is a row of the catalog that the search leaves, and
/// a consistent catalog with room for one more artist stays consistent.
pub proof fn lemma_artist_result_exists(c: Catalog, q: policy::ArtistQuery)
    requires
        c.wf(),
        c.artists.len() < i64::MAX,
    ensures
        policy::find_or_create_artist(c, q).0.wf(),
        policy::find_or_create_artist(c, q).0.artists.len() <= c.artists.len() + 1,
        policy::find_or_create_artist(c, q).0.artists.len() >= c.artists.len(),
        crate::db::model::reference_holds(
            policy::find_or_create_artist(c, q).1,
            policy::find_or_create_artist(c, q).0.artists.len(),
        ),
        policy::find_or_create_artist(c, q).0.albums == c.albums,
        policy::find_or_create_artist(c, q).0.tracks == c.tracks,
        policy::find_or_create_artist(c, q).0.track_groups == c.track_groups,
        policy::find_or_create_artist(c, q).0.plugins == c.plugins,
{
    if q.mbid is Some {
        crate::db::model::lemma_first_where(c.artists, policy::artist_has_mbid(q.mbid.unwrap()));
    }
    if q.name is Some {
        crate::db::model::lemma_first_where(c.artists, policy::artist_has_name(q.name.unwrap()));
    }
}


impl Database {
    fn count_in_group(&self, selector: GroupSelector<'_>, group: TrackGroupId) -> (r: usize)
        ensures
            r == policy::group_count(
                self@.tracks,
                selector.selects(),
                group.0,
                self@.tracks.len(),
            ),
    {
        let mut count: usize = 0;
        let mut i: usize = 0;
        while i < self.tracks.len()
            invariant
                i <= self.tracks@.len(),
                count <= i,
                count == policy::group_count(self@.tracks, selector.selects(), group.0, i as nat),
            decreases self.tracks@.len() - i,
        {
            if selector.accepts(&self.tracks[i]) && self.tracks[i].track.track_group_id.0
                == group.0 {
                count += 1;
            }
            i += 1;
        }
        count
    }

    fn most_common(&self, selector: GroupSelector<'_>) -> (r: Option<TrackGroupId>)
        ensures
            match r {
                Some(g) => policy::most_common_group(
                    self@.tracks,
                    selector.selects(),
                    self@.tracks.len(),
                ) == Some(g.0),
                None => policy::most_common_group(
                    self@.tracks,
                    selector.selects(),
                    self@.tracks.len(),
                ) is None,
            },
    {
        let mut best: Option<(TrackGroupId, usize)> = None;
        let mut i: usize = 0;
        while i < self.tracks.len()
            invariant
                i <= self.tracks@.len(),
                match best {
                    Some((g, n)) => policy::most_common_group(
                        self@.tracks,
                        selector.selects(),
                        i as nat,
                    ) == Some(g.0) && n == policy::group_count(
                        self@.tracks,
                        selector.selects(),
                        g.0,
                        self@.tracks.len(),
                    ),
                    None => policy::most_common_group(self@.tracks, selector.selects(), i as nat)
                        is None,
                },
            decreases self.tracks@.len() - i,
        {
            if selector.accepts(&self.tracks[i]) {
                let group = self.tracks[i].track.track_group_id;
                let count = self.count_in_group(selector, group);
                best = match best {
                    Some((g, n)) => if n > count || (n == count && g.0 <= group.0) {
                        Some((g, n))
                    } else {
                        Some((group, count))
                    },
                    None => Some((group, count)),
                };
            }
            i += 1;
        }
        match best {
            Some((g, _)) => Some(g),
            None => None,
        }
    }

    /// Makes a track group and returns its number.
    pub fn create_track_group(&mut self) -> (r: Result<TrackGroupId, DbError>)
        requires
            old(self).wf(),
        ensures
            final(self).wf(),
            final(self).stats == old(self).stats,
            match r {
                Ok(id) => id.0 == old(self)@.track_groups + 1 && final(self)@ == (Catalog {
                    track_groups: old(self)@.track_groups + 1,
                    ..old(self)@
                }),
                Err(_) => old(self)@.track_groups >= i64::MAX && final(self)@ == old(self)@,
            },
    {
        if self.track_groups >= i64::MAX as u64 {
            return Err(DbError::Full);
        }
        self.track_groups = self.track_groups + 1;
        Ok(TrackGroupId(self.track_groups as i64))
    }

    /// Finds the track group that a track belongs to, or makes one.
    pub fn find_or_create_track_group(&mut self, track_group_info: TrackGroupInfo<'_>) -> (r:
        Result<TrackGroupId, DbError>)
        requires
            old(self).wf(),
        ensures
            final(self).wf(),
            final(self).stats == old(self).stats,
            match r {
                Ok(id) => old(self)@.track_groups < i64::MAX && (final(self)@, id.0)
                    == policy::find_or_create_track_group(old(self)@, track_group_info@)
                    && crate::db::model::row_exists(id.0, final(self)@.track_groups),
                Err(_) => old(self)@.track_groups >= i64::MAX && final(self)@ == old(self)@,
            },
    {
        if self.track_groups >= i64::MAX as u64 {
            return Err(DbError::Full);
        }
        if let Some(mbid) = track_group_info.track_mbid {
            if let Some(group) = self.most_common(GroupSelector::Recording(mbid)) {
                proof {
                    lemma_most_common_is_used(
                        self@,
                        policy::track_has_mbid(mbid),
                        self@.tracks.len(),
                    );
                }
                return Ok(group);
            }
        }
        if let Some(album_id) = track_group_info.album_id {
            if let Some(group) = self.most_common(
                GroupSelector::TitleOnAlbum(track_group_info.title, album_id),
            ) {
                proof {
                    lemma_most_common_is_used(
                        self@,
                        policy::track_is_on(track_group_info.title@, album_id.0),
                        self@.tracks.len(),
                    );
                }
                return Ok(group);
            }
        }
        self.create_track_group()
    }

    fn track_by_key(&self, identifier: &UniqueTrackIdentifier) -> (r: Option<usize>)
        ensures
            match r {
                Some(i) => first_where(self@.tracks, policy::track_has_key(identifier@)) == Some(
                    i as int,
                ) && i < self.tracks@.len(),
                None => first_where(self@.tracks, policy::track_has_key(identifier@)) is None,
            },
    {
        let mut i: usize = 0;
        while i < self.tracks.len()
            invariant
                i <= self.tracks@.len(),
                forall|j: int|
                    0 <= j < i ==> !(policy::track_has_key(identifier@))(#[trigger] self@.tracks[j]),
            decreases self.tracks@.len() - i,
        {
            if self.tracks[i].track.identifier.same(identifier) {
                proof {
                    lemma_first_where_is(
                        self@.tracks,
                        policy::track_has_key(identifier@),
                        i as int,
                    );
                }
                return Some(i);
            }
            i += 1;
        }
        proof {
            lemma_first_where_none(self@.tracks, policy::track_has_key(identifier@));
        }
        None
    }

    /// Enters a track under its identifier: the row of that identifier takes the new
    /// values and keeps its number; a new identifier gets a new row. What the track
    /// refers to must be rows of the catalog.
    pub fn upsert_track(&mut self, track: Track) -> (r: Result<TrackId, DbError>)
        requires
            old(self).wf(),
            track_refers_into(track, old(self)@),
        ensures
            final(self).wf(),
            final(self).stats == old(self).stats,
            match r {
                Ok(id) => (final(self)@, id.0) == policy::upsert_track(
                    old(self)@,
                    row_of(track),
                ),
                Err(_) => first_where(old(self)@.tracks, policy::track_has_key(track.identifier@))
                    is None && old(self)@.tracks.len() >= i64::MAX && final(self)@ == old(self)@,
            },
    {
        match self.track_by_key(&track.identifier) {
            Some(i) => {
                let id = self.tracks[i].track_id;
                let row = StoredTrack { track_id: id, track };
                proof {
                    crate::db::model::lemma_first_where(
                        old(self)@.tracks,
                        policy::track_has_key(track.identifier@),
                    );
                }
                self.tracks[i] = row;
                proof {
                    assert(final(self)@.tracks =~= old(self)@.tracks.update(i as int, row@));
                }
                Ok(id)
            },
            None => {
                if self.tracks.len() as u64 >= i64::MAX as u64 {
                    return Err(DbError::Full);
                }
                let id = TrackId((self.tracks.len() as u64 + 1) as i64);
                let row = StoredTrack { track_id: id, track };
                proof {
                    crate::db::model::lemma_first_where(
                        old(self)@.tracks,
                        policy::track_has_key(track.identifier@),
                    );
                }
                self.tracks.push(row);
                proof {
                    assert(final(self)@.tracks =~= old(self)@.tracks.push(row@));
                }
                Ok(id)
            },
        }
    }
}

/// The row that a track stands for before it has a number.
pub open spec fn row_of(track: Track) -> TrackRow {
    TrackRow {
        track_id: 0,
        track_group_id: track.track_group_id.0,
        artist_id: artist_ref(track.artist_id),
        album_artist_id: artist_ref(track.album_artist_id),
        album_id: album_ref(track.album_id),
        key: track.identifier@,
        tags: track.tags@,
    }
}

/// Whether everything that a track refers to is a row of the catalog.
pub open spec fn track_refers_into(track: Track, c: Catalog) -> bool {
    &&& crate::db::model::row_exists(track.track_group_id.0, c.track_groups)
    &&& crate::db::model::reference_holds(artist_ref(track.artist_id), c.artists.len())
    &&& crate::db::model::reference_holds(artist_ref(track.album_artist_id), c.artists.len())
    &&& crate::db::model::reference_holds(album_ref(track.album_id), c.albums.len())
    &&& track.album_id is None ==> track.album_artist_id is None
}

/// The group that most of the selected tracks belong to is the group of one of them, and
/// so a group that was made.
pub proof fn lemma_most_common_is_used(c: Catalog, pred: spec_fn(TrackRow) -> bool, k: nat)
    requires
        c.wf(),
        k <= c.tracks.len(),
    ensures
        policy::most_common_group(c.tracks, pred, k) matches Some(g) ==> exists|i: int|
            0 <= i < k && pred(c.tracks[i]) && c.tracks[i].track_group_id == g,
        policy::most_common_group(c.tracks, pred, k) matches Some(g)
            ==> crate::db::model::row_exists(g, c.track_groups),
        policy::most_common_group(c.tracks, pred, k) is None ==> forall|i: int|
            0 <= i < k ==> !pred(#[trigger] c.tracks[i]),
    decreases k,
{
    if k > 0 {
        lemma_most_common_is_used(c, pred, (k - 1) as nat);
        let row = c.tracks[k - 1];
        if pred(row) {
            match policy::most_common_group(c.tracks, pred, (k - 1) as nat) {
                Some(best) => {
                    if policy::preferred(c.tracks, pred, best, row.track_group_id) {
                        let i = choose|i: int|
                            0 <= i < k - 1 && pred(c.tracks[i]) && c.tracks[i].track_group_id
                                == best;
                        assert(0 <= i < k && pred(c.tracks[i]) && c.tracks[i].track_group_id
                            == best);
                    } else {
                        assert(pred(c.tracks[k - 1]) && c.tracks[k - 1].track_group_id
                            == row.track_group_id);
                    }
                },
                None => {
                    assert(pred(c.tracks[k - 1]) && c.tracks[k - 1].track_group_id
                        == row.track_group_id);
                },
            }
        } else {
            match policy::most_common_group(c.tracks, pred, (k - 1) as nat) {
                Some(best) => {
                    let i = choose|i: int|
                        0 <= i < k - 1 && pred(c.tracks[i]) && c.tracks[i].track_group_id == best;
                    assert(0 <= i < k && pred(c.tracks[i]) && c.tracks[i].track_group_id == best);
                },
                None => {},
            }
        }
    }
}


impl Database {
    /// Counts anew what the catalog holds.
    pub fn update_stats(&mut self)
        ensures
            final(self)@ == old(self)@,
            final(self).plugins == old(self).plugins,
            final(self).artists == old(self).artists,
            final(self).albums == old(self).albums,
            final(self).track_groups == old(self).track_groups,
            final(self).tracks == old(self).tracks,
            final(self).stats == stats_of(old(self)@),
    {
        let mut groups: Vec<Option<i64>> = Vec::new();
        let mut albums: Vec<Option<i64>> = Vec::new();
        let mut artists: Vec<Option<i64>> = Vec::new();
        let mut i: usize = 0;
        while i < self.tracks.len()
            invariant
                i <= self.tracks@.len(),
                groups@ == group_column(self@.tracks.take(i as int)),
                albums@ == album_column(self@.tracks.take(i as int)),
                artists@ == artist_column(self@.tracks.take(i as int)),
            decreases self.tracks@.len() - i,
        {
            let track = &self.tracks[i].track;
            groups.push(Some(track.track_group_id.0));
            albums.push(
                match track.album_id {
                    Some(a) => Some(a.0),
                    None => None,
                },
            );
            artists.push(
                match track.artist_id {
                    Some(a) => Some(a.0),
                    None => None,
                },
            );
            i += 1;
            proof {
                assert(self@.tracks.take(i as int) =~= self@.tracks.take(i - 1).push(
                    self@.tracks[i - 1],
                ));
                assert(groups@ =~= group_column(self@.tracks.take(i as int)));
                assert(albums@ =~= album_column(self@.tracks.take(i as int)));
                assert(artists@ =~= artist_column(self@.tracks.take(i as int)));
            }
        }
        proof {
            assert(self@.tracks.take(self@.tracks.len() as int) =~= self@.tracks);
            lemma_present_bounded(group_column(self@.tracks));
            lemma_present_bounded(album_column(self@.tracks));
            lemma_present_bounded(artist_column(self@.tracks));
        }
        self.stats = DbStats {
            num_tracks: self.tracks.len(),
            num_track_groups: count_distinct(&groups),
            num_albums: count_distinct(&albums),
            num_artists: count_distinct(&artists),
        };
    }

    /// Takes a scanned track into the catalog: finds or makes its album, its artist and
    /// its track group, enters the track under its identifier, and counts anew what the
    /// catalog holds. Nothing is changed where the tables lack the room for what a track
    /// may add.
    pub fn find_or_create_track(&mut self, identifier: UniqueTrackIdentifier, tags: Tags) -> (r:
        Result<TrackId, DbError>)
        requires
            old(self).wf(),
        ensures
            final(self).wf(),
            match r {
                Ok(id) => {
                    &&& policy::has_room(old(self)@)
                    &&& (final(self)@, id.0) == policy::find_or_create_track(
                        old(self)@,
                        identifier@,
                        tags@,
                    )
                    &&& final(self).stats == stats_of(final(self)@)
                },
                Err(_) => !policy::has_room(old(self)@) && final(self)@ == old(self)@
                    && final(self).stats == old(self).stats,
            },
    {
        if self.artists.len() as u64 + 3 > i64::MAX as u64 || self.albums.len() as u64
            >= i64::MAX as u64 || self.track_groups >= i64::MAX as u64 || self.tracks.len() as u64
            >= i64::MAX as u64 {
            return Err(DbError::Full);
        }
        let album = match self.find_or_create_album(AlbumInfo::from_tags(&tags)) {
            Ok(found) => found,
            Err(e) => {
                return Err(e);
            },
        };
        let artist_id = match self.find_or_create_artist(ArtistInfo::from_tags(&tags)) {
            Ok(found) => found,
            Err(e) => {
                return Err(e);
            },
        };
        proof {
            lemma_artist_result_exists(
                policy::find_or_create_album(old(self)@, policy::album_query(tags@)).0,
                policy::track_artist_query(tags@),
            );
        }
        let album_id = match album {
            Some(a) => Some(a.id),
            None => None,
        };
        let album_artist_id = match album {
            Some(a) => a.album_artist_id,
            None => None,
        };
        let track_group_id = match self.find_or_create_track_group(
            TrackGroupInfo::from_tags(&tags, album_id),
        ) {
            Ok(found) => found,
            Err(e) => {
                return Err(e);
            },
        };
        let track = Track {
            track_group_id,
            artist_id,
            album_artist_id,
            album_id,
            identifier,
            tags,
        };
        let track_id = match self.upsert_track(track) {
            Ok(id) => id,
            Err(e) => {
                return Err(e);
            },
        };
        self.update_stats();
        Ok(track_id)
    }

    /// The track under a number, if there is one.
    pub fn track(&self, id: TrackId) -> (r: Option<&StoredTrack>)
        requires
            self.wf(),
        ensures
            match r {
                Some(row) => crate::db::model::row_exists(id.0, self@.tracks.len()) && row@
                    == self@.tracks[id.0 - 1] && row@.track_id == id.0,
                None => !crate::db::model::row_exists(id.0, self@.tracks.len()),
            },
    {
        if id.0 >= 1 && (id.0 as u64) <= self.tracks.len() as u64 {
            Some(&self.tracks[(id.0 - 1) as usize])
        } else {
            None
        }
    }

    /// The artist under a number, if there is one.
    pub fn artist(&self, id: ArtistId) -> (r: Option<&Artist>)
        requires
            self.wf(),
        ensures
            match r {
                Some(row) => crate::db::model::row_exists(id.0, self@.artists.len()) && row@
                    == self@.artists[id.0 - 1] && row@.artist_id == id.0,
                None => !crate::db::model::row_exists(id.0, self@.artists.len()),
            },
    {
        if id.0 >= 1 && (id.0 as u64) <= self.artists.len() as u64 {
            Some(&self.artists[(id.0 - 1) as usize])
        } else {
            None
        }
    }

    /// The album under a number, if there is one.
    pub fn album(&self, id: AlbumId) -> (r: Option<&Album>)
        requires
            self.wf(),
        ensures
            match r {
                Some(row) => crate::db::model::row_exists(id.0, self@.albums.len()) && row@
                    == self@.albums[id.0 - 1] && row@.album_id == id.0,
                None => !crate::db::model::row_exists(id.0, self@.albums.len()),
            },
    {
        if id.0 >= 1 && (id.0 as u64) <= self.albums.len() as u64 {
            Some(&self.albums[(id.0 - 1) as usize])
        } else {
            None
        }
    }
}


impl Database {
    fn rows_are_numbered(&self) -> (r: bool)
        ensures
            r == self@.numbered(),
    {
        let mut i: usize = 0;
        while i < self.plugins.len()
            invariant
                i <= self.plugins@.len(),
                forall|j: int| 0 <= j < i ==> (#[trigger] self@.plugins[j]).plugin_id == j + 1,
            decreases self.plugins@.len() - i,
        {
            if self.plugins[i].plugin_id.0 as i128 != i as i128 + 1 {
                assert(self@.plugins[i as int].plugin_id != i + 1);
                return false;
            }
            i += 1;
        }
        let mut i: usize = 0;
        while i < self.artists.len()
            invariant
                i <= self.artists@.len(),
                forall|j: int| 0 <= j < i ==> (#[trigger] self@.artists[j]).artist_id == j + 1,
            decreases self.artists@.len() - i,
        {
            if self.artists[i].id.0 as i128 != i as i128 + 1 {
                assert(self@.artists[i as int].artist_id != i + 1);
                return false;
            }
            i += 1;
        }
        let mut i: usize = 0;
        while i < self.albums.len()
            invariant
                i <= self.albums@.len(),
                forall|j: int| 0 <= j < i ==> (#[trigger] self@.albums[j]).album_id == j + 1,
            decreases self.albums@.len() - i,
        {
            if self.albums[i].id.0 as i128 != i as i128 + 1 {
                assert(self@.albums[i as int].album_id != i + 1);
                return false;
            }
            i += 1;
        }
        let mut i: usize = 0;
        while i < self.tracks.len()
            invariant
                i <= self.tracks@.len(),
                forall|j: int| 0 <= j < i ==> (#[trigger] self@.tracks[j]).track_id == j + 1,
            decreases self.tracks@.len() - i,
        {
            if self.tracks[i].track_id.0 as i128 != i as i128 + 1 {
                assert(self@.tracks[i as int].track_id != i + 1);
                return false;
            }
            i += 1;
        }
        true
    }

    fn rows_are_unique(&self) -> (r: bool)
        ensures
            r == self@.unique(),
    {
        let mut j: usize = 0;
        while j < self.plugins.len()
            invariant
                j <= self.plugins@.len(),
                forall|a: int, b: int|
                    0 <= a < b < j ==> (#[trigger] self@.plugins[a]).uuid != (
                    #[trigger] self@.plugins[b]).uuid,
            decreases self.plugins@.len() - j,
        {
            let mut i: usize = 0;
            while i < j
                invariant
                    i <= j < self.plugins@.len(),
                    forall|a: int| 0 <= a < i ==> (#[trigger] self@.plugins[a]).uuid
                        != self@.plugins[j as int].uuid,
                decreases j - i,
            {
                if self.plugins[i].uuid == self.plugins[j].uuid {
                    assert(self@.plugins[i as int].uuid == self@.plugins[j as int].uuid);
                    return false;
                }
                i += 1;
            }
            j += 1;
        }
        let mut j: usize = 0;
        while j < self.tracks.len()
            invariant
                j <= self.tracks@.len(),
                forall|a: int, b: int|
                    0 <= a < b < self.plugins@.len() ==> (#[trigger] self@.plugins[a]).uuid != (
                    #[trigger] self@.plugins[b]).uuid,
                forall|a: int, b: int|
                    0 <= a < b < j ==> (#[trigger] self@.tracks[a]).key != (
                    #[trigger] self@.tracks[b]).key,
            decreases self.tracks@.len() - j,
        {
            let mut i: usize = 0;
            while i < j
                invariant
                    i <= j < self.tracks@.len(),
                    forall|a: int| 0 <= a < i ==> (#[trigger] self@.tracks[a]).key
                        != self@.tracks[j as int].key,
                decreases j - i,
            {
                if self.tracks[i].track.identifier.same(&self.tracks[j].track.identifier) {
                    assert(self@.tracks[i as int].key == self@.tracks[j as int].key);
                    return false;
                }
                i += 1;
            }
            j += 1;
        }
        true
    }

    fn artist_exists(&self, id: Option<ArtistId>) -> (r: bool)
        ensures
            r == crate::db::model::reference_holds(artist_ref(id), self@.artists.len()),
    {
        match id {
            Some(a) => a.0 >= 1 && a.0 as u64 <= self.artists.len() as u64,
            None => true,
        }
    }

    fn rows_are_linked(&self) -> (r: bool)
        ensures
            r == self@.linked(),
    {
        let mut i: usize = 0;
        while i < self.albums.len()
            invariant
                i <= self.albums@.len(),
                forall|j: int|
                    0 <= j < i ==> crate::db::model::reference_holds(
                        (#[trigger] self@.albums[j]).artist_id,
                        self@.artists.len(),
                    ),
            decreases self.albums@.len() - i,
        {
            if !self.artist_exists(self.albums[i].artist_id) {
                assert(!crate::db::model::reference_holds(
                    self@.albums[i as int].artist_id,
                    self@.artists.len(),
                ));
                return false;
            }
            i += 1;
        }
        let mut i: usize = 0;
        while i < self.tracks.len()
            invariant
                i <= self.tracks@.len(),
                forall|j: int|
                    0 <= j < self.albums@.len() ==> crate::db::model::reference_holds(
                        (#[trigger] self@.albums[j]).artist_id,
                        self@.artists.len(),
                    ),
                forall|j: int|
                    0 <= j < i ==> {
                        let t = #[trigger] self@.tracks[j];
                        &&& crate::db::model::row_exists(t.track_group_id, self@.track_groups)
                        &&& crate::db::model::reference_holds(t.artist_id, self@.artists.len())
                        &&& crate::db::model::reference_holds(
                            t.album_artist_id,
                            self@.artists.len(),
                        )
                        &&& crate::db::model::reference_holds(t.album_id, self@.albums.len())
                        &&& t.album_id is None ==> t.album_artist_id is None
                    },
            decreases self.tracks@.len() - i,
        {
            let track = &self.tracks[i].track;
            let grouped = track.track_group_id.0 >= 1 && track.track_group_id.0 as u64
                <= self.track_groups;
            let on_album = match track.album_id {
                Some(a) => a.0 >= 1 && a.0 as u64 <= self.albums.len() as u64,
                None => track.album_artist_id.is_none(),
            };
            if !(grouped && on_album && self.artist_exists(track.artist_id) && self.artist_exists(
                track.album_artist_id,
            )) {
                let ghost t = self@.tracks[i as int];
                assert(!(crate::db::model::row_exists(t.track_group_id, self@.track_groups)
                    && crate::db::model::reference_holds(t.artist_id, self@.artists.len())
                    && crate::db::model::reference_holds(t.album_artist_id, self@.artists.len())
                    && crate::db::model::reference_holds(t.album_id, self@.albums.len()) && (
                t.album_id is None ==> t.album_artist_id is None)));
                return false;
            }
            i += 1;
        }
        true
    }

    /// Whether the catalog is consistent.
    pub fn is_consistent(&self) -> (r: bool)
        ensures
            r == self.wf(),
    {
        self.plugins.len() as u64 <= i64::MAX as u64 && self.artists.len() as u64 <= i64::MAX as u64
            && self.albums.len() as u64 <= i64::MAX as u64 && self.track_groups <= i64::MAX as u64
            && self.tracks.len() as u64 <= i64::MAX as u64 && self.rows_are_numbered()
            && self.rows_are_unique() && self.rows_are_linked()
    }

    /// Puts a catalog together from rows that were stored, if they make a consistent
    /// catalog. The statistics are counted anew.
    pub fn restore(
        plugins: Vec<StoredPlugin>,
        artists: Vec<Artist>,
        albums: Vec<Album>,
        track_groups: u64,
        tracks: Vec<StoredTrack>,
    ) -> (r: Option<Database>)
        ensures
            match r {
                Some(db) => {
                    &&& db.wf()
                    &&& db.plugins == plugins
                    &&& db.artists == artists
                    &&& db.albums == albums
                    &&& db.track_groups == track_groups
                    &&& db.tracks == tracks
                    &&& db.stats == stats_of(db@)
                },
                None => !(Database {
                    plugins,
                    artists,
                    albums,
                    track_groups,
                    tracks,
                    stats: DbStats {
                        num_tracks: 0,
                        num_track_groups: 0,
                        num_albums: 0,
                        num_artists: 0,
                    },
                }).wf(),
            },
    {
        let mut db = Database {
            plugins,
            artists,
            albums,
            track_groups,
            tracks,
            stats: DbStats { num_tracks: 0, num_track_groups: 0, num_albums: 0, num_artists: 0 },
        };
        if !db.is_consistent() {
            return None;
        }
        db.update_stats();
        Some(db)
    }
}

} // verus!
