//! The catalog in memory: its tables as vectors of rows, and the operations that take a
//! scanned track in.

use crate::db::model::{
    first_where, lemma_first_where_is, lemma_first_where_none, AlbumRow, ArtistRow, Catalog,
    PluginRow, TrackRow,
};
use crate::db::policy;
use crate::db::policy::{AlbumFound, AlbumQuery, ArtistQuery, GroupQuery};
use crate::ident::{AlbumId, ArtistId, PluginId, TrackGroupId, TrackId, UniqueTrackIdentifier};
use crate::tags::{lemma_view_at, TagKind, TagValueView, Tags};
use crate::text::{as_deref, opt_chars, str_equal};
use vstd::prelude::*;

verus! {

/// Why the catalog could not take something in.
#[derive(Debug, Clone, Copy, PartialEq, Eq, Structural)]
pub enum DbError {
    /// A table has as many rows as can be numbered.
    Full,
}

/// How much the catalog holds.
#[derive(Debug, Clone, Copy, PartialEq, Eq, Structural)]
pub struct DbStats {
    pub num_tracks: usize,
    pub num_track_groups: usize,
    pub num_albums: usize,
    pub num_artists: usize,
}

impl Default for DbStats {
    fn default() -> (r: DbStats)
        ensures
            r == (DbStats { num_tracks: 0, num_track_groups: 0, num_albums: 0, num_artists: 0 }),
    {
        DbStats { num_tracks: 0, num_track_groups: 0, num_albums: 0, num_artists: 0 }
    }
}

/// An artist of the catalog.
#[derive(Debug, PartialEq, Eq)]
pub struct Artist {
    pub id: ArtistId,
    pub mbid: Option<u128>,
    pub name: String,
}

/// An album of the catalog.
#[derive(Debug, PartialEq, Eq)]
pub struct Album {
    pub id: AlbumId,
    pub title: String,
    pub mbid: Option<u128>,
    pub artist_id: Option<ArtistId>,
}

/// A track of the catalog: its tags, and the rows it belongs to.
#[derive(Debug, PartialEq, Eq)]
pub struct Track {
    pub track_group_id: TrackGroupId,
    pub artist_id: Option<ArtistId>,
    pub album_artist_id: Option<ArtistId>,
    pub album_id: Option<AlbumId>,
    pub identifier: UniqueTrackIdentifier,
    pub tags: Tags,
}

/// A track under its number.
#[derive(Debug, PartialEq, Eq)]
pub struct StoredTrack {
    pub track_id: TrackId,
    pub track: Track,
}

/// A plugin under its number.
#[derive(Debug, Clone, Copy, PartialEq, Eq, Structural)]
pub struct StoredPlugin {
    pub plugin_id: PluginId,
    pub uuid: u128,
}

/// An optional artist number as a plain number.
pub open spec fn artist_ref(id: Option<ArtistId>) -> Option<i64> {
    match id {
        Some(a) => Some(a.0),
        None => None,
    }
}

/// An optional album number as a plain number.
pub open spec fn album_ref(id: Option<AlbumId>) -> Option<i64> {
    match id {
        Some(a) => Some(a.0),
        None => None,
    }
}

impl View for Artist {
    type V = ArtistRow;

    open spec fn view(&self) -> ArtistRow {
        ArtistRow { artist_id: self.id.0, name: self.name@, mbid: self.mbid }
    }
}

impl View for Album {
    type V = AlbumRow;

    open spec fn view(&self) -> AlbumRow {
        AlbumRow {
            album_id: self.id.0,
            title: self.title@,
            mbid: self.mbid,
            artist_id: artist_ref(self.artist_id),
        }
    }
}

impl View for StoredTrack {
    type V = TrackRow;

    open spec fn view(&self) -> TrackRow {
        TrackRow {
            track_id: self.track_id.0,
            track_group_id: self.track.track_group_id.0,
            artist_id: artist_ref(self.track.artist_id),
            album_artist_id: artist_ref(self.track.album_artist_id),
            album_id: album_ref(self.track.album_id),
            key: self.track.identifier@,
            tags: self.track.tags@,
        }
    }
}

impl View for StoredPlugin {
    type V = PluginRow;

    open spec fn view(&self) -> PluginRow {
        PluginRow { plugin_id: self.plugin_id.0, uuid: self.uuid }
    }
}

/// The rows that a vector of artists stands for.
pub open spec fn artist_rows(s: Seq<Artist>) -> Seq<ArtistRow> {
    s.map_values(|a: Artist| a@)
}

/// The rows that a vector of albums stands for.
pub open spec fn album_rows(s: Seq<Album>) -> Seq<AlbumRow> {
    s.map_values(|a: Album| a@)
}

/// The rows that a vector of tracks stands for.
pub open spec fn track_rows(s: Seq<StoredTrack>) -> Seq<TrackRow> {
    s.map_values(|t: StoredTrack| t@)
}

/// The rows that a vector of plugins stands for.
pub open spec fn plugin_rows(s: Seq<StoredPlugin>) -> Seq<PluginRow> {
    s.map_values(|p: StoredPlugin| p@)
}

/// What is known of an artist.
#[derive(Debug, Clone, Copy)]
pub struct ArtistInfo<'a> {
    pub name: Option<&'a str>,
    pub mbid: Option<u128>,
}

/// What is known of an album.
#[derive(Debug, Clone, Copy)]
pub struct AlbumInfo<'a> {
    pub title: Option<&'a str>,
    pub mbid: Option<u128>,
    pub album_artist: ArtistInfo<'a>,
    pub artist: ArtistInfo<'a>,
}

/// What decides the track group of a track.
#[derive(Debug, Clone, Copy)]
pub struct TrackGroupInfo<'a> {
    pub title: &'a str,
    pub track_mbid: Option<u128>,
    pub album_id: Option<AlbumId>,
}

/// The album that was found or made for a track.
#[derive(Debug, Clone, Copy, PartialEq, Eq, Structural)]
pub struct CreatedAlbum {
    pub id: AlbumId,
    pub album_artist_id: Option<ArtistId>,
}

impl<'a> View for ArtistInfo<'a> {
    type V = ArtistQuery;

    open spec fn view(&self) -> ArtistQuery {
        ArtistQuery { name: opt_chars(self.name), mbid: self.mbid }
    }
}

impl<'a> View for AlbumInfo<'a> {
    type V = AlbumQuery;

    open spec fn view(&self) -> AlbumQuery {
        AlbumQuery {
            title: opt_chars(self.title),
            mbid: self.mbid,
            album_artist: self.album_artist@,
            artist: self.artist@,
        }
    }
}

impl<'a> View for TrackGroupInfo<'a> {
    type V = GroupQuery;

    open spec fn view(&self) -> GroupQuery {
        GroupQuery {
            title: self.title@,
            track_mbid: self.track_mbid,
            album_id: album_ref(self.album_id),
        }
    }
}

impl View for CreatedAlbum {
    type V = AlbumFound;

    open spec fn view(&self) -> AlbumFound {
        AlbumFound { id: self.id.0, album_artist_id: artist_ref(self.album_artist_id) }
    }
}

/// What an optional album stands for.
pub open spec fn album_found(v: Option<CreatedAlbum>) -> Option<AlbumFound> {
    match v {
        Some(a) => Some(a@),
        None => None,
    }
}

impl<'a> ArtistInfo<'a> {
    /// What the tags know of the artist of the track.
    pub fn from_tags(tags: &'a Tags) -> (r: ArtistInfo<'a>)
        ensures
            r@ == policy::track_artist_query(tags@),
    {
        proof {
            lemma_view_at(*tags, TagKind::TrackArtist);
            lemma_view_at(*tags, TagKind::MusicbrainzArtistId);
        }
        ArtistInfo { name: as_deref(&tags.track_artist), mbid: tags.musicbrainz_artist_id }
    }

    /// What the tags know of the artist of the album.
    pub fn album_artist_from_tags(tags: &'a Tags) -> (r: ArtistInfo<'a>)
        ensures
            r@ == policy::album_artist_query(tags@),
    {
        proof {
            lemma_view_at(*tags, TagKind::AlbumArtist);
            lemma_view_at(*tags, TagKind::MusicbrainzReleaseArtistId);
        }
        ArtistInfo { name: as_deref(&tags.album_artist), mbid: tags.musicbrainz_release_artist_id }
    }

    /// Enough is known to look for the artist.
    pub fn is_complete(&self) -> (r: bool)
        ensures
            r == self@.is_complete(),
    {
        self.mbid.is_some() || self.name.is_some()
    }
}

impl<'a> AlbumInfo<'a> {
    /// What the tags know of the album.
    pub fn from_tags(tags: &'a Tags) -> (r: AlbumInfo<'a>)
        ensures
            r@ == policy::album_query(tags@),
    {
        proof {
            lemma_view_at(*tags, TagKind::AlbumTitle);
            lemma_view_at(*tags, TagKind::MusicbrainzReleaseGroupId);
        }
        AlbumInfo {
            title: as_deref(&tags.album_title),
            mbid: tags.musicbrainz_release_group_id,
            album_artist: ArtistInfo::album_artist_from_tags(tags),
            artist: ArtistInfo::from_tags(tags),
        }
    }

    /// Enough is known to look for the album.
    pub fn is_complete(&self) -> (r: bool)
        ensures
            r == self@.is_complete(),
    {
        self.mbid.is_some() || (self.title.is_some() && (self.album_artist.is_complete()
            || self.artist.is_complete()))
    }
}

impl<'a> TrackGroupInfo<'a> {
    /// What decides the track group, given the album that was found for the track.
    pub fn from_tags(tags: &'a Tags, album_id: Option<AlbumId>) -> (r: TrackGroupInfo<'a>)
        ensures
            r@ == policy::group_query(tags@, album_ref(album_id)),
    {
        proof {
            lemma_view_at(*tags, TagKind::TrackTitle);
            lemma_view_at(*tags, TagKind::MusicbrainzTrackId);
        }
        TrackGroupInfo {
            title: tags.track_title.as_str(),
            track_mbid: tags.musicbrainz_track_id,
            album_id,
        }
    }
}

} // verus!
