use hogehoge::db::database::Database;
use hogehoge::db::store::{AlbumInfo, ArtistInfo, CreatedAlbum, DbError, DbStats, TrackGroupInfo};
use hogehoge::ident::{
    AlbumId, ArtistId, PluginId, PluginTrackIdentifier, TrackGroupId, TrackId,
    UniqueTrackIdentifier,
};
use hogehoge::tags::Tags;

fn track(plugin: i64, data: &[u8]) -> UniqueTrackIdentifier {
    UniqueTrackIdentifier {
        plugin_id: PluginId(plugin),
        plugin_data: PluginTrackIdentifier(data.to_vec()),
    }
}

fn artist<'a>(name: Option<&'a str>, mbid: Option<u128>) -> ArtistInfo<'a> {
    ArtistInfo { name, mbid }
}

const NOBODY: ArtistInfo<'static> = ArtistInfo { name: None, mbid: None };

#[test]
fn scan_and_persist_two_tracks() {
    let mut db = Database::new();
    let first = db.find_or_create_track(track(1, b"a"), Tags::new("T1".to_string()));
    let mut tags = Tags::new("T2".to_string());
    tags.musicbrainz_track_id = Some(0x1234);
    let second = db.find_or_create_track(track(1, b"b"), tags);
    assert_eq!(first, Ok(TrackId(1)));
    assert_eq!(second, Ok(TrackId(2)));
    assert_eq!(
        db.stats(),
        DbStats { num_tracks: 2, num_track_groups: 2, num_albums: 0, num_artists: 0 }
    );
    assert_eq!(db.artists.len(), 0);
    assert_eq!(db.albums.len(), 0);
    assert_eq!(db.track_groups, 2);
}

#[test]
fn artist_identifier_is_backfilled() {
    let mut db = Database::new();
    assert_eq!(db.create_artist("Bowie", None), Ok(ArtistId(1)));
    let found = db.find_or_create_artist(artist(Some("Bowie"), Some(0xABCD)));
    assert_eq!(found, Ok(Some(ArtistId(1))));
    assert_eq!(db.artists.len(), 1);
    assert_eq!(db.artists[0].name, "Bowie");
    assert_eq!(db.artists[0].mbid, Some(0xABCD));
}

#[test]
fn artist_identifier_mismatch_keeps_the_row() {
    let mut db = Database::new();
    db.create_artist("Bowie", Some(1)).unwrap();
    let found = db.find_or_create_artist(artist(Some("Bowie"), Some(2)));
    assert_eq!(found, Ok(Some(ArtistId(1))));
    assert_eq!(db.artists[0].mbid, Some(1));
    assert_eq!(db.artists.len(), 1);
}

#[test]
fn artist_found_by_identifier_before_name() {
    let mut db = Database::new();
    db.create_artist("Bowie", None).unwrap();
    db.create_artist("David Bowie", Some(9)).unwrap();
    let found = db.find_or_create_artist(artist(Some("Bowie"), Some(9)));
    assert_eq!(found, Ok(Some(ArtistId(2))));
    assert_eq!(db.artists[0].mbid, None);
}

#[test]
fn artist_without_name_and_identifier_is_nobody() {
    let mut db = Database::new();
    assert_eq!(db.find_or_create_artist(NOBODY), Ok(None));
    assert_eq!(db.find_or_create_artist(artist(None, Some(5))), Ok(None));
    assert_eq!(db.artists.len(), 0);
}

#[test]
fn artist_is_created_once() {
    let mut db = Database::new();
    assert_eq!(db.find_or_create_artist(artist(Some("A"), None)), Ok(Some(ArtistId(1))));
    assert_eq!(db.find_or_create_artist(artist(Some("B"), Some(3))), Ok(Some(ArtistId(2))));
    assert_eq!(db.find_or_create_artist(artist(Some("A"), None)), Ok(Some(ArtistId(1))));
    assert_eq!(db.find_or_create_artist(artist(None, Some(3))), Ok(Some(ArtistId(2))));
    assert_eq!(db.artists.len(), 2);
    assert_eq!(db.artist(ArtistId(2)).map(|a| a.name.as_str()), Some("B"));
    assert!(db.artist(ArtistId(3)).is_none());
    assert!(db.artist(ArtistId(0)).is_none());
}

#[test]
fn album_needs_identifier_or_title_with_artist() {
    let mut db = Database::new();
    let nothing = AlbumInfo { title: None, mbid: None, album_artist: NOBODY, artist: NOBODY };
    assert_eq!(db.find_or_create_album(nothing), Ok(None));
    let title_only =
        AlbumInfo { title: Some("Low"), mbid: None, album_artist: NOBODY, artist: NOBODY };
    assert_eq!(db.find_or_create_album(title_only), Ok(None));
    assert_eq!(db.albums.len(), 0);
    assert_eq!(db.artists.len(), 0);
}

#[test]
fn album_with_identifier_alone_gets_a_row() {
    let mut db = Database::new();
    let info = AlbumInfo {
        title: None,
        mbid: Some(4),
        album_artist: NOBODY,
        artist: artist(Some("Bowie"), None),
    };
    assert_eq!(
        db.find_or_create_album(info),
        Ok(Some(CreatedAlbum { id: AlbumId(1), album_artist_id: Some(ArtistId(1)) }))
    );
    assert_eq!(db.albums.len(), 1);
    assert_eq!(db.albums[0].title, "");
    assert_eq!(db.albums[0].mbid, Some(4));
    assert_eq!(db.albums[0].artist_id, Some(ArtistId(1)));
    assert_eq!(db.artists.len(), 1);

    assert_eq!(
        db.find_or_create_album(info),
        Ok(Some(CreatedAlbum { id: AlbumId(1), album_artist_id: Some(ArtistId(1)) }))
    );
    assert_eq!(db.albums.len(), 1);

    let bare = AlbumInfo { title: None, mbid: Some(5), album_artist: NOBODY, artist: NOBODY };
    assert_eq!(
        db.find_or_create_album(bare),
        Ok(Some(CreatedAlbum { id: AlbumId(2), album_artist_id: None }))
    );
    assert_eq!(db.albums[1].title, "");
    assert_eq!(db.albums[1].mbid, Some(5));
    assert_eq!(db.albums[1].artist_id, None);
    assert!(db.is_consistent());
}

#[test]
fn album_prefers_the_album_artist() {
    let mut db = Database::new();
    let info = AlbumInfo {
        title: Some("Low"),
        mbid: None,
        album_artist: artist(Some("Various"), None),
        artist: artist(Some("Bowie"), None),
    };
    let created = db.find_or_create_album(info);
    assert_eq!(
        created,
        Ok(Some(CreatedAlbum { id: AlbumId(1), album_artist_id: Some(ArtistId(1)) }))
    );
    assert_eq!(db.artists.len(), 1);
    assert_eq!(db.artists[0].name, "Various");
    assert_eq!(db.albums[0].title, "Low");
    assert_eq!(db.albums[0].artist_id, Some(ArtistId(1)));
}

#[test]
fn album_falls_back_to_the_track_artist() {
    let mut db = Database::new();
    let info = AlbumInfo {
        title: Some("Low"),
        mbid: None,
        album_artist: NOBODY,
        artist: artist(Some("Bowie"), None),
    };
    assert_eq!(
        db.find_or_create_album(info),
        Ok(Some(CreatedAlbum { id: AlbumId(1), album_artist_id: Some(ArtistId(1)) }))
    );
    assert_eq!(db.artists[0].name, "Bowie");
}

#[test]
fn album_is_found_by_title_and_artist_and_backfilled() {
    let mut db = Database::new();
    let plain = AlbumInfo {
        title: Some("Low"),
        mbid: None,
        album_artist: NOBODY,
        artist: artist(Some("Bowie"), None),
    };
    db.find_or_create_album(plain).unwrap();
    let with_id = AlbumInfo { mbid: Some(77), ..plain };
    assert_eq!(
        db.find_or_create_album(with_id),
        Ok(Some(CreatedAlbum { id: AlbumId(1), album_artist_id: Some(ArtistId(1)) }))
    );
    assert_eq!(db.albums.len(), 1);
    assert_eq!(db.albums[0].mbid, Some(77));
    let other_id = AlbumInfo { mbid: Some(78), ..plain };
    assert_eq!(
        db.find_or_create_album(other_id),
        Ok(Some(CreatedAlbum { id: AlbumId(1), album_artist_id: Some(ArtistId(1)) }))
    );
    assert_eq!(db.albums[0].mbid, Some(77));
    let by_id = AlbumInfo { title: None, mbid: Some(77), album_artist: NOBODY, artist: NOBODY };
    assert_eq!(
        db.find_or_create_album(by_id),
        Ok(Some(CreatedAlbum { id: AlbumId(1), album_artist_id: Some(ArtistId(1)) }))
    );
}

#[test]
fn same_title_by_another_artist_is_another_album() {
    let mut db = Database::new();
    let low = |name| AlbumInfo {
        title: Some("Low"),
        mbid: None,
        album_artist: NOBODY,
        artist: artist(Some(name), None),
    };
    assert_eq!(db.find_or_create_album(low("Bowie")).unwrap().unwrap().id, AlbumId(1));
    assert_eq!(db.find_or_create_album(low("Low")).unwrap().unwrap().id, AlbumId(2));
    assert_eq!(db.albums.len(), 2);
}

#[test]
fn import_is_an_upsert() {
    let mut db = Database::new();
    let mut early = Tags::new("Old title".to_string());
    early.genre = Some("rock".to_string());
    let mut late = Tags::new("New title".to_string());
    late.year = Some("1977".to_string());
    let first = db.find_or_create_track(track(1, b"a"), early).unwrap();
    db.find_or_create_track(track(1, b"b"), Tags::new("Other".to_string())).unwrap();
    let second = db.find_or_create_track(track(1, b"a"), late).unwrap();
    assert_eq!(first, second);
    assert_eq!(db.tracks.len(), 2);
    let row = db.track(first).unwrap();
    assert_eq!(row.track.tags.track_title, "New title");
    assert_eq!(row.track.tags.year.as_deref(), Some("1977"));
    assert_eq!(row.track.tags.genre, None);
    assert_eq!(row.track.identifier, track(1, b"a"));
    assert_eq!(db.stats().num_tracks, 2);
}

#[test]
fn tracks_of_one_recording_share_a_group() {
    let mut db = Database::new();
    let tagged = |title: &str| {
        let mut tags = Tags::new(title.to_string());
        tags.musicbrainz_track_id = Some(42);
        tags
    };
    db.find_or_create_track(track(1, b"a"), tagged("One")).unwrap();
    db.find_or_create_track(track(2, b"z"), tagged("Uno")).unwrap();
    db.find_or_create_track(track(2, b"y"), Tags::new("One".to_string())).unwrap();
    assert_eq!(db.tracks[0].track.track_group_id, TrackGroupId(1));
    assert_eq!(db.tracks[1].track.track_group_id, TrackGroupId(1));
    assert_eq!(db.tracks[2].track.track_group_id, TrackGroupId(2));
    assert_eq!(db.stats().num_track_groups, 2);
}

#[test]
fn tracks_of_one_title_on_one_album_share_a_group() {
    let mut db = Database::new();
    let on_album = |title: &str| {
        let mut tags = Tags::new(title.to_string());
        tags.album_title = Some("Low".to_string());
        tags.track_artist = Some("Bowie".to_string());
        tags
    };
    db.find_or_create_track(track(1, b"a"), on_album("Sound and Vision")).unwrap();
    db.find_or_create_track(track(2, b"a"), on_album("Sound and Vision")).unwrap();
    db.find_or_create_track(track(2, b"b"), on_album("Warszawa")).unwrap();
    assert_eq!(db.tracks[0].track.track_group_id, db.tracks[1].track.track_group_id);
    assert_eq!(db.tracks[2].track.track_group_id, TrackGroupId(2));
    assert_eq!(db.tracks[0].track.album_id, Some(AlbumId(1)));
    assert_eq!(db.tracks[0].track.artist_id, Some(ArtistId(1)));
    assert_eq!(db.tracks[0].track.album_artist_id, Some(ArtistId(1)));
    assert_eq!(
        db.stats(),
        DbStats { num_tracks: 3, num_track_groups: 2, num_albums: 1, num_artists: 1 }
    );
}

#[test]
fn the_most_common_group_wins_and_ties_go_to_the_smaller() {
    let mut db = Database::new();
    let g1 = db.create_track_group().unwrap();
    let g2 = db.create_track_group().unwrap();
    assert_eq!((g1, g2), (TrackGroupId(1), TrackGroupId(2)));
    let row = |group, data: &[u8]| hogehoge::db::store::Track {
        track_group_id: group,
        artist_id: None,
        album_artist_id: None,
        album_id: None,
        identifier: track(1, data),
        tags: {
            let mut tags = Tags::new("T".to_string());
            tags.musicbrainz_track_id = Some(5);
            tags
        },
    };
    db.upsert_track(row(g2, b"a")).unwrap();
    db.upsert_track(row(g1, b"b")).unwrap();
    let info = TrackGroupInfo { title: "T", track_mbid: Some(5), album_id: None };
    assert_eq!(db.find_or_create_track_group(info), Ok(TrackGroupId(1)));
    db.upsert_track(row(g2, b"c")).unwrap();
    assert_eq!(db.find_or_create_track_group(info), Ok(TrackGroupId(2)));
    let unknown = TrackGroupInfo { title: "T", track_mbid: Some(6), album_id: None };
    assert_eq!(db.find_or_create_track_group(unknown), Ok(TrackGroupId(3)));
}

#[test]
fn plugins_are_registered_once() {
    let mut db = Database::new();
    assert_eq!(db.get_plugin_id(10), None);
    assert_eq!(db.register_plugin(10), Ok(PluginId(1)));
    assert_eq!(db.register_plugin(20), Ok(PluginId(2)));
    assert_eq!(db.register_plugin(10), Ok(PluginId(1)));
    assert_eq!(db.get_plugin_id(20), Some(PluginId(2)));
    assert_eq!(db.plugins.len(), 2);
}

#[test]
fn a_full_table_takes_nothing_in() {
    let mut db = Database::new();
    db.track_groups = i64::MAX as u64;
    assert_eq!(db.create_track_group(), Err(DbError::Full));
    assert_eq!(
        db.find_or_create_track(track(1, b"a"), Tags::new("T".to_string())),
        Err(DbError::Full)
    );
    assert_eq!(db.tracks.len(), 0);
}

#[test]
fn stats_count_each_reference_once() {
    let mut db = Database::new();
    let tagged = |title: &str, artist: &str, album: Option<&str>| {
        let mut tags = Tags::new(title.to_string());
        tags.track_artist = Some(artist.to_string());
        tags.album_title = album.map(str::to_string);
        tags
    };
    db.find_or_create_track(track(1, b"1"), tagged("a", "X", Some("L"))).unwrap();
    db.find_or_create_track(track(1, b"2"), tagged("b", "X", Some("L"))).unwrap();
    db.find_or_create_track(track(1, b"3"), tagged("c", "Y", None)).unwrap();
    db.find_or_create_track(track(1, b"4"), Tags::new("d".to_string())).unwrap();
    assert_eq!(
        db.stats(),
        DbStats { num_tracks: 4, num_track_groups: 4, num_albums: 1, num_artists: 2 }
    );
}
