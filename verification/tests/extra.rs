use hogehoge::audio::PlaybackState;
use hogehoge::background_task::{any_running, BackgroundTaskManager, BackgroundTaskState};
use hogehoge::db::database::Database;
use hogehoge::db::store::{Album, Artist, DbStats, StoredPlugin, StoredTrack, Track};
use hogehoge::ident::{
    AlbumId, ArtistId, PluginId, PluginTrackIdentifier, TaskId, TrackGroupId, TrackId,
    UniqueTrackIdentifier,
};
use hogehoge::library::{is_supported_extension, ScanJob, ScanPipeline, ScanProgress, ScanSkip};
use hogehoge::media::{interleave, TimeSpan};
use hogehoge::notifications::{Notification, NotificationManager, NotificationStateKind};
use hogehoge::sql::{dollar_values, insert_statement};
use hogehoge::tags::Tags;
use hogehoge::task_log::{BackgroundTaskLogSubscriber, LogLevel, LogLine};
use hogehoge::text::{decimal, str_equal};
use hogehoge::theme::{
    find_manifest, ArchiveFile, PartialTheme, PartialThemeColors, PartialThemeIcons,
    PartialThemeManifest, PartialThemeManifestIcons, Theme, ThemeError,
};
use hogehoge::layout::{Direction, Padding, Size, WidgetClass};
use hogehoge::ui::{Placement, UiContext, Widget};
use hogehoge::view::{
    delays_refresh, library_stats_label, playback_progress, uses_alt_color, visible_range,
    ButtonState, PointerEvent, State,
};

fn track(plugin: i64, data: &[u8]) -> UniqueTrackIdentifier {
    UniqueTrackIdentifier {
        plugin_id: PluginId(plugin),
        plugin_data: PluginTrackIdentifier(data.to_vec()),
    }
}

fn colors(value: Option<&str>) -> PartialThemeColors {
    let c = || value.map(str::to_string);
    PartialThemeColors {
        background: c(),
        foreground: c(),
        container: c(),
        border: c(),
        button_idle: c(),
        button_hover: c(),
        button_press: c(),
        success: c(),
        warning: c(),
        error: c(),
    }
}

fn file(name: &str, contents: &[u8]) -> ArchiveFile {
    ArchiveFile { name: name.to_string(), contents: contents.to_vec() }
}

#[test]
fn numbers_in_decimal() {
    assert_eq!(decimal(0), "0");
    assert_eq!(decimal(7), "7");
    assert_eq!(decimal(10), "10");
    assert_eq!(decimal(1_234_567_890), "1234567890");
    assert_eq!(decimal(u64::MAX), u64::MAX.to_string());
    assert!(str_equal("", ""));
    assert!(str_equal("añb", "añb"));
    assert!(!str_equal("a", "A"));
    assert!(!str_equal("a", "ab"));
}

#[test]
fn placeholders_of_a_statement() {
    assert_eq!(dollar_values(0), "");
    assert_eq!(dollar_values(1), "$1");
    assert_eq!(dollar_values(3), "$1,$2,$3");
    assert_eq!(dollar_values(11), "$1,$2,$3,$4,$5,$6,$7,$8,$9,$10,$11");
    assert_eq!(
        insert_statement("tracks", &vec!["path".to_string(), "title".to_string()]),
        "INSERT INTO tracks ( path,title ) VALUES ( $1,$2 )"
    );
    assert_eq!(insert_statement("t", &vec![]), "INSERT INTO t (  ) VALUES (  )");
}

#[test]
fn samples_are_woven_frame_by_frame() {
    assert_eq!(interleave(&vec![]), Some(Vec::<u32>::new()));
    assert_eq!(interleave(&vec![vec![1, 2, 3]]), Some(vec![1, 2, 3]));
    assert_eq!(
        interleave(&vec![vec![1, 2, 3], vec![10, 20, 30]]),
        Some(vec![1, 10, 2, 20, 3, 30])
    );
    assert_eq!(interleave(&vec![vec![], vec![]]), Some(Vec::<u32>::new()));
    assert_eq!(interleave(&vec![vec![1, 2], vec![10]]), None);
}

#[test]
fn audio_files_have_known_extensions() {
    for ext in ["aac", "ape", "aiff", "flac", "mp3", "mp4", "m4a", "mpc", "ogg", "opus", "wav", "wma", "wvc", "wv"] {
        assert!(is_supported_extension(Some(ext)), "{ext}");
    }
    assert!(!is_supported_extension(Some("txt")));
    assert!(!is_supported_extension(Some("MP3")));
    assert!(!is_supported_extension(Some("")));
    assert!(!is_supported_extension(None));
}

#[test]
fn buttons_follow_the_pointer() {
    let idle = ButtonState::Idle;
    assert_eq!(idle.on(PointerEvent::Enter), ButtonState::Hovered);
    assert_eq!(ButtonState::Hovered.on(PointerEvent::Down), ButtonState::Pressed);
    assert_eq!(ButtonState::Pressed.on(PointerEvent::Up), ButtonState::Hovered);
    assert_eq!(ButtonState::Pressed.on(PointerEvent::Leave), ButtonState::Idle);
    assert!(uses_alt_color(0) && !uses_alt_color(1) && uses_alt_color(2));
    assert_eq!(State::default(), State { search_open: false, search_query: String::new() });
}

#[test]
fn the_visible_rows_follow_the_scroll_position() {
    assert_eq!(visible_range(0, 0), (0, 0));
    assert_eq!(visible_range(0, 10), (0, 10));
    assert_eq!(visible_range(0, 250), (0, 100));
    assert_eq!(visible_range(-31, 250), (0, 100));
    assert_eq!(visible_range(-32, 250), (1, 101));
    assert_eq!(visible_range(-32 * 200, 250), (200, 250));
    assert_eq!(visible_range(-32 * 300, 250), (250, 250));
    assert_eq!(visible_range(64, 250), (0, 100));
    assert_eq!(visible_range(i32::MIN, 5), (5, 5));
    assert_eq!(visible_range(i32::MIN, usize::MAX), (67_108_864, 67_108_964));
    assert!(!delays_refresh(100));
    assert!(delays_refresh(101));
    assert!(!delays_refresh(110));
    assert!(!delays_refresh(7));
}

#[test]
fn playback_progress_in_thousandths() {
    let playing = |duration: Option<(u64, u32)>, position: (u64, u32)| PlaybackState::Playing {
        duration: duration.map(|(secs, nanos)| TimeSpan { secs, nanos }),
        position: TimeSpan { secs: position.0, nanos: position.1 },
        paused: false,
    };
    assert_eq!(playback_progress(&PlaybackState::Stopped), 0);
    assert_eq!(playback_progress(&playing(None, (5, 0))), 1000);
    assert_eq!(playback_progress(&playing(Some((0, 999_999_999)), (0, 1))), 1000);
    assert_eq!(playback_progress(&playing(Some((200, 0)), (0, 0))), 0);
    assert_eq!(playback_progress(&playing(Some((200, 0)), (50, 0))), 250);
    assert_eq!(playback_progress(&playing(Some((3, 0)), (1, 0))), 333);
    assert_eq!(playback_progress(&playing(Some((3, 0)), (3, 0))), 1000);
    assert_eq!(playback_progress(&playing(Some((3, 0)), (9, 0))), 1000);
    assert_eq!(playback_progress(&playing(Some((u64::MAX, 0)), (u64::MAX - 1, 999_999_999))), 999);
}

#[test]
fn the_library_tells_what_it_holds() {
    let stats = DbStats { num_tracks: 1204, num_track_groups: 1100, num_albums: 97, num_artists: 0 };
    assert_eq!(
        library_stats_label(&stats),
        "Tracks: 1204, Track Groups: 1100, Artists: 0, Albums: 97"
    );
}

#[test]
fn toasts_come_and_go() {
    let mut manager = NotificationManager::new();
    assert_eq!(manager.toasts(), Vec::<usize>::new());
    let loud = manager.add(Notification::new("2hoge".to_string(), "hello".to_string()));
    let quiet = manager.add(Notification::new_silent("2hoge".to_string(), "psst".to_string()));
    let scan = ScanProgress::new(1);
    let work =
        manager.add(Notification::new_progress("Music Scan".to_string(), scan.notification()));
    assert_eq!((loud, quiet, work), (0, 1, 2));
    assert_eq!(manager.toasts(), vec![0, 2]);
    manager.expire(quiet);
    manager.expire(loud);
    manager.expire(17);
    assert_eq!(manager.toasts(), vec![2]);
    let mut scan = scan;
    scan.begin_scanning(2);
    scan.track_scanned();
    manager.update_progress(work, scan.notification());
    assert_eq!(manager.toasts(), vec![2]);
    assert_eq!(
        manager.notifications[2].kind,
        NotificationStateKind::Progress(scan.notification())
    );
    scan.complete();
    manager.update_progress(work, scan.notification());
    manager.update_progress(9, scan.notification());
    assert_eq!(manager.toasts(), Vec::<usize>::new());
    assert_eq!(manager.notifications[2].title, "Music Scan");
    assert_eq!(
        manager.notifications[0].kind,
        NotificationStateKind::Fixed { message: "hello".to_string() }
    );
    assert_eq!(manager.notifications.len(), 3);
}

#[test]
fn finished_tasks_keep_their_logs() {
    let mut subscriber = BackgroundTaskLogSubscriber::new();
    subscriber.on_event(LogLevel::Info, Some(TaskId(0)), Some("walking".to_string()));
    subscriber.on_event(LogLevel::Info, Some(TaskId(1)), Some("hidden".to_string()));
    let mut manager = BackgroundTaskManager::new(subscriber.logs);
    assert!(!manager.any_running());
    assert_eq!(manager.spawn("update_library", true), Some(TaskId(0)));
    assert_eq!(manager.spawn("housekeeping", false), Some(TaskId(1)));
    assert!(manager.any_running());
    assert!(!manager.finish(TaskId(5), Ok(())));
    assert!(manager.finish(TaskId(1), Err("boom".to_string())));
    assert_eq!(manager.finished_tasks.len(), 0);
    assert!(manager.finish(TaskId(0), Ok(())));
    assert!(!manager.finish(TaskId(0), Ok(())));
    assert!(!manager.any_running());
    assert_eq!(manager.finished_tasks.len(), 1);
    assert_eq!(manager.finished_tasks[0].name, "update_library");
    assert_eq!(manager.finished_tasks[0].result, Ok(()));
    assert_eq!(
        manager.finished_tasks[0].logs,
        vec![LogLine { level: LogLevel::Info, message: "walking".to_string() }]
    );
    assert_eq!(manager.task_logs.extract_logs(TaskId(1)).len(), 1);
    manager.next_id = TaskId(usize::MAX);
    assert_eq!(manager.spawn("late", true), None);

    let mut state = BackgroundTaskState {
        name: "scan".to_string(),
        message: String::new(),
        progress: 10,
        done: false,
    };
    assert!(any_running(&vec![]) == false);
    state.complete();
    assert_eq!((state.progress, state.done), (1000, true));
    assert!(!any_running(&vec![state]));
}

#[test]
fn a_theme_needs_every_colour_and_icon() {
    let whole = PartialTheme {
        name: "ferra".to_string(),
        colors: colors(Some("#000")),
        icons: PartialThemeIcons { background_task_running: Some(vec![1, 2]) },
    };
    let theme = Theme::from_partial(whole).unwrap();
    assert_eq!(theme.colors.border, "#000");
    assert_eq!(theme.icons.background_task_running, vec![1, 2]);

    let mut gap = colors(Some("#000"));
    gap.warning = None;
    let partial = PartialTheme {
        name: "gap".to_string(),
        colors: gap,
        icons: PartialThemeIcons { background_task_running: Some(vec![]) },
    };
    assert_eq!(Theme::from_partial(partial), None);
    let iconless = PartialTheme {
        name: "bare".to_string(),
        colors: colors(Some("#000")),
        icons: PartialThemeIcons { background_task_running: None },
    };
    assert_eq!(Theme::from_partial(iconless), None);
}

#[test]
fn later_partial_themes_win() {
    let mut theme = Theme::from_partial(PartialTheme {
        name: "base".to_string(),
        colors: colors(Some("base")),
        icons: PartialThemeIcons { background_task_running: Some(vec![0]) },
    })
    .unwrap();
    let mut first = colors(None);
    first.error = Some("red".to_string());
    first.border = Some("grey".to_string());
    let mut second = colors(None);
    second.error = Some("crimson".to_string());
    theme.apply_partials(&vec![
        PartialTheme {
            name: "a".to_string(),
            colors: first,
            icons: PartialThemeIcons { background_task_running: Some(vec![7]) },
        },
        PartialTheme {
            name: "b".to_string(),
            colors: second,
            icons: PartialThemeIcons { background_task_running: None },
        },
    ]);
    assert_eq!(theme.colors.error, "crimson");
    assert_eq!(theme.colors.border, "grey");
    assert_eq!(theme.colors.background, "base");
    assert_eq!(theme.icons.background_task_running, vec![7]);
}

#[test]
fn a_theme_is_built_from_its_archive() {
    let manifest = |icon: Option<&str>| PartialThemeManifest {
        name: "ferra".to_string(),
        colors: colors(Some("#111")),
        icons: PartialThemeManifestIcons { background_task_running: icon.map(str::to_string) },
    };
    let files = vec![file("spinner.svg", b"old"), file("theme.toml", b""), file("spinner.svg", b"new")];
    assert_eq!(find_manifest(&files), Ok(1));
    assert_eq!(find_manifest(&vec![file("x", b"")]), Err(ThemeError::MissingManifest));
    assert_eq!(find_manifest(&vec![]), Err(ThemeError::MissingManifest));
    let built = PartialTheme::build(manifest(Some("spinner.svg")), &files).unwrap();
    assert_eq!(built.icons.background_task_running, Some(b"new".to_vec()));
    assert_eq!(built.name, "ferra");
    assert_eq!(built.colors, colors(Some("#111")));
    let shuffled = vec![file("theme.toml", b""), file("other", b"x"), file("spinner.svg", b"new")];
    assert_eq!(PartialTheme::build(manifest(Some("spinner.svg")), &shuffled), Ok(built));
    assert_eq!(
        PartialTheme::build(manifest(Some("missing.svg")), &files),
        Err(ThemeError::MissingIcon("missing.svg".to_string()))
    );
    let bare = PartialTheme::build(manifest(None), &files).unwrap();
    assert_eq!(bare.icons.background_task_running, None);
    assert!(!bare.gives_everything());
    let whole = PartialTheme::build(manifest(Some("spinner.svg")), &files).unwrap();
    assert!(whole.gives_everything());
    let mut gap = PartialTheme::build(manifest(Some("spinner.svg")), &files).unwrap();
    gap.colors.warning = None;
    assert!(!gap.gives_everything());
    assert!(Theme::from_partial(gap).is_none());
    assert!(Theme::from_partial(whole).is_some());
}

#[test]
fn a_stored_catalog_is_checked() {
    let stored = |id: i64, group: i64, data: &[u8], title: &str| StoredTrack {
        track_id: TrackId(id),
        track: Track {
            track_group_id: TrackGroupId(group),
            artist_id: Some(ArtistId(1)),
            album_artist_id: None,
            album_id: None,
            identifier: track(1, data),
            tags: Tags::new(title.to_string()),
        },
    };
    let plugins = || vec![StoredPlugin { plugin_id: PluginId(1), uuid: 9 }];
    let artists = || vec![Artist { id: ArtistId(1), mbid: None, name: "A".to_string() }];
    let albums = || {
        vec![Album { id: AlbumId(1), title: "L".to_string(), mbid: None, artist_id: Some(ArtistId(1)) }]
    };
    let good = Database::restore(
        plugins(),
        artists(),
        albums(),
        2,
        vec![stored(1, 1, b"a", "x"), stored(2, 2, b"b", "y")],
    )
    .unwrap();
    assert!(good.is_consistent());
    assert_eq!(
        good.stats(),
        DbStats { num_tracks: 2, num_track_groups: 2, num_albums: 0, num_artists: 1 }
    );
    let same_key = vec![stored(1, 1, b"a", "x"), stored(2, 2, b"a", "y")];
    assert!(Database::restore(plugins(), artists(), albums(), 2, same_key).is_none());
    let bad_number = vec![stored(2, 1, b"a", "x")];
    assert!(Database::restore(plugins(), artists(), albums(), 2, bad_number).is_none());
    let bad_group = vec![stored(1, 3, b"a", "x")];
    assert!(Database::restore(plugins(), artists(), albums(), 2, bad_group).is_none());
    let no_artist = vec![stored(1, 1, b"a", "x")];
    assert!(Database::restore(plugins(), vec![], vec![], 2, no_artist).is_none());
    let twice = vec![
        StoredPlugin { plugin_id: PluginId(1), uuid: 9 },
        StoredPlugin { plugin_id: PluginId(2), uuid: 9 },
    ];
    assert!(Database::restore(twice, vec![], vec![], 0, vec![]).is_none());
    let mut orphan = stored(1, 1, b"a", "x");
    orphan.track.album_artist_id = Some(ArtistId(1));
    assert!(Database::restore(plugins(), artists(), albums(), 1, vec![orphan]).is_none());
    assert!(Database::restore(vec![], vec![], vec![], 0, vec![]).is_some());
}

#[test]
fn listings_are_ordered() {
    let mut db = Database::new();
    let mut add = |data: &[u8], title: &str, album: Option<&str>| {
        let mut tags = Tags::new(title.to_string());
        tags.album_title = album.map(str::to_string);
        tags.track_artist = Some("A".to_string());
        db.find_or_create_track(track(1, data), tags).unwrap()
    };
    let c = add(b"1", "c", Some("zebra"));
    let a = add(b"2", "a", Some("Apple"));
    let b = add(b"3", "b", None);
    let upper = add(b"4", "B", Some("apple pie"));
    let e = add(b"5", "", Some("Zebra"));
    let titles = |rows: Vec<&StoredTrack>| {
        rows.into_iter().map(|row| row.track.tags.track_title.clone()).collect::<Vec<_>>()
    };
    assert_eq!(titles(db.get_tracks_by_id(&vec![c, a, b, upper, e])), vec!["", "B", "a", "b", "c"]);
    assert_eq!(titles(db.get_tracks_by_id(&vec![b, b, TrackId(77), c])), vec!["b", "c"]);
    assert_eq!(titles(db.get_tracks_by_id(&vec![])), Vec::<String>::new());
    assert_eq!(db.get_track_listing(), vec![b, a, upper, c, e]);
    assert_eq!(Database::new().get_track_listing(), Vec::<TrackId>::new());
}

#[test]
fn widgets_stand_where_their_parents_put_them() {
    let fixed = |width, height| Widget { size: Size::fixed(width, height), ..Widget::default() };
    let mut ui = UiContext::new();
    assert_eq!(ui.compute_layout(), Vec::<Placement>::new());
    assert!(!ui.close_widget());
    ui.open_widget(Widget {
        padding: Padding::all(2),
        child_gap: 1,
        class: WidgetClass::Primary,
        ..fixed(100, 50)
    });
    ui.add(fixed(10, 5));
    ui.open_widget(Widget {
        direction: Direction::TopToBottom,
        padding: Padding { left: 1, right: 0, top: 3, bottom: 0 },
        class: WidgetClass::Secondary,
        ..fixed(20, 6)
    });
    ui.add(fixed(3, 3));
    ui.add(fixed(4, 4));
    assert!(ui.close_widget());
    ui.add(Widget { class: WidgetClass::Tertiary, ..fixed(5, 5) });
    assert!(ui.close_widget());
    assert!(!ui.close_widget());
    let at = |index, x, y, width, height, class| Placement { index, x, y, width, height, class };
    assert_eq!(
        ui.compute_layout(),
        vec![
            at(0, 0, 0, 100, 50, WidgetClass::Primary),
            at(1, 2, 2, 10, 5, WidgetClass::Surface),
            at(2, 13, 2, 20, 6, WidgetClass::Secondary),
            at(3, 14, 5, 3, 3, WidgetClass::Surface),
            at(4, 14, 8, 4, 4, WidgetClass::Surface),
            at(5, 34, 2, 5, 5, WidgetClass::Tertiary),
        ]
    );
    ui.reset();
    assert_eq!(ui.compute_layout(), Vec::<Placement>::new());
    ui.add(fixed(1, 1));
    assert_eq!(ui.compute_layout(), vec![at(0, 0, 0, 1, 1, WidgetClass::Surface)]);
    assert_eq!(ui.render_data.len(), 1);
}

#[test]
fn a_scan_without_tracks_completes() {
    let mut scan = ScanPipeline::new(vec![], 3);
    assert!(!scan.is_complete());
    assert_eq!(scan.next_job(), None);
    assert!(scan.is_complete());
    assert_eq!(scan.notification().progress, 10_000);
    assert!(scan.finish());
    assert_eq!(scan.notification().progress, 100_000);
    assert!(scan.notification().is_done);
    assert_eq!((scan.imported, scan.failed), (0, 0));

    let mut failing = ScanPipeline::new(vec![PluginId(1)], 1);
    assert_eq!(failing.next_job(), Some(ScanJob::Prepare(PluginId(1))));
    assert!(!failing.finish());
    assert!(failing.prepared(PluginId(1), Err(ScanSkip::NotAProvider)));
    assert_eq!(failing.next_job(), None);
    assert!(failing.finish());
    assert!(failing.notification().is_done);
}
