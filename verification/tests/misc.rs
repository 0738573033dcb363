use hogehoge::ident::{PluginId, PluginTrackIdentifier, TaskId};
use hogehoge::layout::{
    Alignment, ChildAlignment, Direction, Event, EventKind, Padding, Size, SizeAxis, SizeKind,
    TextRole, WidgetClass, WidgetRenderData,
};
use hogehoge::library::{
    import_of, scan_thread_count, ProgressNotificationData, ScanProgress, ScanStage,
    FULL_PROGRESS, IMPORT_QUEUE_CAPACITY, PREPARE_SCAN_PROGRESS,
};
use hogehoge::messages::ScanResult;
use hogehoge::plugin::PluginError;
use hogehoge::lofty_tags::{
    add_lofty_tag, map_items, map_lofty_to_internal, parse_uuid, set_tag_field, ItemValue,
    TagItem, TagsError,
};
use hogehoge::tags::{TagKind, TagShape, TagValue, TagValueKind, Tags};
use hogehoge::task_log::{
    BackgroundTaskLogSubscriber, GetIdVisitor, GetMsgVisitor, LogLevel, LogLine,
};

fn number(text: &str) -> Option<u32> {
    text.parse::<f32>().ok().map(f32::to_bits)
}

fn item(key: &str, value: ItemValue) -> TagItem {
    TagItem { key: key.to_string(), value }
}

fn text(key: &str, value: &str) -> TagItem {
    item(key, ItemValue::Text(value.to_string()))
}

#[test]
fn layout_constructors() {
    assert_eq!(Padding::all(7), Padding { left: 7, right: 7, top: 7, bottom: 7 });
    assert_eq!(Padding::default(), Padding::all(0));
    assert_eq!(SizeAxis::fixed(9), SizeAxis { min: 9, max: 9, kind: SizeKind::Fit });
    assert_eq!(SizeAxis::fill(), SizeAxis { min: 0, max: u16::MAX, kind: SizeKind::Grow });
    assert_eq!(SizeAxis::default(), SizeAxis { min: 0, max: u16::MAX, kind: SizeKind::Fit });
    assert_eq!(
        Size::fixed(3, 4),
        Size { width: SizeAxis::fixed(3), height: SizeAxis::fixed(4) }
    );
    assert_eq!(Size::fixed(3, 4).naive_size(), (3, 4));
    assert_eq!(Size::fill().width.kind, SizeKind::Grow);
    assert_eq!(Size::fit(), Size::default());
    assert_eq!(Direction::default(), Direction::LeftToRight);
    assert_eq!(
        ChildAlignment::default(),
        ChildAlignment { horizontal: Alignment::Start, vertical: Alignment::Start }
    );
    assert_eq!(WidgetClass::default().get_color(), (0xF0, 0xF0, 0xF0));
    assert_eq!(WidgetClass::Primary.get_color(), (0x00, 0x80, 0xFF));
    assert_eq!(WidgetClass::Secondary.get_color(), (0xFF, 0xA5, 0x00));
    assert_eq!(WidgetClass::Tertiary.get_color(), (0x90, 0x90, 0x90));
    assert_eq!(TextRole::default(), TextRole::Normal);
    let event = Event { id: 3, kind: EventKind::Click };
    assert_eq!(event, Event { id: 3, kind: EventKind::Click });
    assert_eq!(WidgetRenderData { class: WidgetClass::Surface }.class, WidgetClass::Surface);
}

#[test]
fn task_logs_are_kept_by_task() {
    let mut subscriber = BackgroundTaskLogSubscriber::new();
    subscriber.on_event(LogLevel::Info, Some(TaskId(1)), Some("one".to_string()));
    subscriber.on_event(LogLevel::Debug, Some(TaskId(1)), Some("skipped".to_string()));
    subscriber.on_event(LogLevel::Trace, Some(TaskId(1)), Some("skipped".to_string()));
    subscriber.on_event(LogLevel::Error, Some(TaskId(2)), Some("other".to_string()));
    subscriber.on_event(LogLevel::Warn, Some(TaskId(1)), Some("two".to_string()));
    subscriber.on_event(LogLevel::Warn, None, Some("nobody's".to_string()));
    subscriber.on_event(LogLevel::Warn, Some(TaskId(1)), None);
    assert_eq!(subscriber.get_logs().lines.len(), 2);
    let lines = subscriber.logs.extract_logs(TaskId(1));
    assert_eq!(
        lines,
        vec![
            LogLine { level: LogLevel::Info, message: "one".to_string() },
            LogLine { level: LogLevel::Warn, message: "two".to_string() },
        ]
    );
    assert_eq!(subscriber.logs.extract_logs(TaskId(1)), vec![]);
    assert_eq!(subscriber.logs.extract_logs(TaskId(3)), vec![]);
    assert_eq!(subscriber.logs.extract_logs(TaskId(2)).len(), 1);
}

#[test]
fn visitors_pick_their_fields() {
    let mut id = GetIdVisitor::new();
    id.record_u64("other", 5);
    assert_eq!(id.id, None);
    id.record_u64("task_id", 5);
    id.record_i64("task_id", 6);
    id.record_i64("task", 7);
    assert_eq!(id.consume(), Some(TaskId(6)));
    let mut wrapped = GetIdVisitor::new();
    wrapped.record_i64("task_id", -1);
    assert_eq!(wrapped.consume(), Some(TaskId(usize::MAX)));
    let mut msg = GetMsgVisitor::new();
    msg.record_str("note", "no");
    assert_eq!(msg.msg, None);
    msg.record_str("message", "yes");
    msg.record_str("messages", "no");
    assert_eq!(msg.consume(), Some("yes".to_string()));
    assert!(LogLevel::Info.kept() && LogLevel::Warn.kept() && LogLevel::Error.kept());
    assert!(!LogLevel::Debug.kept() && !LogLevel::Trace.kept());
}

#[test]
fn scan_workers_leave_two_cores() {
    assert_eq!(scan_thread_count(None), 1);
    assert_eq!(scan_thread_count(Some(0)), 1);
    assert_eq!(scan_thread_count(Some(1)), 1);
    assert_eq!(scan_thread_count(Some(2)), 1);
    assert_eq!(scan_thread_count(Some(3)), 1);
    assert_eq!(scan_thread_count(Some(5)), 3);
    assert_eq!(scan_thread_count(Some(4)), 2);
    assert_eq!(scan_thread_count(Some(16)), 14);
    assert_eq!(scan_thread_count(Some(usize::MAX)), usize::MAX - 2);
    assert_eq!(IMPORT_QUEUE_CAPACITY, 128);
}

#[test]
fn scan_progress_follows_the_formula() {
    let mut scan = ScanProgress::new(4);
    assert_eq!(scan.progress(), 0);
    scan.plugin_prepared();
    assert_eq!(scan.progress(), 2_500);
    scan.plugin_prepared();
    scan.plugin_prepared();
    assert_eq!(scan.progress(), 7_500);
    scan.plugin_prepared();
    assert_eq!(scan.progress(), PREPARE_SCAN_PROGRESS);
    scan.plugin_prepared();
    assert_eq!(scan.progress(), 10_000);
    scan.begin_scanning(3);
    assert_eq!(scan.progress(), 10_000);
    assert!(!scan.is_done());
    scan.track_scanned();
    assert_eq!(scan.progress(), 40_000);
    scan.track_scanned();
    assert_eq!(scan.progress(), 70_000);
    assert_eq!(
        scan.notification(),
        ProgressNotificationData {
            stage: ScanStage::Scanning,
            progress: 70_000,
            tracks_scanned: 2,
            tracks_count: 3,
            is_done: false,
        }
    );
    scan.track_scanned();
    assert_eq!(scan.progress(), FULL_PROGRESS);
    scan.track_scanned();
    assert_eq!(scan.progress(), 100_000);
    scan.complete();
    assert!(scan.is_done());
    assert_eq!(scan.notification().progress, 100_000);
    assert!(scan.notification().is_done);
}

#[test]
fn scan_progress_of_an_empty_library() {
    let mut scan = ScanProgress::new(0);
    assert_eq!(scan.progress(), 0);
    scan.begin_scanning(0);
    assert_eq!(scan.progress(), 10_000);
    scan.complete();
    assert_eq!(scan.progress(), 100_000);
    let mut uneven = ScanProgress::new(3);
    uneven.plugin_prepared();
    assert_eq!(uneven.progress(), 3_333);
    uneven.begin_scanning(7);
    uneven.track_scanned();
    assert_eq!(uneven.progress(), 10_000 + 12_857);
    let mut huge = ScanProgress::new(1);
    huge.begin_scanning(usize::MAX);
    huge.tracks_scanned = usize::MAX - 1;
    assert_eq!(huge.progress(), 99_999);
}

#[test]
fn imports_carry_the_identifier_of_their_track() {
    let good = import_of(
        PluginId(4),
        PluginTrackIdentifier(b"x".to_vec()),
        Ok(ScanResult { tags: Tags::new("T".to_string()) }),
    )
    .unwrap();
    assert_eq!(good.identifier.plugin_id, PluginId(4));
    assert_eq!(good.identifier.plugin_data, PluginTrackIdentifier(b"x".to_vec()));
    assert_eq!(good.scan.tags.track_title, "T");
    let bad = import_of(
        PluginId(4),
        PluginTrackIdentifier(b"y".to_vec()),
        Err(PluginError::InvalidResponse("scan".to_string())),
    )
    .unwrap_err();
    assert_eq!(bad.track, PluginTrackIdentifier(b"y".to_vec()));
    assert!(matches!(bad.error, PluginError::InvalidResponse(name) if name == "scan"));
}

#[test]
fn identifiers_are_parsed_from_text() {
    let id = 0xc2940863_8121_447e_ae25_499a809c361eu128;
    assert_eq!(parse_uuid("c2940863-8121-447e-ae25-499a809c361e"), Some(id));
    assert_eq!(parse_uuid("C2940863-8121-447E-AE25-499A809C361E"), Some(id));
    assert_eq!(parse_uuid("c29408638121447eae25499a809c361e"), Some(id));
    assert_eq!(parse_uuid("c2940863-8121-447e-ae25-499a809c361"), None);
    assert_eq!(parse_uuid("not an identifier"), None);
    assert_eq!(parse_uuid(""), None);
    assert_eq!(parse_uuid("00000000-0000-0000-0000-000000000001"), Some(1));
}

#[test]
fn items_of_a_file_become_tags() {
    let mut tags = Tags::new("T".to_string());
    add_lofty_tag("AlbumTitle", "Low".to_string(), &mut tags, &number);
    add_lofty_tag("TrackArtist", "Bowie".to_string(), &mut tags, &number);
    add_lofty_tag(
        "MusicBrainzTrackId",
        "00000000-0000-0000-0000-00000000002a".to_string(),
        &mut tags,
        &number,
    );
    add_lofty_tag("Bpm", "120.5".to_string(), &mut tags, &number);
    add_lofty_tag("TrackTitle", "ignored".to_string(), &mut tags, &number);
    add_lofty_tag("MusicBrainzArtistId", "00000000-0000-0000-0000-000000000001".to_string(), &mut tags, &number);
    add_lofty_tag("IntegerBpm", "99".to_string(), &mut tags, &number);
    add_lofty_tag("NoSuchKey", "ignored".to_string(), &mut tags, &number);
    let mut expected = Tags::new("T".to_string());
    expected.album_title = Some("Low".to_string());
    expected.track_artist = Some("Bowie".to_string());
    expected.musicbrainz_track_id = Some(42);
    expected.bpm = Some(120.5f32.to_bits());
    assert_eq!(tags, expected);
    add_lofty_tag("MusicBrainzTrackId", "garbage".to_string(), &mut tags, &number);
    add_lofty_tag("Bpm", "fast".to_string(), &mut tags, &number);
    assert_eq!(tags.musicbrainz_track_id, None);
    assert_eq!(tags.bpm, None);
}

#[test]
fn every_kind_has_a_key_name() {
    assert_eq!(TagKind::from_item_key("TrackTitle"), Some(TagKind::TrackTitle));
    assert_eq!(TagKind::from_item_key("MusicBrainzWorkId"), Some(TagKind::MusicbrainzWorkId));
    assert_eq!(TagKind::from_item_key("MusicbrainzWorkId"), None);
    assert_eq!(TagKind::from_item_key("PodcastKeywords"), Some(TagKind::PodcastKeywords));
    assert_eq!(TagKind::from_item_key("tracktitle"), None);
    assert_eq!(TagKind::from_item_key(""), None);
    assert_eq!(TagKind::Bpm.kind_shape(), TagShape::Number);
    assert_eq!(TagKind::TrackTitle.kind_shape(), TagShape::Title);
    assert_eq!(TagKind::MusicbrainzArtistId.kind_shape(), TagShape::Id);
    assert_eq!(TagKind::Genre.kind_shape(), TagShape::Text);
}

#[test]
fn a_file_needs_a_title() {
    let untitled = vec![text("AlbumTitle", "Low")];
    assert_eq!(map_items(&untitled, &number), Err(TagsError::MissingTitle));
    let located = vec![item("TrackTitle", ItemValue::Locator("x".to_string())), text("TrackTitle", "T")];
    assert_eq!(map_items(&located, &number), Err(TagsError::MissingTitle));
    assert_eq!(map_items(&vec![], &number), Err(TagsError::MissingTitle));
    let items = vec![
        text("Genre", "rock"),
        item("Comment", ItemValue::Binary(vec![1, 2])),
        text("TrackTitle", "First"),
        item("AudioFileUrl", ItemValue::Locator("http://x".to_string())),
        text("TrackTitle", "Second"),
        text("Genre", "pop"),
    ];
    let mut expected = Tags::new("First".to_string());
    expected.genre = Some("pop".to_string());
    expected.audio_file_url = Some("http://x".to_string());
    assert_eq!(map_items(&items, &number), Ok(expected));
}

#[test]
fn tags_are_read_from_a_file_tag() {
    let mut tag = lofty::tag::Tag::new(lofty::tag::TagType::VorbisComments);
    tag.insert_text(lofty::tag::ItemKey::TrackTitle, "Warszawa".to_string());
    tag.insert_text(lofty::tag::ItemKey::AlbumTitle, "Low".to_string());
    tag.insert_text(lofty::tag::ItemKey::TrackArtist, "David Bowie".to_string());
    tag.insert_text(
        lofty::tag::ItemKey::MusicBrainzReleaseGroupId,
        "00000000-0000-0000-0000-0000000000ff".to_string(),
    );
    tag.insert_text(lofty::tag::ItemKey::Bpm, "60".to_string());
    let tags = map_lofty_to_internal(&tag, &number).unwrap();
    let mut expected = Tags::new("Warszawa".to_string());
    expected.album_title = Some("Low".to_string());
    expected.track_artist = Some("David Bowie".to_string());
    expected.musicbrainz_release_group_id = Some(0xff);
    expected.bpm = Some(60.0f32.to_bits());
    assert_eq!(tags, expected);
    let empty = lofty::tag::Tag::new(lofty::tag::TagType::VorbisComments);
    assert_eq!(map_lofty_to_internal(&empty, &number), Err(TagsError::MissingTitle));
}

#[test]
fn every_item_counts_when_fields_are_set() {
    let mut tags = Tags::new("old".to_string());
    set_tag_field(&mut tags, &text("TrackTitle", "new"), &number);
    set_tag_field(&mut tags, &text("IntegerBpm", "99"), &number);
    set_tag_field(&mut tags, &text("MusicBrainzArtistId", "00000000-0000-0000-0000-000000000007"), &number);
    set_tag_field(&mut tags, &item("CopyrightUrl", ItemValue::Locator("http://c".to_string())), &number);
    set_tag_field(&mut tags, &item("Bpm", ItemValue::Locator("100".to_string())), &number);
    set_tag_field(&mut tags, &item("Genre", ItemValue::Binary(vec![1])), &number);
    set_tag_field(&mut tags, &text("Unheard", "of"), &number);
    let mut expected = Tags::new("new".to_string());
    expected.bpm = Some(99.0f32.to_bits());
    expected.musicbrainz_artist_id = Some(7);
    expected.copyright_url = Some("http://c".to_string());
    assert_eq!(tags, expected);
    set_tag_field(&mut tags, &text("Bpm", "fast"), &number);
    set_tag_field(&mut tags, &text("MusicBrainzArtistId", "nobody"), &number);
    assert_eq!(tags, expected);
}

#[test]
fn tags_are_set_by_kind() {
    let mut tags = Tags::new("T".to_string());
    assert_eq!(tags.get(TagKind::TrackTitle), TagValue(Some(TagValueKind::String("T".to_string()))));
    assert_eq!(tags.get(TagKind::Genre), TagValue(None));
    assert!(tags.set(TagKind::Genre, TagValue(Some(TagValueKind::String("rock".to_string())))));
    assert!(tags.set(TagKind::Bpm, TagValue(Some(TagValueKind::Float(1)))));
    assert!(tags.set(TagKind::MusicbrainzWorkId, TagValue(Some(TagValueKind::Uuid(9)))));
    assert!(!tags.set(TagKind::Genre, TagValue(Some(TagValueKind::Uuid(9)))));
    assert!(!tags.set(TagKind::Bpm, TagValue(Some(TagValueKind::String("x".to_string())))));
    assert!(!tags.set(TagKind::TrackTitle, TagValue(None)));
    assert!(!tags.set(TagKind::TrackTitle, TagValue(Some(TagValueKind::Float(0)))));
    assert_eq!(tags.genre.as_deref(), Some("rock"));
    assert_eq!(tags.bpm, Some(1));
    assert_eq!(tags.musicbrainz_work_id, Some(9));
    assert_eq!(tags.track_title, "T");
    assert!(tags.set(TagKind::Genre, TagValue(None)));
    assert!(tags.clear(TagKind::Bpm));
    assert!(!tags.clear(TagKind::TrackTitle));
    assert!(tags.set_text(TagKind::TrackTitle, "U".to_string()));
    assert!(!tags.set_text(TagKind::Bpm, "U".to_string()));
    assert!(!tags.set_id(TagKind::Genre, Some(1)));
    assert!(!tags.set_number(TagKind::Genre, Some(1)));
    let mut expected = Tags::new("U".to_string());
    expected.musicbrainz_work_id = Some(9);
    assert_eq!(tags, expected);
}
