use hogehoge::ident::{PluginId, PluginTrackIdentifier, UniqueTrackIdentifier};
use hogehoge::queue::{Queue, QueueItems, QueueUpdate};

fn track(plugin: i64, data: &[u8]) -> UniqueTrackIdentifier {
    UniqueTrackIdentifier {
        plugin_id: PluginId(plugin),
        plugin_data: PluginTrackIdentifier(data.to_vec()),
    }
}

fn total(items: &QueueItems) -> usize {
    items.past.len() + usize::from(items.current.is_some()) + items.future.len()
}

#[test]
fn new_queue_is_empty() {
    let queue = Queue::new();
    assert_eq!(queue.get_next_track(), None);
    assert_eq!(queue.peek_at(0), None);
    assert_eq!(queue.peek_at(-1), None);
}

#[test]
fn push_appends_and_reports_the_track() {
    let mut queue = Queue::new();
    let update = queue.push(track(1, b"a"));
    assert_eq!(update, QueueUpdate::TrackAdded(track(1, b"a")));
    assert_eq!(queue.get_next_track(), Some(track(1, b"a")));
    assert_eq!(queue.peek_at(0), None);
    queue.push(track(1, b"b"));
    assert_eq!(queue.peek_at(1), Some(track(1, b"a")));
    assert_eq!(queue.peek_at(2), Some(track(1, b"b")));
    assert_eq!(queue.peek_at(3), None);
}

#[test]
fn forward_moves_current_to_past() {
    let mut queue = Queue::new();
    queue.push(track(1, b"a"));
    queue.push(track(2, b"b"));
    let first = queue.forward();
    assert_eq!(first.current, Some(track(1, b"a")));
    assert_eq!(first.update, Some(QueueUpdate::CurrentTrackChanged));
    assert_eq!(queue.peek_at(0), Some(track(1, b"a")));
    assert_eq!(queue.get_next_track(), Some(track(2, b"b")));
    let second = queue.forward();
    assert_eq!(second.current, Some(track(2, b"b")));
    assert_eq!(queue.peek_at(-1), Some(track(1, b"a")));
    assert_eq!(queue.peek_at(-2), None);
    let third = queue.forward();
    assert_eq!(third.current, None);
    assert_eq!(third.update, Some(QueueUpdate::CurrentTrackChanged));
    assert_eq!(queue.peek_at(-1), Some(track(2, b"b")));
    assert_eq!(queue.peek_at(-2), Some(track(1, b"a")));
}

#[test]
fn forward_on_empty_queue_changes_nothing_and_says_nothing() {
    let mut queue = Queue::new();
    let advance = queue.forward();
    assert_eq!(advance.current, None);
    assert_eq!(advance.update, None);
    assert_eq!(queue.peek_at(0), None);
    assert_eq!(queue.peek_at(1), None);
    assert_eq!(queue.peek_at(-1), None);
}

#[test]
fn forward_after_the_last_track_keeps_the_past() {
    let mut queue = Queue::new();
    queue.push(track(1, b"a"));
    queue.forward();
    queue.forward();
    let idle = queue.forward();
    assert_eq!(idle.current, None);
    assert_eq!(idle.update, None);
    assert_eq!(queue.peek_at(-1), Some(track(1, b"a")));
}

#[test]
fn items_hold_as_many_tracks_as_were_pushed() {
    let mut items = QueueItems::default();
    let mut pushed = 0;
    for round in 0..20u8 {
        if round % 3 == 2 {
            items.forward();
        } else {
            items.push(track(1, &[round]));
            pushed += 1;
        }
        assert_eq!(total(&items), pushed);
    }
    for _ in 0..30 {
        items.forward();
        assert_eq!(total(&items), pushed);
    }
}

#[test]
fn offsets_reach_into_past_and_future() {
    let mut items = QueueItems::default();
    for name in [b"a", b"b", b"c", b"d"] {
        items.push(track(7, name));
    }
    items.forward();
    items.forward();
    assert_eq!(items.get_at_offset(0), Some(track(7, b"b")));
    assert_eq!(items.get_at_offset(-1), Some(track(7, b"a")));
    assert_eq!(items.get_at_offset(-2), None);
    assert_eq!(items.get_at_offset(1), Some(track(7, b"c")));
    assert_eq!(items.get_at_offset(2), Some(track(7, b"d")));
    assert_eq!(items.get_at_offset(3), None);
    assert_eq!(items.get_at_offset(isize::MIN), None);
    assert_eq!(items.get_at_offset(isize::MAX), None);
}

#[test]
fn identifiers_compare_by_both_parts() {
    assert!(track(1, b"a").same(&track(1, b"a")));
    assert!(!track(1, b"a").same(&track(2, b"a")));
    assert!(!track(1, b"a").same(&track(1, b"b")));
    assert!(!track(1, b"a").same(&track(1, b"ab")));
    assert_eq!(track(3, b"xyz").clone(), track(3, b"xyz"));
}
