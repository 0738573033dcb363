//! What the screen shows of the library and the player, as far as it can be said without
//! drawing anything.

use crate::audio::{PlaybackState, NANOS_PER_SECOND};
use crate::db::store::DbStats;
use crate::media::TimeSpan;
use crate::text::{decimal_text, push_decimal};
use vstd::prelude::*;
use vstd::string::StringExecFns;

verus! {

/// Height of one row of the track list, in pixels.
pub const ITEM_SIZE: i32 = 32;

/// How many rows are kept loaded from the first visible row on.
pub const VISIBLE_ROWS: usize = 100;

/// What the search field of the menu bar holds.
#[derive(Debug, PartialEq, Eq)]
pub struct State {
    pub search_open: bool,
    pub search_query: String,
}

impl Default for State {
    fn default() -> (r: State)
        ensures
            !r.search_open,
            r.search_query@ == Seq::<char>::empty(),
    {
        State { search_open: false, search_query: String::new() }
    }
}

/// What the pointer does to a button or a row.
#[derive(Debug, Clone, Copy, PartialEq, Eq, Structural)]
pub enum PointerEvent {
    Enter,
    Leave,
    Down,
    Up,
}

/// How a button or a row stands to the pointer.
#[derive(Debug, Clone, Copy, PartialEq, Eq, Structural)]
pub enum ButtonState {
    Idle,
    Hovered,
    Pressed,
}

impl ButtonState {
    /// The state after the pointer did something: it hovers once it has entered or has
    /// let go, it presses while it is down, and is idle once it has left.
    pub fn on(self, event: PointerEvent) -> (r: ButtonState)
        ensures
            r == match event {
                PointerEvent::Enter | PointerEvent::Up => ButtonState::Hovered,
                PointerEvent::Leave => ButtonState::Idle,
                PointerEvent::Down => ButtonState::Pressed,
            },
    {
        match event {
            PointerEvent::Enter | PointerEvent::Up => ButtonState::Hovered,
            PointerEvent::Leave => ButtonState::Idle,
            PointerEvent::Down => ButtonState::Pressed,
        }
    }
}

/// Whether a row of the track list has the alternate background while idle: every other
/// row has, the first among them.
pub fn uses_alt_color(index: usize) -> (r: bool)
    ensures
        r == (index % 2 == 0),
{
    index % 2 == 0
}

/// The rows to keep loaded: from the row that the scroll position puts at the top, a
/// hundred rows on, and no further than the list goes.
pub open spec fn visible_rows(scroll_y: int, count: nat) -> (nat, nat) {
    let top = if scroll_y >= 0 {
        0
    } else {
        (-scroll_y) / ITEM_SIZE as int
    };
    let start = if top > count {
        count
    } else {
        top as nat
    };
    let end = if start + VISIBLE_ROWS > count {
        count
    } else {
        start + VISIBLE_ROWS as nat
    };
    (start, end)
}

/// The rows to keep loaded for a scroll position, which is zero at the top and negative
/// further down.
pub fn visible_range(scroll_y: i32, count: usize) -> (r: (usize, usize))
    ensures
        (r.0 as nat, r.1 as nat) == visible_rows(scroll_y as int, count as nat),
        r.0 <= r.1 <= count,
{
    let top: u64 = if scroll_y >= 0 {
        0
    } else {
        ((-(scroll_y as i64)) / ITEM_SIZE as i64) as u64
    };
    let start: usize = if top > count as u64 {
        count
    } else {
        top as usize
    };
    let end: usize = if VISIBLE_ROWS > count - start {
        count
    } else {
        start + VISIBLE_ROWS
    };
    (start, end)
}

/// Whether the track list waits a quarter of a second before it is fetched again: it does
/// so in a large library, but for every tenth track.
pub fn delays_refresh(num_tracks: usize) -> (r: bool)
    ensures
        r == (num_tracks % 10 != 0 && num_tracks > 100),
{
    num_tracks % 10 != 0 && num_tracks > 100
}

/// A length of time in nanoseconds.
pub open spec fn nanos_of(span: TimeSpan) -> nat {
    (span.secs * NANOS_PER_SECOND + span.nanos) as nat
}

/// How far playback has come, in thousandths: nothing while stopped, all of it where the
/// length is unknown or less than a second, else the share of the position in the length,
/// and all of it at most.
pub open spec fn progress_of(state: PlaybackState) -> nat {
    match state {
        PlaybackState::Stopped => 0,
        PlaybackState::Playing { duration, position, .. } => match duration {
            None => 1000,
            Some(d) => if d.secs == 0 || nanos_of(position) >= nanos_of(d) {
                1000
            } else {
                nanos_of(position) * 1000 / nanos_of(d)
            },
        },
    }
}

/// How far playback has come, in thousandths.
pub fn playback_progress(state: &PlaybackState) -> (r: u32)
    ensures
        r == progress_of(*state),
        r <= 1000,
{
    match state {
        PlaybackState::Stopped => 0,
        PlaybackState::Playing { duration, position, .. } => match duration {
            None => 1000,
            Some(d) => {
                let length: u128 = d.secs as u128 * NANOS_PER_SECOND + d.nanos as u128;
                let reached: u128 = position.secs as u128 * NANOS_PER_SECOND
                    + position.nanos as u128;
                if d.secs == 0 || reached >= length {
                    1000
                } else {
                    let share: u128 = reached * 1000 / length;
                    assert(share < 1000) by (nonlinear_arith)
                        requires
                            share == reached as int * 1000 / length as int,
                            0 <= reached < length,
                    ;
                    share as u32
                }
            },
        },
    }
}

/// The line that tells how much the library holds.
pub open spec fn stats_text(stats: DbStats) -> Seq<char> {
    "Tracks: "@ + decimal_text(stats.num_tracks as nat) + ", Track Groups: "@ + decimal_text(
        stats.num_track_groups as nat,
    ) + ", Artists: "@ + decimal_text(stats.num_artists as nat) + ", Albums: "@ + decimal_text(
        stats.num_albums as nat,
    )
}

/// The line that tells how much the library holds.
pub fn library_stats_label(stats: &DbStats) -> (r: String)
    ensures
        r@ == stats_text(*stats),
{
    let mut out = String::new();
    out.append("Tracks: ");
    push_decimal(&mut out, stats.num_tracks as u64);
    out.append(", Track Groups: ");
    push_decimal(&mut out, stats.num_track_groups as u64);
    out.append(", Artists: ");
    push_decimal(&mut out, stats.num_artists as u64);
    out.append(", Albums: ");
    push_decimal(&mut out, stats.num_albums as u64);
    assert(out@ =~= stats_text(*stats));
    out
}

} // verus!
