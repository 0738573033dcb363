//! The play queue: what was played, what plays now, what comes next.

use crate::ident::{TrackKey, UniqueTrackIdentifier};
use std::collections::VecDeque;
use vstd::prelude::*;

verus! {

/// The three ordered collections of the queue, as plain sequences.
pub struct QueueView {
    pub past: Seq<TrackKey>,
    pub current: Option<TrackKey>,
    pub future: Seq<TrackKey>,
}

impl QueueView {
    /// A queue in which nothing was ever pushed.
    pub open spec fn empty() -> QueueView {
        QueueView { past: Seq::empty(), current: None, future: Seq::empty() }
    }

    /// Number of tracks held, wherever they stand.
    pub open spec fn total(self) -> nat {
        self.past.len() + (if self.current is Some { 1nat } else { 0nat }) + self.future.len()
    }

    /// The track `offset` steps from the current one: 0 is the current track, negative
    /// offsets count back from the most recently played, positive ones forward from the
    /// head of what is still to come.
    pub open spec fn at_offset(self, offset: int) -> Option<TrackKey> {
        if offset == 0 {
            self.current
        } else if offset < 0 {
            if self.past.len() + offset >= 0 {
                Some(self.past[self.past.len() + offset])
            } else {
                None
            }
        } else {
            if offset - 1 < self.future.len() {
                Some(self.future[offset - 1])
            } else {
                None
            }
        }
    }

    /// The queue after `track` was appended to what is to come.
    pub open spec fn push(self, track: TrackKey) -> QueueView {
        QueueView { future: self.future.push(track), ..self }
    }

    /// The queue after one advance: the current track joins the past, the head of the
    /// future becomes current.
    pub open spec fn forward(self) -> QueueView {
        QueueView {
            past: match self.current {
                Some(t) => self.past.push(t),
                None => self.past,
            },
            current: if self.future.len() > 0 {
                Some(self.future[0])
            } else {
                None
            },
            future: if self.future.len() > 0 {
                self.future.subrange(1, self.future.len() as int)
            } else {
                self.future
            },
        }
    }

    /// Nothing plays and nothing waits: an advance changes nothing.
    pub open spec fn is_idle(self) -> bool {
        self.current is None && self.future.len() == 0
    }
}

/// What the queue tells its listeners.
#[derive(Debug, PartialEq, Eq)]
pub enum QueueUpdate {
    CurrentTrackChanged,
    TrackAdded(UniqueTrackIdentifier),
}

/// What a `QueueUpdate` stands for.
pub enum QueueUpdateView {
    CurrentTrackChanged,
    TrackAdded(TrackKey),
}

impl View for QueueUpdate {
    type V = QueueUpdateView;

    open spec fn view(&self) -> QueueUpdateView {
        match self {
            QueueUpdate::CurrentTrackChanged => QueueUpdateView::CurrentTrackChanged,
            QueueUpdate::TrackAdded(t) => QueueUpdateView::TrackAdded(t@),
        }
    }
}

impl Clone for QueueUpdate {
    fn clone(&self) -> (res: Self)
        ensures
            res@ == self@,
    {
        match self {
            QueueUpdate::CurrentTrackChanged => QueueUpdate::CurrentTrackChanged,
            QueueUpdate::TrackAdded(t) => QueueUpdate::TrackAdded(t.clone()),
        }
    }
}

/// The views of a sequence of track identifiers.
pub open spec fn keys_of(s: Seq<UniqueTrackIdentifier>) -> Seq<TrackKey> {
    s.map_values(|t: UniqueTrackIdentifier| t@)
}

/// Past, current and upcoming tracks.
#[derive(Debug)]
pub struct QueueItems {
    pub past: Vec<UniqueTrackIdentifier>,
    pub current: Option<UniqueTrackIdentifier>,
    pub future: VecDeque<UniqueTrackIdentifier>,
}

impl View for QueueItems {
    type V = QueueView;

    open spec fn view(&self) -> QueueView {
        QueueView {
            past: keys_of(self.past@),
            current: match self.current {
                Some(t) => Some(t@),
                None => None,
            },
            future: keys_of(self.future@),
        }
    }
}

impl Default for QueueItems {
    fn default() -> (res: Self)
        ensures
            res@ == QueueView::empty(),
    {
        let res = QueueItems { past: Vec::new(), current: None, future: VecDeque::new() };
        assert(res@.past =~= Seq::empty());
        assert(res@.future =~= Seq::empty());
        res
    }
}

impl QueueItems {
    /// The track `offset` steps away from the current one, if the queue reaches that far.
    pub fn get_at_offset(&self, offset: isize) -> (res: Option<UniqueTrackIdentifier>)
        ensures
            match res {
                Some(t) => self@.at_offset(offset as int) == Some(t@),
                None => self@.at_offset(offset as int) is None,
            },
    {
        if offset == 0 {
            match &self.current {
                Some(t) => Some(t.clone()),
                None => None,
            }
        } else if offset < 0 {
            // Count back without negating `offset` itself, which may be the least isize.
            let skipped: usize = (-(offset + 1)) as usize;
            if skipped < self.past.len() {
                let index: usize = self.past.len() - 1 - skipped;
                Some(self.past[index].clone())
            } else {
                None
            }
        } else {
            let index: usize = (offset - 1) as usize;
            if index < self.future.len() {
                Some(self.future[index].clone())
            } else {
                None
            }
        }
    }

    /// Appends `track` to what is to come.
    pub fn push(&mut self, track: UniqueTrackIdentifier)
        ensures
            final(self)@ == old(self)@.push(track@),
    {
        self.future.push_back(track);
        assert(final(self)@.future =~= old(self)@.future.push(track@));
    }

    /// Advances by one track and returns the new current track.
    pub fn forward(&mut self) -> (res: Option<UniqueTrackIdentifier>)
        ensures
            final(self)@ == old(self)@.forward(),
            match res {
                Some(t) => final(self)@.current == Some(t@),
                None => final(self)@.current is None,
            },
    {
        let next_track = self.future.pop_front();
        let prev_track = self.current.take();
        self.current = next_track;
        if let Some(track) = prev_track {
            self.past.push(track);
        }
        assert(final(self)@.past =~= old(self)@.forward().past);
        assert(final(self)@.future =~= old(self)@.forward().future);
        match &self.current {
            Some(t) => Some(t.clone()),
            None => None,
        }
    }
}

/// What one advance of the queue gave: the new current track, and what to tell listeners.
#[derive(Debug)]
pub struct Advance {
    pub current: Option<UniqueTrackIdentifier>,
    pub update: Option<QueueUpdate>,
}

/// The queue as its users see it: every change comes back as the update to broadcast.
#[derive(Debug)]
pub struct Queue {
    items: QueueItems,
}

impl View for Queue {
    type V = QueueView;

    closed spec fn view(&self) -> QueueView {
        self.items@
    }
}

impl Queue {
    /// A queue that holds nothing.
    pub fn new() -> (res: Queue)
        ensures
            res@ == QueueView::empty(),
    {
        Queue { items: QueueItems::default() }
    }

    /// The track that follows the current one.
    pub fn get_next_track(&self) -> (res: Option<UniqueTrackIdentifier>)
        ensures
            match res {
                Some(t) => self@.at_offset(1) == Some(t@),
                None => self@.at_offset(1) is None,
            },
    {
        self.items.get_at_offset(1)
    }

    /// The track `offset` steps away from the current one.
    pub fn peek_at(&self, offset: isize) -> (res: Option<UniqueTrackIdentifier>)
        ensures
            match res {
                Some(t) => self@.at_offset(offset as int) == Some(t@),
                None => self@.at_offset(offset as int) is None,
            },
    {
        self.items.get_at_offset(offset)
    }

    /// Advances by one track. Listeners hear `CurrentTrackChanged`, unless nothing played
    /// and nothing waited: then the queue stays as it was and nothing is said.
    pub fn forward(&mut self) -> (res: Advance)
        ensures
            final(self)@ == old(self)@.forward(),
            match res.current {
                Some(t) => final(self)@.current == Some(t@),
                None => final(self)@.current is None,
            },
            old(self)@.is_idle() ==> res.update is None && res.current is None && final(self)@
                == old(self)@,
            !old(self)@.is_idle() ==> res.update == Some(QueueUpdate::CurrentTrackChanged),
    {
        let idle = self.items.current.is_none() && self.items.future.len() == 0;
        proof {
            if idle {
                lemma_forward_idle(self@);
            }
        }
        let current = self.items.forward();
        let update = if idle {
            None
        } else {
            Some(QueueUpdate::CurrentTrackChanged)
        };
        Advance { current, update }
    }

    /// Appends `track` and returns the `TrackAdded` update for the listeners.
    pub fn push(&mut self, track: UniqueTrackIdentifier) -> (res: QueueUpdate)
        ensures
            final(self)@ == old(self)@.push(track@),
            res@ == QueueUpdateView::TrackAdded(track@),
    {
        self.items.push(track.clone());
        QueueUpdate::TrackAdded(track)
    }
}

/// One operation on the queue.
pub enum QueueOp {
    Push(TrackKey),
    Forward,
}

/// The queue that a run of operations leaves, starting from the empty queue.
pub open spec fn run_ops(ops: Seq<QueueOp>) -> QueueView
    decreases ops.len(),
{
    if ops.len() == 0 {
        QueueView::empty()
    } else {
        let before = run_ops(ops.drop_last());
        match ops.last() {
            QueueOp::Push(t) => before.push(t),
            QueueOp::Forward => before.forward(),
        }
    }
}

/// How many of the operations are pushes.
pub open spec fn count_pushes(ops: Seq<QueueOp>) -> nat
    decreases ops.len(),
{
    if ops.len() == 0 {
        0
    } else {
        count_pushes(ops.drop_last()) + (if ops.last() is Push { 1nat } else { 0nat })
    }
}

/// An advance moves tracks and loses none; a push adds exactly one.
pub proof fn lemma_step_totals(q: QueueView, t: TrackKey)
    ensures
        q.forward().total() == q.total(),
        q.push(t).total() == q.total() + 1,
{
}

/// After any run of pushes and advances the queue holds, over past, current and future
/// together, exactly as many tracks as were pushed: nothing is dropped, nothing doubled.
pub proof fn lemma_total_counts_pushes(ops: Seq<QueueOp>)
    ensures
        run_ops(ops).total() == count_pushes(ops),
    decreases ops.len(),
{
    if ops.len() > 0 {
        lemma_total_counts_pushes(ops.drop_last());
        let before = run_ops(ops.drop_last());
        match ops.last() {
            QueueOp::Push(t) => lemma_step_totals(before, t),
            QueueOp::Forward => lemma_step_totals(before, arbitrary()),
        }
    }
}

/// An advance of a queue in which nothing plays and nothing waits changes nothing and
/// yields no current track, however long the past is.
pub proof fn lemma_forward_idle(q: QueueView)
    requires
        q.is_idle(),
    ensures
        q.forward() == q,
        q.forward().current is None,
{
}

} // verus!
