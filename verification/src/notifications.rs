//! Notifications: what they say, and which of them are shown as toasts.

use crate::library::ProgressNotificationData;
use vstd::prelude::*;

verus! {

/// For how many seconds a notification with a fixed message is shown as a toast.
pub const TOAST_SECONDS: u64 = 5;

/// What a notification tells.
#[derive(Debug, PartialEq, Eq)]
pub enum NotificationKind {
    /// A message that does not change. A silent one is never shown as a toast.
    Fixed { message: String, silent: bool },
    /// The progress of some work, as it stood when the notification was made.
    Progress(ProgressNotificationData),
}

/// Something the user is told.
#[derive(Debug, PartialEq, Eq)]
pub struct Notification {
    pub title: String,
    pub kind: NotificationKind,
}

impl Notification {
    /// A notification with a fixed message.
    pub fn new(title: String, message: String) -> (r: Notification)
        ensures
            r.title == title,
            r.kind == (NotificationKind::Fixed { message, silent: false }),
    {
        Notification { title, kind: NotificationKind::Fixed { message, silent: false } }
    }

    /// A notification with a fixed message that is never shown as a toast.
    pub fn new_silent(title: String, message: String) -> (r: Notification)
        ensures
            r.title == title,
            r.kind == (NotificationKind::Fixed { message, silent: true }),
    {
        Notification { title, kind: NotificationKind::Fixed { message, silent: true } }
    }

    /// A notification of the progress of some work.
    pub fn new_progress(title: String, progress: ProgressNotificationData) -> (r: Notification)
        ensures
            r.title == title,
            r.kind == NotificationKind::Progress(progress),
    {
        Notification { title, kind: NotificationKind::Progress(progress) }
    }
}

/// What a notification that was taken in tells now.
#[derive(Debug, PartialEq, Eq)]
pub enum NotificationStateKind {
    Fixed { message: String },
    Progress(ProgressNotificationData),
}

/// A notification that was taken in.
#[derive(Debug, PartialEq, Eq)]
pub struct NotificationState {
    pub id: usize,
    pub show_toast: bool,
    pub title: String,
    pub kind: NotificationStateKind,
}

/// All notifications that were taken in, in the order of their numbers.
#[derive(Debug)]
pub struct NotificationManager {
    pub notifications: Vec<NotificationState>,
}

/// Whether a notification is shown as a toast when it is taken in.
pub open spec fn shown_at_first(kind: NotificationKind) -> bool {
    match kind {
        NotificationKind::Fixed { silent, .. } => !silent,
        NotificationKind::Progress(_) => true,
    }
}

/// The numbers of the notifications that are shown as toasts, among the first `k`.
pub open spec fn toasts_among(states: Seq<NotificationState>, k: nat) -> Seq<usize>
    decreases k,
{
    if k == 0 {
        Seq::empty()
    } else if states[k - 1].show_toast {
        toasts_among(states, (k - 1) as nat).push(states[k - 1].id)
    } else {
        toasts_among(states, (k - 1) as nat)
    }
}

impl NotificationManager {
    /// Every notification carries its position as its number.
    pub open spec fn wf(&self) -> bool {
        forall|i: int| 0 <= i < self.notifications@.len() ==> (#[trigger] self.notifications@[i]).id == i
    }

    /// No notifications.
    pub fn new() -> (r: NotificationManager)
        ensures
            r.wf(),
            r.notifications@.len() == 0,
    {
        NotificationManager { notifications: Vec::new() }
    }

    /// Takes a notification in and returns its number. It is shown as a toast unless it is
    /// silent.
    pub fn add(&mut self, notification: Notification) -> (id: usize)
        requires
            old(self).wf(),
        ensures
            final(self).wf(),
            id == old(self).notifications@.len(),
            final(self).notifications@.len() == id + 1,
            forall|i: int| 0 <= i < id ==> final(self).notifications@[i] == old(self).notifications@[i],
            final(self).notifications@[id as int].show_toast == shown_at_first(notification.kind),
            final(self).notifications@[id as int].title == notification.title,
            final(self).notifications@[id as int].kind == match notification.kind {
                NotificationKind::Fixed { message, .. } => NotificationStateKind::Fixed { message },
                NotificationKind::Progress(data) => NotificationStateKind::Progress(data),
            },
    {
        let id = self.notifications.len();
        let (show_toast, kind) = match notification.kind {
            NotificationKind::Fixed { message, silent } => (
                !silent,
                NotificationStateKind::Fixed { message },
            ),
            NotificationKind::Progress(data) => (true, NotificationStateKind::Progress(data)),
        };
        self.notifications.push(
            NotificationState { id, show_toast, title: notification.title, kind },
        );
        id
    }

    /// The time of a toast is over: the notification is shown as a toast no longer. A
    /// number that no notification has changes nothing.
    pub fn expire(&mut self, id: usize)
        requires
            old(self).wf(),
        ensures
            final(self).wf(),
            final(self).notifications@.len() == old(self).notifications@.len(),
            forall|i: int|
                0 <= i < old(self).notifications@.len() && i != id ==> final(self).notifications@[i] == old(self).notifications@[i],
            id < old(self).notifications@.len() ==> final(self).notifications@[id as int] == (
            NotificationState { show_toast: false, ..old(self).notifications@[id as int] }),
    {
        if id < self.notifications.len() {
            self.notifications[id].show_toast = false;
        }
    }

    /// The work behind a notification has come further. The notification tells the new
    /// progress; once the work is done it is shown as a toast no longer. A number that no
    /// notification has changes nothing.
    pub fn update_progress(&mut self, id: usize, data: ProgressNotificationData)
        requires
            old(self).wf(),
        ensures
            final(self).wf(),
            final(self).notifications@.len() == old(self).notifications@.len(),
            forall|i: int|
                0 <= i < old(self).notifications@.len() && i != id ==> final(self).notifications@[i] == old(self).notifications@[i],
            id < old(self).notifications@.len() ==> final(self).notifications@[id as int] == (
            NotificationState {
                show_toast: old(self).notifications@[id as int].show_toast && !data.is_done,
                kind: NotificationStateKind::Progress(data),
                ..old(self).notifications@[id as int]
            }),
    {
        if id < self.notifications.len() {
            if data.is_done {
                self.notifications[id].show_toast = false;
            }
            self.notifications[id].kind = NotificationStateKind::Progress(data);
        }
    }

    /// The numbers of the notifications that are shown as toasts, smallest first.
    pub fn toasts(&self) -> (r: Vec<usize>)
        ensures
            r@ == toasts_among(self.notifications@, self.notifications@.len()),
    {
        let mut out: Vec<usize> = Vec::new();
        let mut i: usize = 0;
        while i < self.notifications.len()
            invariant
                i <= self.notifications@.len(),
                out@ == toasts_among(self.notifications@, i as nat),
            decreases self.notifications@.len() - i,
        {
            if self.notifications[i].show_toast {
                out.push(self.notifications[i].id);
            }
            i += 1;
        }
        out
    }
}

/// The toasts come in the order of their numbers, each once.
pub proof fn lemma_toasts_are_sorted(states: Seq<NotificationState>, k: nat)
    requires
        k <= states.len(),
        forall|i: int| 0 <= i < states.len() ==> (#[trigger] states[i]).id == i,
    ensures
        forall|a: int, b: int|
            0 <= a < b < toasts_among(states, k).len() ==> toasts_among(states, k)[a]
                < toasts_among(states, k)[b],
        forall|a: int|
            0 <= a < toasts_among(states, k).len() ==> toasts_among(states, k)[a] < k
                && states[toasts_among(states, k)[a] as int].show_toast,
    decreases k,
{
    if k > 0 {
        lemma_toasts_are_sorted(states, (k - 1) as nat);
    }
}

} // verus!
