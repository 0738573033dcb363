//! The prefetch cache: one slot for the load of the track that plays next, so that the
//! track is ready when its turn comes.

use crate::decoder::{PluginAudioSource, PluginAudioSourceError};
use crate::ident::{TrackKey, UniqueTrackIdentifier};
use vstd::prelude::*;

verus! {

/// The one load that is under way, under the track it loads. `R` is whatever the load's
/// result will come through.
#[derive(Debug)]
pub struct PrefetchSlot<R> {
    pub slot: Option<(UniqueTrackIdentifier, R)>,
}

impl<R> PrefetchSlot<R> {
    /// The track whose load the slot holds.
    pub open spec fn cached(&self) -> Option<TrackKey> {
        match self.slot {
            Some((track, _)) => Some(track@),
            None => None,
        }
    }

    /// An empty slot.
    pub fn new() -> (r: PrefetchSlot<R>)
        ensures
            r.slot is None,
    {
        PrefetchSlot { slot: None }
    }

    /// Whether the slot holds the load of `track`.
    pub fn holds(&self, track: &UniqueTrackIdentifier) -> (r: bool)
        ensures
            r == (self.cached() == Some(track@)),
    {
        match &self.slot {
            Some((cached, _)) => cached.same(track),
            None => false,
        }
    }

    /// Makes sure that `track` is being loaded. A slot that holds the load of `track`
    /// stays as it is, and nothing is started. Any other slot is overwritten with a load
    /// that `start` begins.
    pub fn cache_track<F>(&mut self, track: UniqueTrackIdentifier, start: F) where
        F: FnOnce(UniqueTrackIdentifier) -> R,

        requires
            forall|t: UniqueTrackIdentifier| start.requires((t,)),
        ensures
            final(self).cached() == Some(track@),
            old(self).cached() == Some(track@) ==> final(self).slot == old(self).slot,
            old(self).cached() != Some(track@) ==> (final(self).slot matches Some((_, load))
                && exists|t: UniqueTrackIdentifier| t@ == track@ && start.ensures((t,), load)),
    {
        if self.holds(&track) {
            return ;
        }
        let key = track.clone();
        let load = start(track);
        self.slot = Some((key, load));
    }

    /// Takes the load of `track` out of the slot, or has `start` begin one where the slot
    /// holds none or that of another track. The slot is empty afterwards.
    pub fn get_or_start<F>(&mut self, track: &UniqueTrackIdentifier, start: F) -> (r: R) where
        F: FnOnce(UniqueTrackIdentifier) -> R,

        requires
            forall|t: UniqueTrackIdentifier| start.requires((t,)),
        ensures
            final(self).slot is None,
            old(self).cached() == Some(track@) ==> (old(self).slot matches Some((_, load)) && r
                == load),
            old(self).cached() != Some(track@) ==> exists|t: UniqueTrackIdentifier|
                t@ == track@ && start.ensures((t,), r),
    {
        match self.slot.take() {
            Some((cached, load)) => {
                if cached.same(track) {
                    load
                } else {
                    start(track.clone())
                }
            },
            None => start(track.clone()),
        }
    }
}

/// What a finished load means: its result, or no audio data where the load broke off
/// without one.
pub fn resolve_load(received: Option<Result<PluginAudioSource, PluginAudioSourceError>>) -> (r:
    Result<PluginAudioSource, PluginAudioSourceError>)
    ensures
        match received {
            Some(result) => r == result,
            None => r matches Err(PluginAudioSourceError::NoAudioData),
        },
{
    match received {
        Some(result) => result,
        None => Err(PluginAudioSourceError::NoAudioData),
    }
}

} // verus!
