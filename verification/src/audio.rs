//! The playback source: the stream of samples that the audio output pulls. It plays the
//! current track of the queue through a decoder, falls back to silence when there is
//! nothing to play, and reports the state of playback sixteen times a second.

use crate::decoder::{PluginAudioSource, PluginAudioSourceError, Rejected};
use crate::ident::{PluginId, TrackKey, UniqueTrackIdentifier};
use crate::media::{AudioFile, TimeSpan};
use crate::plugin::PluginError;
use crate::pool::PluginHandle;
use crate::registry::{decoders_among, PluginSystem};
use vstd::prelude::*;

verus! {

/// How many samples one stretch of silence lasts.
pub const SILENCE_LENGTH: usize = 512;

/// Samples per second of silence.
pub const SILENCE_SAMPLE_RATE: u32 = 44_100;

/// Channels of silence.
pub const SILENCE_CHANNELS: u16 = 1;

/// The sample of silence: the bit pattern of zero.
pub const SILENT_SAMPLE: u32 = 0;

/// How often in a second of audio the state of playback is reported.
pub const STATE_UPDATES_PER_SECOND: u64 = 16;

/// Nanoseconds in a second.
pub const NANOS_PER_SECOND: u128 = 1_000_000_000;

/// What the player is doing.
#[derive(Debug, Clone, Copy, PartialEq, Eq, Structural)]
pub enum PlaybackState {
    Stopped,
    Playing { duration: Option<TimeSpan>, position: TimeSpan, paused: bool },
}

impl Default for PlaybackState {
    fn default() -> (r: PlaybackState)
        ensures
            r == PlaybackState::Stopped,
    {
        PlaybackState::Stopped
    }
}

/// The time that `samples` samples take at the given rate and channel count, in whole
/// nanoseconds. A rate or channel count of zero measures no time.
pub open spec fn span_nanos(samples: nat, rate: u32, channels: u16) -> nat {
    if rate == 0 || channels == 0 {
        0
    } else {
        (samples * NANOS_PER_SECOND / (rate * channels)) as nat
    }
}

/// A sum that stops at the largest 128-bit number.
pub open spec fn capped_sum(a: nat, b: nat) -> nat {
    if a + b > u128::MAX {
        u128::MAX as nat
    } else {
        a + b
    }
}

/// A count of nanoseconds as seconds and nanoseconds; seconds stop at the largest 64-bit
/// number.
pub open spec fn time_span_of(nanos: nat) -> TimeSpan {
    TimeSpan {
        secs: if nanos / NANOS_PER_SECOND as nat > u64::MAX {
            u64::MAX
        } else {
            (nanos / NANOS_PER_SECOND as nat) as u64
        },
        nanos: (nanos % NANOS_PER_SECOND as nat) as u32,
    }
}

/// How many samples pass between two reports of the state while a block of the given rate
/// and channel count plays: a sixteenth of a second of audio, as far as the machine can
/// count.
pub open spec fn update_interval(rate: u32, channels: u16) -> nat {
    let samples = (rate * channels) / STATE_UPDATES_PER_SECOND as int;
    if samples > usize::MAX {
        usize::MAX as nat
    } else {
        samples as nat
    }
}

/// A count of samples after one more, as far as the machine can count.
pub open spec fn counted_up(counted: nat) -> nat {
    if counted < usize::MAX {
        counted + 1
    } else {
        counted
    }
}

fn measure_span(samples: usize, rate: u32, channels: u16) -> (r: u128)
    ensures
        r == span_nanos(samples as nat, rate, channels),
{
    if rate == 0 || channels == 0 {
        return 0;
    }
    assert(0 < rate * channels <= 0xffff_ffff * 0xffff) by (nonlinear_arith)
        requires
            0 < rate <= 0xffff_ffff,
            0 < channels <= 0xffff,
    ;
    let per_second: u128 = rate as u128 * channels as u128;
    samples as u128 * NANOS_PER_SECOND / per_second
}

fn to_time_span(nanos: u128) -> (r: TimeSpan)
    ensures
        r == time_span_of(nanos as nat),
{
    let secs: u128 = nanos / NANOS_PER_SECOND;
    TimeSpan {
        secs: if secs > u64::MAX as u128 {
            u64::MAX
        } else {
            secs as u64
        },
        nanos: (nanos % NANOS_PER_SECOND) as u32,
    }
}

/// A decoder-backed stream that keeps track of how far into the track it is.
#[derive(Debug)]
pub struct TrackedSource {
    source: PluginAudioSource,
    /// Time of the blocks that were played to their end.
    elapsed_nanos: u128,
    /// Samples handed out of the current block.
    samples_counted: usize,
}

impl TrackedSource {
    /// The stream whose position is playing.
    pub closed spec fn inner(&self) -> PluginAudioSource {
        self.source
    }

    /// Nanoseconds that the finished blocks took.
    pub closed spec fn elapsed(&self) -> nat {
        self.elapsed_nanos as nat
    }

    /// Samples handed out of the current block.
    pub closed spec fn counted(&self) -> nat {
        self.samples_counted as nat
    }

    /// Nanoseconds since the start of the track.
    pub open spec fn position_nanos(&self) -> nat {
        capped_sum(
            self.elapsed(),
            span_nanos(self.counted(), self.inner().rate(), self.inner().channel_count()),
        )
    }

    /// Starts to track a stream at position zero.
    pub fn new(source: PluginAudioSource) -> (r: TrackedSource)
        ensures
            r.inner() == source,
            r.elapsed() == 0,
            r.counted() == 0,
    {
        TrackedSource { source, elapsed_nanos: 0, samples_counted: 0 }
    }

    /// Time since the start of the track.
    pub fn get_pos(&self) -> (r: TimeSpan)
        ensures
            r == time_span_of(self.position_nanos()),
    {
        let span = measure_span(
            self.samples_counted,
            self.source.sample_rate(),
            self.source.channels(),
        );
        let total = match self.elapsed_nanos.checked_add(span) {
            Some(t) => t,
            None => u128::MAX,
        };
        to_time_span(total)
    }

    /// The next sample of the stream. A sample that comes out counts towards the
    /// position; with the last sample of a block, the time of the block joins the time
    /// elapsed and the count starts again.
    pub fn next(&mut self) -> (r: Option<u32>)
        ensures
            final(self).inner().session() == old(self).inner().session(),
            final(self).inner().handle().pool == old(self).inner().handle().pool,
            final(self).inner().stated_duration() == old(self).inner().stated_duration(),
            old(self).inner().buffered().len() > 0 ==> {
                &&& r == Some(old(self).inner().buffered()[0])
                &&& final(self).inner().buffered() == old(self).inner().buffered().drop_first()
                &&& final(self).inner().rate() == old(self).inner().rate()
                &&& final(self).inner().channel_count() == old(self).inner().channel_count()
            },
            r is None ==> final(self).inner().is_finished() && final(self).elapsed() == old(
                self,
            ).elapsed() && final(self).counted() == old(self).counted(),
            r is Some ==> if counted_up(old(self).counted()) == final(self).inner().block().len() {
                &&& final(self).counted() == 0
                &&& final(self).elapsed() == capped_sum(
                    old(self).elapsed(),
                    span_nanos(
                        counted_up(old(self).counted()),
                        final(self).inner().rate(),
                        final(self).inner().channel_count(),
                    ),
                )
            } else {
                &&& final(self).counted() == counted_up(old(self).counted())
                &&& final(self).elapsed() == old(self).elapsed()
            },
    {
        let item = self.source.next();
        if item.is_some() {
            if self.samples_counted < usize::MAX {
                self.samples_counted = self.samples_counted + 1;
            }
            let span_len = match self.source.current_span_len() {
                Some(n) => n,
                None => 0,
            };
            if self.samples_counted == span_len {
                let span = measure_span(
                    self.samples_counted,
                    self.source.sample_rate(),
                    self.source.channels(),
                );
                self.elapsed_nanos = match self.elapsed_nanos.checked_add(span) {
                    Some(t) => t,
                    None => u128::MAX,
                };
                self.samples_counted = 0;
            }
        }
        item
    }

    /// Stops tracking and gives the stream back.
    pub fn into_inner(self) -> (r: PluginAudioSource)
        ensures
            r == self.inner(),
    {
        self.source
    }
}


/// What plays right now: a track, or a stretch of silence.
#[derive(Debug)]
pub enum QueueCurrentSource {
    Source(TrackedSource),
    /// Silence, with the number of samples that are left of it.
    Nothing(usize),
}

impl QueueCurrentSource {
    /// A track, from its start.
    pub fn new_source(source: PluginAudioSource) -> (r: QueueCurrentSource)
        ensures
            r matches QueueCurrentSource::Source(playing) && playing.inner() == source
                && playing.elapsed() == 0 && playing.counted() == 0,
    {
        QueueCurrentSource::Source(TrackedSource::new(source))
    }

    /// A fresh stretch of silence.
    pub fn new_silence() -> (r: QueueCurrentSource)
        ensures
            r == QueueCurrentSource::Nothing(SILENCE_LENGTH),
    {
        QueueCurrentSource::Nothing(SILENCE_LENGTH)
    }
}

/// What left the playback source when something else took its place.
#[derive(Debug)]
pub struct Retired {
    /// The decoder that played the track; it goes back to its pool.
    pub plugin: PluginHandle,
    /// What the decoder answered to the end of the session, if it was an error.
    pub failure: Option<PluginError>,
}

/// The stream of samples that the audio output pulls.
#[derive(Debug)]
pub struct QueueSource {
    current_playing: QueueCurrentSource,
    samples_to_state_update: usize,
}

impl QueueSource {
    /// What plays right now.
    pub closed spec fn playing(&self) -> QueueCurrentSource {
        self.current_playing
    }

    /// Samples until the state is reported next.
    pub closed spec fn countdown(&self) -> nat {
        self.samples_to_state_update as nat
    }

    /// The state of playback as it is reported: stopped while silence plays, else playing,
    /// never paused, with the length the decoder stated and the position reached.
    pub open spec fn state(&self) -> PlaybackState {
        match self.playing() {
            QueueCurrentSource::Nothing(_) => PlaybackState::Stopped,
            QueueCurrentSource::Source(playing) => PlaybackState::Playing {
                duration: playing.inner().stated_duration(),
                position: time_span_of(playing.position_nanos()),
                paused: false,
            },
        }
    }

    /// Samples between this report of the state and the next.
    pub open spec fn interval(&self) -> nat {
        match self.playing() {
            QueueCurrentSource::Nothing(_) => SILENCE_LENGTH as nat,
            QueueCurrentSource::Source(playing) => update_interval(
                playing.inner().rate(),
                playing.inner().channel_count(),
            ),
        }
    }

    /// A source that plays silence and reports its state after the first sample.
    pub fn new() -> (r: QueueSource)
        ensures
            r.playing() == QueueCurrentSource::Nothing(SILENCE_LENGTH),
            r.countdown() == 1,
    {
        QueueSource { current_playing: QueueCurrentSource::new_silence(), samples_to_state_update: 1 }
    }

    /// Whether the state is to be reported before the next sample is pulled.
    pub fn is_update_due(&self) -> (r: bool)
        ensures
            r == (self.countdown() == 0),
    {
        self.samples_to_state_update == 0
    }

    /// Reports the state of playback if the report is due, and starts the countdown to the
    /// next report. The caller then looks at the queue's pending updates, has the
    /// upcoming track cached if there was any, and publishes the state.
    pub fn poll_state(&mut self) -> (r: Option<PlaybackState>)
        ensures
            final(self).playing() == old(self).playing(),
            old(self).countdown() != 0 ==> r is None && final(self).countdown() == old(
                self,
            ).countdown(),
            old(self).countdown() == 0 ==> r == Some(old(self).state()) && final(self).countdown()
                == old(self).interval(),
    {
        if self.samples_to_state_update != 0 {
            return None;
        }
        match &self.current_playing {
            QueueCurrentSource::Nothing(_) => {
                self.samples_to_state_update = SILENCE_LENGTH;
                Some(PlaybackState::Stopped)
            },
            QueueCurrentSource::Source(playing) => {
                let rate: u64 = playing.source.sample_rate() as u64;
                let channels: u64 = playing.source.channels() as u64;
                assert(rate * channels <= 0xffff_ffff * 0xffff) by (nonlinear_arith)
                    requires
                        0 <= rate <= 0xffff_ffff,
                        0 <= channels <= 0xffff,
                ;
                let interval: u64 = rate * channels / STATE_UPDATES_PER_SECOND;
                let state = PlaybackState::Playing {
                    duration: playing.source.total_duration(),
                    position: playing.get_pos(),
                    paused: false,
                };
                self.samples_to_state_update = if interval > usize::MAX as u64 {
                    usize::MAX
                } else {
                    interval as usize
                };
                Some(state)
            },
        }
    }

    /// Pulls one sample. The countdown to the next report goes down by one, unless it is
    /// at zero already. Silence yields zeros until its stretch is over; a track yields its
    /// samples in order. `None` says that what played is exhausted: the caller advances
    /// the queue and installs what comes next.
    pub fn next_sample(&mut self) -> (r: Option<u32>)
        ensures
            final(self).countdown() == if old(self).countdown() > 0 {
                old(self).countdown() - 1
            } else {
                0
            },
            match old(self).playing() {
                QueueCurrentSource::Nothing(left) => if left > 0 {
                    r == Some(SILENT_SAMPLE) && final(self).playing()
                        == QueueCurrentSource::Nothing((left - 1) as usize)
                } else {
                    r is None && final(self).playing() == old(self).playing()
                },
                QueueCurrentSource::Source(before) => final(self).playing()
                    matches QueueCurrentSource::Source(after) && {
                    &&& after.inner().stated_duration() == before.inner().stated_duration()
                    &&& after.inner().handle().pool == before.inner().handle().pool
                    &&& before.inner().buffered().len() > 0 ==> {
                        &&& r == Some(before.inner().buffered()[0])
                        &&& after.inner().buffered() == before.inner().buffered().drop_first()
                        &&& after.inner().rate() == before.inner().rate()
                        &&& after.inner().channel_count() == before.inner().channel_count()
                    }
                    &&& r is None ==> after.inner().is_finished()
                },
            },
    {
        if self.samples_to_state_update > 0 {
            self.samples_to_state_update = self.samples_to_state_update - 1;
        }
        match &mut self.current_playing {
            QueueCurrentSource::Nothing(left) => {
                if *left > 0 {
                    *left = *left - 1;
                    Some(SILENT_SAMPLE)
                } else {
                    None
                }
            },
            QueueCurrentSource::Source(playing) => playing.next(),
        }
    }

    /// Installs what plays next: the given track from its start, or a fresh stretch of
    /// silence where there is none. A track that played until now has its session ended
    /// and its decoder handed back. The countdown to the next report goes on.
    pub fn install(&mut self, next: Option<PluginAudioSource>) -> (r: Option<Retired>)
        ensures
            final(self).countdown() == old(self).countdown(),
            match next {
                Some(source) => final(self).playing() matches QueueCurrentSource::Source(playing)
                    && playing.inner() == source && playing.elapsed() == 0 && playing.counted()
                    == 0,
                None => final(self).playing() == QueueCurrentSource::Nothing(SILENCE_LENGTH),
            },
            match old(self).playing() {
                QueueCurrentSource::Source(before) => r matches Some(retired)
                    && retired.plugin.pool == before.inner().handle().pool,
                QueueCurrentSource::Nothing(_) => r is None,
            },
    {
        let replacement = match next {
            Some(source) => QueueCurrentSource::new_source(source),
            None => QueueCurrentSource::new_silence(),
        };
        let mut previous = replacement;
        std::mem::swap(&mut self.current_playing, &mut previous);
        match previous {
            QueueCurrentSource::Source(playing) => {
                let (plugin, failure) = playing.into_inner().finish();
                Some(Retired { plugin, failure })
            },
            QueueCurrentSource::Nothing(_) => None,
        }
    }

    /// Samples per second of what plays.
    pub fn sample_rate(&self) -> (r: u32)
        ensures
            r == match self.playing() {
                QueueCurrentSource::Nothing(_) => SILENCE_SAMPLE_RATE,
                QueueCurrentSource::Source(playing) => playing.inner().rate(),
            },
    {
        match &self.current_playing {
            QueueCurrentSource::Nothing(_) => SILENCE_SAMPLE_RATE,
            QueueCurrentSource::Source(playing) => playing.source.sample_rate(),
        }
    }

    /// Channels of what plays.
    pub fn channels(&self) -> (r: u16)
        ensures
            r == match self.playing() {
                QueueCurrentSource::Nothing(_) => SILENCE_CHANNELS,
                QueueCurrentSource::Source(playing) => playing.inner().channel_count(),
            },
    {
        match &self.current_playing {
            QueueCurrentSource::Nothing(_) => SILENCE_CHANNELS,
            QueueCurrentSource::Source(playing) => playing.source.channels(),
        }
    }

    /// For how many samples rate and channel count stay as they are: the length of the
    /// block that plays, or of a stretch of silence where no block with samples plays.
    pub fn current_span_len(&self) -> (r: Option<usize>)
        ensures
            r == match self.playing() {
                QueueCurrentSource::Source(playing) if playing.inner().block().len() > 0 => Some(
                    playing.inner().block().len() as usize,
                ),
                _ => Some(SILENCE_LENGTH),
            },
    {
        match &self.current_playing {
            QueueCurrentSource::Source(playing) => match playing.source.current_span_len() {
                Some(n) => if n != 0 {
                    Some(n)
                } else {
                    Some(SILENCE_LENGTH)
                },
                None => Some(SILENCE_LENGTH),
            },
            QueueCurrentSource::Nothing(_) => Some(SILENCE_LENGTH),
        }
    }

    /// The stream as a whole has no end and so no length.
    pub fn total_duration(&self) -> (r: Option<TimeSpan>)
        ensures
            r is None,
    {
        None
    }
}

/// What a source that only ever has silence installed yields at its `n`-th pull after a
/// stretch with `left` samples to go: a zero, or nothing at the end of a stretch, after
/// which a fresh stretch begins.
pub open spec fn silent_pull(left: nat) -> (Option<u32>, nat) {
    if left > 0 {
        (Some(SILENT_SAMPLE), (left - 1) as nat)
    } else {
        (None, SILENCE_LENGTH as nat)
    }
}

/// The samples that `pulls` pulls draw from a source that has nothing but silence to play.
pub open spec fn silent_stream(left: nat, pulls: nat) -> Seq<u32>
    decreases pulls,
{
    if pulls == 0 {
        Seq::empty()
    } else {
        let (sample, rest) = silent_pull(left);
        match sample {
            Some(s) => seq![s] + silent_stream(rest, (pulls - 1) as nat),
            None => silent_stream(rest, (pulls - 1) as nat),
        }
    }
}

/// A source that never has a track to play yields zeros without end: however many
/// samples are wanted, enough pulls draw them, every one of them zero, and no pull comes
/// back empty twice in a row.
pub proof fn lemma_silence_is_unbounded(left: nat, wanted: nat)
    ensures
        silent_stream(left, 2 * wanted).len() >= wanted,
        forall|pulls: nat, i: int|
            0 <= i < silent_stream(left, pulls).len() ==> silent_stream(left, pulls)[i]
                == SILENT_SAMPLE,
        silent_pull(left).0 is None ==> silent_pull(silent_pull(left).1).0 == Some(SILENT_SAMPLE),
    decreases wanted,
{
    assert forall|pulls: nat, i: int| 0 <= i < silent_stream(left, pulls).len() implies silent_stream(
        left,
        pulls,
    )[i] == SILENT_SAMPLE by {
        lemma_silent_stream_zero(left, pulls, i);
    }
    if wanted > 0 {
        let (s1, r1) = silent_pull(left);
        let (s2, r2) = silent_pull(r1);
        lemma_silence_is_unbounded(r2, (wanted - 1) as nat);
        assert(silent_stream(left, 2 * wanted).len() >= 1 + silent_stream(
            r2,
            (2 * (wanted - 1)) as nat,
        ).len()) by {
            reveal_with_fuel(silent_stream, 3);
        }
    }
}

/// Every sample of a silent stream is zero.
pub proof fn lemma_silent_stream_zero(left: nat, pulls: nat, i: int)
    requires
        0 <= i < silent_stream(left, pulls).len(),
    ensures
        silent_stream(left, pulls)[i] == SILENT_SAMPLE,
    decreases pulls,
{
    if pulls > 0 {
        let (sample, rest) = silent_pull(left);
        match sample {
            Some(s) => {
                if i > 0 {
                    lemma_silent_stream_zero(rest, (pulls - 1) as nat, i - 1);
                }
            },
            None => {
                lemma_silent_stream_zero(rest, (pulls - 1) as nat, i);
            },
        }
    }
}

} // verus!
