//! A decoder-backed stream of samples: one plugin instance, one decoding session, and the
//! block of samples last received.

use crate::ident::{PluginId, UniqueTrackIdentifier};
use crate::media::{is_random_id, AudioBlock, AudioFile, AudioFileView, PlaybackId, TimeSpan};
use crate::messages::{audio_file_encodable, InitDecodingResult};
use crate::plugin::{
    is_block_told, is_call_failure, is_file_answer, is_session_told, PluginError,
};
use crate::pool::PluginHandle;
use vstd::prelude::*;

verus! {

/// Why a decoder cannot go on with a file or a session.
#[derive(Debug, Clone, Copy, PartialEq, Eq, Structural)]
pub enum DecodeError {
    /// The file holds no track of audio.
    InvalidAudioTrack,
    /// No session was started under the identifier.
    EncodingNotInitialized,
}

/// Why a track could not be turned into a stream of samples.
#[derive(Debug)]
pub enum PluginAudioSourceError {
    /// The plugin is no decoder.
    CannotDecode,
    /// The decoder started a session and had no block to give.
    NoAudioData,
    /// A call into the plugin failed.
    PluginError(PluginError),
    /// No plugin is registered under the number that the track names as its provider.
    MissingFileProvider(PluginId),
    /// Every decoder turned the track down.
    NoPluginForTrack(UniqueTrackIdentifier),
}

/// A plugin that turned a file down, with the reason, so that its handle can go back to
/// its pool.
#[derive(Debug)]
pub struct Rejected {
    pub error: PluginAudioSourceError,
    pub plugin: PluginHandle,
}

/// Whether `after` is the handle `before`, after calls into its plugin: it comes from the
/// same pool, with the same capabilities and the same exports.
pub open spec fn is_same_handle(before: PluginHandle, after: PluginHandle) -> bool {
    &&& after.pool == before.pool
    &&& after.capabilities == before.capabilities
    &&& after.plugin.exports() == before.plugin.exports()
}

/// Whether the stream stands where a session that began with these answers stands: its
/// length is the one the session stated, and its current block is the first block.
pub open spec fn begins(source: PluginAudioSource, session: InitDecodingResult, block: AudioBlock) -> bool {
    &&& source.stated_duration() == session.duration
    &&& source.block() == block.samples@
    &&& source.rate() == block.sample_rate
    &&& source.channel_count() == block.channel_count
}

/// Whether `r` is what comes of offering the file to the plugin behind the handle.
///
/// A stream comes only of a decoder and a file that can be written: the session runs
/// under a random identifier, the decoder answered the start of the session and gave a
/// first block, and the stream begins with that block, none of it handed out.
///
/// A rejection hands the handle back and says why: the plugin is no decoder, and was not
/// called; the file cannot be written; the start of the session or the request for the
/// first block failed; or the decoder started the session and had no block to give.
pub open spec fn is_offer(
    plugin: PluginHandle,
    file: AudioFileView,
    r: Result<PluginAudioSource, Rejected>,
) -> bool {
    match r {
        Ok(source) => {
            &&& plugin.capabilities.decode
            &&& audio_file_encodable(file)
            &&& is_same_handle(plugin, source.handle())
            &&& is_random_id(source.session().0)
            &&& !source.is_finished()
            &&& source.buffered() == source.block()
            &&& exists|session: InitDecodingResult, block: AudioBlock|
                is_session_told(session) && is_block_told(Some(block)) && #[trigger] begins(
                    source,
                    session,
                    block,
                )
        },
        Err(rejected) => {
            &&& is_same_handle(plugin, rejected.plugin)
            &&& match rejected.error {
                PluginAudioSourceError::CannotDecode => !plugin.capabilities.decode
                    && rejected.plugin == plugin,
                PluginAudioSourceError::NoAudioData => plugin.capabilities.decode
                    && audio_file_encodable(file),
                PluginAudioSourceError::PluginError(e) => plugin.capabilities.decode && (
                if audio_file_encodable(file) {
                    is_call_failure(e, "init_decoding"@) || is_call_failure(e, "decode_block"@)
                } else {
                    e is InvalidArgument
                }),
                _ => false,
            }
        },
    }
}

/// A stream of samples that a decoder plugin feeds block by block.
#[derive(Debug)]
pub struct PluginAudioSource {
    playback_id: PlaybackId,
    plugin: PluginHandle,
    duration: Option<TimeSpan>,
    current_sample_rate: u32,
    current_channel_count: u16,
    current_block: Vec<u32>,
    block_index: usize,
    finished: bool,
}

impl PluginAudioSource {
    /// The samples of the current block that were not handed out yet.
    pub closed spec fn buffered(&self) -> Seq<u32> {
        if self.block_index <= self.current_block@.len() {
            self.current_block@.subrange(self.block_index as int, self.current_block@.len() as int)
        } else {
            Seq::empty()
        }
    }

    /// The whole current block.
    pub closed spec fn block(&self) -> Seq<u32> {
        self.current_block@
    }

    /// Whether the stream has ended for good.
    pub closed spec fn is_finished(&self) -> bool {
        self.finished
    }

    /// Samples per second of the current block.
    pub closed spec fn rate(&self) -> u32 {
        self.current_sample_rate
    }

    /// Channels of the current block.
    pub closed spec fn channel_count(&self) -> u16 {
        self.current_channel_count
    }

    /// The length of the track, as the decoder stated it.
    pub closed spec fn stated_duration(&self) -> Option<TimeSpan> {
        self.duration
    }

    /// The session that the stream reads from.
    pub closed spec fn session(&self) -> PlaybackId {
        self.playback_id
    }

    /// The handle of the decoder.
    pub closed spec fn handle(&self) -> PluginHandle {
        self.plugin
    }

    /// Builds the stream from what the decoder answered at the start of a session: the
    /// session's answer and the first block. Without a first block there is no stream.
    pub fn from_answers(
        plugin: PluginHandle,
        playback_id: PlaybackId,
        init_result: InitDecodingResult,
        first_block: Result<Option<AudioBlock>, PluginError>,
    ) -> (r: Result<PluginAudioSource, Rejected>)
        ensures
            match first_block {
                Ok(Some(block)) => r matches Ok(source) && ({
                    &&& source.buffered() == block.samples@
                    &&& source.block() == block.samples@
                    &&& source.rate() == block.sample_rate
                    &&& source.channel_count() == block.channel_count
                    &&& source.stated_duration() == init_result.duration
                    &&& source.session() == playback_id
                    &&& source.handle() == plugin
                    &&& !source.is_finished()
                }),
                Ok(None) => (r matches Err(rejected) && rejected.plugin == plugin
                    && rejected.error is NoAudioData),
                Err(e) => (r matches Err(rejected) && rejected.plugin == plugin
                    && rejected.error == PluginAudioSourceError::PluginError(e)),
            },
    {
        match first_block {
            Ok(Some(block)) => {
                let source = PluginAudioSource {
                    playback_id,
                    plugin,
                    duration: init_result.duration,
                    current_sample_rate: block.sample_rate,
                    current_channel_count: block.channel_count,
                    current_block: block.samples,
                    block_index: 0,
                    finished: false,
                };
                assert(source.buffered() =~= block.samples@);
                Ok(source)
            },
            Ok(None) => Err(Rejected { error: PluginAudioSourceError::NoAudioData, plugin }),
            Err(e) => Err(Rejected { error: PluginAudioSourceError::PluginError(e), plugin }),
        }
    }

    /// Offers a file to a plugin. A plugin that is no decoder turns it down without being
    /// called. A decoder is asked to start a gapless session under a fresh identifier and
    /// to give the first block; whatever goes wrong on the way is the reason of the
    /// rejection, and the handle comes back with it.
    pub fn new(plugin: PluginHandle, file: AudioFile) -> (r: Result<PluginAudioSource, Rejected>)
        ensures
            is_offer(plugin, file@, r),
            !plugin.capabilities.decode ==> r is Err,
            !audio_file_encodable(file@) ==> r is Err,
    {
        let mut plugin = plugin;
        if !plugin.capabilities.decode {
            return Err(Rejected { error: PluginAudioSourceError::CannotDecode, plugin });
        }
        let playback_id = PlaybackId::new();
        let started = plugin.plugin.init_decoding(playback_id, file, true);
        let init_result = match started {
            Ok(answer) => answer,
            Err(e) => {
                return Err(Rejected { error: PluginAudioSourceError::PluginError(e), plugin });
            },
        };
        let first_block = plugin.plugin.decode_block(playback_id);
        let ghost first = first_block;
        let r = PluginAudioSource::from_answers(plugin, playback_id, init_result, first_block);
        proof {
            if r is Ok {
                let block = first->Ok_0->0;
                assert(is_session_told(init_result));
                assert(is_block_told(Some(block)));
                assert(begins(r->Ok_0, init_result, block));
            }
        }
        r
    }

    /// Whether the stream must ask the decoder before it can hand out a sample.
    pub fn needs_block(&self) -> (r: bool)
        ensures
            r == (!self.is_finished() && self.buffered().len() == 0),
    {
        !self.finished && self.block_index >= self.current_block.len()
    }

    /// Takes in what the decoder answered to the request for the next block. A block with
    /// samples becomes the current block. The end of the stream, an error, or a block
    /// without samples end the stream for good. Returns whether the stream goes on.
    pub fn accept_block(&mut self, answer: Result<Option<AudioBlock>, PluginError>) -> (alive:
        bool)
        requires
            old(self).buffered().len() == 0,
            !old(self).is_finished(),
        ensures
            final(self).session() == old(self).session(),
            final(self).handle() == old(self).handle(),
            final(self).stated_duration() == old(self).stated_duration(),
            match answer {
                Ok(Some(block)) if block.samples@.len() > 0 => {
                    &&& alive
                    &&& !final(self).is_finished()
                    &&& final(self).buffered() == block.samples@
                    &&& final(self).block() == block.samples@
                    &&& final(self).rate() == block.sample_rate
                    &&& final(self).channel_count() == block.channel_count
                },
                _ => {
                    &&& !alive
                    &&& final(self).is_finished()
                    &&& final(self).buffered() == old(self).buffered()
                    &&& final(self).block() == old(self).block()
                    &&& final(self).rate() == old(self).rate()
                    &&& final(self).channel_count() == old(self).channel_count()
                },
            },
    {
        match answer {
            Ok(Some(block)) => {
                if block.samples.len() > 0 {
                    self.current_sample_rate = block.sample_rate;
                    self.current_channel_count = block.channel_count;
                    self.block_index = 0;
                    self.current_block = block.samples;
                    assert(final(self).buffered() =~= block.samples@);
                    true
                } else {
                    self.finished = true;
                    false
                }
            },
            _ => {
                self.finished = true;
                false
            },
        }
    }

    /// Hands out the next sample of the current block, if one is left.
    pub fn take_buffered(&mut self) -> (r: Option<u32>)
        ensures
            final(self).session() == old(self).session(),
            final(self).handle() == old(self).handle(),
            final(self).stated_duration() == old(self).stated_duration(),
            final(self).is_finished() == old(self).is_finished(),
            final(self).rate() == old(self).rate(),
            final(self).channel_count() == old(self).channel_count(),
            final(self).block() == old(self).block(),
            match r {
                Some(sample) => old(self).buffered().len() > 0 && sample == old(self).buffered()[0]
                    && final(self).buffered() == old(self).buffered().drop_first(),
                None => old(self).buffered().len() == 0 && final(self).buffered() == old(self).buffered(),
            },
    {
        if self.block_index < self.current_block.len() {
            let sample = self.current_block[self.block_index];
            self.block_index = self.block_index + 1;
            assert(final(self).buffered() =~= old(self).buffered().drop_first());
            Some(sample)
        } else {
            None
        }
    }

    /// The next sample. While the current block has samples left, they come out in order
    /// and the decoder is not called. When the block is used up the decoder is asked for
    /// the next one. `None` says that the stream has ended; it then stays ended.
    pub fn next(&mut self) -> (r: Option<u32>)
        ensures
            final(self).session() == old(self).session(),
            final(self).handle().pool == old(self).handle().pool,
            final(self).stated_duration() == old(self).stated_duration(),
            old(self).buffered().len() > 0 ==> {
                &&& r == Some(old(self).buffered()[0])
                &&& final(self).buffered() == old(self).buffered().drop_first()
                &&& final(self).block() == old(self).block()
                &&& final(self).rate() == old(self).rate()
                &&& final(self).channel_count() == old(self).channel_count()
                &&& final(self).handle() == old(self).handle()
                &&& final(self).is_finished() == old(self).is_finished()
            },
            old(self).is_finished() && old(self).buffered().len() == 0 ==> r is None && final(self).is_finished(),
            r is None ==> final(self).is_finished(),
            r is Some && old(self).buffered().len() == 0 ==> {
                &&& final(self).block().len() > 0
                &&& r == Some(final(self).block()[0])
                &&& final(self).buffered() == final(self).block().drop_first()
            },
    {
        if self.needs_block() {
            let answer = self.plugin.plugin.decode_block(self.playback_id);
            if !self.accept_block(answer) {
                return None;
            }
            let r = self.take_buffered();
            assert(final(self).buffered() =~= final(self).block().drop_first());
            return r;
        }
        let r = self.take_buffered();
        if r.is_none() {
            proof {
                assert(old(self).is_finished());
            }
        }
        r
    }

    /// Length of the current block.
    pub fn current_span_len(&self) -> (r: Option<usize>)
        ensures
            r matches Some(n) && n == self.block().len(),
    {
        Some(self.current_block.len())
    }

    /// Samples per second of the current block.
    pub fn sample_rate(&self) -> (r: u32)
        ensures
            r == self.rate(),
    {
        self.current_sample_rate
    }

    /// Channels of the current block.
    pub fn channels(&self) -> (r: u16)
        ensures
            r == self.channel_count(),
    {
        self.current_channel_count
    }

    /// The length of the track, as the decoder stated it.
    pub fn total_duration(&self) -> (r: Option<TimeSpan>)
        ensures
            r == self.stated_duration(),
    {
        self.duration
    }

    /// Ends the session at the decoder and gives up the handle, so that it can go back to
    /// its pool. A decoder that fails to end the session is reported, and the handle
    /// comes back all the same.
    pub fn finish(self) -> (r: (PluginHandle, Option<PluginError>))
        ensures
            r.0.pool == self.handle().pool,
            r.0.capabilities == self.handle().capabilities,
            r.0.plugin.exports() == self.handle().plugin.exports(),
            r.1 matches Some(e) ==> is_call_failure(e, "finish_decoding"@),
    {
        let mut plugin = self.plugin;
        let failure = match plugin.plugin.finish_decoding(self.playback_id) {
            Ok(_) => None,
            Err(e) => Some(e),
        };
        (plugin, failure)
    }
}


/// What came of the request for a track's bytes: the file, or the reason why there is
/// none.
pub fn file_or_error(answer: Result<AudioFile, PluginError>) -> (r: Result<
    AudioFile,
    PluginAudioSourceError,
>)
    ensures
        match answer {
            Ok(file) => r == Ok::<AudioFile, PluginAudioSourceError>(file),
            Err(e) => r == Err::<AudioFile, PluginAudioSourceError>(
                PluginAudioSourceError::PluginError(e),
            ),
        },
{
    match answer {
        Ok(file) => Ok(file),
        Err(e) => Err(PluginAudioSourceError::PluginError(e)),
    }
}

/// Whether the provider that the track names was asked for the bytes of the track and
/// answered so: an instance of the provider was handed out and asked, and went back
/// whatever it answered.
pub open spec fn was_provided<A: Fn(PluginId) -> Option<PluginHandle>, R: Fn(PluginHandle)>(
    acquire: A,
    release: R,
    track: UniqueTrackIdentifier,
    answer: Result<AudioFile, PluginError>,
) -> bool {
    exists|out: PluginHandle, back: PluginHandle|
        {
            &&& acquire.ensures((track.plugin_id,), Some(out))
            &&& #[trigger] is_same_handle(out, back)
            &&& release.ensures((back,), ())
            &&& is_file_answer(track.plugin_data@, answer)
        }
}

/// Whether the decoder under the number turned the file down: no instance of it was to be
/// had, or one was handed out, was offered the file, rejected it, and went back.
pub open spec fn was_turned_down<A: Fn(PluginId) -> Option<PluginHandle>, R: Fn(PluginHandle)>(
    acquire: A,
    release: R,
    id: PluginId,
    file: AudioFileView,
) -> bool {
    acquire.ensures((id,), None) || exists|out: PluginHandle, rejected: Rejected|
        {
            &&& acquire.ensures((id,), Some(out))
            &&& #[trigger] is_offer(out, file, Err(rejected))
            &&& release.ensures((rejected.plugin,), ())
        }
}

/// Whether the decoder under the number took the file and plays it as the given stream.
pub open spec fn was_taken<A: Fn(PluginId) -> Option<PluginHandle>>(
    acquire: A,
    id: PluginId,
    file: AudioFileView,
    source: PluginAudioSource,
) -> bool {
    exists|out: PluginHandle|
        acquire.ensures((id,), Some(out)) && #[trigger] is_offer(out, file, Ok(source))
}

/// Whether the provider handed out the file, and the decoders before the one at `upto`,
/// in their order, each turned it down.
pub open spec fn was_passed_on<A: Fn(PluginId) -> Option<PluginHandle>, R: Fn(PluginHandle)>(
    acquire: A,
    release: R,
    decoders: Seq<PluginId>,
    track: UniqueTrackIdentifier,
    file: AudioFile,
    upto: int,
) -> bool {
    &&& 0 <= upto <= decoders.len()
    &&& was_provided(acquire, release, track, Ok(file))
    &&& forall|j: int|
        0 <= j < upto ==> was_turned_down(acquire, release, #[trigger] decoders[j], file@)
}

impl PluginAudioSource {
    /// Turns a track into a stream of samples. The provider that the track names hands
    /// out the bytes; then the decoders are offered the bytes one after the other, in the
    /// given order, and the first that takes them plays the track. The track has no
    /// plugin only when every decoder has turned the bytes down.
    ///
    /// `acquire` hands out an instance of the plugin under a number, or nothing where no
    /// plugin stands under it; `release` takes an instance back. Every instance that
    /// `acquire` handed out goes through `release`, but for the one that plays the track.
    pub fn from_track_identifier<A, R>(
        decoders: &Vec<PluginId>,
        track: UniqueTrackIdentifier,
        acquire: A,
        release: R,
    ) -> (r: Result<PluginAudioSource, PluginAudioSourceError>) where
        A: Fn(PluginId) -> Option<PluginHandle>,
        R: Fn(PluginHandle),

        requires
            forall|id: PluginId| acquire.requires((id,)),
            forall|handle: PluginHandle| release.requires((handle,)),
        ensures
            match r {
                Ok(source) => exists|file: AudioFile, i: int|
                    {
                        &&& #[trigger] was_passed_on(acquire, release, decoders@, track, file, i)
                        &&& i < decoders@.len()
                        &&& was_taken(acquire, decoders@[i], file@, source)
                    },
                Err(PluginAudioSourceError::NoPluginForTrack(t)) => t == track && exists|
                    file: AudioFile,
                | #[trigger]
                    was_passed_on(acquire, release, decoders@, track, file, decoders@.len() as int),
                Err(PluginAudioSourceError::MissingFileProvider(id)) => id == track.plugin_id
                    && acquire.ensures((id,), None),
                Err(PluginAudioSourceError::PluginError(e)) => was_provided(
                    acquire,
                    release,
                    track,
                    Err(e),
                ),
                Err(_) => false,
            },
            (forall|handle: PluginHandle| !acquire.ensures((track.plugin_id,), Some(handle)))
                ==> r matches Err(PluginAudioSourceError::MissingFileProvider(_)),
    {
        let mut provider = match acquire(track.plugin_id) {
            Some(handle) => handle,
            None => {
                return Err(PluginAudioSourceError::MissingFileProvider(track.plugin_id));
            },
        };
        let ghost out = provider;
        let answer = provider.plugin.get_audio_file(&track.plugin_data);
        let ghost back = provider;
        let ghost answered = answer;
        release(provider);
        proof {
            assert(is_same_handle(out, back));
            assert(release.ensures((back,), ()));
            assert(is_file_answer(track.plugin_data@, answered));
            assert(was_provided(acquire, release, track, answered));
        }
        let file = file_or_error(answer)?;
        let mut i: usize = 0;
        while i < decoders.len()
            invariant
                was_passed_on(acquire, release, decoders@, track, file, i as int),
                forall|id: PluginId| acquire.requires((id,)),
                forall|handle: PluginHandle| release.requires((handle,)),
            decreases decoders@.len() - i,
        {
            match acquire(decoders[i]) {
                Some(handle) => {
                    let ghost offered = handle;
                    match PluginAudioSource::new(handle, file.clone()) {
                        Ok(source) => {
                            proof {
                                assert(is_offer(offered, file@, Ok(source)));
                                assert(was_taken(acquire, decoders@[i as int], file@, source));
                            }
                            return Ok(source);
                        },
                        Err(rejected) => {
                            let ghost turned = rejected;
                            release(rejected.plugin);
                            proof {
                                assert(is_offer(offered, file@, Err(turned)));
                                assert(release.ensures((turned.plugin,), ()));
                            }
                        },
                    }
                },
                None => {},
            }
            assert(was_turned_down(acquire, release, decoders@[i as int], file@));
            i += 1;
        }
        Err(PluginAudioSourceError::NoPluginForTrack(track))
    }
}

} // verus!
