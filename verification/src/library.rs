//! The scan of the library: every provider is asked for its tracks, every track for its
//! tags, and what comes back is handed on to be taken into the catalog. The work on one
//! plugin or one track is independent of the work on any other, so it can be spread
//! over as many workers as there are.

use crate::ident::{PluginId, PluginTrackIdentifier, TrackKey, UniqueTrackIdentifier};
use crate::messages::{PreparedScan, ScanResult};
use crate::plugin::{is_call_failure, is_prepared_answer, is_scan_answer, PluginError};
use crate::wire::MAX_LEN;
use crate::pool::PluginHandle;
use crate::tags::TagValueView;
use vstd::prelude::*;

verus! {

/// The share of the progress that belongs to the preparation: ten percent. Progress is
/// counted in thousandths of a percent.
pub const PREPARE_SCAN_PROGRESS: u32 = 10_000;

/// The progress of a finished scan: a hundred percent.
pub const FULL_PROGRESS: u32 = 100_000;

/// How many scanned tracks may wait to be taken into the catalog before the workers
/// that scan have to wait.
pub const IMPORT_QUEUE_CAPACITY: usize = 128;

/// How many workers scan: all that the machine has but two, and one at least.
pub open spec fn worker_count(available: Option<usize>) -> nat {
    match available {
        Some(n) => if n > 2 {
            (n - 2) as nat
        } else {
            1
        },
        None => 1,
    }
}

/// How many workers scan, given how many the machine can run side by side, if that is
/// known.
pub fn scan_thread_count(available: Option<usize>) -> (r: usize)
    ensures
        r == worker_count(available),
        r >= 1,
{
    match available {
        Some(n) => if n > 2 {
            n - 2
        } else {
            1
        },
        None => 1,
    }
}

/// Where a scan stands.
#[derive(Debug, Clone, Copy, PartialEq, Eq, Structural)]
pub enum ScanStage {
    /// The providers are asked for their tracks.
    Preparing,
    /// The tracks are asked for their tags.
    Scanning,
    /// The scan is over.
    Done,
}

/// The progress of a scan as plain numbers.
pub struct ScanView {
    pub stage: ScanStage,
    pub plugin_count: nat,
    pub prepared: nat,
    pub tracks_count: nat,
    pub tracks_scanned: nat,
}

impl ScanView {
    /// The progress in thousandths of a percent. The preparation fills the first ten
    /// percent, in equal parts for each plugin; the tracks fill the other ninety, in equal
    /// parts for each track.
    pub open spec fn progress(self) -> nat {
        match self.stage {
            ScanStage::Preparing => if self.plugin_count == 0 || self.prepared
                >= self.plugin_count {
                if self.plugin_count == 0 {
                    0
                } else {
                    PREPARE_SCAN_PROGRESS as nat
                }
            } else {
                (PREPARE_SCAN_PROGRESS * self.prepared / self.plugin_count as int) as nat
            },
            ScanStage::Scanning => if self.tracks_count == 0 {
                PREPARE_SCAN_PROGRESS as nat
            } else if self.tracks_scanned >= self.tracks_count {
                FULL_PROGRESS as nat
            } else {
                (PREPARE_SCAN_PROGRESS + (FULL_PROGRESS - PREPARE_SCAN_PROGRESS)
                    * self.tracks_scanned / self.tracks_count as int) as nat
            },
            ScanStage::Done => FULL_PROGRESS as nat,
        }
    }
}

/// What a scan tells those who watch it.
#[derive(Debug, Clone, Copy, PartialEq, Eq, Structural)]
pub struct ProgressNotificationData {
    pub stage: ScanStage,
    /// Thousandths of a percent.
    pub progress: u32,
    pub tracks_scanned: usize,
    pub tracks_count: usize,
    pub is_done: bool,
}

/// Keeps count of how far a scan has come.
#[derive(Debug, Clone, Copy, PartialEq, Eq, Structural)]
pub struct ScanProgress {
    pub stage: ScanStage,
    pub plugin_count: usize,
    pub prepared: usize,
    pub tracks_count: usize,
    pub tracks_scanned: usize,
}

impl View for ScanProgress {
    type V = ScanView;

    open spec fn view(&self) -> ScanView {
        ScanView {
            stage: self.stage,
            plugin_count: self.plugin_count as nat,
            prepared: self.prepared as nat,
            tracks_count: self.tracks_count as nat,
            tracks_scanned: self.tracks_scanned as nat,
        }
    }
}

impl ScanProgress {
    /// A scan over `plugin_count` plugins that has just begun, as plain numbers.
    pub open spec fn new_view(plugin_count: usize) -> ScanView {
        ScanView {
            stage: ScanStage::Preparing,
            plugin_count: plugin_count as nat,
            prepared: 0,
            tracks_count: 0,
            tracks_scanned: 0,
        }
    }

    /// Whether the providers are still being asked for their tracks.
    pub fn is_preparing(&self) -> (r: bool)
        ensures
            r == (self.stage is Preparing),
    {
        match self.stage {
            ScanStage::Preparing => true,
            _ => false,
        }
    }

    /// A scan over `plugin_count` plugins that has just begun.
    pub fn new(plugin_count: usize) -> (r: ScanProgress)
        ensures
            r@ == ScanProgress::new_view(plugin_count),
    {
        ScanProgress {
            stage: ScanStage::Preparing,
            plugin_count,
            prepared: 0,
            tracks_count: 0,
            tracks_scanned: 0,
        }
    }

    /// One provider has answered, well or badly.
    pub fn plugin_prepared(&mut self)
        ensures
            final(self)@ == (ScanView {
                prepared: if old(self).prepared < usize::MAX {
                    (old(self).prepared + 1) as nat
                } else {
                    old(self).prepared as nat
                },
                ..old(self)@
            }),
    {
        if self.prepared < usize::MAX {
            self.prepared = self.prepared + 1;
        }
    }

    /// The preparation is over and `tracks_count` tracks are to be scanned.
    pub fn begin_scanning(&mut self, tracks_count: usize)
        ensures
            final(self)@ == (ScanView {
                stage: ScanStage::Scanning,
                tracks_count: tracks_count as nat,
                tracks_scanned: 0,
                ..old(self)@
            }),
            final(self)@.progress() == PREPARE_SCAN_PROGRESS,
    {
        self.stage = ScanStage::Scanning;
        self.tracks_count = tracks_count;
        self.tracks_scanned = 0;
    }

    /// One track was scanned, well or badly.
    pub fn track_scanned(&mut self)
        ensures
            final(self)@ == (ScanView {
                tracks_scanned: if old(self).tracks_scanned < usize::MAX {
                    (old(self).tracks_scanned + 1) as nat
                } else {
                    old(self).tracks_scanned as nat
                },
                ..old(self)@
            }),
    {
        if self.tracks_scanned < usize::MAX {
            self.tracks_scanned = self.tracks_scanned + 1;
        }
    }

    /// The scan is over.
    pub fn complete(&mut self)
        ensures
            final(self)@ == (ScanView { stage: ScanStage::Done, ..old(self)@ }),
            final(self)@.progress() == FULL_PROGRESS,
    {
        self.stage = ScanStage::Done;
    }

    /// The progress in thousandths of a percent.
    pub fn progress(&self) -> (r: u32)
        ensures
            r == self@.progress(),
            r <= FULL_PROGRESS,
    {
        match self.stage {
            ScanStage::Preparing => {
                if self.plugin_count == 0 {
                    0
                } else if self.prepared >= self.plugin_count {
                    PREPARE_SCAN_PROGRESS
                } else {
                    let part: u128 = PREPARE_SCAN_PROGRESS as u128 * self.prepared as u128
                        / self.plugin_count as u128;
                    assert(part <= PREPARE_SCAN_PROGRESS) by (nonlinear_arith)
                        requires
                            part == PREPARE_SCAN_PROGRESS as int * self.prepared as int
                                / self.plugin_count as int,
                            0 <= self.prepared < self.plugin_count,
                    ;
                    part as u32
                }
            },
            ScanStage::Scanning => {
                if self.tracks_count == 0 {
                    PREPARE_SCAN_PROGRESS
                } else if self.tracks_scanned >= self.tracks_count {
                    FULL_PROGRESS
                } else {
                    let span: u128 = (FULL_PROGRESS - PREPARE_SCAN_PROGRESS) as u128;
                    let part: u128 = span * self.tracks_scanned as u128
                        / self.tracks_count as u128;
                    assert(part <= span) by (nonlinear_arith)
                        requires
                            part == span as int * self.tracks_scanned as int
                                / self.tracks_count as int,
                            0 <= self.tracks_scanned < self.tracks_count,
                            span == 90_000,
                    ;
                    PREPARE_SCAN_PROGRESS + part as u32
                }
            },
            ScanStage::Done => FULL_PROGRESS,
        }
    }

    /// Whether the scan is over.
    pub fn is_done(&self) -> (r: bool)
        ensures
            r == (self.stage is Done),
    {
        match self.stage {
            ScanStage::Done => true,
            _ => false,
        }
    }

    /// What the watchers are told.
    pub fn notification(&self) -> (r: ProgressNotificationData)
        ensures
            r.stage == self.stage,
            r.progress == self@.progress(),
            r.progress <= FULL_PROGRESS,
            r.tracks_scanned == self.tracks_scanned,
            r.tracks_count == self.tracks_count,
            r.is_done == (self.stage is Done),
    {
        ProgressNotificationData {
            stage: self.stage,
            progress: self.progress(),
            tracks_scanned: self.tracks_scanned,
            tracks_count: self.tracks_count,
            is_done: self.is_done(),
        }
    }
}

/// The progress of a scan never runs backwards while tracks are scanned, and stays
/// between ten and a hundred percent.
pub proof fn lemma_progress_grows(scan: ScanView, more: nat)
    requires
        scan.stage is Scanning,
    ensures
        PREPARE_SCAN_PROGRESS <= scan.progress() <= FULL_PROGRESS,
        scan.progress() <= (ScanView {
            tracks_scanned: scan.tracks_scanned + more,
            ..scan
        }).progress(),
{
    let later = ScanView { tracks_scanned: scan.tracks_scanned + more, ..scan };
    let span = (FULL_PROGRESS - PREPARE_SCAN_PROGRESS) as int;
    if scan.tracks_count > 0 {
        let total = scan.tracks_count as int;
        if scan.tracks_scanned < scan.tracks_count {
            assert(0 <= span * scan.tracks_scanned / total <= span) by (nonlinear_arith)
                requires
                    0 <= scan.tracks_scanned < total,
                    span == 90_000,
            ;
            if later.tracks_scanned < later.tracks_count {
                assert(span * scan.tracks_scanned / total <= span * later.tracks_scanned / total)
                    by (nonlinear_arith)
                    requires
                        scan.tracks_scanned <= later.tracks_scanned,
                        total > 0,
                        span == 90_000,
                ;
            }
        }
    }
}

/// Why a plugin gave no tracks to scan.
#[derive(Debug)]
pub enum ScanSkip {
    /// The plugin provides no tracks.
    NotAProvider,
    /// The plugin was asked and failed.
    Failed(PluginError),
}

/// Asks a plugin for the tracks it offers. A plugin that is no provider is not asked. A
/// provider is asked: the tracks are those that its answer spells, and a failed call or
/// an answer that spells none is why it is skipped.
pub fn prepare_scan(plugin: &mut PluginHandle) -> (r: Result<PreparedScan, ScanSkip>)
    ensures
        final(plugin).pool == old(plugin).pool,
        final(plugin).capabilities == old(plugin).capabilities,
        final(plugin).plugin.exports() == old(plugin).plugin.exports(),
        match r {
            Ok(prepared) => old(plugin).capabilities.provide_tracks && is_prepared_answer(
                Ok(prepared),
            ),
            Err(ScanSkip::NotAProvider) => !old(plugin).capabilities.provide_tracks && *final(plugin)
                == *old(plugin),
            Err(ScanSkip::Failed(e)) => old(plugin).capabilities.provide_tracks
                && is_prepared_answer(Err(e)) && is_call_failure(e, "prepare_scan"@),
        },
{
    if !plugin.capabilities.provide_tracks {
        return Err(ScanSkip::NotAProvider);
    }
    match plugin.plugin.prepare_scan() {
        Ok(prepared) => Ok(prepared),
        Err(e) => Err(ScanSkip::Failed(e)),
    }
}

/// A scanned track on its way into the catalog.
#[derive(Debug, PartialEq, Eq)]
pub struct Import {
    pub identifier: UniqueTrackIdentifier,
    pub scan: ScanResult,
}

/// What an `Import` stands for.
pub struct ImportView {
    pub key: TrackKey,
    pub tags: Seq<TagValueView>,
}

impl View for Import {
    type V = ImportView;

    open spec fn view(&self) -> ImportView {
        ImportView { key: self.identifier@, tags: self.scan.tags@ }
    }
}

/// A track that could not be scanned, and why.
#[derive(Debug)]
pub struct FailedScan {
    pub track: PluginTrackIdentifier,
    pub error: PluginError,
}

/// What becomes of one answer of a provider to the request for a track's tags: an answer
/// becomes one import under the identifier of the track, a failure none.
pub fn import_of(
    plugin_id: PluginId,
    track: PluginTrackIdentifier,
    answer: Result<ScanResult, PluginError>,
) -> (r: Result<Import, FailedScan>)
    ensures
        match answer {
            Ok(scan) => (r matches Ok(import) && import.identifier.plugin_id == plugin_id
                && import.identifier.plugin_data == track && import.scan == scan),
            Err(e) => (r matches Err(failed) && failed.track == track && failed.error == e),
        },
{
    match answer {
        Ok(scan) => Ok(
            Import { identifier: UniqueTrackIdentifier { plugin_id, plugin_data: track }, scan },
        ),
        Err(error) => Err(FailedScan { track, error }),
    }
}

/// Asks a provider for the tags of one track and packs what it answers for the catalog:
/// the tags that the answer spells become an import under the identifier of the track; a
/// track whose identifier cannot be written, a failed call, or an answer that spells no
/// tags is why the track is left out.
pub fn scan_track(plugin: &mut PluginHandle, track: PluginTrackIdentifier) -> (r: Result<
    Import,
    FailedScan,
>)
    ensures
        final(plugin).pool == old(plugin).pool,
        final(plugin).capabilities == old(plugin).capabilities,
        final(plugin).plugin.exports() == old(plugin).plugin.exports(),
        match r {
            Ok(import) => import.identifier.plugin_id == old(plugin).pool
                && import.identifier.plugin_data == track && is_scan_answer(
                track@,
                Ok(import.scan),
            ),
            Err(failed) => failed.track == track && is_scan_answer(track@, Err(failed.error)),
        },
        track@.len() > MAX_LEN ==> r is Err,
{
    let answer = plugin.plugin.scan(&track);
    import_of(plugin.pool, track, answer)
}

/// Whether an answer to a scan is a success.
pub open spec fn is_success(answer: Option<Seq<TagValueView>>) -> nat {
    if answer is Some {
        1
    } else {
        0
    }
}

/// How many of the answers are successes.
pub open spec fn successes(answers: Seq<Option<Seq<TagValueView>>>) -> nat
    decreases answers.len(),
{
    if answers.len() == 0 {
        0
    } else {
        successes(answers.drop_last()) + is_success(answers.last())
    }
}

/// The imports that a run of scans gives rise to, in the order of the scans: one for
/// each success, under the identifier of the track that was scanned.
pub open spec fn imports_of(
    plugin_id: i64,
    tracks: Seq<Seq<u8>>,
    answers: Seq<Option<Seq<TagValueView>>>,
) -> Seq<ImportView>
    recommends
        tracks.len() == answers.len(),
    decreases answers.len(),
{
    if answers.len() == 0 {
        Seq::empty()
    } else {
        let before = imports_of(plugin_id, tracks.drop_last(), answers.drop_last());
        match answers.last() {
            Some(tags) => before.push(
                ImportView { key: TrackKey { plugin_id, plugin_data: tracks.last() }, tags },
            ),
            None => before,
        }
    }
}

/// A scan hands on exactly as many tracks as were scanned with success: none is lost and
/// none is handed on twice. Where no scan fails, every track is handed on.
pub proof fn lemma_imports_match_successes(
    plugin_id: i64,
    tracks: Seq<Seq<u8>>,
    answers: Seq<Option<Seq<TagValueView>>>,
)
    requires
        tracks.len() == answers.len(),
    ensures
        imports_of(plugin_id, tracks, answers).len() == successes(answers),
        successes(answers) <= answers.len(),
        (forall|i: int| 0 <= i < answers.len() ==> answers[i] is Some) ==> imports_of(
            plugin_id,
            tracks,
            answers,
        ).len() == tracks.len(),
    decreases answers.len(),
{
    if answers.len() > 0 {
        lemma_imports_match_successes(plugin_id, tracks.drop_last(), answers.drop_last());
        if forall|i: int| 0 <= i < answers.len() ==> answers[i] is Some {
            assert forall|i: int| 0 <= i < answers.drop_last().len() implies answers.drop_last()[i] is Some by {
                assert(answers.drop_last()[i] == answers[i]);
            }
            assert(answers.last() == answers[answers.len() - 1]);
        }
    }
}

/// Every import of a scan stems from a successful scan of its track, and the imports keep
/// the order of the scans.
pub proof fn lemma_imports_stem_from_scans(
    plugin_id: i64,
    tracks: Seq<Seq<u8>>,
    answers: Seq<Option<Seq<TagValueView>>>,
    k: int,
)
    requires
        tracks.len() == answers.len(),
        0 <= k < imports_of(plugin_id, tracks, answers).len(),
    ensures
        exists|i: int|
            0 <= i < answers.len() && answers[i] == Some(
                imports_of(plugin_id, tracks, answers)[k].tags,
            ) && imports_of(plugin_id, tracks, answers)[k].key == (TrackKey {
                plugin_id,
                plugin_data: tracks[i],
            }) && successes(answers.take(i)) == k,
    decreases answers.len(),
{
    let all = imports_of(plugin_id, tracks, answers);
    let before = imports_of(plugin_id, tracks.drop_last(), answers.drop_last());
    lemma_imports_match_successes(plugin_id, tracks.drop_last(), answers.drop_last());
    let last = answers.len() - 1;
    if answers.last() is Some && k == before.len() {
        assert(answers.take(last) =~= answers.drop_last());
        assert(answers[last] == Some(all[k].tags));
    } else {
        lemma_imports_stem_from_scans(plugin_id, tracks.drop_last(), answers.drop_last(), k);
        let i = choose|i: int|
            0 <= i < answers.drop_last().len() && answers.drop_last()[i] == Some(before[k].tags)
                && before[k].key == (TrackKey { plugin_id, plugin_data: tracks.drop_last()[i] })
                && successes(answers.drop_last().take(i)) == k;
        assert(answers.drop_last().take(i) =~= answers.take(i));
        assert(answers[i] == answers.drop_last()[i]);
        assert(tracks[i] == tracks.drop_last()[i]);
    }
}


/// Whether files of the given extension are audio files that a provider of files offers.
pub open spec fn is_audio_extension(ext: Seq<char>) -> bool {
    ext == "aac"@ || ext == "ape"@ || ext == "aiff"@ || ext == "flac"@ || ext == "mp3"@ || ext
        == "mp4"@ || ext == "m4a"@ || ext == "mpc"@ || ext == "ogg"@ || ext == "opus"@ || ext
        == "wav"@ || ext == "wma"@ || ext == "wvc"@ || ext == "wv"@
}

/// Whether a file is offered for the scan: it is one if it has the extension of an audio
/// file, in small letters.
pub fn is_supported_extension(ext: Option<&str>) -> (r: bool)
    ensures
        r == match ext {
            Some(e) => is_audio_extension(e@),
            None => false,
        },
{
    match ext {
        Some(e) => crate::text::str_equal(e, "aac") || crate::text::str_equal(e, "ape")
            || crate::text::str_equal(e, "aiff") || crate::text::str_equal(e, "flac")
            || crate::text::str_equal(e, "mp3") || crate::text::str_equal(e, "mp4")
            || crate::text::str_equal(e, "m4a") || crate::text::str_equal(e, "mpc")
            || crate::text::str_equal(e, "ogg") || crate::text::str_equal(e, "opus")
            || crate::text::str_equal(e, "wav") || crate::text::str_equal(e, "wma")
            || crate::text::str_equal(e, "wvc") || crate::text::str_equal(e, "wv"),
        None => false,
    }
}


/// One piece of work of a scan.
#[derive(Debug, PartialEq, Eq)]
pub enum ScanJob {
    /// Ask the provider for the tracks it offers.
    Prepare(PluginId),
    /// Ask the provider for the tags of one of its tracks.
    Scan(PluginId, PluginTrackIdentifier),
}

/// One track that waits to be scanned.
#[derive(Debug, PartialEq, Eq)]
pub struct PendingTrack {
    pub plugin_id: PluginId,
    pub track: PluginTrackIdentifier,
}

/// The scan of the library as a whole: which work is to be done, which is under way, and
/// what has come of it. Workers take one job after the other and tell what came of each;
/// the jobs of one stage can be done in any order and side by side.
#[derive(Debug)]
pub struct ScanPipeline {
    pub providers: Vec<PluginId>,
    /// How many providers were handed out to be asked for their tracks.
    pub asked: usize,
    /// How many providers were handed out and have not answered yet.
    pub preparing: usize,
    pub tracks: Vec<PendingTrack>,
    /// How many tracks were handed out to be scanned.
    pub handed_out: usize,
    /// How many tracks were handed out and are not scanned yet.
    pub scanning: usize,
    /// How many tracks were scanned with success and handed on to the catalog.
    pub imported: usize,
    /// How many tracks could not be scanned.
    pub failed: usize,
    pub progress: ScanProgress,
}

impl ScanPipeline {
    /// The books of the scan are in order: no more work is under way or done than was
    /// handed out, every scanned track was either handed on or has failed, and the
    /// progress tells of exactly the tracks that were scanned.
    pub open spec fn wf(&self) -> bool {
        &&& self.asked <= self.providers@.len()
        &&& self.preparing <= self.asked
        &&& self.handed_out <= self.tracks@.len()
        &&& self.scanning <= self.handed_out
        &&& self.imported + self.failed + self.scanning == self.handed_out
        &&& match self.progress.stage {
            ScanStage::Preparing => self.handed_out == 0 && self.progress.prepared == self.asked
                - self.preparing,
            ScanStage::Scanning | ScanStage::Done => {
                &&& self.asked == self.providers@.len()
                &&& self.preparing == 0
                &&& self.progress.tracks_count == self.tracks@.len()
                &&& self.progress.tracks_scanned == self.imported + self.failed
            },
        }
    }

    /// Whether all work was handed out and done.
    pub open spec fn all_done(&self) -> bool {
        &&& self.asked == self.providers@.len()
        &&& self.preparing == 0
        &&& self.handed_out == self.tracks@.len()
        &&& self.scanning == 0
        &&& !(self.progress.stage is Preparing)
    }

    /// A scan that has just begun: the given providers are to be asked, out of
    /// `plugin_count` plugins in all.
    pub fn new(providers: Vec<PluginId>, plugin_count: usize) -> (r: ScanPipeline)
        ensures
            r.wf(),
            r.providers == providers,
            r.tracks@.len() == 0,
            r.asked == 0,
            r.imported == 0,
            r.failed == 0,
            r.progress@ == ScanProgress::new_view(plugin_count),
    {
        ScanPipeline {
            providers,
            asked: 0,
            preparing: 0,
            tracks: Vec::new(),
            handed_out: 0,
            scanning: 0,
            imported: 0,
            failed: 0,
            progress: ScanProgress::new(plugin_count),
        }
    }

    /// Hands out the next job, if there is one to hand out now. First every provider is
    /// to be asked for its tracks, each once and in their order. Only when all of them
    /// have answered the tracks are to be scanned, each once and in the order in which
    /// they were offered. `None` says that there is nothing to hand out at the moment:
    /// the scan waits for answers, or is over.
    pub fn next_job(&mut self) -> (r: Option<ScanJob>)
        requires
            old(self).wf(),
        ensures
            final(self).wf(),
            final(self).providers == old(self).providers,
            final(self).tracks@ == old(self).tracks@,
            final(self).imported == old(self).imported,
            final(self).failed == old(self).failed,
            if old(self).asked < old(self).providers@.len() {
                &&& r == Some(ScanJob::Prepare(old(self).providers@[old(self).asked as int]))
                &&& final(self).asked == old(self).asked + 1
                &&& final(self).preparing == old(self).preparing + 1
                &&& final(self).handed_out == old(self).handed_out
                &&& final(self).scanning == old(self).scanning
                &&& final(self).progress == old(self).progress
            } else if old(self).preparing > 0 || old(self).handed_out >= old(self).tracks@.len() {
                &&& r is None
                &&& final(self).asked == old(self).asked
                &&& final(self).preparing == old(self).preparing
                &&& final(self).handed_out == old(self).handed_out
                &&& final(self).scanning == old(self).scanning
                &&& old(self).preparing > 0 ==> final(self).progress == old(self).progress
                &&& !(old(self).progress.stage is Preparing) ==> final(self).progress == old(self).progress
            } else {
                &&& r matches Some(ScanJob::Scan(id, track))
                &&& id == old(self).tracks@[old(self).handed_out as int].plugin_id
                &&& track@ == old(self).tracks@[old(self).handed_out as int].track@
                &&& final(self).asked == old(self).asked
                &&& final(self).preparing == old(self).preparing
                &&& final(self).handed_out == old(self).handed_out + 1
                &&& final(self).scanning == old(self).scanning + 1
            },
            !(final(self).progress.stage is Preparing) || final(self).asked < final(self).providers@.len() || final(self).preparing > 0,
    {
        if self.asked < self.providers.len() {
            let id = self.providers[self.asked];
            self.asked = self.asked + 1;
            self.preparing = self.preparing + 1;
            return Some(ScanJob::Prepare(id));
        }
        if self.preparing > 0 {
            return None;
        }
        if self.progress.is_preparing() {
            self.progress.begin_scanning(self.tracks.len());
        }
        if self.handed_out < self.tracks.len() {
            let job = ScanJob::Scan(
                self.tracks[self.handed_out].plugin_id,
                self.tracks[self.handed_out].track.clone(),
            );
            self.handed_out = self.handed_out + 1;
            self.scanning = self.scanning + 1;
            Some(job)
        } else {
            None
        }
    }

    /// Takes in what a provider answered to the request for its tracks. The tracks it
    /// offers join those to be scanned; a provider that failed, or is none, offers
    /// nothing and is passed over. Either way the preparation has come one provider
    /// further. An answer that nobody waits for changes nothing.
    pub fn prepared(&mut self, id: PluginId, outcome: Result<PreparedScan, ScanSkip>) -> (taken:
        bool)
        requires
            old(self).wf(),
        ensures
            final(self).wf(),
            final(self).providers == old(self).providers,
            final(self).asked == old(self).asked,
            final(self).handed_out == old(self).handed_out,
            final(self).scanning == old(self).scanning,
            final(self).imported == old(self).imported,
            final(self).failed == old(self).failed,
            taken == (old(self).preparing > 0),
            !taken ==> final(self).tracks@ == old(self).tracks@ && final(self).preparing == old(self).preparing && final(self).progress == old(self).progress,
            taken ==> {
                &&& final(self).preparing == old(self).preparing - 1
                &&& final(self).progress.prepared == old(self).progress.prepared + 1
                &&& final(self).progress.stage == old(self).progress.stage
                &&& match outcome {
                    Ok(scan) => {
                        &&& final(self).tracks@.len() == old(self).tracks@.len()
                            + scan.tracks@.len()
                        &&& forall|i: int|
                            0 <= i < old(self).tracks@.len() ==> final(self).tracks@[i] == old(self).tracks@[i]
                        &&& forall|i: int|
                            0 <= i < scan.tracks@.len() ==> (#[trigger] final(self).tracks@[old(self).tracks@.len() + i]).plugin_id == id && final(self).tracks@[old(self).tracks@.len() + i].track@ == scan.tracks@[i]@
                    },
                    Err(_) => final(self).tracks@ == old(self).tracks@,
                }
            },
    {
        if self.preparing == 0 {
            return false;
        }
        self.preparing = self.preparing - 1;
        self.progress.plugin_prepared();
        match outcome {
            Ok(scan) => {
                let ghost before = self.tracks@;
                let mut i: usize = 0;
                while i < scan.tracks.len()
                    invariant
                        i <= scan.tracks@.len(),
                        self.tracks@.len() == before.len() + i,
                        forall|k: int| 0 <= k < before.len() ==> self.tracks@[k] == before[k],
                        forall|k: int|
                            0 <= k < i ==> (#[trigger] self.tracks@[before.len() + k]).plugin_id
                                == id && self.tracks@[before.len() + k].track@
                                == scan.tracks@[k]@,
                        self.providers == old(self).providers,
                        self.asked == old(self).asked,
                        self.preparing == old(self).preparing - 1,
                        self.handed_out == old(self).handed_out,
                        self.scanning == old(self).scanning,
                        self.imported == old(self).imported,
                        self.failed == old(self).failed,
                        self.progress.prepared == old(self).progress.prepared + 1,
                        self.progress.stage == old(self).progress.stage,
                        self.progress.tracks_count == old(self).progress.tracks_count,
                        self.progress.tracks_scanned == old(self).progress.tracks_scanned,
                        self.progress.plugin_count == old(self).progress.plugin_count,
                    decreases scan.tracks@.len() - i,
                {
                    self.tracks.push(
                        PendingTrack { plugin_id: id, track: scan.tracks[i].clone() },
                    );
                    i = i + 1;
                }
            },
            Err(_) => {},
        }
        true
    }

    /// Takes in what came of the scan of one track. A scanned track is counted and comes
    /// back to be handed on to the catalog; a failed scan is counted and gives nothing.
    /// Either way the scan has come one track further. A result that nobody waits for
    /// is not counted, and gives nothing.
    pub fn scanned(&mut self, outcome: Result<Import, FailedScan>) -> (r: Option<Import>)
        requires
            old(self).wf(),
        ensures
            final(self).wf(),
            final(self).providers == old(self).providers,
            final(self).tracks == old(self).tracks,
            final(self).asked == old(self).asked,
            final(self).preparing == old(self).preparing,
            final(self).handed_out == old(self).handed_out,
            if old(self).scanning == 0 {
                r is None && final(self).imported == old(self).imported && final(self).failed
                    == old(self).failed && final(self).scanning == 0 && final(self).progress
                    == old(self).progress
            } else {
                &&& final(self).scanning == old(self).scanning - 1
                &&& final(self).progress.tracks_scanned == old(self).progress.tracks_scanned + 1
                &&& final(self).progress.stage == old(self).progress.stage
                &&& match outcome {
                    Ok(import) => r == Some(import) && final(self).imported == old(self).imported
                        + 1 && final(self).failed == old(self).failed,
                    Err(_) => r is None && final(self).imported == old(self).imported && final(self).failed == old(self).failed + 1,
                }
            },
    {
        if self.scanning == 0 {
            return None;
        }
        self.scanning = self.scanning - 1;
        self.progress.track_scanned();
        match outcome {
            Ok(import) => {
                self.imported = self.imported + 1;
                Some(import)
            },
            Err(_) => {
                self.failed = self.failed + 1;
                None
            },
        }
    }

    /// Whether all work was handed out and done.
    pub fn is_complete(&self) -> (r: bool)
        requires
            self.wf(),
        ensures
            r == self.all_done(),
    {
        self.asked == self.providers.len() && self.preparing == 0 && self.handed_out
            == self.tracks.len() && self.scanning == 0 && !self.progress.is_preparing()
    }

    /// Closes the books of a scan whose work is done: the progress is full and the scan
    /// is over. A scan with work left stays as it is.
    pub fn finish(&mut self) -> (done: bool)
        requires
            old(self).wf(),
        ensures
            final(self).wf(),
            done == old(self).all_done(),
            done ==> final(self).progress.stage is Done && final(self).progress@.progress()
                == FULL_PROGRESS && final(self).imported + final(self).failed == final(self).tracks@.len(),
            !done ==> *final(self) == *old(self),
            final(self).imported == old(self).imported,
            final(self).failed == old(self).failed,
            final(self).tracks == old(self).tracks,
    {
        if !self.is_complete() {
            return false;
        }
        self.progress.complete();
        true
    }

    /// What the watchers are told: the stage of the scan, how far it has come, and how
    /// many of the tracks that the providers offered were scanned.
    pub fn notification(&self) -> (r: ProgressNotificationData)
        ensures
            r.stage == self.progress.stage,
            r.progress == self.progress@.progress(),
            r.progress <= FULL_PROGRESS,
            r.tracks_scanned == self.progress.tracks_scanned,
            r.tracks_count == self.progress.tracks_count,
            r.is_done == (self.progress.stage is Done),
    {
        self.progress.notification()
    }
}


/// When a scan is over, every track that a provider offered was scanned exactly once, and
/// was either handed on to the catalog or has failed: nothing was lost, and where nothing
/// failed, as many tracks were handed on as were offered.
pub proof fn lemma_finished_scan_accounts_for_every_track(scan: ScanPipeline)
    requires
        scan.wf(),
        scan.all_done(),
    ensures
        scan.imported + scan.failed == scan.tracks@.len(),
        scan.progress.tracks_scanned == scan.tracks@.len(),
        scan.failed == 0 ==> scan.imported == scan.tracks@.len(),
{
}

} // verus!
