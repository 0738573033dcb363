//! One loaded plugin instance and the typed calls the host makes into it.

use crate::ident::PluginTrackIdentifier;
use crate::media::{AudioBlock, AudioFile, PlaybackId};
use crate::messages::{
    audio_file_encodable, block_of, dec_audio_file, dec_init_decoding_result, dec_metadata,
    dec_opt_audio_block, dec_prepared_scan, dec_scan_result, decode_audio_file,
    decode_init_decoding_result, decode_metadata, decode_opt_audio_block, decode_prepared_scan,
    decode_scan_result, encode_init_decoding_args, encode_playback_id, encode_track_identifier,
    encode_unit, fills, InitDecodingArgs, InitDecodingResult, PluginMetadata, PreparedScan,
    ScanResult,
};
use crate::runtime::{call_function, callable_exports, function_exists, set_instance_id};
use crate::wire::{nil_at, MAX_LEN};
use vstd::prelude::*;

verus! {

/// Why a plugin could not be used.
#[derive(Debug)]
pub enum PluginError {
    /// The runtime could not set the plugin up.
    InitializationError(extism::Error),
    /// The plugin lacks a function that every plugin must have.
    MissingRequiredFunction(&'static str),
    /// The named function was called and the runtime reported an error.
    FunctionCallError(String, extism::Error),
    /// The argument of the named function is too long to be written.
    InvalidArgument(String),
    /// The named function answered with bytes that do not spell what it should answer.
    InvalidResponse(String),
}

/// What can go wrong with a call whose argument can always be written: the runtime reports
/// an error, or the answer is not what it should be; either way the error names the
/// function that was called.
pub open spec fn is_call_failure(e: PluginError, function: Seq<char>) -> bool {
    match e {
        PluginError::FunctionCallError(name, _) => name@ == function,
        PluginError::InvalidResponse(name) => name@ == function,
        _ => false,
    }
}

/// Why an instance with the given exports is not taken over: it lacks `get_metadata`, and
/// the error names that function; or it has it, and the call of it failed.
pub open spec fn is_takeover_failure(e: PluginError, exports: Set<Seq<char>>) -> bool {
    if exports.contains("get_metadata"@) {
        is_call_failure(e, "get_metadata"@)
    } else {
        e matches PluginError::MissingRequiredFunction(name) && name@ == "get_metadata"@
    }
}

/// Whether the metadata are what some answer to `get_metadata` spells, from its first byte
/// to its last.
pub open spec fn is_told(metadata: PluginMetadata) -> bool {
    exists|outcome: Result<Vec<u8>, extism::Error>| #[trigger]
        metadata_answer(outcome, Ok(metadata))
}

/// Whether the session is what some answer to `init_decoding` spells.
pub open spec fn is_session_told(session: InitDecodingResult) -> bool {
    exists|outcome: Result<Vec<u8>, extism::Error>| #[trigger]
        init_decoding_answer(outcome, Ok(session))
}

/// Whether the block, or the end of the stream, is what some answer to `decode_block`
/// spells.
pub open spec fn is_block_told(block: Option<AudioBlock>) -> bool {
    exists|outcome: Result<Vec<u8>, extism::Error>| #[trigger] block_answer(outcome, Ok(block))
}

/// Whether the answer is what comes of asking a provider for the bytes of a track: an
/// identifier too long to be written is an invalid argument; else the answer is what
/// is made of some outcome of the call of `get_audio_file`.
pub open spec fn is_file_answer(ident: Seq<u8>, answer: Result<AudioFile, PluginError>) -> bool {
    if ident.len() > MAX_LEN {
        answer matches Err(PluginError::InvalidArgument(_))
    } else {
        exists|outcome: Result<Vec<u8>, extism::Error>| #[trigger]
            audio_file_answer(outcome, answer)
    }
}

/// Whether the answer is what is made of some outcome of the call of `prepare_scan`.
pub open spec fn is_prepared_answer(answer: Result<PreparedScan, PluginError>) -> bool {
    exists|outcome: Result<Vec<u8>, extism::Error>| #[trigger]
        prepared_scan_answer(outcome, answer)
}

/// Whether the answer is what comes of asking a provider for the tags of a track: an
/// identifier too long to be written is an invalid argument; else the answer is what
/// is made of some outcome of the call of `scan`.
pub open spec fn is_scan_answer(ident: Seq<u8>, answer: Result<ScanResult, PluginError>) -> bool {
    if ident.len() > MAX_LEN {
        answer matches Err(PluginError::InvalidArgument(_))
    } else {
        exists|outcome: Result<Vec<u8>, extism::Error>| #[trigger] scan_answer(outcome, answer)
    }
}

/// What a plugin can do, as far as its exported functions tell.
#[derive(Debug, Clone, Copy, PartialEq, Eq, Structural)]
pub struct PluginCapabilities {
    pub provide_tracks: bool,
    pub decode: bool,
}

/// The capabilities that a set of exported function names gives.
pub open spec fn capabilities_of(exports: Set<Seq<char>>) -> PluginCapabilities {
    PluginCapabilities {
        provide_tracks: exports.contains("prepare_scan"@) && exports.contains("scan"@)
            && exports.contains("get_audio_file"@),
        decode: exports.contains("init_decoding"@) && exports.contains("decode_block"@)
            && exports.contains("finish_decoding"@),
    }
}

/// One loaded instance of a plugin. At most one call is in flight at any time, since
/// every call takes the instance by unique reference.
#[derive(Debug)]
pub struct PluginInstance(extism::Plugin);

impl PluginInstance {
    /// The names under which the instance can be called.
    pub closed spec fn exports(&self) -> Set<Seq<char>> {
        callable_exports(self.0)
    }

    /// Whether the instance can be called under the given name.
    pub fn has_fn(&self, function: &str) -> (r: bool)
        ensures
            r == self.exports().contains(function@),
    {
        function_exists(&self.0, function)
    }

    /// Takes over an instance that the runtime has set up: checks that it can say what it
    /// is, asks it, and writes its identifier into the instance.
    pub fn from_loaded(loaded: extism::Plugin) -> (r: Result<PluginInstance, PluginError>)
        ensures
            match r {
                Ok(plugin) => callable_exports(loaded).contains("get_metadata"@)
                    && plugin.exports() == callable_exports(loaded),
                Err(e) => is_takeover_failure(e, callable_exports(loaded)),
            },
    {
        let mut plugin = PluginInstance(loaded);
        if !plugin.has_fn("get_metadata") {
            return Err(PluginError::MissingRequiredFunction("get_metadata"));
        }
        let metadata = plugin.get_metadata()?;
        set_instance_id(&mut plugin.0, metadata.uuid);
        Ok(plugin)
    }

    /// Calls the named function on the given bytes.
    fn call(&mut self, function: &str, input: &[u8]) -> (r: Result<Vec<u8>, extism::Error>)
        ensures
            final(self).exports() == old(self).exports(),
    {
        call_function(&mut self.0, function, input)
    }

    /// Asks the plugin what it is.
    pub fn get_metadata(&mut self) -> (r: Result<PluginMetadata, PluginError>)
        ensures
            final(self).exports() == old(self).exports(),
            r matches Err(e) ==> is_call_failure(e, "get_metadata"@),
            exists|outcome: Result<Vec<u8>, extism::Error>| metadata_answer(outcome, r),
    {
        let input = encode_unit();
        let outcome = self.call("get_metadata", input.as_slice());
        let ghost heard = outcome;
        let r = read_metadata_answer(outcome);
        assert(metadata_answer(heard, r));
        r
    }

    /// Asks a provider for the tracks it can offer.
    pub fn prepare_scan(&mut self) -> (r: Result<PreparedScan, PluginError>)
        ensures
            final(self).exports() == old(self).exports(),
            r matches Err(e) ==> is_call_failure(e, "prepare_scan"@),
            exists|outcome: Result<Vec<u8>, extism::Error>| prepared_scan_answer(outcome, r),
    {
        let input = encode_unit();
        let outcome = self.call("prepare_scan", input.as_slice());
        let ghost heard = outcome;
        let r = read_prepared_scan_answer(outcome);
        assert(prepared_scan_answer(heard, r));
        r
    }

    /// Asks a provider for the tags of one of its tracks.
    pub fn scan(&mut self, ident: &PluginTrackIdentifier) -> (r: Result<ScanResult, PluginError>)
        ensures
            final(self).exports() == old(self).exports(),
            ident@.len() > MAX_LEN ==> r matches Err(PluginError::InvalidArgument(_)),
            !(ident@.len() > MAX_LEN) ==> (r matches Err(e) ==> is_call_failure(e, "scan"@)),
            ident@.len() <= MAX_LEN ==> (exists|outcome: Result<Vec<u8>, extism::Error>| scan_answer(outcome, r)),
    {
        let input = match encode_track_identifier(ident) {
            Some(bytes) => bytes,
            None => {
                return Err(PluginError::InvalidArgument("scan".to_string()));
            },
        };
        let outcome = self.call("scan", input.as_slice());
        let ghost heard = outcome;
        let r = read_scan_answer(outcome);
        assert(scan_answer(heard, r));
        r
    }

    /// Asks a provider for the bytes of one of its tracks.
    pub fn get_audio_file(&mut self, ident: &PluginTrackIdentifier) -> (r: Result<
        AudioFile,
        PluginError,
    >)
        ensures
            final(self).exports() == old(self).exports(),
            ident@.len() > MAX_LEN ==> r matches Err(PluginError::InvalidArgument(_)),
            !(ident@.len() > MAX_LEN) ==> (r matches Err(e) ==> is_call_failure(e, "get_audio_file"@)),
            ident@.len() <= MAX_LEN ==> (exists|outcome: Result<Vec<u8>, extism::Error>| audio_file_answer(outcome, r)),
    {
        let input = match encode_track_identifier(ident) {
            Some(bytes) => bytes,
            None => {
                return Err(PluginError::InvalidArgument("get_audio_file".to_string()));
            },
        };
        let outcome = self.call("get_audio_file", input.as_slice());
        let ghost heard = outcome;
        let r = read_audio_file_answer(outcome);
        assert(audio_file_answer(heard, r));
        r
    }

    /// Starts a decoding session on a file.
    pub fn init_decoding(&mut self, playback_id: PlaybackId, file: AudioFile, gapless: bool) -> (r:
        Result<InitDecodingResult, PluginError>)
        ensures
            final(self).exports() == old(self).exports(),
            !audio_file_encodable(file@) ==> r matches Err(PluginError::InvalidArgument(_)),
            !(!audio_file_encodable(file@)) ==> (r matches Err(e) ==> is_call_failure(e, "init_decoding"@)),
            audio_file_encodable(file@) ==> (exists|outcome: Result<Vec<u8>, extism::Error>| init_decoding_answer(outcome, r)),
    {
        let args = InitDecodingArgs { playback_id, file, gapless };
        let input = match encode_init_decoding_args(&args) {
            Some(bytes) => bytes,
            None => {
                return Err(PluginError::InvalidArgument("init_decoding".to_string()));
            },
        };
        let outcome = self.call("init_decoding", input.as_slice());
        let ghost heard = outcome;
        let r = read_init_decoding_answer(outcome);
        assert(init_decoding_answer(heard, r));
        r
    }

    /// Asks a decoder for the next block of a session; `None` is the end of the stream.
    pub fn decode_block(&mut self, playback_id: PlaybackId) -> (r: Result<
        Option<AudioBlock>,
        PluginError,
    >)
        ensures
            final(self).exports() == old(self).exports(),
            r matches Err(e) ==> is_call_failure(e, "decode_block"@),
            exists|outcome: Result<Vec<u8>, extism::Error>| block_answer(outcome, r),
    {
        let input = encode_playback_id(playback_id);
        let outcome = self.call("decode_block", input.as_slice());
        let ghost heard = outcome;
        let r = read_block_answer(outcome);
        assert(block_answer(heard, r));
        r
    }

    /// Ends a decoding session.
    pub fn finish_decoding(&mut self, playback_id: PlaybackId) -> (r: Result<(), PluginError>)
        ensures
            final(self).exports() == old(self).exports(),
            r matches Err(e) ==> is_call_failure(e, "finish_decoding"@),
            exists|outcome: Result<Vec<u8>, extism::Error>| finish_answer(outcome, r),
    {
        let input = encode_playback_id(playback_id);
        let outcome = self.call("finish_decoding", input.as_slice());
        let ghost heard = outcome;
        let r = read_finish_answer(outcome);
        assert(finish_answer(heard, r));
        r
    }
}

impl PluginCapabilities {
    /// Probes which functions the instance exports: a provider has all of `prepare_scan`,
    /// `scan` and `get_audio_file`; a decoder has all of `init_decoding`, `decode_block`
    /// and `finish_decoding`.
    pub fn from_plugin(plugin: &PluginInstance) -> (r: PluginCapabilities)
        ensures
            r == capabilities_of(plugin.exports()),
    {
        PluginCapabilities {
            provide_tracks: plugin.has_fn("prepare_scan") && plugin.has_fn("scan")
                && plugin.has_fn("get_audio_file"),
            decode: plugin.has_fn("init_decoding") && plugin.has_fn("decode_block")
                && plugin.has_fn("finish_decoding"),
        }
    }
}

/// Whether `r` is what the host makes of `outcome`, the end of a call of `get_metadata`: the
/// value that the bytes spell from their first to their last; an invalid response where
/// they spell none; a failed call, with its cause, where the runtime reported an error.
pub open spec fn metadata_answer(
    outcome: Result<Vec<u8>, extism::Error>,
    r: Result<PluginMetadata, PluginError>,
) -> bool {
    match (outcome, r) {
        (Ok(bytes), Ok(v)) => dec_metadata(bytes@, 0) == Some((v@, bytes@.len() as int)),
        (Ok(bytes), Err(PluginError::InvalidResponse(name))) => !fills(
            dec_metadata(bytes@, 0),
            bytes@,
        ) && name@ == "get_metadata"@,
        (Err(e), Err(PluginError::FunctionCallError(name, cause))) => cause == e && name@
            == "get_metadata"@,
        _ => false,
    }
}

/// What the answer to `get_metadata` means: the metadata that the bytes spell; an invalid
/// response where they spell none; the runtime's error as a failed call.
pub fn read_metadata_answer(outcome: Result<Vec<u8>, extism::Error>) -> (r: Result<
    PluginMetadata,
    PluginError,
>)
    ensures
        metadata_answer(outcome, r),
{
    match outcome {
        Ok(bytes) => match decode_metadata(bytes.as_slice()) {
            Some(v) => Ok(v),
            None => Err(PluginError::InvalidResponse("get_metadata".to_string())),
        },
        Err(e) => Err(PluginError::FunctionCallError("get_metadata".to_string(), e)),
    }
}

/// Whether `r` is what the host makes of `outcome`, the end of a call of `prepare_scan`: the
/// value that the bytes spell from their first to their last; an invalid response where
/// they spell none; a failed call, with its cause, where the runtime reported an error.
pub open spec fn prepared_scan_answer(
    outcome: Result<Vec<u8>, extism::Error>,
    r: Result<PreparedScan, PluginError>,
) -> bool {
    match (outcome, r) {
        (Ok(bytes), Ok(v)) => dec_prepared_scan(bytes@, 0) == Some(
            (v@, bytes@.len() as int),
        ),
        (Ok(bytes), Err(PluginError::InvalidResponse(name))) => !fills(
            dec_prepared_scan(bytes@, 0),
            bytes@,
        ) && name@ == "prepare_scan"@,
        (Err(e), Err(PluginError::FunctionCallError(name, cause))) => cause == e && name@
            == "prepare_scan"@,
        _ => false,
    }
}

/// What the answer to `prepare_scan` means.
pub fn read_prepared_scan_answer(outcome: Result<Vec<u8>, extism::Error>) -> (r: Result<
    PreparedScan,
    PluginError,
>)
    ensures
        prepared_scan_answer(outcome, r),
{
    match outcome {
        Ok(bytes) => match decode_prepared_scan(bytes.as_slice()) {
            Some(v) => Ok(v),
            None => Err(PluginError::InvalidResponse("prepare_scan".to_string())),
        },
        Err(e) => Err(PluginError::FunctionCallError("prepare_scan".to_string(), e)),
    }
}

/// Whether `r` is what the host makes of `outcome`, the end of a call of `scan`: the
/// value that the bytes spell from their first to their last; an invalid response where
/// they spell none; a failed call, with its cause, where the runtime reported an error.
pub open spec fn scan_answer(
    outcome: Result<Vec<u8>, extism::Error>,
    r: Result<ScanResult, PluginError>,
) -> bool {
    match (outcome, r) {
        (Ok(bytes), Ok(v)) => dec_scan_result(bytes@, 0) == Some(
            (v.tags@, bytes@.len() as int),
        ),
        (Ok(bytes), Err(PluginError::InvalidResponse(name))) => !fills(
            dec_scan_result(bytes@, 0),
            bytes@,
        ) && name@ == "scan"@,
        (Err(e), Err(PluginError::FunctionCallError(name, cause))) => cause == e && name@
            == "scan"@,
        _ => false,
    }
}

/// What the answer to `scan` means.
pub fn read_scan_answer(outcome: Result<Vec<u8>, extism::Error>) -> (r: Result<
    ScanResult,
    PluginError,
>)
    ensures
        scan_answer(outcome, r),
{
    match outcome {
        Ok(bytes) => match decode_scan_result(bytes.as_slice()) {
            Some(v) => Ok(v),
            None => Err(PluginError::InvalidResponse("scan".to_string())),
        },
        Err(e) => Err(PluginError::FunctionCallError("scan".to_string(), e)),
    }
}

/// Whether `r` is what the host makes of `outcome`, the end of a call of `get_audio_file`: the
/// value that the bytes spell from their first to their last; an invalid response where
/// they spell none; a failed call, with its cause, where the runtime reported an error.
pub open spec fn audio_file_answer(
    outcome: Result<Vec<u8>, extism::Error>,
    r: Result<AudioFile, PluginError>,
) -> bool {
    match (outcome, r) {
        (Ok(bytes), Ok(v)) => dec_audio_file(bytes@, 0) == Some((v@, bytes@.len() as int)),
        (Ok(bytes), Err(PluginError::InvalidResponse(name))) => !fills(
            dec_audio_file(bytes@, 0),
            bytes@,
        ) && name@ == "get_audio_file"@,
        (Err(e), Err(PluginError::FunctionCallError(name, cause))) => cause == e && name@
            == "get_audio_file"@,
        _ => false,
    }
}

/// What the answer to `get_audio_file` means.
pub fn read_audio_file_answer(outcome: Result<Vec<u8>, extism::Error>) -> (r: Result<
    AudioFile,
    PluginError,
>)
    ensures
        audio_file_answer(outcome, r),
{
    match outcome {
        Ok(bytes) => match decode_audio_file(bytes.as_slice()) {
            Some(v) => Ok(v),
            None => Err(PluginError::InvalidResponse("get_audio_file".to_string())),
        },
        Err(e) => Err(PluginError::FunctionCallError("get_audio_file".to_string(), e)),
    }
}

/// Whether `r` is what the host makes of `outcome`, the end of a call of `init_decoding`: the
/// value that the bytes spell from their first to their last; an invalid response where
/// they spell none; a failed call, with its cause, where the runtime reported an error.
pub open spec fn init_decoding_answer(
    outcome: Result<Vec<u8>, extism::Error>,
    r: Result<InitDecodingResult, PluginError>,
) -> bool {
    match (outcome, r) {
        (Ok(bytes), Ok(v)) => dec_init_decoding_result(bytes@, 0) == Some(
            (v, bytes@.len() as int),
        ),
        (Ok(bytes), Err(PluginError::InvalidResponse(name))) => !fills(
            dec_init_decoding_result(bytes@, 0),
            bytes@,
        ) && name@ == "init_decoding"@,
        (Err(e), Err(PluginError::FunctionCallError(name, cause))) => cause == e && name@
            == "init_decoding"@,
        _ => false,
    }
}

/// What the answer to `init_decoding` means.
pub fn read_init_decoding_answer(outcome: Result<Vec<u8>, extism::Error>) -> (r: Result<
    InitDecodingResult,
    PluginError,
>)
    ensures
        init_decoding_answer(outcome, r),
{
    match outcome {
        Ok(bytes) => match decode_init_decoding_result(bytes.as_slice()) {
            Some(v) => Ok(v),
            None => Err(PluginError::InvalidResponse("init_decoding".to_string())),
        },
        Err(e) => Err(PluginError::FunctionCallError("init_decoding".to_string(), e)),
    }
}

/// Whether `r` is what the host makes of `outcome`, the end of a call of `decode_block`: the
/// value that the bytes spell from their first to their last; an invalid response where
/// they spell none; a failed call, with its cause, where the runtime reported an error.
pub open spec fn block_answer(
    outcome: Result<Vec<u8>, extism::Error>,
    r: Result<Option<AudioBlock>, PluginError>,
) -> bool {
    match (outcome, r) {
        (Ok(bytes), Ok(v)) => dec_opt_audio_block(bytes@, 0) == Some(
            (block_of(v), bytes@.len() as int),
        ),
        (Ok(bytes), Err(PluginError::InvalidResponse(name))) => !fills(
            dec_opt_audio_block(bytes@, 0),
            bytes@,
        ) && name@ == "decode_block"@,
        (Err(e), Err(PluginError::FunctionCallError(name, cause))) => cause == e && name@
            == "decode_block"@,
        _ => false,
    }
}

/// What the answer to `decode_block` means.
pub fn read_block_answer(outcome: Result<Vec<u8>, extism::Error>) -> (r: Result<
    Option<AudioBlock>,
    PluginError,
>)
    ensures
        block_answer(outcome, r),
{
    match outcome {
        Ok(bytes) => match decode_opt_audio_block(bytes.as_slice()) {
            Some(v) => Ok(v),
            None => Err(PluginError::InvalidResponse("decode_block".to_string())),
        },
        Err(e) => Err(PluginError::FunctionCallError("decode_block".to_string(), e)),
    }
}

/// Whether `r` is what the host makes of `outcome`, the end of a call of `finish_decoding`:
/// success where the bytes are nil and nothing else; an invalid response where they are
/// anything else; a failed call, with its cause, where the runtime reported an error.
pub open spec fn finish_answer(
    outcome: Result<Vec<u8>, extism::Error>,
    r: Result<(), PluginError>,
) -> bool {
    match (outcome, r) {
        (Ok(bytes), Ok(_)) => bytes@.len() == 1 && nil_at(bytes@, 0),
        (Ok(bytes), Err(PluginError::InvalidResponse(name))) => !(bytes@.len() == 1 && nil_at(
            bytes@,
            0,
        )) && name@ == "finish_decoding"@,
        (Err(e), Err(PluginError::FunctionCallError(name, cause))) => cause == e && name@
            == "finish_decoding"@,
        _ => false,
    }
}

/// What the answer to `finish_decoding` means: nil, and nothing else, is success.
pub fn read_finish_answer(outcome: Result<Vec<u8>, extism::Error>) -> (r: Result<(), PluginError>)
    ensures
        finish_answer(outcome, r),
{
    match outcome {
        Ok(bytes) => if bytes.len() == 1 && bytes[0] == 0xc0 {
            Ok(())
        } else {
            Err(PluginError::InvalidResponse("finish_decoding".to_string()))
        },
        Err(e) => Err(PluginError::FunctionCallError("finish_decoding".to_string(), e)),
    }
}

} // verus!
