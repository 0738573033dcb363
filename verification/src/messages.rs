//! What host and plugins say to each other, and how each message stands on the wire: a map
//! with one entry for each field, under the field's name, in the order of declaration.

use crate::ident::PluginTrackIdentifier;
use crate::media::{AudioBlock, AudioBlockView, AudioFile, AudioFileView, PlaybackId, TimeSpan};
use crate::tags::{TagValueView, Tags};
use crate::wire::{
    dec_bin, dec_bool, dec_exact, dec_f32, dec_id, dec_items, dec_key, dec_len, dec_list, dec_str,
    dec_uint, enc_bin, enc_bool, enc_id, enc_len, enc_str, expect_key, expect_table, is_nil,
    lemma_items_fail_on, nil_at, put_bin, put_bool, put_id, put_len, put_nil, put_str, read_bin,
    read_bool, read_f32, read_id, read_len, read_str, read_uint, Family, MAX_LEN, NIL,
};
use crate::wire_tags::{dec_tags, lemma_utf8_len_bound, read_tags};
use vstd::prelude::*;
use vstd::utf8::*;

verus! {

/// A directory of the host that a plugin asks to see under a path of its own.
#[derive(Debug, PartialEq, Eq)]
pub struct FsMount {
    pub internal_path: String,
    pub description: String,
}

/// What an `FsMount` stands for.
pub struct FsMountView {
    pub internal_path: Seq<char>,
    pub description: Seq<char>,
}

impl View for FsMount {
    type V = FsMountView;

    open spec fn view(&self) -> FsMountView {
        FsMountView { internal_path: self.internal_path@, description: self.description@ }
    }
}

/// What a plugin says of itself.
#[derive(Debug, PartialEq, Eq)]
pub struct PluginMetadata {
    pub name: String,
    /// The plugin's stable 128-bit identifier.
    pub uuid: u128,
    pub description: Option<String>,
    pub author: Option<String>,
    pub fs_mounts: Vec<FsMount>,
    /// When set, no two instances of the plugin may run side by side.
    pub decode_serialization_required: bool,
}

/// What a `PluginMetadata` stands for.
pub struct PluginMetadataView {
    pub name: Seq<char>,
    pub uuid: u128,
    pub description: Option<Seq<char>>,
    pub author: Option<Seq<char>>,
    pub fs_mounts: Seq<FsMountView>,
    pub decode_serialization_required: bool,
}

/// The views of a sequence of mounts.
pub open spec fn mounts_of(s: Seq<FsMount>) -> Seq<FsMountView> {
    s.map_values(|m: FsMount| m@)
}

/// The views of a sequence of track identifiers.
pub open spec fn tracks_of(s: Seq<PluginTrackIdentifier>) -> Seq<Seq<u8>> {
    s.map_values(|t: PluginTrackIdentifier| t@)
}

/// Optional text as its characters.
pub open spec fn chars_of(v: Option<String>) -> Option<Seq<char>> {
    match v {
        Some(s) => Some(s@),
        None => None,
    }
}

impl View for PluginMetadata {
    type V = PluginMetadataView;

    open spec fn view(&self) -> PluginMetadataView {
        PluginMetadataView {
            name: self.name@,
            uuid: self.uuid,
            description: chars_of(self.description),
            author: chars_of(self.author),
            fs_mounts: mounts_of(self.fs_mounts@),
            decode_serialization_required: self.decode_serialization_required,
        }
    }
}

/// The tracks a provider can offer, each by the provider's own identifier.
#[derive(Debug, PartialEq, Eq)]
pub struct PreparedScan {
    pub tracks: Vec<PluginTrackIdentifier>,
}

impl View for PreparedScan {
    type V = Seq<Seq<u8>>;

    open spec fn view(&self) -> Seq<Seq<u8>> {
        tracks_of(self.tracks@)
    }
}

/// What a provider found out about one track.
#[derive(Debug, PartialEq, Eq)]
pub struct ScanResult {
    pub tags: Tags,
}

/// What a decoder is given to start a session.
#[derive(Debug, PartialEq, Eq)]
pub struct InitDecodingArgs {
    pub playback_id: PlaybackId,
    pub file: AudioFile,
    pub gapless: bool,
}

/// What a decoder says when a session has started.
#[derive(Debug, Clone, Copy, PartialEq, Eq, Structural)]
pub struct InitDecodingResult {
    pub duration: Option<TimeSpan>,
}

/// Optional text on the wire: nil where there is none.
pub open spec fn enc_opt_str(v: Option<Seq<char>>) -> Seq<u8> {
    match v {
        Some(s) => enc_str(s),
        None => seq![NIL],
    }
}

/// The optional text at `pos`, and where it ends.
pub open spec fn dec_opt_str(b: Seq<u8>, pos: int) -> Option<(Option<Seq<char>>, int)> {
    if nil_at(b, pos) {
        Some((None, pos + 1))
    } else {
        match dec_str(b, pos) {
            Some((s, p)) => Some((Some(s), p)),
            None => None,
        }
    }
}

/// An audio file on the wire.
pub open spec fn enc_audio_file(f: AudioFileView) -> Seq<u8> {
    enc_len(Family::Table, 2) + enc_str("data"@) + enc_bin(f.data) + enc_str("format_hint"@)
        + enc_opt_str(f.format_hint)
}

/// The audio file at `pos`, and where it ends.
pub open spec fn dec_audio_file(b: Seq<u8>, pos: int) -> Option<(AudioFileView, int)> {
    match dec_exact(b, pos, enc_len(Family::Table, 2)) {
        Some(at0) => match dec_key(b, at0, "data"@) {
            Some(at1) => match dec_bin(b, at1) {
                Some((data, at2)) => match dec_key(b, at2, "format_hint"@) {
                    Some(at3) => match dec_opt_str(b, at3) {
                        Some((format_hint, at4)) => Some((AudioFileView { data, format_hint }, at4)),
                        None => None,
                    },
                    None => None,
                },
                None => None,
            },
            None => None,
        },
        None => None,
    }
}

/// The arguments that start a decoding session, on the wire.
pub open spec fn enc_init_decoding_args(id: u128, file: AudioFileView, gapless: bool) -> Seq<u8> {
    enc_len(Family::Table, 3) + enc_str("playback_id"@) + enc_id(id as int) + enc_str("file"@)
        + enc_audio_file(file) + enc_str("gapless"@) + enc_bool(gapless)
}

/// The mount at `pos`, and where it ends.
pub open spec fn dec_fs_mount(b: Seq<u8>, pos: int) -> Option<(FsMountView, int)> {
    match dec_exact(b, pos, enc_len(Family::Table, 2)) {
        Some(at0) => match dec_key(b, at0, "internal_path"@) {
            Some(at1) => match dec_str(b, at1) {
                Some((internal_path, at2)) => match dec_key(b, at2, "description"@) {
                    Some(at3) => match dec_str(b, at3) {
                        Some((description, at4)) => Some(
                            (FsMountView { internal_path, description }, at4),
                        ),
                        None => None,
                    },
                    None => None,
                },
                None => None,
            },
            None => None,
        },
        None => None,
    }
}

/// Reads one mount of a list.
pub open spec fn fs_mount_item() -> spec_fn(Seq<u8>, int) -> Option<(FsMountView, int)> {
    |b: Seq<u8>, p: int| dec_fs_mount(b, p)
}

/// Reads one track identifier of a list.
pub open spec fn track_item() -> spec_fn(Seq<u8>, int) -> Option<(Seq<u8>, int)> {
    |b: Seq<u8>, p: int| dec_bin(b, p)
}

/// Reads one sample of a list.
pub open spec fn sample_item() -> spec_fn(Seq<u8>, int) -> Option<(u32, int)> {
    |b: Seq<u8>, p: int| dec_sample(b, p)
}

/// The metadata at `pos`, and where they end.
pub open spec fn dec_metadata(b: Seq<u8>, pos: int) -> Option<(PluginMetadataView, int)> {
    match dec_exact(b, pos, enc_len(Family::Table, 6)) {
        Some(at0) => match dec_key(b, at0, "name"@) {
            Some(at1) => match dec_str(b, at1) {
                Some((name, at2)) => match dec_key(b, at2, "uuid"@) {
                    Some(at3) => match dec_id(b, at3) {
                        Some((uuid, at4)) => match dec_key(b, at4, "description"@) {
                            Some(at5) => match dec_opt_str(b, at5) {
                                Some((description, at6)) => dec_metadata_tail(
                                    b,
                                    at6,
                                    name,
                                    uuid as u128,
                                    description,
                                ),
                                None => None,
                            },
                            None => None,
                        },
                        None => None,
                    },
                    None => None,
                },
                None => None,
            },
            None => None,
        },
        None => None,
    }
}

/// The last three entries of the metadata at `pos`, joined to the first three.
pub open spec fn dec_metadata_tail(
    b: Seq<u8>,
    pos: int,
    name: Seq<char>,
    uuid: u128,
    description: Option<Seq<char>>,
) -> Option<(PluginMetadataView, int)> {
    match dec_key(b, pos, "author"@) {
        Some(at1) => match dec_opt_str(b, at1) {
            Some((author, at2)) => match dec_key(b, at2, "fs_mounts"@) {
                Some(at3) => match dec_list(fs_mount_item(), b, at3) {
                    Some((fs_mounts, at4)) => match dec_key(
                        b,
                        at4,
                        "decode_serialization_required"@,
                    ) {
                        Some(at5) => match dec_bool(b, at5) {
                            Some((flag, at6)) => Some(
                                (
                                    PluginMetadataView {
                                        name,
                                        uuid,
                                        description,
                                        author,
                                        fs_mounts,
                                        decode_serialization_required: flag,
                                    },
                                    at6,
                                ),
                            ),
                            None => None,
                        },
                        None => None,
                    },
                    None => None,
                },
                None => None,
            },
            None => None,
        },
        None => None,
    }
}

/// The prepared scan at `pos`, and where it ends.
pub open spec fn dec_prepared_scan(b: Seq<u8>, pos: int) -> Option<(Seq<Seq<u8>>, int)> {
    match dec_exact(b, pos, enc_len(Family::Table, 1)) {
        Some(at0) => match dec_key(b, at0, "tracks"@) {
            Some(at1) => dec_list(track_item(), b, at1),
            None => None,
        },
        None => None,
    }
}

/// The scan result at `pos`, and where it ends.
pub open spec fn dec_scan_result(b: Seq<u8>, pos: int) -> Option<(Seq<TagValueView>, int)> {
    match dec_exact(b, pos, enc_len(Family::Table, 1)) {
        Some(at0) => match dec_key(b, at0, "tags"@) {
            Some(at1) => dec_tags(b, at1),
            None => None,
        },
        None => None,
    }
}

/// The length of time at `pos`, and where it ends: whole seconds that fit 64 bits, and
/// nanoseconds that fit 32.
pub open spec fn dec_time_span(b: Seq<u8>, pos: int) -> Option<(TimeSpan, int)> {
    match dec_exact(b, pos, enc_len(Family::Table, 2)) {
        Some(at0) => match dec_key(b, at0, "secs"@) {
            Some(at1) => match dec_uint(b, at1) {
                Some((secs, at2)) => match dec_key(b, at2, "nanos"@) {
                    Some(at3) => match dec_uint(b, at3) {
                        Some((nanos, at4)) => if nanos <= u32::MAX {
                            Some((TimeSpan { secs: secs as u64, nanos: nanos as u32 }, at4))
                        } else {
                            None
                        },
                        None => None,
                    },
                    None => None,
                },
                None => None,
            },
            None => None,
        },
        None => None,
    }
}

/// The answer to the start of a session at `pos`, and where it ends.
pub open spec fn dec_init_decoding_result(b: Seq<u8>, pos: int) -> Option<
    (InitDecodingResult, int),
> {
    match dec_exact(b, pos, enc_len(Family::Table, 1)) {
        Some(at0) => match dec_key(b, at0, "duration"@) {
            Some(at1) => if nil_at(b, at1) {
                Some((InitDecodingResult { duration: None }, at1 + 1))
            } else {
                match dec_time_span(b, at1) {
                    Some((span, at2)) => Some((InitDecodingResult { duration: Some(span) }, at2)),
                    None => None,
                }
            },
            None => None,
        },
        None => None,
    }
}

/// The bit pattern of the sample at `pos`, and where it ends.
pub open spec fn dec_sample(b: Seq<u8>, pos: int) -> Option<(u32, int)> {
    match dec_f32(b, pos) {
        Some((bits, p)) => Some((bits as u32, p)),
        None => None,
    }
}

/// The block at `pos`, and where it ends: a rate that fits 32 bits and a channel count that
/// fits 16.
pub open spec fn dec_audio_block(b: Seq<u8>, pos: int) -> Option<(AudioBlockView, int)> {
    match dec_exact(b, pos, enc_len(Family::Table, 3)) {
        Some(at0) => match dec_key(b, at0, "samples"@) {
            Some(at1) => match dec_list(sample_item(), b, at1) {
                Some((samples, at2)) => match dec_key(b, at2, "sample_rate"@) {
                    Some(at3) => match dec_uint(b, at3) {
                        Some((rate, at4)) => match dec_key(b, at4, "channel_count"@) {
                            Some(at5) => match dec_uint(b, at5) {
                                Some((channels, at6)) => if rate <= u32::MAX && channels
                                    <= u16::MAX {
                                    Some(
                                        (
                                            AudioBlockView {
                                                samples,
                                                sample_rate: rate as u32,
                                                channel_count: channels as u16,
                                            },
                                            at6,
                                        ),
                                    )
                                } else {
                                    None
                                },
                                None => None,
                            },
                            None => None,
                        },
                        None => None,
                    },
                    None => None,
                },
                None => None,
            },
            None => None,
        },
        None => None,
    }
}

/// The block at `pos`, or nil where the decoder has come to the end.
pub open spec fn dec_opt_audio_block(b: Seq<u8>, pos: int) -> Option<
    (Option<AudioBlockView>, int),
> {
    if nil_at(b, pos) {
        Some((None, pos + 1))
    } else {
        match dec_audio_block(b, pos) {
            Some((block, p)) => Some((Some(block), p)),
            None => None,
        }
    }
}

/// Whether a message that ends at `end` fills the bytes `b` from first to last.
pub open spec fn fills<T>(found: Option<(T, int)>, b: Seq<u8>) -> bool {
    found matches Some((_, end)) && end == b.len()
}


fn read_opt_str(b: &[u8], pos: usize) -> (r: Option<(Option<String>, usize)>)
    ensures
        match r {
            Some((v, p)) => dec_opt_str(b@, pos as int) == Some((chars_of(v), p as int)),
            None => dec_opt_str(b@, pos as int) is None,
        },
{
    if is_nil(b, pos) {
        return Some((None, pos + 1));
    }
    match read_str(b, pos) {
        Some((s, p)) => Some((Some(s), p)),
        None => None,
    }
}

fn read_audio_file(b: &[u8], pos: usize) -> (r: Option<(AudioFile, usize)>)
    ensures
        match r {
            Some((v, p)) => dec_audio_file(b@, pos as int) == Some((v@, p as int)),
            None => dec_audio_file(b@, pos as int) is None,
        },
{
    let at0 = expect_table(b, pos, 2)?;
    let at1 = expect_key(b, at0, "data")?;
    let (data, at2) = read_bin(b, at1)?;
    let at3 = expect_key(b, at2, "format_hint")?;
    let (format_hint, at4) = read_opt_str(b, at3)?;
    Some((AudioFile { data, format_hint }, at4))
}

fn read_fs_mount(b: &[u8], pos: usize) -> (r: Option<(FsMount, usize)>)
    ensures
        match r {
            Some((v, p)) => dec_fs_mount(b@, pos as int) == Some((v@, p as int)),
            None => dec_fs_mount(b@, pos as int) is None,
        },
{
    let at0 = expect_table(b, pos, 2)?;
    let at1 = expect_key(b, at0, "internal_path")?;
    let (internal_path, at2) = read_str(b, at1)?;
    let at3 = expect_key(b, at2, "description")?;
    let (description, at4) = read_str(b, at3)?;
    Some((FsMount { internal_path, description }, at4))
}

fn read_fs_mounts(b: &[u8], pos: usize) -> (r: Option<(Vec<FsMount>, usize)>)
    ensures
        match r {
            Some((v, p)) => dec_list(fs_mount_item(), b@, pos as int) == Some(
                (mounts_of(v@), p as int),
            ),
            None => dec_list(fs_mount_item(), b@, pos as int) is None,
        },
{
    let (n, start) = read_len(Family::List, b, pos)?;
    let mut out: Vec<FsMount> = Vec::new();
    let mut at: usize = start;
    let mut k: u32 = 0;
    assert(mounts_of(out@) =~= Seq::empty());
    while k < n
        invariant
            k <= n,
            dec_len(Family::List, b@, pos as int) == Some((n as int, start as int)),
            dec_items(fs_mount_item(), b@, start as int, k as nat) == Some(
                (mounts_of(out@), at as int),
            ),
        decreases n - k,
    {
        match read_fs_mount(b, at) {
            Some((mount, q)) => {
                let ghost before = out@;
                out.push(mount);
                assert(mounts_of(out@) =~= mounts_of(before).push(mount@));
                at = q;
            },
            None => {
                proof {
                    assert(dec_items(fs_mount_item(), b@, start as int, (k + 1) as nat) is None);
                    lemma_items_fail_on(
                        fs_mount_item(),
                        b@,
                        start as int,
                        (k + 1) as nat,
                        n as nat,
                    );
                }
                return None;
            },
        }
        k += 1;
    }
    Some((out, at))
}

fn read_tracks(b: &[u8], pos: usize) -> (r: Option<(Vec<PluginTrackIdentifier>, usize)>)
    ensures
        match r {
            Some((v, p)) => dec_list(track_item(), b@, pos as int) == Some(
                (tracks_of(v@), p as int),
            ),
            None => dec_list(track_item(), b@, pos as int) is None,
        },
{
    let (n, start) = read_len(Family::List, b, pos)?;
    let mut out: Vec<PluginTrackIdentifier> = Vec::new();
    let mut at: usize = start;
    let mut k: u32 = 0;
    assert(tracks_of(out@) =~= Seq::empty());
    while k < n
        invariant
            k <= n,
            dec_len(Family::List, b@, pos as int) == Some((n as int, start as int)),
            dec_items(track_item(), b@, start as int, k as nat) == Some(
                (tracks_of(out@), at as int),
            ),
        decreases n - k,
    {
        match read_bin(b, at) {
            Some((bytes, q)) => {
                let ghost before = out@;
                let track = PluginTrackIdentifier(bytes);
                out.push(track);
                assert(tracks_of(out@) =~= tracks_of(before).push(track@));
                at = q;
            },
            None => {
                proof {
                    assert(dec_items(track_item(), b@, start as int, (k + 1) as nat) is None);
                    lemma_items_fail_on(track_item(), b@, start as int, (k + 1) as nat, n as nat);
                }
                return None;
            },
        }
        k += 1;
    }
    Some((out, at))
}

fn read_samples(b: &[u8], pos: usize) -> (r: Option<(Vec<u32>, usize)>)
    ensures
        match r {
            Some((v, p)) => dec_list(sample_item(), b@, pos as int) == Some((v@, p as int)),
            None => dec_list(sample_item(), b@, pos as int) is None,
        },
{
    let (n, start) = read_len(Family::List, b, pos)?;
    let mut out: Vec<u32> = Vec::new();
    let mut at: usize = start;
    let mut k: u32 = 0;
    while k < n
        invariant
            k <= n,
            dec_len(Family::List, b@, pos as int) == Some((n as int, start as int)),
            dec_items(sample_item(), b@, start as int, k as nat) == Some((out@, at as int)),
        decreases n - k,
    {
        match read_f32(b, at) {
            Some((bits, q)) => {
                out.push(bits);
                at = q;
            },
            None => {
                proof {
                    assert(dec_items(sample_item(), b@, start as int, (k + 1) as nat) is None);
                    lemma_items_fail_on(sample_item(), b@, start as int, (k + 1) as nat, n as nat);
                }
                return None;
            },
        }
        k += 1;
    }
    Some((out, at))
}

fn read_metadata(b: &[u8], pos: usize) -> (r: Option<(PluginMetadata, usize)>)
    ensures
        match r {
            Some((v, p)) => dec_metadata(b@, pos as int) == Some((v@, p as int)),
            None => dec_metadata(b@, pos as int) is None,
        },
{
    let at0 = expect_table(b, pos, 6)?;
    let at1 = expect_key(b, at0, "name")?;
    let (name, at2) = read_str(b, at1)?;
    let at3 = expect_key(b, at2, "uuid")?;
    let (uuid, at4) = read_id(b, at3)?;
    let at5 = expect_key(b, at4, "description")?;
    let (description, at6) = read_opt_str(b, at5)?;
    let at7 = expect_key(b, at6, "author")?;
    let (author, at8) = read_opt_str(b, at7)?;
    let at9 = expect_key(b, at8, "fs_mounts")?;
    let (fs_mounts, at10) = read_fs_mounts(b, at9)?;
    let at11 = expect_key(b, at10, "decode_serialization_required")?;
    let (decode_serialization_required, at12) = read_bool(b, at11)?;
    Some(
        (
            PluginMetadata {
                name,
                uuid,
                description,
                author,
                fs_mounts,
                decode_serialization_required,
            },
            at12,
        ),
    )
}

fn read_time_span(b: &[u8], pos: usize) -> (r: Option<(TimeSpan, usize)>)
    ensures
        match r {
            Some((v, p)) => dec_time_span(b@, pos as int) == Some((v, p as int)),
            None => dec_time_span(b@, pos as int) is None,
        },
{
    let at0 = expect_table(b, pos, 2)?;
    let at1 = expect_key(b, at0, "secs")?;
    let (secs, at2) = read_uint(b, at1)?;
    let at3 = expect_key(b, at2, "nanos")?;
    let (nanos, at4) = read_uint(b, at3)?;
    if nanos > 0xffff_ffff {
        return None;
    }
    Some((TimeSpan { secs, nanos: nanos as u32 }, at4))
}

fn read_audio_block(b: &[u8], pos: usize) -> (r: Option<(AudioBlock, usize)>)
    ensures
        match r {
            Some((v, p)) => dec_audio_block(b@, pos as int) == Some((v@, p as int)),
            None => dec_audio_block(b@, pos as int) is None,
        },
{
    let at0 = expect_table(b, pos, 3)?;
    let at1 = expect_key(b, at0, "samples")?;
    let (samples, at2) = read_samples(b, at1)?;
    let at3 = expect_key(b, at2, "sample_rate")?;
    let (rate, at4) = read_uint(b, at3)?;
    let at5 = expect_key(b, at4, "channel_count")?;
    let (channels, at6) = read_uint(b, at5)?;
    if rate > 0xffff_ffff || channels > 0xffff {
        return None;
    }
    Some((AudioBlock { samples, sample_rate: rate as u32, channel_count: channels as u16 }, at6))
}

/// The metadata that the bytes spell from first to last.
pub fn decode_metadata(b: &[u8]) -> (r: Option<PluginMetadata>)
    ensures
        match r {
            Some(v) => dec_metadata(b@, 0) == Some((v@, b@.len() as int)),
            None => !fills(dec_metadata(b@, 0), b@),
        },
{
    let (v, end) = read_metadata(b, 0)?;
    if end == b.len() {
        Some(v)
    } else {
        None
    }
}

/// The prepared scan that the bytes spell from first to last.
pub fn decode_prepared_scan(b: &[u8]) -> (r: Option<PreparedScan>)
    ensures
        match r {
            Some(v) => dec_prepared_scan(b@, 0) == Some((v@, b@.len() as int)),
            None => !fills(dec_prepared_scan(b@, 0), b@),
        },
{
    let at0 = expect_table(b, 0, 1)?;
    let at1 = expect_key(b, at0, "tracks")?;
    let (tracks, end) = read_tracks(b, at1)?;
    if end == b.len() {
        Some(PreparedScan { tracks })
    } else {
        None
    }
}

/// The scan result that the bytes spell from first to last.
pub fn decode_scan_result(b: &[u8]) -> (r: Option<ScanResult>)
    ensures
        match r {
            Some(v) => dec_scan_result(b@, 0) == Some((v.tags@, b@.len() as int)),
            None => !fills(dec_scan_result(b@, 0), b@),
        },
{
    let at0 = expect_table(b, 0, 1)?;
    let at1 = expect_key(b, at0, "tags")?;
    let (tags, end) = read_tags(b, at1)?;
    if end == b.len() {
        Some(ScanResult { tags })
    } else {
        None
    }
}

/// The audio file that the bytes spell from first to last.
pub fn decode_audio_file(b: &[u8]) -> (r: Option<AudioFile>)
    ensures
        match r {
            Some(v) => dec_audio_file(b@, 0) == Some((v@, b@.len() as int)),
            None => !fills(dec_audio_file(b@, 0), b@),
        },
{
    let (v, end) = read_audio_file(b, 0)?;
    if end == b.len() {
        Some(v)
    } else {
        None
    }
}

/// The answer to the start of a session that the bytes spell from first to last.
pub fn decode_init_decoding_result(b: &[u8]) -> (r: Option<InitDecodingResult>)
    ensures
        match r {
            Some(v) => dec_init_decoding_result(b@, 0) == Some((v, b@.len() as int)),
            None => !fills(dec_init_decoding_result(b@, 0), b@),
        },
{
    let at0 = expect_table(b, 0, 1)?;
    let at1 = expect_key(b, at0, "duration")?;
    let (duration, end) = if is_nil(b, at1) {
        (None, at1 + 1)
    } else {
        let (span, at2) = read_time_span(b, at1)?;
        (Some(span), at2)
    };
    if end == b.len() {
        Some(InitDecodingResult { duration })
    } else {
        None
    }
}

/// What one answer of a decoder to the request for the next block says.
pub open spec fn block_of(v: Option<AudioBlock>) -> Option<AudioBlockView> {
    match v {
        Some(block) => Some(block@),
        None => None,
    }
}

/// The next block, or the end of the stream, that the bytes spell from first to last.
/// The outer `None` says that the bytes spell neither.
pub fn decode_opt_audio_block(b: &[u8]) -> (r: Option<Option<AudioBlock>>)
    ensures
        match r {
            Some(v) => dec_opt_audio_block(b@, 0) == Some((block_of(v), b@.len() as int)),
            None => !fills(dec_opt_audio_block(b@, 0), b@),
        },
{
    let (block, end) = if is_nil(b, 0) {
        (None, 1)
    } else {
        let (block, p) = read_audio_block(b, 0)?;
        (Some(block), p)
    };
    if end == b.len() {
        Some(block)
    } else {
        None
    }
}

/// The message without content.
pub fn encode_unit() -> (r: Vec<u8>)
    ensures
        r@ == seq![NIL],
{
    let mut out: Vec<u8> = Vec::new();
    put_nil(&mut out);
    assert(out@ =~= seq![NIL]);
    out
}

/// A track identifier as bytes, if its length can be stated.
pub fn encode_track_identifier(track: &PluginTrackIdentifier) -> (r: Option<Vec<u8>>)
    ensures
        match r {
            Some(bytes) => track@.len() <= MAX_LEN && bytes@ == enc_bin(track@),
            None => track@.len() > MAX_LEN,
        },
{
    let mut out: Vec<u8> = Vec::new();
    if put_bin(&mut out, track.0.as_slice()) {
        assert(out@ =~= enc_bin(track@));
        Some(out)
    } else {
        None
    }
}

/// A playback identifier as bytes.
pub fn encode_playback_id(id: PlaybackId) -> (r: Vec<u8>)
    ensures
        r@ == enc_id(id.0 as int),
{
    let mut out: Vec<u8> = Vec::new();
    put_id(&mut out, id.0);
    assert(out@ =~= enc_id(id.0 as int));
    out
}

/// Whether an audio file can be written: neither its bytes nor its hint are too long to
/// state.
pub open spec fn audio_file_encodable(f: AudioFileView) -> bool {
    &&& f.data.len() <= MAX_LEN
    &&& f.format_hint matches Some(s) ==> encode_utf8(s).len() <= MAX_LEN
}

fn put_opt_str(out: &mut Vec<u8>, v: &Option<String>) -> (done: bool)
    ensures
        done == (chars_of(*v) matches Some(s) ==> encode_utf8(s).len() <= MAX_LEN),
        done ==> final(out)@ == old(out)@ + enc_opt_str(chars_of(*v)),
{
    match v {
        Some(s) => put_str(out, s.as_str()),
        None => {
            put_nil(out);
            true
        },
    }
}

fn put_audio_file(out: &mut Vec<u8>, file: &AudioFile) -> (done: bool)
    ensures
        done == audio_file_encodable(file@),
        done ==> final(out)@ == old(out)@ + enc_audio_file(file@),
{
    proof {
        reveal_strlit("data");
        reveal_strlit("format_hint");
        lemma_utf8_len_bound("data"@);
        lemma_utf8_len_bound("format_hint"@);
    }
    put_len(out, Family::Table, 2);
    let k1 = put_str(out, "data");
    if !put_bin(out, file.data.as_slice()) {
        return false;
    }
    let k2 = put_str(out, "format_hint");
    if !put_opt_str(out, &file.format_hint) {
        return false;
    }
    assert(final(out)@ =~= old(out)@ + enc_audio_file(file@));
    true
}

/// The arguments that start a decoding session as bytes, if the file can be written.
pub fn encode_init_decoding_args(args: &InitDecodingArgs) -> (r: Option<Vec<u8>>)
    ensures
        match r {
            Some(bytes) => audio_file_encodable(args.file@) && bytes@ == enc_init_decoding_args(
                args.playback_id.0,
                args.file@,
                args.gapless,
            ),
            None => !audio_file_encodable(args.file@),
        },
{
    proof {
        reveal_strlit("playback_id");
        reveal_strlit("file");
        reveal_strlit("gapless");
        lemma_utf8_len_bound("playback_id"@);
        lemma_utf8_len_bound("file"@);
        lemma_utf8_len_bound("gapless"@);
    }
    let mut out: Vec<u8> = Vec::new();
    put_len(&mut out, Family::Table, 3);
    let k1 = put_str(&mut out, "playback_id");
    put_id(&mut out, args.playback_id.0);
    let k2 = put_str(&mut out, "file");
    if !put_audio_file(&mut out, &args.file) {
        return None;
    }
    let k3 = put_str(&mut out, "gapless");
    put_bool(&mut out, args.gapless);
    assert(out@ =~= enc_init_decoding_args(args.playback_id.0, args.file@, args.gapless));
    Some(out)
}

} // verus!
