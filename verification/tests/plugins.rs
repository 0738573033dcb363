use hogehoge::decoder::{PluginAudioSource, PluginAudioSourceError};
use hogehoge::ident::{PluginId, PluginTrackIdentifier, UniqueTrackIdentifier};
use hogehoge::library::{prepare_scan, scan_track, ScanSkip};
use hogehoge::media::AudioFile;
use hogehoge::plugin::{PluginCapabilities, PluginError, PluginInstance};
use hogehoge::pool::{Acquire, PluginPool};
use hogehoge::registry::{is_plugin_file, PluginSystem};
use hogehoge::tags::{TagKind, Tags, TAG_COUNT};
use hogehoge::wire_tags::encode_tags;

/// One exported function of a plugin made up for a test.
enum Export {
    /// Answers with fixed bytes.
    Fixed(&'static str, Vec<u8>),
    /// Answers with the first bytes on the first call and with the second ever after.
    Once(&'static str, Vec<u8>, Vec<u8>),
    /// Answers with the first bytes where the input ends in the given byte, else with
    /// the second.
    ByLastByte(&'static str, u8, Vec<u8>, Vec<u8>),
    /// Fails.
    Failing(&'static str),
}

fn escape(bytes: &[u8]) -> String {
    bytes.iter().map(|b| format!("\\{b:02x}")).collect()
}

fn plugin(exports: &[Export]) -> extism::Plugin {
    let mut data = Vec::new();
    let mut place = |bytes: &[u8]| {
        let at = 1024 + data.len();
        data.extend_from_slice(bytes);
        (at, bytes.len())
    };
    let mut functions = String::new();
    for export in exports {
        match export {
            Export::Fixed(name, bytes) => {
                let (at, len) = place(bytes);
                functions += &format!(
                    "(func (export \"{name}\") (result i32) (call $emit (i32.const {at}) (i32.const {len})) (i32.const 0))\n"
                );
            }
            Export::Once(name, first, later) => {
                let (a, al) = place(first);
                let (b, bl) = place(later);
                functions += &format!(
                    "(global ${name}_calls (mut i32) (i32.const 0))\n(func (export \"{name}\") (result i32)\n (if (i32.eqz (global.get ${name}_calls))\n  (then (call $emit (i32.const {a}) (i32.const {al})))\n  (else (call $emit (i32.const {b}) (i32.const {bl}))))\n (global.set ${name}_calls (i32.const 1))\n (i32.const 0))\n"
                );
            }
            Export::ByLastByte(name, byte, hit, miss) => {
                let (a, al) = place(hit);
                let (b, bl) = place(miss);
                functions += &format!(
                    "(func (export \"{name}\") (result i32)\n (if (i32.eq (call $input_load_u8 (i64.sub (call $input_length) (i64.const 1))) (i32.const {byte}))\n  (then (call $emit (i32.const {a}) (i32.const {al})))\n  (else (call $emit (i32.const {b}) (i32.const {bl}))))\n (i32.const 0))\n"
                );
            }
            Export::Failing(name) => {
                functions += &format!("(func (export \"{name}\") (result i32) (i32.const 1))\n");
            }
        }
    }
    let pages = data.len() / 65_536 + 2;
    let wat = format!(
        "(module\n(import \"extism:host/env\" \"alloc\" (func $alloc (param i64) (result i64)))\n(import \"extism:host/env\" \"store_u8\" (func $store_u8 (param i64 i32)))\n(import \"extism:host/env\" \"output_set\" (func $output_set (param i64 i64)))\n(import \"extism:host/env\" \"input_length\" (func $input_length (result i64)))\n(import \"extism:host/env\" \"input_load_u8\" (func $input_load_u8 (param i64) (result i32)))\n(memory {pages})\n(data (i32.const 1024) \"{}\")\n(func $emit (param $from i32) (param $len i32)\n (local $to i64) (local $i i32)\n (local.set $to (call $alloc (i64.extend_i32_u (local.get $len))))\n (block $done (loop $next\n  (br_if $done (i32.ge_u (local.get $i) (local.get $len)))\n  (call $store_u8 (i64.add (local.get $to) (i64.extend_i32_u (local.get $i))) (i32.load8_u (i32.add (local.get $from) (local.get $i))))\n  (local.set $i (i32.add (local.get $i) (i32.const 1)))\n  (br $next)))\n (call $output_set (local.get $to) (i64.extend_i32_u (local.get $len))))\n{functions})",
        escape(&data)
    );
    let mut config = wasmtime::Config::new();
    config.memory_reservation(0);
    config.memory_reservation_for_growth(1 << 20);
    config.memory_guard_size(0);
    extism::PluginBuilder::new(extism::Manifest::new([extism::Wasm::data(wat.into_bytes())]))
        .with_wasmtime_config(config)
        .with_cache_disabled()
        .build()
        .unwrap()
}

fn key(out: &mut Vec<u8>, name: &str) {
    rmp::encode::write_str(out, name).unwrap();
}

fn metadata(name: &str, uuid: u128, serialized: bool) -> Vec<u8> {
    let mut bytes = Vec::new();
    rmp::encode::write_map_len(&mut bytes, 6).unwrap();
    key(&mut bytes, "name");
    rmp::encode::write_str(&mut bytes, name).unwrap();
    key(&mut bytes, "uuid");
    rmp::encode::write_bin(&mut bytes, &uuid.to_be_bytes()).unwrap();
    key(&mut bytes, "description");
    rmp::encode::write_nil(&mut bytes).unwrap();
    key(&mut bytes, "author");
    rmp::encode::write_nil(&mut bytes).unwrap();
    key(&mut bytes, "fs_mounts");
    rmp::encode::write_array_len(&mut bytes, 0).unwrap();
    key(&mut bytes, "decode_serialization_required");
    rmp::encode::write_bool(&mut bytes, serialized).unwrap();
    bytes
}

fn prepared(tracks: &[&[u8]]) -> Vec<u8> {
    let mut bytes = Vec::new();
    rmp::encode::write_map_len(&mut bytes, 1).unwrap();
    key(&mut bytes, "tracks");
    rmp::encode::write_array_len(&mut bytes, tracks.len() as u32).unwrap();
    for track in tracks {
        rmp::encode::write_bin(&mut bytes, track).unwrap();
    }
    bytes
}

fn scanned(tags: &Tags) -> Vec<u8> {
    let mut bytes = Vec::new();
    rmp::encode::write_map_len(&mut bytes, 1).unwrap();
    key(&mut bytes, "tags");
    bytes.extend(encode_tags(tags).unwrap());
    bytes
}

fn audio_file(data: &[u8], hint: Option<&str>) -> Vec<u8> {
    let mut bytes = Vec::new();
    rmp::encode::write_map_len(&mut bytes, 2).unwrap();
    key(&mut bytes, "data");
    rmp::encode::write_bin(&mut bytes, data).unwrap();
    key(&mut bytes, "format_hint");
    match hint {
        Some(text) => rmp::encode::write_str(&mut bytes, text).unwrap(),
        None => rmp::encode::write_nil(&mut bytes).unwrap(),
    }
    bytes
}

fn started(duration: Option<(u64, u32)>) -> Vec<u8> {
    let mut bytes = Vec::new();
    rmp::encode::write_map_len(&mut bytes, 1).unwrap();
    key(&mut bytes, "duration");
    match duration {
        Some((secs, nanos)) => {
            rmp::encode::write_map_len(&mut bytes, 2).unwrap();
            key(&mut bytes, "secs");
            rmp::encode::write_uint(&mut bytes, secs).unwrap();
            key(&mut bytes, "nanos");
            rmp::encode::write_uint(&mut bytes, nanos as u64).unwrap();
        }
        None => rmp::encode::write_nil(&mut bytes).unwrap(),
    }
    bytes
}

fn block(samples: &[f32], rate: u32, channels: u16) -> Vec<u8> {
    let mut bytes = Vec::new();
    rmp::encode::write_map_len(&mut bytes, 3).unwrap();
    key(&mut bytes, "samples");
    rmp::encode::write_array_len(&mut bytes, samples.len() as u32).unwrap();
    for sample in samples {
        rmp::encode::write_f32(&mut bytes, *sample).unwrap();
    }
    key(&mut bytes, "sample_rate");
    rmp::encode::write_uint(&mut bytes, rate as u64).unwrap();
    key(&mut bytes, "channel_count");
    rmp::encode::write_uint(&mut bytes, channels as u64).unwrap();
    bytes
}

fn provider(uuid: u128) -> extism::Plugin {
    let mut second = Tags::new("T2".to_string());
    second.musicbrainz_track_id = Some(0x55);
    plugin(&[
        Export::Fixed("get_metadata", metadata("Provider", uuid, false)),
        Export::Fixed("prepare_scan", prepared(&[b"a", b"b"])),
        Export::ByLastByte("scan", b'a', scanned(&Tags::new("T1".to_string())), scanned(&second)),
        Export::Fixed("get_audio_file", audio_file(&[1, 2, 3], Some("wav"))),
    ])
}

fn decoder(uuid: u128, serialized: bool, samples: &[f32]) -> extism::Plugin {
    plugin(&[
        Export::Fixed("get_metadata", metadata("Decoder", uuid, serialized)),
        Export::Fixed("init_decoding", started(Some((3, 250)))),
        Export::Once("decode_block", block(samples, 8_000, 2), vec![0xc0]),
        Export::Fixed("finish_decoding", vec![0xc0]),
    ])
}

fn ready(acquire: Acquire) -> hogehoge::pool::PluginHandle {
    match acquire {
        Acquire::Ready(handle) => handle,
        other => panic!("no instance is ready: {other:?}"),
    }
}

#[test]
fn capabilities_follow_the_exports() {
    let both = PluginInstance::from_loaded(plugin(&[
        Export::Fixed("get_metadata", metadata("Both", 1, false)),
        Export::Fixed("prepare_scan", vec![]),
        Export::Fixed("scan", vec![]),
        Export::Fixed("get_audio_file", vec![]),
        Export::Fixed("init_decoding", vec![]),
        Export::Fixed("decode_block", vec![]),
        Export::Fixed("finish_decoding", vec![]),
    ]))
    .unwrap();
    assert_eq!(
        PluginCapabilities::from_plugin(&both),
        PluginCapabilities { provide_tracks: true, decode: true }
    );
    assert!(both.has_fn("scan"));
    assert!(!both.has_fn("scan "));
    assert!(!both.has_fn("emit"));

    let partial = PluginInstance::from_loaded(plugin(&[
        Export::Fixed("get_metadata", metadata("Partial", 2, false)),
        Export::Fixed("prepare_scan", vec![]),
        Export::Fixed("scan", vec![]),
        Export::Fixed("init_decoding", vec![]),
        Export::Fixed("finish_decoding", vec![]),
    ]))
    .unwrap();
    assert_eq!(
        PluginCapabilities::from_plugin(&partial),
        PluginCapabilities { provide_tracks: false, decode: false }
    );

    let pool = PluginPool::try_new(provider(3)).unwrap();
    assert_eq!(pool.capabilities, PluginCapabilities { provide_tracks: true, decode: false });
    let pool = PluginPool::try_new(decoder(4, false, &[0.5])).unwrap();
    assert_eq!(pool.capabilities, PluginCapabilities { provide_tracks: false, decode: true });
}

#[test]
fn a_plugin_must_say_what_it_is() {
    let mute = plugin(&[Export::Fixed("scan", vec![])]);
    assert!(matches!(
        PluginInstance::from_loaded(mute),
        Err(PluginError::MissingRequiredFunction("get_metadata"))
    ));
    let garbled = plugin(&[Export::Fixed("get_metadata", vec![0xc0])]);
    assert!(matches!(
        PluginPool::try_new(garbled),
        Err(PluginError::InvalidResponse(name)) if name == "get_metadata"
    ));
    let failing = plugin(&[Export::Failing("get_metadata")]);
    assert!(matches!(
        PluginPool::try_new(failing),
        Err(PluginError::FunctionCallError(name, _)) if name == "get_metadata"
    ));
}

#[test]
fn metadata_come_from_the_plugin() {
    let pool = PluginPool::try_new(decoder(0xfeed, true, &[0.5])).unwrap();
    assert_eq!(pool.metadata.name, "Decoder");
    assert_eq!(pool.metadata.uuid, 0xfeed);
    assert!(pool.metadata.decode_serialization_required);
    assert_eq!(pool.idle_count(), 1);
    assert_eq!(pool.plugins[0].has_fn("decode_block"), true);
}

#[test]
fn typed_calls_reach_the_plugin() {
    let mut instance = PluginInstance::from_loaded(provider(9)).unwrap();
    assert_eq!(
        instance.prepare_scan().unwrap().tracks,
        vec![PluginTrackIdentifier(b"a".to_vec()), PluginTrackIdentifier(b"b".to_vec())]
    );
    let first = instance.scan(&PluginTrackIdentifier(b"a".to_vec())).unwrap();
    assert_eq!(first.tags, Tags::new("T1".to_string()));
    let second = instance.scan(&PluginTrackIdentifier(b"b".to_vec())).unwrap();
    assert_eq!(second.tags.track_title, "T2");
    assert_eq!(second.tags.musicbrainz_track_id, Some(0x55));
    assert_eq!(
        instance.get_audio_file(&PluginTrackIdentifier(b"a".to_vec())).unwrap(),
        AudioFile { data: vec![1, 2, 3], format_hint: Some("wav".to_string()) }
    );
    assert!(matches!(
        instance.decode_block(hogehoge::media::PlaybackId(1)),
        Err(PluginError::FunctionCallError(name, _)) if name == "decode_block"
    ));
    assert!(instance.has_fn("scan") && instance.has_fn("get_metadata"));
    assert!(!instance.has_fn("decode_block"));
    assert_eq!(
        PluginCapabilities::from_plugin(&instance),
        PluginCapabilities { provide_tracks: true, decode: false }
    );
}

#[test]
fn a_pool_hands_out_its_idle_instance_first() {
    let mut pool = PluginPool::try_new(provider(1)).unwrap();
    pool.id = PluginId(4);
    let handle = ready(pool.get_plugin());
    assert_eq!(handle.pool, PluginId(4));
    assert!(handle.capabilities.provide_tracks);
    assert_eq!(pool.idle_count(), 0);
    assert!(matches!(pool.get_plugin(), Acquire::Load));
    let extra = pool.adopt(provider(1)).unwrap();
    assert_eq!(extra.pool, PluginId(4));
    pool.release(handle);
    pool.release(extra);
    assert_eq!(pool.idle_count(), 2);
    assert_eq!(pool.evict_idle(), 1);
    assert_eq!(pool.idle_count(), 1);
    assert_eq!(pool.cleanup(), 0);
    assert!(matches!(pool.get_plugin(), Acquire::Ready(_)));
}

#[test]
fn a_serialized_pool_makes_the_second_caller_wait() {
    let mut pool = PluginPool::try_new(decoder(1, true, &[0.5])).unwrap();
    let first = ready(pool.get_plugin());
    assert!(matches!(pool.get_plugin(), Acquire::Wait));
    assert!(matches!(pool.get_plugin(), Acquire::Wait));
    pool.release(first);
    assert!(matches!(pool.get_plugin(), Acquire::Ready(_)));
    assert!(matches!(pool.get_plugin(), Acquire::Wait));
}

#[test]
fn the_registry_keeps_pools_in_order() {
    let mut system = PluginSystem::new();
    assert_eq!(system.len(), 0);
    system.register(PluginId(2), PluginPool::try_new(decoder(2, false, &[0.5])).unwrap());
    system.register(PluginId(1), PluginPool::try_new(provider(1)).unwrap());
    system.register(PluginId(3), PluginPool::try_new(decoder(3, true, &[0.5])).unwrap());
    assert_eq!(system.decoders(), vec![PluginId(2), PluginId(3)]);
    assert_eq!(system.providers(), vec![PluginId(1)]);
    assert!(system.contains(PluginId(3)));
    assert!(!system.contains(PluginId(4)));
    assert_eq!(
        system.capabilities(PluginId(1)),
        Some(PluginCapabilities { provide_tracks: true, decode: false })
    );
    assert!(system.get_plugin(PluginId(9)).is_none());
    let handle = ready(system.get_plugin(PluginId(3)).unwrap());
    assert_eq!(handle.pool, PluginId(3));
    assert!(matches!(system.get_plugin(PluginId(3)), Some(Acquire::Wait)));
    assert!(system.release(handle).is_none());
    assert!(matches!(system.get_plugin(PluginId(3)), Some(Acquire::Ready(_))));

    system.register(PluginId(2), PluginPool::try_new(provider(7)).unwrap());
    assert_eq!(system.len(), 3);
    assert_eq!(system.decoders(), vec![PluginId(3)]);
    assert_eq!(system.providers(), vec![PluginId(2), PluginId(1)]);
    assert_eq!(system.cleanup_pool(), 0);
}

#[test]
fn a_handle_without_a_home_comes_back() {
    let mut system = PluginSystem::new();
    let mut stray = PluginPool::try_new(provider(1)).unwrap();
    stray.id = PluginId(5);
    let handle = ready(stray.get_plugin());
    let back = system.release(handle);
    assert_eq!(back.map(|h| h.pool), Some(PluginId(5)));
}

#[test]
fn plugin_files_end_in_wasm() {
    assert!(is_plugin_file("fs.wasm", true));
    assert!(is_plugin_file(".wasm", true));
    assert!(!is_plugin_file("fs.wasm", false));
    assert!(!is_plugin_file("fs.wat", true));
    assert!(!is_plugin_file("wasm", true));
    assert!(!is_plugin_file("fs.wasm.bak", true));
    assert!(!is_plugin_file("fs.WASM", true));
    assert!(is_plugin_file("ü.wasm", true));
}

#[test]
fn scanning_goes_through_the_provider() {
    let mut pool = PluginPool::try_new(provider(1)).unwrap();
    pool.id = PluginId(8);
    let mut handle = ready(pool.get_plugin());
    let listed = prepare_scan(&mut handle).unwrap();
    let tracks = listed.tracks.clone();
    assert_eq!(tracks.len(), 2);
    let mut imports = Vec::new();
    for track in tracks {
        imports.push(scan_track(&mut handle, track).unwrap());
    }
    assert_eq!(imports.len(), 2);
    assert_eq!(
        imports[0].identifier,
        UniqueTrackIdentifier {
            plugin_id: PluginId(8),
            plugin_data: PluginTrackIdentifier(b"a".to_vec())
        }
    );
    assert_eq!(imports[0].scan.tags.track_title, "T1");
    assert_eq!(imports[1].identifier.plugin_data, PluginTrackIdentifier(b"b".to_vec()));
    assert_eq!(imports[1].scan.tags.musicbrainz_track_id, Some(0x55));

    let mut db = hogehoge::db::database::Database::new();
    for import in imports {
        db.find_or_create_track(import.identifier, import.scan.tags).unwrap();
    }
    assert_eq!(
        db.stats(),
        hogehoge::db::store::DbStats {
            num_tracks: 2,
            num_track_groups: 2,
            num_albums: 0,
            num_artists: 0
        }
    );
}

#[test]
fn a_decoder_is_not_asked_for_tracks() {
    let mut pool = PluginPool::try_new(decoder(1, false, &[0.5])).unwrap();
    let mut handle = ready(pool.get_plugin());
    assert!(matches!(prepare_scan(&mut handle), Err(ScanSkip::NotAProvider)));
    let failed = scan_track(&mut handle, PluginTrackIdentifier(b"x".to_vec())).unwrap_err();
    assert_eq!(failed.track, PluginTrackIdentifier(b"x".to_vec()));
    assert!(matches!(failed.error, PluginError::FunctionCallError(name, _) if name == "scan"));
}

#[test]
fn a_decoder_streams_its_blocks() {
    let mut pool = PluginPool::try_new(decoder(1, false, &[0.5, -0.5, 0.25])).unwrap();
    pool.id = PluginId(3);
    let handle = ready(pool.get_plugin());
    let file = AudioFile { data: vec![0; 10], format_hint: None };
    let mut source = PluginAudioSource::new(handle, file).unwrap();
    assert_eq!(source.sample_rate(), 8_000);
    assert_eq!(source.channels(), 2);
    assert_eq!(source.current_span_len(), Some(3));
    assert_eq!(
        source.total_duration(),
        Some(hogehoge::media::TimeSpan { secs: 3, nanos: 250 })
    );
    assert_eq!(source.next(), Some(0.5f32.to_bits()));
    assert_eq!(source.next(), Some((-0.5f32).to_bits()));
    assert_eq!(source.next(), Some(0.25f32.to_bits()));
    assert_eq!(source.next(), None);
    assert_eq!(source.next(), None);
    let (handle, failure) = source.finish();
    assert!(failure.is_none());
    assert_eq!(handle.pool, PluginId(3));
    pool.release(handle);
    assert_eq!(pool.idle_count(), 1);
}

#[test]
fn a_plugin_that_cannot_decode_turns_the_file_down() {
    let mut pool = PluginPool::try_new(provider(1)).unwrap();
    pool.id = PluginId(6);
    let handle = ready(pool.get_plugin());
    let rejected =
        PluginAudioSource::new(handle, AudioFile { data: vec![], format_hint: None }).unwrap_err();
    assert!(matches!(rejected.error, PluginAudioSourceError::CannotDecode));
    assert_eq!(rejected.plugin.pool, PluginId(6));

    let silent = plugin(&[
        Export::Fixed("get_metadata", metadata("Silent", 2, false)),
        Export::Fixed("init_decoding", started(None)),
        Export::Fixed("decode_block", vec![0xc0]),
        Export::Fixed("finish_decoding", vec![0xc0]),
    ]);
    let mut pool = PluginPool::try_new(silent).unwrap();
    let rejected = PluginAudioSource::new(
        ready(pool.get_plugin()),
        AudioFile { data: vec![], format_hint: None },
    )
    .unwrap_err();
    assert!(matches!(rejected.error, PluginAudioSourceError::NoAudioData));

    let broken = plugin(&[
        Export::Fixed("get_metadata", metadata("Broken", 3, false)),
        Export::Failing("init_decoding"),
        Export::Fixed("decode_block", vec![0xc0]),
        Export::Fixed("finish_decoding", vec![0xc0]),
    ]);
    let mut pool = PluginPool::try_new(broken).unwrap();
    let rejected = PluginAudioSource::new(
        ready(pool.get_plugin()),
        AudioFile { data: vec![], format_hint: None },
    )
    .unwrap_err();
    assert!(matches!(
        rejected.error,
        PluginAudioSourceError::PluginError(PluginError::FunctionCallError(name, _))
            if name == "init_decoding"
    ));
}

#[test]
fn tag_names_on_the_wire_are_the_field_names() {
    assert_eq!(TAG_COUNT, 100);
    assert_eq!(TagKind::TrackTitle.name(), "track_title");
    assert_eq!(TagKind::MusicbrainzReleaseGroupId.name(), "musicbrainz_release_group_id");
    assert_eq!(TagKind::PodcastKeywords.index(), 99);
    assert_eq!(TagKind::from_index(0), Some(TagKind::TrackTitle));
    assert_eq!(TagKind::from_index(100), None);
    for index in 0..TAG_COUNT {
        assert_eq!(TagKind::from_index(index).unwrap().index(), index);
    }
}

fn track(plugin: i64, data: &[u8]) -> UniqueTrackIdentifier {
    UniqueTrackIdentifier {
        plugin_id: PluginId(plugin),
        plugin_data: PluginTrackIdentifier(data.to_vec()),
    }
}

fn load(
    system: &mut PluginSystem,
    track: UniqueTrackIdentifier,
) -> Result<PluginAudioSource, PluginAudioSourceError> {
    load_with(system, track, |_| None)
}

fn load_with(
    system: &mut PluginSystem,
    track: UniqueTrackIdentifier,
    spawn: impl Fn(PluginId) -> Option<extism::Plugin>,
) -> Result<PluginAudioSource, PluginAudioSourceError> {
    let decoders = system.decoders();
    let system = std::cell::RefCell::new(system);
    PluginAudioSource::from_track_identifier(
        &decoders,
        track,
        |id| {
            let acquired = system.borrow_mut().get_plugin(id);
            match acquired {
                Some(Acquire::Ready(handle)) => Some(handle),
                Some(Acquire::Load) => {
                    let loaded = spawn(id)?;
                    let system = system.borrow();
                    let pool = system.pools.iter().find(|pool| pool.id == id)?;
                    pool.adopt(loaded).ok()
                }
                _ => None,
            }
        },
        |handle| {
            system.borrow_mut().release(handle);
        },
    )
}

struct Player {
    source: hogehoge::audio::QueueSource,
    queue: hogehoge::queue::Queue,
    system: PluginSystem,
    states: Vec<hogehoge::audio::PlaybackState>,
    failures: Vec<PluginAudioSourceError>,
    spawn: fn(PluginId) -> Option<extism::Plugin>,
}

impl Player {
    fn new(system: PluginSystem) -> Player {
        Player {
            source: hogehoge::audio::QueueSource::new(),
            queue: hogehoge::queue::Queue::new(),
            system,
            states: Vec::new(),
            failures: Vec::new(),
            spawn: |_| None,
        }
    }

    fn pull(&mut self) -> u32 {
        loop {
            if let Some(state) = self.source.poll_state() {
                self.states.push(state);
            }
            if let Some(sample) = self.source.next_sample() {
                return sample;
            }
            let advance = self.queue.forward();
            let next = match advance.current {
                Some(track) => match load_with(&mut self.system, track, &self.spawn) {
                    Ok(source) => Some(source),
                    Err(e) => {
                        self.failures.push(e);
                        None
                    }
                },
                None => None,
            };
            if let Some(retired) = self.source.install(next) {
                assert!(self.system.release(retired.plugin).is_none());
            }
        }
    }
}

fn system_with(pools: Vec<(i64, extism::Plugin)>) -> PluginSystem {
    let mut system = PluginSystem::new();
    for (id, loaded) in pools {
        system.register(PluginId(id), PluginPool::try_new(loaded).unwrap());
    }
    system
}

#[test]
fn silence_plays_when_nothing_was_ever_queued() {
    let mut player = Player::new(PluginSystem::new());
    assert_eq!(player.source.sample_rate(), 44_100);
    assert_eq!(player.source.channels(), 1);
    assert_eq!(player.source.current_span_len(), Some(512));
    assert_eq!(player.source.total_duration(), None);
    for _ in 0..5_000 {
        assert_eq!(player.pull(), 0);
    }
    assert_eq!(player.source.sample_rate(), 44_100);
    assert_eq!(player.source.channels(), 1);
    assert!(!player.states.is_empty());
    assert!(player.states.iter().all(|s| *s == hogehoge::audio::PlaybackState::Stopped));
    assert!(player.failures.is_empty());
}

#[test]
fn the_state_is_reported_on_schedule() {
    let mut source = hogehoge::audio::QueueSource::new();
    assert!(!source.is_update_due());
    assert_eq!(source.poll_state(), None);
    assert_eq!(source.next_sample(), Some(0));
    assert!(source.is_update_due());
    assert_eq!(source.poll_state(), Some(hogehoge::audio::PlaybackState::Stopped));
    assert!(!source.is_update_due());
    for _ in 0..511 {
        assert_eq!(source.next_sample(), Some(0));
        assert_eq!(source.poll_state(), None);
    }
    assert_eq!(source.next_sample(), None);
    assert_eq!(source.poll_state(), Some(hogehoge::audio::PlaybackState::Stopped));
    assert!(source.install(None).is_none());
    assert_eq!(source.next_sample(), Some(0));
}

#[test]
fn tracks_follow_each_other_without_a_gap() {
    let system = system_with(vec![
        (1, provider(1)),
        (2, decoder(2, false, &[0.5, 0.25, -0.5, -0.25])),
    ]);
    let mut player = Player::new(system);
    player.spawn = |id| match id {
        PluginId(2) => Some(decoder(2, false, &[0.5, 0.25, -0.5, -0.25])),
        _ => None,
    };
    player.queue.push(track(1, b"a"));
    player.queue.push(track(1, b"b"));
    let mut heard = Vec::new();
    while heard.len() < 512 + 8 {
        heard.push(player.pull());
    }
    let a = [0.5f32, 0.25, -0.5, -0.25].map(f32::to_bits);
    assert!(heard[..512].iter().all(|s| *s == 0));
    assert_eq!(heard[512..516], a);
    assert_eq!(heard[516..520], a);
    assert_eq!(player.source.sample_rate(), 8_000);
    assert_eq!(player.source.channels(), 2);
    assert!(player.failures.is_empty());
    assert_eq!(player.queue.peek_at(0), Some(track(1, b"b")));
    assert_eq!(player.queue.peek_at(-1), Some(track(1, b"a")));
    let mut tail = Vec::new();
    for _ in 0..2_000 {
        tail.push(player.pull());
    }
    assert!(tail.iter().all(|s| *s == 0));
    let playing: Vec<_> = player
        .states
        .iter()
        .filter_map(|s| match s {
            hogehoge::audio::PlaybackState::Playing { duration, position, paused } => {
                Some((*duration, *position, *paused))
            }
            _ => None,
        })
        .collect();
    assert!(!playing.is_empty());
    for (duration, _, paused) in &playing {
        assert_eq!(*duration, Some(hogehoge::media::TimeSpan { secs: 3, nanos: 250 }));
        assert!(!paused);
    }
    assert_eq!(player.system.pools[1].idle_count(), 2);
    assert_eq!(player.system.cleanup_pool(), 1);
    assert_eq!(player.system.pools[1].idle_count(), 1);
    assert_eq!(player.states.last(), Some(&hogehoge::audio::PlaybackState::Stopped));
}

#[test]
fn the_first_decoder_that_takes_the_file_plays_it() {
    let failing = plugin(&[
        Export::Fixed("get_metadata", metadata("D1", 11, false)),
        Export::Failing("init_decoding"),
        Export::Fixed("decode_block", vec![0xc0]),
        Export::Fixed("finish_decoding", vec![0xc0]),
    ]);
    let mut system =
        system_with(vec![(1, provider(1)), (2, failing), (3, decoder(12, false, &[1.0]))]);
    let source = load(&mut system, track(1, b"a")).unwrap();
    assert_eq!(system.pools[1].idle_count(), 1);
    assert_eq!(system.pools[2].idle_count(), 0);
    assert_eq!(system.pools[0].idle_count(), 1);
    let (handle, failure) = source.finish();
    assert!(failure.is_none());
    assert_eq!(handle.pool, PluginId(3));
}

#[test]
fn a_track_without_provider_is_skipped() {
    let system = system_with(vec![(2, decoder(2, false, &[1.0]))]);
    let mut player = Player::new(system);
    player.queue.push(track(9, b"a"));
    for _ in 0..1_200 {
        assert_eq!(player.pull(), 0);
    }
    assert_eq!(player.failures.len(), 1);
    assert!(matches!(
        player.failures[0],
        PluginAudioSourceError::MissingFileProvider(PluginId(9))
    ));
    assert_eq!(player.queue.peek_at(0), None);
    assert_eq!(player.queue.peek_at(-1), Some(track(9, b"a")));
    assert!(player.states.iter().all(|s| *s == hogehoge::audio::PlaybackState::Stopped));
}

#[test]
fn a_track_that_no_decoder_takes_is_skipped() {
    let mut system = system_with(vec![(1, provider(1))]);
    let error = load(&mut system, track(1, b"a")).unwrap_err();
    assert!(matches!(error, PluginAudioSourceError::NoPluginForTrack(t) if t == track(1, b"a")));
    assert_eq!(system.pools[0].idle_count(), 1);
}

#[test]
fn the_position_follows_the_samples() {
    let mut pool = PluginPool::try_new(decoder(1, false, &[0.0; 8])).unwrap();
    let handle = ready(pool.get_plugin());
    let source =
        PluginAudioSource::new(handle, AudioFile { data: vec![], format_hint: None }).unwrap();
    let mut positioned = hogehoge::audio::TrackedSource::new(source);
    let span = |nanos| hogehoge::media::TimeSpan { secs: 0, nanos };
    assert_eq!(positioned.get_pos(), span(0));
    for heard in 1..=8u32 {
        assert_eq!(positioned.next(), Some(0));
        assert_eq!(positioned.get_pos(), span(heard * 62_500));
    }
    assert_eq!(positioned.next(), None);
    assert_eq!(positioned.get_pos(), span(500_000));
}

#[test]
fn the_prefetch_slot_holds_one_load() {
    let mut slot: hogehoge::prefetch::PrefetchSlot<u32> = hogehoge::prefetch::PrefetchSlot::new();
    assert!(!slot.holds(&track(1, b"a")));
    slot.cache_track(track(1, b"a"), |_| 10);
    assert!(slot.holds(&track(1, b"a")));
    slot.cache_track(track(1, b"a"), |_| 11);
    assert_eq!(slot.slot, Some((track(1, b"a"), 10)));
    slot.cache_track(track(1, b"b"), |t| t.plugin_data.0[0] as u32);
    assert_eq!(slot.slot, Some((track(1, b"b"), b'b' as u32)));
    assert_eq!(slot.get_or_start(&track(1, b"b"), |_| 0), b'b' as u32);
    assert_eq!(slot.slot, None);
    assert_eq!(slot.get_or_start(&track(1, b"b"), |_| 7), 7);
    slot.cache_track(track(1, b"a"), |_| 1);
    assert_eq!(slot.get_or_start(&track(2, b"a"), |_| 2), 2);
    assert_eq!(slot.slot, None);
    assert!(matches!(
        hogehoge::prefetch::resolve_load(None),
        Err(PluginAudioSourceError::NoAudioData)
    ));
    assert!(matches!(
        hogehoge::prefetch::resolve_load(Some(Err(PluginAudioSourceError::CannotDecode))),
        Err(PluginAudioSourceError::CannotDecode)
    ));
}

#[test]
fn plugins_join_the_registry_under_their_catalog_number() {
    let mut system = PluginSystem::new();
    let mut db = hogehoge::db::database::Database::new();
    assert_eq!(system.install(&mut db, provider(0xaa)).unwrap(), PluginId(1));
    assert_eq!(system.install(&mut db, decoder(0xbb, true, &[0.5])).unwrap(), PluginId(2));
    assert_eq!(system.install(&mut db, decoder(0xaa, false, &[0.5])).unwrap(), PluginId(1));
    assert_eq!(system.len(), 2);
    assert_eq!(system.decoders(), vec![PluginId(1), PluginId(2)]);
    assert_eq!(system.providers(), Vec::<PluginId>::new());
    assert_eq!(db.get_plugin_id(0xbb), Some(PluginId(2)));
    assert_eq!(db.plugins.len(), 2);

    let mute = plugin(&[Export::Fixed("scan", vec![])]);
    assert!(matches!(
        system.install(&mut db, mute),
        Err(hogehoge::registry::InstallError::Plugin(PluginError::MissingRequiredFunction(_)))
    ));
    assert_eq!(system.len(), 2);
    assert_eq!(db.plugins.len(), 2);
}

#[test]
fn the_scan_hands_on_what_was_scanned() {
    let mut pool = PluginPool::try_new(provider(1)).unwrap();
    pool.id = PluginId(1);
    let mut broken = PluginPool::try_new(plugin(&[
        Export::Fixed("get_metadata", metadata("Broken", 2, false)),
        Export::Failing("prepare_scan"),
        Export::Fixed("scan", vec![]),
        Export::Fixed("get_audio_file", vec![]),
    ]))
    .unwrap();
    broken.id = PluginId(2);
    let mut flaky = PluginPool::try_new(plugin(&[
        Export::Fixed("get_metadata", metadata("Flaky", 3, false)),
        Export::Fixed("prepare_scan", prepared(&[b"x", b"y", b"z"])),
        Export::ByLastByte("scan", b'y', scanned(&Tags::new("Y".to_string())), vec![0xc0]),
        Export::Fixed("get_audio_file", vec![]),
    ]))
    .unwrap();
    flaky.id = PluginId(3);
    let mut system = PluginSystem::new();
    system.register(PluginId(1), pool);
    system.register(PluginId(2), broken);
    system.register(PluginId(3), flaky);
    system.register(PluginId(4), PluginPool::try_new(decoder(4, false, &[0.5])).unwrap());

    let mut scan = hogehoge::library::ScanPipeline::new(system.providers(), system.len());
    assert_eq!(scan.notification().progress, 0);
    let mut jobs = Vec::new();
    while let Some(job) = scan.next_job() {
        jobs.push(job);
    }
    assert_eq!(
        jobs,
        vec![
            hogehoge::library::ScanJob::Prepare(PluginId(1)),
            hogehoge::library::ScanJob::Prepare(PluginId(2)),
            hogehoge::library::ScanJob::Prepare(PluginId(3)),
        ]
    );
    assert!(!scan.is_complete());
    for job in jobs.into_iter().rev() {
        let hogehoge::library::ScanJob::Prepare(id) = job else { unreachable!() };
        let mut handle = ready(system.get_plugin(id).unwrap());
        let outcome = prepare_scan(&mut handle);
        system.release(handle);
        assert!(scan.next_job().is_none());
        assert!(scan.prepared(id, outcome));
    }
    assert!(!scan.prepared(PluginId(1), Err(ScanSkip::NotAProvider)));
    assert_eq!(scan.notification().progress, 7_500);

    let mut imports = Vec::new();
    let mut started = Vec::new();
    while let Some(job) = scan.next_job() {
        assert_eq!(scan.notification().stage, hogehoge::library::ScanStage::Scanning);
        started.push(job);
    }
    assert_eq!(started.len(), 5);
    assert_eq!(
        started[0],
        hogehoge::library::ScanJob::Scan(PluginId(3), PluginTrackIdentifier(b"x".to_vec()))
    );
    assert_eq!(
        started[4],
        hogehoge::library::ScanJob::Scan(PluginId(1), PluginTrackIdentifier(b"b".to_vec()))
    );
    assert_eq!(scan.notification().progress, 10_000);
    assert!(!scan.finish());
    for job in started {
        let hogehoge::library::ScanJob::Scan(id, track) = job else { unreachable!() };
        let mut handle = ready(system.get_plugin(id).unwrap());
        let outcome = scan_track(&mut handle, track);
        system.release(handle);
        imports.extend(scan.scanned(outcome));
    }
    assert!(scan.scanned(Err(hogehoge::library::FailedScan {
        track: PluginTrackIdentifier(vec![]),
        error: PluginError::InvalidResponse("scan".to_string()),
    }))
    .is_none());
    assert_eq!(scan.notification().progress, 100_000);
    assert!(!scan.notification().is_done);
    assert!(scan.is_complete());
    assert!(scan.next_job().is_none());
    assert!(scan.finish());
    assert!(scan.notification().is_done);
    assert_eq!((scan.imported, scan.failed), (3, 2));
    assert_eq!(imports.len(), 3);
    let titles: Vec<_> = imports.iter().map(|i| i.scan.tags.track_title.as_str()).collect();
    assert_eq!(titles, vec!["Y", "T1", "T2"]);
    assert_eq!(imports[0].identifier, track(3, b"y"));
}

#[test]
fn a_pool_is_enrolled_under_the_number_of_its_plugin() {
    let mut system = PluginSystem::new();
    let mut db = hogehoge::db::database::Database::new();
    let first = PluginPool::try_new(provider(0x11)).unwrap();
    assert_eq!(first.id, PluginId(0));
    assert_eq!(system.enroll(&mut db, first), Ok(PluginId(1)));
    let second = PluginPool::try_new(decoder(0x22, true, &[0.25])).unwrap();
    assert_eq!(system.enroll(&mut db, second), Ok(PluginId(2)));
    assert_eq!(system.pools[0].id, PluginId(1));
    assert_eq!(system.pools[1].id, PluginId(2));
    assert_eq!(system.providers(), vec![PluginId(1)]);
    assert_eq!(system.decoders(), vec![PluginId(2)]);

    let again = PluginPool::try_new(decoder(0x11, false, &[0.25])).unwrap();
    assert_eq!(system.enroll(&mut db, again), Ok(PluginId(1)));
    assert_eq!(system.len(), 2);
    assert_eq!(system.pools[0].id, PluginId(1));
    assert_eq!(system.pools[0].idle_count(), 1);
    assert_eq!(system.providers(), Vec::<PluginId>::new());
    assert_eq!(system.decoders(), vec![PluginId(1), PluginId(2)]);
    assert_eq!(db.plugins.len(), 2);
    assert_eq!(db.get_plugin_id(0x11), Some(PluginId(1)));
}

#[test]
fn a_plugin_that_cannot_say_what_it_is_stays_out() {
    let mut system = PluginSystem::new();
    let mut db = hogehoge::db::database::Database::new();
    let failing = plugin(&[Export::Failing("get_metadata")]);
    match system.install(&mut db, failing) {
        Err(hogehoge::registry::InstallError::Plugin(PluginError::FunctionCallError(name, _))) => {
            assert_eq!(name, "get_metadata")
        }
        other => panic!("{other:?}"),
    }
    let garbled = plugin(&[Export::Fixed("get_metadata", vec![0xc0])]);
    match system.install(&mut db, garbled) {
        Err(hogehoge::registry::InstallError::Plugin(PluginError::InvalidResponse(name))) => {
            assert_eq!(name, "get_metadata")
        }
        other => panic!("{other:?}"),
    }
    let silent = plugin(&[Export::Fixed("decode_block", vec![0xc0])]);
    match system.install(&mut db, silent) {
        Err(hogehoge::registry::InstallError::Plugin(PluginError::MissingRequiredFunction(name))) => {
            assert_eq!(name, "get_metadata")
        }
        other => panic!("{other:?}"),
    }
    assert_eq!(system.len(), 0);
    assert_eq!(db.plugins.len(), 0);
}

#[test]
fn a_session_gets_a_random_identifier() {
    let a = hogehoge::media::PlaybackId::new();
    let b = hogehoge::media::PlaybackId::new();
    for id in [a, b] {
        assert_eq!((id.0 >> 76) & 0xf, 4);
        assert_eq!((id.0 >> 62) & 0x3, 2);
        assert_eq!(uuid::Uuid::from_u128(id.0).get_version_num(), 4);
    }
    assert_ne!(a, b);
}

#[test]
fn a_pool_keeps_what_its_plugin_said() {
    let mut instance = PluginInstance::from_loaded(decoder(0xabc, true, &[0.5])).unwrap();
    let metadata = instance.get_metadata().unwrap();
    let pool = PluginPool::around(instance, metadata);
    assert_eq!(pool.metadata.name, "Decoder");
    assert_eq!(pool.metadata.uuid, 0xabc);
    assert!(pool.metadata.decode_serialization_required);
    assert_eq!(pool.id, PluginId(0));
    assert_eq!(pool.idle_count(), 1);
    assert_eq!(pool.capabilities, PluginCapabilities { provide_tracks: false, decode: true });

    let made_up = hogehoge::messages::PluginMetadata {
        name: "Other".to_string(),
        uuid: 7,
        description: None,
        author: None,
        fs_mounts: Vec::new(),
        decode_serialization_required: false,
    };
    let pool = PluginPool::around(PluginInstance::from_loaded(provider(1)).unwrap(), made_up);
    assert_eq!(pool.metadata.name, "Other");
    assert_eq!(pool.metadata.uuid, 7);
    assert_eq!(pool.capabilities, PluginCapabilities { provide_tracks: true, decode: false });
}
