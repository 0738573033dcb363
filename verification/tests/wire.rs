use hogehoge::ident::PluginTrackIdentifier;
use hogehoge::media::{AudioBlock, AudioFile, PlaybackId, TimeSpan};
use hogehoge::messages::{
    decode_audio_file, decode_init_decoding_result, decode_metadata, decode_opt_audio_block,
    decode_prepared_scan, decode_scan_result, encode_init_decoding_args, encode_playback_id,
    encode_track_identifier, encode_unit, FsMount, InitDecodingArgs, InitDecodingResult,
    PluginMetadata,
};
use hogehoge::tags::{TagKind, Tags, TAG_COUNT};
use hogehoge::wire::{
    put_bin, put_bool, put_f32, put_id, put_len, put_nil, put_str, put_uint, read_bin, read_bool,
    read_f32, read_id, read_len, read_str, read_uint, Family,
};
use hogehoge::wire_tags::{decode_tags, encode_tags};
use std::collections::BTreeMap;

fn key(out: &mut Vec<u8>, name: &str) {
    rmp::encode::write_str(out, name).unwrap();
}

fn opt_str(out: &mut Vec<u8>, value: Option<&str>) {
    match value {
        Some(text) => rmp::encode::write_str(out, text).unwrap(),
        None => rmp::encode::write_nil(out).unwrap(),
    }
}

fn reference_tags(tags: &Tags) -> Vec<u8> {
    let mut out = Vec::new();
    rmp::encode::write_map_len(&mut out, TAG_COUNT as u32).unwrap();
    for index in 0..TAG_COUNT {
        let kind = TagKind::from_index(index).unwrap();
        key(&mut out, kind.name());
        match tags.get(kind).0 {
            None => rmp::encode::write_nil(&mut out).unwrap(),
            Some(hogehoge::tags::TagValueKind::String(text)) => {
                rmp::encode::write_str(&mut out, &text).unwrap()
            }
            Some(hogehoge::tags::TagValueKind::Uuid(id)) => {
                rmp::encode::write_bin(&mut out, &id.to_be_bytes()).unwrap()
            }
            Some(hogehoge::tags::TagValueKind::Float(bits)) => {
                rmp::encode::write_f32(&mut out, f32::from_bits(bits)).unwrap()
            }
        }
    }
    out
}

fn sample_tags() -> Tags {
    let mut tags = Tags::new("Sound and Vision".to_string());
    tags.album_title = Some("Low".to_string());
    tags.track_artist = Some("David Bowie".to_string());
    tags.musicbrainz_track_id = Some(0x0123_4567_89ab_cdef_0011_2233_4455_6677);
    tags.bpm = Some(120.5f32.to_bits());
    tags.comment = Some("x".repeat(300));
    tags.lyrics = Some("ß→♪ ".repeat(20_000));
    tags.podcast_keywords = Some(String::new());
    tags
}

#[test]
fn unsigned_integers_take_the_shortest_form() {
    for value in [0u64, 1, 127, 128, 255, 256, 65_535, 65_536, u32::MAX as u64, u32::MAX as u64 + 1, u64::MAX] {
        let mut mine = Vec::new();
        put_uint(&mut mine, value);
        let mut theirs = Vec::new();
        rmp::encode::write_uint(&mut theirs, value).unwrap();
        assert_eq!(mine, theirs, "{value}");
        assert_eq!(read_uint(&mine, 0), Some((value, mine.len())));
    }
}

#[test]
fn unsigned_integers_are_read_in_any_form() {
    assert_eq!(read_uint(&[0xcc, 0x05], 0), Some((5, 2)));
    assert_eq!(read_uint(&[0xcd, 0x00, 0x05], 0), Some((5, 3)));
    assert_eq!(read_uint(&[0xce, 0, 0, 1, 0], 0), Some((256, 5)));
    assert_eq!(read_uint(&[0xcf, 0, 0, 0, 0, 0, 0, 0, 7], 0), Some((7, 9)));
    assert_eq!(read_uint(&[0xcf, 0, 0, 0], 0), None);
    assert_eq!(read_uint(&[0xc0], 0), None);
    assert_eq!(read_uint(&[0xff], 0), None);
    assert_eq!(read_uint(&[], 0), None);
    assert_eq!(read_uint(&[1, 2, 3], 2), Some((3, 3)));
    assert_eq!(read_uint(&[1, 2, 3], 3), None);
}

#[test]
fn lengths_take_the_shortest_header() {
    for len in [0u32, 1, 15, 16, 31, 32, 255, 256, 65_535, 65_536, u32::MAX] {
        let mut mine = Vec::new();
        put_len(&mut mine, Family::Text, len);
        let mut theirs = Vec::new();
        rmp::encode::write_str_len(&mut theirs, len).unwrap();
        assert_eq!(mine, theirs);
        assert_eq!(read_len(Family::Text, &mine, 0), Some((len, mine.len())));

        let mut mine = Vec::new();
        put_len(&mut mine, Family::Bytes, len);
        let mut theirs = Vec::new();
        rmp::encode::write_bin_len(&mut theirs, len).unwrap();
        assert_eq!(mine, theirs);
        assert_eq!(read_len(Family::Bytes, &mine, 0), Some((len, mine.len())));

        let mut mine = Vec::new();
        put_len(&mut mine, Family::List, len);
        let mut theirs = Vec::new();
        rmp::encode::write_array_len(&mut theirs, len).unwrap();
        assert_eq!(mine, theirs);
        assert_eq!(read_len(Family::List, &mine, 0), Some((len, mine.len())));

        let mut mine = Vec::new();
        put_len(&mut mine, Family::Table, len);
        let mut theirs = Vec::new();
        rmp::encode::write_map_len(&mut theirs, len).unwrap();
        assert_eq!(mine, theirs);
        assert_eq!(read_len(Family::Table, &mine, 0), Some((len, mine.len())));
    }
    assert_eq!(read_len(Family::Text, &[0x91], 0), None);
    assert_eq!(read_len(Family::List, &[0xa1], 0), None);
}

#[test]
fn scalars_are_written_as_messagepack_writes_them() {
    let mut mine = Vec::new();
    put_nil(&mut mine);
    put_bool(&mut mine, true);
    put_bool(&mut mine, false);
    put_f32(&mut mine, 1.5f32.to_bits());
    put_f32(&mut mine, f32::NAN.to_bits());
    let mut theirs = Vec::new();
    rmp::encode::write_nil(&mut theirs).unwrap();
    rmp::encode::write_bool(&mut theirs, true).unwrap();
    rmp::encode::write_bool(&mut theirs, false).unwrap();
    rmp::encode::write_f32(&mut theirs, 1.5).unwrap();
    rmp::encode::write_f32(&mut theirs, f32::NAN).unwrap();
    assert_eq!(mine, theirs);
    assert_eq!(read_bool(&mine, 1), Some((true, 2)));
    assert_eq!(read_bool(&mine, 2), Some((false, 3)));
    assert_eq!(read_bool(&mine, 0), None);
    assert_eq!(read_f32(&mine, 3), Some((1.5f32.to_bits(), 8)));
    assert_eq!(read_f32(&mine, 8), Some((f32::NAN.to_bits(), 13)));
    assert_eq!(read_f32(&mine, 9), None);
}

#[test]
fn text_and_bytes_round_trip() {
    for text in ["", "a", "héllo wörld", &"long ".repeat(100), &"ж".repeat(40_000)] {
        let mut mine = Vec::new();
        assert!(put_str(&mut mine, text));
        let mut theirs = Vec::new();
        rmp::encode::write_str(&mut theirs, text).unwrap();
        assert_eq!(mine, theirs);
        assert_eq!(read_str(&mine, 0), Some((text.to_string(), mine.len())));
    }
    for bytes in [&b""[..], &[0u8, 255, 7][..], &[9u8; 70_000][..]] {
        let mut mine = Vec::new();
        assert!(put_bin(&mut mine, bytes));
        let mut theirs = Vec::new();
        rmp::encode::write_bin(&mut theirs, bytes).unwrap();
        assert_eq!(mine, theirs);
        assert_eq!(read_bin(&mine, 0), Some((bytes.to_vec(), mine.len())));
    }
}

#[test]
fn text_that_is_not_utf8_is_no_text() {
    assert_eq!(read_str(&[0xa2, 0xc3, 0x28], 0), None);
    assert_eq!(read_str(&[0xa2, b'o'], 0), None);
    assert_eq!(read_str(&[0xa2, b'o', b'k'], 0), Some(("ok".to_string(), 3)));
    assert_eq!(read_bin(&[0xc4, 3, 1, 2], 0), None);
}

#[test]
fn identifiers_are_sixteen_bytes_most_significant_first() {
    let id = 0x0011_2233_4455_6677_8899_aabb_ccdd_eeffu128;
    let mut mine = Vec::new();
    put_id(&mut mine, id);
    let theirs = rmp_serde::to_vec(&uuid::Uuid::from_u128(id)).unwrap();
    assert_eq!(mine, theirs);
    assert_eq!(read_id(&mine, 0), Some((id, 18)));
    assert_eq!(read_id(&[0xc4, 2, 0, 0], 0), None);
    assert_eq!(encode_playback_id(PlaybackId(id)), theirs);
}

#[test]
fn tags_round_trip() {
    let tags = sample_tags();
    let bytes = encode_tags(&tags).unwrap();
    assert_eq!(bytes, reference_tags(&tags));
    let back = decode_tags(&bytes).unwrap();
    assert_eq!(back, tags);
    assert_eq!(encode_tags(&back).unwrap(), bytes);
}

#[test]
fn tags_with_only_a_title_round_trip() {
    let tags = Tags::new(String::new());
    let bytes = encode_tags(&tags).unwrap();
    assert_eq!(bytes, reference_tags(&tags));
    assert_eq!(decode_tags(&bytes), Some(tags));
}

#[test]
fn tags_are_strict_about_their_form() {
    let tags = sample_tags();
    let bytes = encode_tags(&tags).unwrap();
    let mut longer = bytes.clone();
    longer.push(0xc0);
    assert_eq!(decode_tags(&longer), None);
    assert_eq!(decode_tags(&bytes[..bytes.len() - 1]), None);
    assert_eq!(decode_tags(&[]), None);
    let mut renamed = bytes.clone();
    let at = renamed.windows(5).position(|w| w == b"track").unwrap();
    renamed[at] = b'T';
    assert_eq!(decode_tags(&renamed), None);
    let mut untitled = Vec::new();
    rmp::encode::write_map_len(&mut untitled, TAG_COUNT as u32).unwrap();
    for index in 0..TAG_COUNT {
        key(&mut untitled, TagKind::from_index(index).unwrap().name());
        rmp::encode::write_nil(&mut untitled).unwrap();
    }
    assert_eq!(decode_tags(&untitled), None);
}

#[test]
fn scan_result_wraps_tags() {
    let tags = sample_tags();
    let mut bytes = Vec::new();
    rmp::encode::write_map_len(&mut bytes, 1).unwrap();
    key(&mut bytes, "tags");
    bytes.extend(reference_tags(&tags));
    assert_eq!(decode_scan_result(&bytes).map(|scan| scan.tags), Some(tags));
    assert_eq!(decode_scan_result(&bytes[1..]), None);
}

#[test]
fn metadata_are_decoded() {
    let mut bytes = Vec::new();
    rmp::encode::write_map_len(&mut bytes, 6).unwrap();
    key(&mut bytes, "name");
    rmp::encode::write_str(&mut bytes, "Filesystem").unwrap();
    key(&mut bytes, "uuid");
    rmp::encode::write_bin(&mut bytes, &0xc2940863_8121_447e_ae25_499a809c361eu128.to_be_bytes())
        .unwrap();
    key(&mut bytes, "description");
    opt_str(&mut bytes, Some("Load tracks from the local filesystem"));
    key(&mut bytes, "author");
    opt_str(&mut bytes, None);
    key(&mut bytes, "fs_mounts");
    rmp::encode::write_array_len(&mut bytes, 2).unwrap();
    for (path, text) in [("/music", "Music files"), ("/covers", "")] {
        rmp::encode::write_map_len(&mut bytes, 2).unwrap();
        key(&mut bytes, "internal_path");
        rmp::encode::write_str(&mut bytes, path).unwrap();
        key(&mut bytes, "description");
        rmp::encode::write_str(&mut bytes, text).unwrap();
    }
    key(&mut bytes, "decode_serialization_required");
    rmp::encode::write_bool(&mut bytes, true).unwrap();
    assert_eq!(
        decode_metadata(&bytes),
        Some(PluginMetadata {
            name: "Filesystem".to_string(),
            uuid: 0xc2940863_8121_447e_ae25_499a809c361e,
            description: Some("Load tracks from the local filesystem".to_string()),
            author: None,
            fs_mounts: vec![
                FsMount { internal_path: "/music".to_string(), description: "Music files".to_string() },
                FsMount { internal_path: "/covers".to_string(), description: String::new() },
            ],
            decode_serialization_required: true,
        })
    );
    let last = bytes.len() - 1;
    bytes[last] = 0xc0;
    assert_eq!(decode_metadata(&bytes), None);
}

#[test]
fn prepared_scan_lists_identifiers() {
    let mut bytes = Vec::new();
    rmp::encode::write_map_len(&mut bytes, 1).unwrap();
    key(&mut bytes, "tracks");
    rmp::encode::write_array_len(&mut bytes, 3).unwrap();
    for id in [&b"a"[..], &b""[..], &[0xffu8, 0x00][..]] {
        rmp::encode::write_bin(&mut bytes, id).unwrap();
    }
    let scan = decode_prepared_scan(&bytes).unwrap();
    assert_eq!(
        scan.tracks,
        vec![
            PluginTrackIdentifier(b"a".to_vec()),
            PluginTrackIdentifier(Vec::new()),
            PluginTrackIdentifier(vec![0xff, 0x00]),
        ]
    );
    bytes.truncate(bytes.len() - 1);
    assert_eq!(decode_prepared_scan(&bytes), None);
}

#[test]
fn audio_file_round_trips_through_the_arguments() {
    let file = AudioFile { data: vec![1, 2, 3, 4], format_hint: Some("flac".to_string()) };
    let mut expected = Vec::new();
    rmp::encode::write_map_len(&mut expected, 2).unwrap();
    key(&mut expected, "data");
    rmp::encode::write_bin(&mut expected, &[1, 2, 3, 4]).unwrap();
    key(&mut expected, "format_hint");
    rmp::encode::write_str(&mut expected, "flac").unwrap();
    assert_eq!(decode_audio_file(&expected), Some(file.clone()));

    let args = InitDecodingArgs { playback_id: PlaybackId(5), file, gapless: true };
    let mut wrapped = Vec::new();
    rmp::encode::write_map_len(&mut wrapped, 3).unwrap();
    key(&mut wrapped, "playback_id");
    rmp::encode::write_bin(&mut wrapped, &5u128.to_be_bytes()).unwrap();
    key(&mut wrapped, "file");
    wrapped.extend(&expected);
    key(&mut wrapped, "gapless");
    rmp::encode::write_bool(&mut wrapped, true).unwrap();
    assert_eq!(encode_init_decoding_args(&args), Some(wrapped));

    let hintless = AudioFile { data: Vec::new(), format_hint: None };
    let mut bytes = Vec::new();
    rmp::encode::write_map_len(&mut bytes, 2).unwrap();
    key(&mut bytes, "data");
    rmp::encode::write_bin(&mut bytes, &[]).unwrap();
    key(&mut bytes, "format_hint");
    rmp::encode::write_nil(&mut bytes).unwrap();
    assert_eq!(decode_audio_file(&bytes), Some(hintless));
}

#[test]
fn init_decoding_result_carries_an_optional_duration() {
    let mut bytes = Vec::new();
    rmp::encode::write_map_len(&mut bytes, 1).unwrap();
    key(&mut bytes, "duration");
    rmp::encode::write_nil(&mut bytes).unwrap();
    assert_eq!(decode_init_decoding_result(&bytes), Some(InitDecodingResult { duration: None }));

    let mut bytes = Vec::new();
    rmp::encode::write_map_len(&mut bytes, 1).unwrap();
    key(&mut bytes, "duration");
    rmp::encode::write_map_len(&mut bytes, 2).unwrap();
    key(&mut bytes, "secs");
    rmp::encode::write_uint(&mut bytes, 215).unwrap();
    key(&mut bytes, "nanos");
    rmp::encode::write_uint(&mut bytes, 500_000_000).unwrap();
    assert_eq!(
        decode_init_decoding_result(&bytes),
        Some(InitDecodingResult { duration: Some(TimeSpan { secs: 215, nanos: 500_000_000 }) })
    );
    assert_eq!(
        bytes,
        rmp_serde::to_vec_named(&Some(std::time::Duration::new(215, 500_000_000)))
            .map(|inner| {
                let mut all = vec![0x81];
                key(&mut all, "duration");
                all.extend(inner);
                all
            })
            .unwrap()
    );
}

#[test]
fn audio_blocks_and_the_end_of_stream() {
    assert_eq!(decode_opt_audio_block(&[0xc0]), Some(None));
    assert_eq!(decode_opt_audio_block(&[0xc0, 0xc0]), None);
    assert_eq!(decode_opt_audio_block(&[]), None);
    let samples = [0.0f32, -1.0, 0.25, 1.0];
    let mut bytes = Vec::new();
    rmp::encode::write_map_len(&mut bytes, 3).unwrap();
    key(&mut bytes, "samples");
    rmp::encode::write_array_len(&mut bytes, samples.len() as u32).unwrap();
    for sample in samples {
        rmp::encode::write_f32(&mut bytes, sample).unwrap();
    }
    key(&mut bytes, "sample_rate");
    rmp::encode::write_uint(&mut bytes, 48_000).unwrap();
    key(&mut bytes, "channel_count");
    rmp::encode::write_uint(&mut bytes, 2).unwrap();
    assert_eq!(
        decode_opt_audio_block(&bytes),
        Some(Some(AudioBlock {
            samples: samples.iter().map(|s| s.to_bits()).collect(),
            sample_rate: 48_000,
            channel_count: 2,
        }))
    );
    let last = bytes.len() - 1;
    bytes[last] = 0xcd;
    bytes.extend([0xff, 0xff]);
    assert!(decode_opt_audio_block(&bytes).is_some());
    let at = bytes.len() - 3;
    bytes[at] = 0xce;
    bytes.extend([0xff, 0xff]);
    assert_eq!(decode_opt_audio_block(&bytes), None);
}

#[test]
fn small_messages() {
    assert_eq!(encode_unit(), vec![0xc0]);
    assert_eq!(
        encode_track_identifier(&PluginTrackIdentifier(b"a".to_vec())),
        Some(vec![0xc4, 0x01, b'a'])
    );
}

#[test]
fn the_serde_codec_reads_what_is_written() {
    let id = 0x0123_4567_89ab_cdef_0011_2233_4455_6677u128;
    let read: serde_bytes::ByteBuf =
        rmp_serde::from_slice(&encode_playback_id(PlaybackId(id))).unwrap();
    assert_eq!(read.into_vec(), id.to_be_bytes().to_vec());

    let track = PluginTrackIdentifier(vec![1, 2, 3, 255]);
    let read: serde_bytes::ByteBuf =
        rmp_serde::from_slice(&encode_track_identifier(&track).unwrap()).unwrap();
    assert_eq!(read.into_vec(), vec![1, 2, 3, 255]);

    let unit: () = rmp_serde::from_slice(&encode_unit()).unwrap();
    assert_eq!(unit, ());

    let mut tags = Tags::new("Low".to_string());
    tags.genre = Some("rock".to_string());
    let read: BTreeMap<String, Option<String>> =
        rmp_serde::from_slice(&encode_tags(&tags).unwrap()).unwrap();
    assert_eq!(read.len(), TAG_COUNT);
    assert_eq!(read[TagKind::TrackTitle.name()], Some("Low".to_string()));
    assert_eq!(read[TagKind::Genre.name()], Some("rock".to_string()));
    assert_eq!(read.values().filter(|value| value.is_some()).count(), 2);
}

#[test]
fn what_the_serde_codec_writes_is_read() {
    let mut offer = BTreeMap::new();
    offer.insert(
        "tracks",
        vec![serde_bytes::ByteBuf::from(vec![1u8, 2]), serde_bytes::ByteBuf::from(Vec::new())],
    );
    let prepared = decode_prepared_scan(&rmp_serde::to_vec(&offer).unwrap()).unwrap();
    assert_eq!(
        prepared.tracks,
        vec![PluginTrackIdentifier(vec![1, 2]), PluginTrackIdentifier(Vec::new())]
    );

    let end = rmp_serde::to_vec(&Option::<u8>::None).unwrap();
    assert_eq!(decode_opt_audio_block(&end), Some(None));

    let mut file = BTreeMap::new();
    file.insert("data", Some(serde_bytes::ByteBuf::from(vec![9u8, 8, 7])));
    file.insert("format_hint", None);
    let read = decode_audio_file(&rmp_serde::to_vec(&file).unwrap()).unwrap();
    assert_eq!(read, AudioFile { data: vec![9, 8, 7], format_hint: None });
}
