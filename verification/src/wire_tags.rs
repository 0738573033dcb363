//! Tags on the wire: a map of every kind of tag, in the fixed order of the kinds, each under
//! the name of its field.

use crate::tags::{
    lemma_from_index_roundtrip, lemma_index_roundtrip, lemma_values_fit, lemma_view_at, TagKind,
    TagShape, TagValue, TagValueKind, TagValueView, Tags, TAG_COUNT,
};
use crate::wire::{
    dec_exact, dec_f32, dec_key, dec_id, dec_str, enc_f32, enc_id, enc_len, enc_str, lemma_f32_roundtrip,
    expect_key, expect_table, is_nil, lemma_id_roundtrip, lemma_starts_with_self,
    lemma_starts_with_split, lemma_str_roundtrip, nil_at, put_f32, put_id, put_len, put_nil,
    put_str, read_f32, read_id, read_str, starts_with_at, Family, MAX_LEN, NIL,
};
use vstd::prelude::*;
use vstd::utf8::*;

verus! {

/// The kind at a position of the fixed order.
pub open spec fn kind_at(i: int) -> TagKind {
    TagKind::spec_from_index(i).unwrap()
}

/// One value on the wire: nil where there is none.
pub open spec fn enc_value(v: TagValueView) -> Seq<u8> {
    match v {
        TagValueView::Absent => seq![NIL],
        TagValueView::Text(s) => enc_str(s),
        TagValueView::Id(u) => enc_id(u as int),
        TagValueView::Number(bits) => enc_f32(bits as int),
    }
}

/// The value of the given shape at `pos`, and where it ends.
pub open spec fn dec_value(shape: TagShape, b: Seq<u8>, pos: int) -> Option<(TagValueView, int)> {
    if !(shape is Title) && nil_at(b, pos) {
        Some((TagValueView::Absent, pos + 1))
    } else {
        match shape {
            TagShape::Title | TagShape::Text => match dec_str(b, pos) {
                Some((s, p)) => Some((TagValueView::Text(s), p)),
                None => None,
            },
            TagShape::Id => match dec_id(b, pos) {
                Some((u, p)) => Some((TagValueView::Id(u as u128), p)),
                None => None,
            },
            TagShape::Number => match dec_f32(b, pos) {
                Some((bits, p)) => Some((TagValueView::Number(bits as u32), p)),
                None => None,
            },
        }
    }
}

/// Whether a value can be written: its text, if it is text, is not too long to state.
pub open spec fn value_encodable(v: TagValueView) -> bool {
    v matches TagValueView::Text(s) ==> encode_utf8(s).len() <= MAX_LEN
}

/// One entry of the map: the name of the field, then its value.
pub open spec fn enc_field(kind: TagKind, v: TagValueView) -> Seq<u8> {
    enc_str(kind.spec_name()) + enc_value(v)
}

/// The value of the field `kind` at `pos`, and where the entry ends.
pub open spec fn dec_field(kind: TagKind, b: Seq<u8>, pos: int) -> Option<(TagValueView, int)> {
    match dec_exact(b, pos, enc_str(kind.spec_name())) {
        Some(p) => dec_value(kind.shape(), b, p),
        None => None,
    }
}

/// The first `k` entries of the map.
pub open spec fn enc_fields(t: Seq<TagValueView>, k: nat) -> Seq<u8>
    decreases k,
{
    if k == 0 {
        Seq::empty()
    } else {
        enc_fields(t, (k - 1) as nat) + enc_field(kind_at(k - 1), t[k - 1])
    }
}

/// The values of the first `k` entries that stand from `pos` on, and where they end.
pub open spec fn dec_fields(b: Seq<u8>, pos: int, k: nat) -> Option<(Seq<TagValueView>, int)>
    decreases k,
{
    if k == 0 {
        Some((Seq::empty(), pos))
    } else {
        match dec_fields(b, pos, (k - 1) as nat) {
            Some((values, p)) => match dec_field(kind_at(k - 1), b, p) {
                Some((v, q)) => Some((values.push(v), q)),
                None => None,
            },
            None => None,
        }
    }
}

/// The tags of one track on the wire.
pub open spec fn enc_tags(t: Seq<TagValueView>) -> Seq<u8> {
    enc_len(Family::Table, TAG_COUNT as int) + enc_fields(t, TAG_COUNT as nat)
}

/// The tags that stand at `pos`, and where they end.
pub open spec fn dec_tags(b: Seq<u8>, pos: int) -> Option<(Seq<TagValueView>, int)> {
    match dec_exact(b, pos, enc_len(Family::Table, TAG_COUNT as int)) {
        Some(p) => dec_fields(b, p, TAG_COUNT as nat),
        None => None,
    }
}

/// Whether tags can be written: no text among them is too long to state.
pub open spec fn tags_encodable(t: Seq<TagValueView>) -> bool {
    forall|i: int| 0 <= i < t.len() ==> value_encodable(#[trigger] t[i])
}

/// The UTF-8 form of text has at most four bytes for each character.
pub proof fn lemma_utf8_len_bound(chars: Seq<char>)
    ensures
        encode_utf8(chars).len() <= 4 * chars.len(),
    decreases chars.len(),
{
    if chars.len() > 0 {
        lemma_utf8_len_bound(chars.drop_first());
    }
}

/// The name of every field is short enough to be written.
pub proof fn lemma_name_short(kind: TagKind)
    ensures
        encode_utf8(kind.spec_name()).len() <= 0xff,
{
    match kind {
        TagKind::TrackTitle => {
            reveal_strlit("track_title");
            lemma_utf8_len_bound("track_title"@);
        },
        TagKind::MusicbrainzWorkId => {
            reveal_strlit("musicbrainz_work_id");
            lemma_utf8_len_bound("musicbrainz_work_id"@);
        },
        TagKind::MusicbrainzTrackId => {
            reveal_strlit("musicbrainz_track_id");
            lemma_utf8_len_bound("musicbrainz_track_id"@);
        },
        TagKind::MusicbrainzRecordingId => {
            reveal_strlit("musicbrainz_recording_id");
            lemma_utf8_len_bound("musicbrainz_recording_id"@);
        },
        TagKind::TrackSubtitle => {
            reveal_strlit("track_subtitle");
            lemma_utf8_len_bound("track_subtitle"@);
        },
        TagKind::TrackTitleSortOrder => {
            reveal_strlit("track_title_sort_order");
            lemma_utf8_len_bound("track_title_sort_order"@);
        },
        TagKind::Comment => {
            reveal_strlit("comment");
            lemma_utf8_len_bound("comment"@);
        },
        TagKind::Description => {
            reveal_strlit("description");
            lemma_utf8_len_bound("description"@);
        },
        TagKind::Language => {
            reveal_strlit("language");
            lemma_utf8_len_bound("language"@);
        },
        TagKind::Script => {
            reveal_strlit("script");
            lemma_utf8_len_bound("script"@);
        },
        TagKind::Lyrics => {
            reveal_strlit("lyrics");
            lemma_utf8_len_bound("lyrics"@);
        },
        TagKind::AlbumTitle => {
            reveal_strlit("album_title");
            lemma_utf8_len_bound("album_title"@);
        },
        TagKind::SetSubtitle => {
            reveal_strlit("set_subtitle");
            lemma_utf8_len_bound("set_subtitle"@);
        },
        TagKind::MusicbrainzReleaseId => {
            reveal_strlit("musicbrainz_release_id");
            lemma_utf8_len_bound("musicbrainz_release_id"@);
        },
        TagKind::OriginalAlbumTitle => {
            reveal_strlit("original_album_title");
            lemma_utf8_len_bound("original_album_title"@);
        },
        TagKind::AlbumTitleSortOrder => {
            reveal_strlit("album_title_sort_order");
            lemma_utf8_len_bound("album_title_sort_order"@);
        },
        TagKind::AlbumArtist => {
            reveal_strlit("album_artist");
            lemma_utf8_len_bound("album_artist"@);
        },
        TagKind::MusicbrainzReleaseArtistId => {
            reveal_strlit("musicbrainz_release_artist_id");
            lemma_utf8_len_bound("musicbrainz_release_artist_id"@);
        },
        TagKind::ContentGroup => {
            reveal_strlit("content_group");
            lemma_utf8_len_bound("content_group"@);
        },
        TagKind::MusicbrainzReleaseGroupId => {
            reveal_strlit("musicbrainz_release_group_id");
            lemma_utf8_len_bound("musicbrainz_release_group_id"@);
        },
        TagKind::TrackArtist => {
            reveal_strlit("track_artist");
            lemma_utf8_len_bound("track_artist"@);
        },
        TagKind::TrackArtists => {
            reveal_strlit("track_artists");
            lemma_utf8_len_bound("track_artists"@);
        },
        TagKind::MusicbrainzArtistId => {
            reveal_strlit("musicbrainz_artist_id");
            lemma_utf8_len_bound("musicbrainz_artist_id"@);
        },
        TagKind::OriginalArtist => {
            reveal_strlit("original_artist");
            lemma_utf8_len_bound("original_artist"@);
        },
        TagKind::AlbumArtistSortOrder => {
            reveal_strlit("album_artist_sort_order");
            lemma_utf8_len_bound("album_artist_sort_order"@);
        },
        TagKind::TrackArtistSortOrder => {
            reveal_strlit("track_artist_sort_order");
            lemma_utf8_len_bound("track_artist_sort_order"@);
        },
        TagKind::ShowName => {
            reveal_strlit("show_name");
            lemma_utf8_len_bound("show_name"@);
        },
        TagKind::ShowNameSortOrder => {
            reveal_strlit("show_name_sort_order");
            lemma_utf8_len_bound("show_name_sort_order"@);
        },
        TagKind::Genre => {
            reveal_strlit("genre");
            lemma_utf8_len_bound("genre"@);
        },
        TagKind::InitialKey => {
            reveal_strlit("initial_key");
            lemma_utf8_len_bound("initial_key"@);
        },
        TagKind::Color => {
            reveal_strlit("color");
            lemma_utf8_len_bound("color"@);
        },
        TagKind::Mood => {
            reveal_strlit("mood");
            lemma_utf8_len_bound("mood"@);
        },
        TagKind::Bpm => {
            reveal_strlit("bpm");
            lemma_utf8_len_bound("bpm"@);
        },
        TagKind::AudioFileUrl => {
            reveal_strlit("audio_file_url");
            lemma_utf8_len_bound("audio_file_url"@);
        },
        TagKind::AudioSourceUrl => {
            reveal_strlit("audio_source_url");
            lemma_utf8_len_bound("audio_source_url"@);
        },
        TagKind::CommercialInformationUrl => {
            reveal_strlit("commercial_information_url");
            lemma_utf8_len_bound("commercial_information_url"@);
        },
        TagKind::CopyrightUrl => {
            reveal_strlit("copyright_url");
            lemma_utf8_len_bound("copyright_url"@);
        },
        TagKind::TrackArtistUrl => {
            reveal_strlit("track_artist_url");
            lemma_utf8_len_bound("track_artist_url"@);
        },
        TagKind::RadioStationUrl => {
            reveal_strlit("radio_station_url");
            lemma_utf8_len_bound("radio_station_url"@);
        },
        TagKind::PaymentUrl => {
            reveal_strlit("payment_url");
            lemma_utf8_len_bound("payment_url"@);
        },
        TagKind::PublisherUrl => {
            reveal_strlit("publisher_url");
            lemma_utf8_len_bound("publisher_url"@);
        },
        TagKind::DiscNumber => {
            reveal_strlit("disc_number");
            lemma_utf8_len_bound("disc_number"@);
        },
        TagKind::DiscTotal => {
            reveal_strlit("disc_total");
            lemma_utf8_len_bound("disc_total"@);
        },
        TagKind::TrackNumber => {
            reveal_strlit("track_number");
            lemma_utf8_len_bound("track_number"@);
        },
        TagKind::TrackTotal => {
            reveal_strlit("track_total");
            lemma_utf8_len_bound("track_total"@);
        },
        TagKind::Movement => {
            reveal_strlit("movement");
            lemma_utf8_len_bound("movement"@);
        },
        TagKind::MovementNumber => {
            reveal_strlit("movement_number");
            lemma_utf8_len_bound("movement_number"@);
        },
        TagKind::MovementTotal => {
            reveal_strlit("movement_total");
            lemma_utf8_len_bound("movement_total"@);
        },
        TagKind::Year => {
            reveal_strlit("year");
            lemma_utf8_len_bound("year"@);
        },
        TagKind::RecordingDate => {
            reveal_strlit("recording_date");
            lemma_utf8_len_bound("recording_date"@);
        },
        TagKind::ReleaseDate => {
            reveal_strlit("release_date");
            lemma_utf8_len_bound("release_date"@);
        },
        TagKind::OriginalReleaseDate => {
            reveal_strlit("original_release_date");
            lemma_utf8_len_bound("original_release_date"@);
        },
        TagKind::FileType => {
            reveal_strlit("file_type");
            lemma_utf8_len_bound("file_type"@);
        },
        TagKind::FileOwner => {
            reveal_strlit("file_owner");
            lemma_utf8_len_bound("file_owner"@);
        },
        TagKind::TaggingTime => {
            reveal_strlit("tagging_time");
            lemma_utf8_len_bound("tagging_time"@);
        },
        TagKind::Length => {
            reveal_strlit("length");
            lemma_utf8_len_bound("length"@);
        },
        TagKind::OriginalFileName => {
            reveal_strlit("original_file_name");
            lemma_utf8_len_bound("original_file_name"@);
        },
        TagKind::OriginalMediaType => {
            reveal_strlit("original_media_type");
            lemma_utf8_len_bound("original_media_type"@);
        },
        TagKind::EncodedBy => {
            reveal_strlit("encoded_by");
            lemma_utf8_len_bound("encoded_by"@);
        },
        TagKind::EncoderSoftware => {
            reveal_strlit("encoder_software");
            lemma_utf8_len_bound("encoder_software"@);
        },
        TagKind::EncoderSettings => {
            reveal_strlit("encoder_settings");
            lemma_utf8_len_bound("encoder_settings"@);
        },
        TagKind::EncodingTime => {
            reveal_strlit("encoding_time");
            lemma_utf8_len_bound("encoding_time"@);
        },
        TagKind::ReplayGainAlbumGain => {
            reveal_strlit("replay_gain_album_gain");
            lemma_utf8_len_bound("replay_gain_album_gain"@);
        },
        TagKind::ReplayGainAlbumPeak => {
            reveal_strlit("replay_gain_album_peak");
            lemma_utf8_len_bound("replay_gain_album_peak"@);
        },
        TagKind::ReplayGainTrackGain => {
            reveal_strlit("replay_gain_track_gain");
            lemma_utf8_len_bound("replay_gain_track_gain"@);
        },
        TagKind::ReplayGainTrackPeak => {
            reveal_strlit("replay_gain_track_peak");
            lemma_utf8_len_bound("replay_gain_track_peak"@);
        },
        TagKind::Isrc => {
            reveal_strlit("isrc");
            lemma_utf8_len_bound("isrc"@);
        },
        TagKind::Barcode => {
            reveal_strlit("barcode");
            lemma_utf8_len_bound("barcode"@);
        },
        TagKind::CatalogNumber => {
            reveal_strlit("catalog_number");
            lemma_utf8_len_bound("catalog_number"@);
        },
        TagKind::Work => {
            reveal_strlit("work");
            lemma_utf8_len_bound("work"@);
        },
        TagKind::FlagCompilation => {
            reveal_strlit("flag_compilation");
            lemma_utf8_len_bound("flag_compilation"@);
        },
        TagKind::FlagPodcast => {
            reveal_strlit("flag_podcast");
            lemma_utf8_len_bound("flag_podcast"@);
        },
        TagKind::CopyrightMessage => {
            reveal_strlit("copyright_message");
            lemma_utf8_len_bound("copyright_message"@);
        },
        TagKind::License => {
            reveal_strlit("license");
            lemma_utf8_len_bound("license"@);
        },
        TagKind::Popularimeter => {
            reveal_strlit("popularimeter");
            lemma_utf8_len_bound("popularimeter"@);
        },
        TagKind::ParentalAdvisory => {
            reveal_strlit("parental_advisory");
            lemma_utf8_len_bound("parental_advisory"@);
        },
        TagKind::Arranger => {
            reveal_strlit("arranger");
            lemma_utf8_len_bound("arranger"@);
        },
        TagKind::Writer => {
            reveal_strlit("writer");
            lemma_utf8_len_bound("writer"@);
        },
        TagKind::Composer => {
            reveal_strlit("composer");
            lemma_utf8_len_bound("composer"@);
        },
        TagKind::ComposerSortOrder => {
            reveal_strlit("composer_sort_order");
            lemma_utf8_len_bound("composer_sort_order"@);
        },
        TagKind::Conductor => {
            reveal_strlit("conductor");
            lemma_utf8_len_bound("conductor"@);
        },
        TagKind::Director => {
            reveal_strlit("director");
            lemma_utf8_len_bound("director"@);
        },
        TagKind::Engineer => {
            reveal_strlit("engineer");
            lemma_utf8_len_bound("engineer"@);
        },
        TagKind::Lyricist => {
            reveal_strlit("lyricist");
            lemma_utf8_len_bound("lyricist"@);
        },
        TagKind::OriginalLyricist => {
            reveal_strlit("original_lyricist");
            lemma_utf8_len_bound("original_lyricist"@);
        },
        TagKind::MixDj => {
            reveal_strlit("mix_dj");
            lemma_utf8_len_bound("mix_dj"@);
        },
        TagKind::MixEngineer => {
            reveal_strlit("mix_engineer");
            lemma_utf8_len_bound("mix_engineer"@);
        },
        TagKind::MusicianCredits => {
            reveal_strlit("musician_credits");
            lemma_utf8_len_bound("musician_credits"@);
        },
        TagKind::Performer => {
            reveal_strlit("performer");
            lemma_utf8_len_bound("performer"@);
        },
        TagKind::Producer => {
            reveal_strlit("producer");
            lemma_utf8_len_bound("producer"@);
        },
        TagKind::Publisher => {
            reveal_strlit("publisher");
            lemma_utf8_len_bound("publisher"@);
        },
        TagKind::Label => {
            reveal_strlit("label");
            lemma_utf8_len_bound("label"@);
        },
        TagKind::InternetRadioStationName => {
            reveal_strlit("internet_radio_station_name");
            lemma_utf8_len_bound("internet_radio_station_name"@);
        },
        TagKind::InternetRadioStationOwner => {
            reveal_strlit("internet_radio_station_owner");
            lemma_utf8_len_bound("internet_radio_station_owner"@);
        },
        TagKind::Remixer => {
            reveal_strlit("remixer");
            lemma_utf8_len_bound("remixer"@);
        },
        TagKind::PodcastDescription => {
            reveal_strlit("podcast_description");
            lemma_utf8_len_bound("podcast_description"@);
        },
        TagKind::PodcastSeriesCategory => {
            reveal_strlit("podcast_series_category");
            lemma_utf8_len_bound("podcast_series_category"@);
        },
        TagKind::PodcastUrl => {
            reveal_strlit("podcast_url");
            lemma_utf8_len_bound("podcast_url"@);
        },
        TagKind::PodcastGlobalUniqueId => {
            reveal_strlit("podcast_global_unique_id");
            lemma_utf8_len_bound("podcast_global_unique_id"@);
        },
        TagKind::PodcastKeywords => {
            reveal_strlit("podcast_keywords");
            lemma_utf8_len_bound("podcast_keywords"@);
        },
    }
}

/// A value that fits its shape is read as it was written.
pub proof fn lemma_value_roundtrip(shape: TagShape, v: TagValueView, b: Seq<u8>, pos: int)
    requires
        v.fits(shape),
        value_encodable(v),
        starts_with_at(b, pos, enc_value(v)),
    ensures
        dec_value(shape, b, pos) == Some((v, pos + enc_value(v).len())),
{
    let w = b.subrange(pos, pos + enc_value(v).len());
    assert(b[pos] == w[0]);
    match v {
        TagValueView::Absent => {},
        TagValueView::Text(s) => {
            lemma_str_roundtrip(b, pos, s);
        },
        TagValueView::Id(u) => {
            lemma_id_roundtrip(b, pos, u as int);
        },
        TagValueView::Number(bits) => {
            lemma_f32_roundtrip(b, pos, bits as int);
        },
    }
}

/// The first `k` entries are read as they were written.
pub proof fn lemma_fields_roundtrip(t: Seq<TagValueView>, b: Seq<u8>, pos: int, k: nat)
    requires
        k <= TAG_COUNT == t.len(),
        forall|i: int| 0 <= i < TAG_COUNT ==> (#[trigger] t[i]).fits(kind_at(i).shape()),
        tags_encodable(t),
        starts_with_at(b, pos, enc_fields(t, k)),
    ensures
        dec_fields(b, pos, k) == Some((t.take(k as int), pos + enc_fields(t, k).len())),
    decreases k,
{
    if k == 0 {
        assert(t.take(0) =~= Seq::empty());
    } else {
        let before = enc_fields(t, (k - 1) as nat);
        let kind = kind_at(k - 1);
        let v = t[k - 1];
        lemma_starts_with_split(b, pos, before, enc_field(kind, v));
        lemma_fields_roundtrip(t, b, pos, (k - 1) as nat);
        let p = pos + before.len();
        lemma_starts_with_split(b, p, enc_str(kind.spec_name()), enc_value(v));
        lemma_value_roundtrip(kind.shape(), v, b, p + enc_str(kind.spec_name()).len());
        assert(t.take(k as int) =~= t.take(k - 1).push(v));
    }
}

/// Tags that are written and read again are the tags that were written, and the reader
/// stops where the writer stopped.
pub proof fn lemma_tags_roundtrip(tags: Tags)
    requires
        tags_encodable(tags@),
    ensures
        dec_tags(enc_tags(tags@), 0) == Some((tags@, enc_tags(tags@).len() as int)),
{
    let t = tags@;
    let b = enc_tags(t);
    let head = enc_len(Family::Table, TAG_COUNT as int);
    lemma_starts_with_self(b);
    lemma_starts_with_split(b, 0, head, enc_fields(t, TAG_COUNT as nat));
    assert forall|i: int| 0 <= i < TAG_COUNT implies (#[trigger] t[i]).fits(kind_at(i).shape()) by {
        lemma_from_index_roundtrip(i);
        lemma_values_fit(tags, kind_at(i));
    }
    lemma_fields_roundtrip(t, b, head.len() as int, TAG_COUNT as nat);
    assert(t.take(TAG_COUNT as int) =~= t);
}

/// Once an entry cannot be read, no longer run of entries can be read either.
pub proof fn lemma_fields_fail_on(b: Seq<u8>, pos: int, k: nat, more: nat)
    requires
        k <= more,
        dec_fields(b, pos, k) is None,
    ensures
        dec_fields(b, pos, more) is None,
    decreases more,
{
    if k < more {
        lemma_fields_fail_on(b, pos, k, (more - 1) as nat);
    }
}

/// Appends one value, if it can be written.
fn put_value(out: &mut Vec<u8>, value: &TagValue) -> (done: bool)
    ensures
        done == value_encodable(value@),
        done ==> final(out)@ == old(out)@ + enc_value(value@),
{
    match &value.0 {
        None => {
            put_nil(out);
            true
        },
        Some(TagValueKind::String(s)) => put_str(out, s.as_str()),
        Some(TagValueKind::Uuid(u)) => {
            put_id(out, *u);
            true
        },
        Some(TagValueKind::Float(bits)) => {
            put_f32(out, *bits);
            true
        },
    }
}

/// Reads one value of the given shape at `pos`.
fn read_value(shape: TagShape, b: &[u8], pos: usize) -> (r: Option<(TagValue, usize)>)
    ensures
        match r {
            Some((v, p)) => dec_value(shape, b@, pos as int) == Some((v@, p as int)) && v@.fits(
                shape,
            ),
            None => dec_value(shape, b@, pos as int) is None,
        },
{
    let optional = match shape {
        TagShape::Title => false,
        _ => true,
    };
    if optional && is_nil(b, pos) {
        return Some((TagValue(None), pos + 1));
    }
    match shape {
        TagShape::Title | TagShape::Text => match read_str(b, pos) {
            Some((s, p)) => Some((TagValue(Some(TagValueKind::String(s))), p)),
            None => None,
        },
        TagShape::Id => match read_id(b, pos) {
            Some((u, p)) => Some((TagValue(Some(TagValueKind::Uuid(u))), p)),
            None => None,
        },
        TagShape::Number => match read_f32(b, pos) {
            Some((bits, p)) => Some((TagValue(Some(TagValueKind::Float(bits))), p)),
            None => None,
        },
    }
}

/// Appends the tags of one track. Where some text among them is too long to state, the
/// result is `false` and `out` holds no more than a beginning.
pub fn put_tags(out: &mut Vec<u8>, tags: &Tags) -> (done: bool)
    ensures
        done == tags_encodable(tags@),
        done ==> final(out)@ == old(out)@ + enc_tags(tags@),
{
    put_len(out, Family::Table, TAG_COUNT as u32);
    let ghost head = enc_len(Family::Table, TAG_COUNT as int);
    let mut k: usize = 0;
    while k < TAG_COUNT
        invariant
            k <= TAG_COUNT,
            out@ == old(out)@ + head + enc_fields(tags@, k as nat),
            forall|i: int| 0 <= i < k ==> value_encodable(#[trigger] tags@[i]),
        decreases TAG_COUNT - k,
    {
        let kind = TagKind::from_index(k).unwrap();
        let value = tags.get(kind);
        proof {
            lemma_from_index_roundtrip(k as int);
            lemma_view_at(*tags, kind);
            lemma_name_short(kind);
        }
        let ghost before = out@;
        let named = put_str(out, kind.name());
        assert(named);
        if !put_value(out, &value) {
            return false;
        }
        assert(out@ =~= before + enc_field(kind, tags@[k as int]));
        assert(out@ =~= old(out)@ + head + enc_fields(tags@, (k + 1) as nat));
        k += 1;
    }
    assert(tags@.len() == TAG_COUNT) by {
        lemma_view_at(*tags, TagKind::TrackTitle);
    }
    assert(final(out)@ =~= old(out)@ + enc_tags(tags@));
    true
}

/// Reads the tags of one track at `pos`.
pub fn read_tags(b: &[u8], pos: usize) -> (r: Option<(Tags, usize)>)
    ensures
        match r {
            Some((tags, p)) => dec_tags(b@, pos as int) == Some((tags@, p as int)),
            None => dec_tags(b@, pos as int) is None,
        },
{
    let start = match expect_table(b, pos, TAG_COUNT as u32) {
        Some(p) => p,
        None => {
            return None;
        },
    };
    let mut tags = Tags::new(String::new());
    let mut at: usize = start;
    let mut k: usize = 0;
    let ghost mut values: Seq<TagValueView> = Seq::empty();
    while k < TAG_COUNT
        invariant
            k <= TAG_COUNT,
            values.len() == k,
            dec_exact(b@, pos as int, enc_len(Family::Table, TAG_COUNT as int)) == Some(
                start as int,
            ),
            dec_fields(b@, start as int, k as nat) == Some((values, at as int)),
            forall|i: int| 0 <= i < k ==> tags.value(kind_at(i)) == #[trigger] values[i],
        decreases TAG_COUNT - k,
    {
        let kind = TagKind::from_index(k).unwrap();
        proof {
            lemma_from_index_roundtrip(k as int);
            lemma_name_short(kind);
            assert(dec_key(b@, at as int, kind.spec_name()) == dec_exact(
                b@,
                at as int,
                enc_str(kind.spec_name()),
            ));
        }
        let p = match expect_key(b, at, kind.name()) {
            Some(p) => p,
            None => {
                proof {
                    lemma_fields_fail_on(b@, start as int, (k + 1) as nat, TAG_COUNT as nat);
                }
                return None;
            },
        };
        let (value, q) = match read_value(kind.kind_shape(), b, p) {
            Some(found) => found,
            None => {
                proof {
                    lemma_fields_fail_on(b@, start as int, (k + 1) as nat, TAG_COUNT as nat);
                }
                return None;
            },
        };
        let ghost v = value@;
        let ghost before = tags;
        let stored = tags.set(kind, value);
        assert(stored);
        proof {
            assert forall|i: int| 0 <= i < k implies tags.value(kind_at(i)) == values[i] by {
                lemma_from_index_roundtrip(i);
                assert(kind_at(i) != kind);
                assert(before.value(kind_at(i)) == values[i]);
            }
            values = values.push(v);
        }
        at = q;
        k += 1;
    }
    proof {
        assert(tags@.len() == TAG_COUNT) by {
            lemma_view_at(tags, TagKind::TrackTitle);
        }
        assert forall|i: int| 0 <= i < TAG_COUNT implies tags@[i] == values[i] by {
            lemma_from_index_roundtrip(i);
            lemma_view_at(tags, kind_at(i));
        }
        assert(tags@ =~= values);
    }
    Some((tags, at))
}

/// The tags of one track as bytes, where they can be written.
pub fn encode_tags(tags: &Tags) -> (r: Option<Vec<u8>>)
    ensures
        match r {
            Some(bytes) => tags_encodable(tags@) && bytes@ == enc_tags(tags@),
            None => !tags_encodable(tags@),
        },
{
    let mut out: Vec<u8> = Vec::new();
    if put_tags(&mut out, tags) {
        assert(out@ =~= enc_tags(tags@));
        Some(out)
    } else {
        None
    }
}

/// The tags that the bytes spell from their first to their last byte.
pub fn decode_tags(b: &[u8]) -> (r: Option<Tags>)
    ensures
        match r {
            Some(tags) => dec_tags(b@, 0) == Some((tags@, b@.len() as int)),
            None => !(dec_tags(b@, 0) matches Some((_, end)) && end == b@.len()),
        },
{
    match read_tags(b, 0) {
        Some((tags, end)) => if end == b.len() {
            Some(tags)
        } else {
            None
        },
        None => None,
    }
}

} // verus!
