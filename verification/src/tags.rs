//! The closed set of tags a track can carry, and the record that holds one value of each.

use vstd::prelude::*;

verus! {

/// How many kinds of tag there are.
pub const TAG_COUNT: usize = 100;

/// Names one field of `Tags`.
#[derive(Debug, Clone, Copy, PartialEq, Eq, Hash, Structural)]
pub enum TagKind {
    // general
    TrackTitle,
    MusicbrainzWorkId,
    MusicbrainzTrackId,
    MusicbrainzRecordingId,
    TrackSubtitle,
    TrackTitleSortOrder,
    Comment,
    Description,
    Language,
    Script,
    Lyrics,
    // album
    AlbumTitle,
    SetSubtitle,
    MusicbrainzReleaseId,
    OriginalAlbumTitle,
    AlbumTitleSortOrder,
    AlbumArtist,
    MusicbrainzReleaseArtistId,
    ContentGroup,
    MusicbrainzReleaseGroupId,
    // artist
    TrackArtist,
    TrackArtists,
    MusicbrainzArtistId,
    OriginalArtist,
    AlbumArtistSortOrder,
    TrackArtistSortOrder,
    // show
    ShowName,
    ShowNameSortOrder,
    // style
    Genre,
    InitialKey,
    Color,
    Mood,
    Bpm,
    // urls
    AudioFileUrl,
    AudioSourceUrl,
    CommercialInformationUrl,
    CopyrightUrl,
    TrackArtistUrl,
    RadioStationUrl,
    PaymentUrl,
    PublisherUrl,
    // numbering
    DiscNumber,
    DiscTotal,
    TrackNumber,
    TrackTotal,
    Movement,
    MovementNumber,
    MovementTotal,
    // dates
    Year,
    RecordingDate,
    ReleaseDate,
    OriginalReleaseDate,
    // file
    FileType,
    FileOwner,
    TaggingTime,
    Length,
    OriginalFileName,
    OriginalMediaType,
    // encoding
    EncodedBy,
    EncoderSoftware,
    EncoderSettings,
    EncodingTime,
    // replaygain
    ReplayGainAlbumGain,
    ReplayGainAlbumPeak,
    ReplayGainTrackGain,
    ReplayGainTrackPeak,
    // identification
    Isrc,
    Barcode,
    CatalogNumber,
    Work,
    // flags
    FlagCompilation,
    FlagPodcast,
    // legal
    CopyrightMessage,
    License,
    // misc
    Popularimeter,
    ParentalAdvisory,
    // people
    Arranger,
    Writer,
    Composer,
    ComposerSortOrder,
    Conductor,
    Director,
    Engineer,
    Lyricist,
    OriginalLyricist,
    MixDj,
    MixEngineer,
    MusicianCredits,
    Performer,
    Producer,
    Publisher,
    Label,
    InternetRadioStationName,
    InternetRadioStationOwner,
    Remixer,
    // podcast
    PodcastDescription,
    PodcastSeriesCategory,
    PodcastUrl,
    PodcastGlobalUniqueId,
    PodcastKeywords,
}

/// What sort of value a kind of tag holds.
#[derive(Debug, Clone, Copy, PartialEq, Eq, Structural)]
pub enum TagShape {
    /// Text that every track must have.
    Title,
    /// Optional text.
    Text,
    /// Optional 128-bit identifier.
    Id,
    /// Optional single-precision number, kept as its IEEE-754 bit pattern.
    Number,
}

impl TagKind {
    /// Position of the kind in the fixed order of the tags.
    pub open spec fn spec_index(self) -> int {
        match self {
            TagKind::TrackTitle => 0,
            TagKind::MusicbrainzWorkId => 1,
            TagKind::MusicbrainzTrackId => 2,
            TagKind::MusicbrainzRecordingId => 3,
            TagKind::TrackSubtitle => 4,
            TagKind::TrackTitleSortOrder => 5,
            TagKind::Comment => 6,
            TagKind::Description => 7,
            TagKind::Language => 8,
            TagKind::Script => 9,
            TagKind::Lyrics => 10,
            TagKind::AlbumTitle => 11,
            TagKind::SetSubtitle => 12,
            TagKind::MusicbrainzReleaseId => 13,
            TagKind::OriginalAlbumTitle => 14,
            TagKind::AlbumTitleSortOrder => 15,
            TagKind::AlbumArtist => 16,
            TagKind::MusicbrainzReleaseArtistId => 17,
            TagKind::ContentGroup => 18,
            TagKind::MusicbrainzReleaseGroupId => 19,
            TagKind::TrackArtist => 20,
            TagKind::TrackArtists => 21,
            TagKind::MusicbrainzArtistId => 22,
            TagKind::OriginalArtist => 23,
            TagKind::AlbumArtistSortOrder => 24,
            TagKind::TrackArtistSortOrder => 25,
            TagKind::ShowName => 26,
            TagKind::ShowNameSortOrder => 27,
            TagKind::Genre => 28,
            TagKind::InitialKey => 29,
            TagKind::Color => 30,
            TagKind::Mood => 31,
            TagKind::Bpm => 32,
            TagKind::AudioFileUrl => 33,
            TagKind::AudioSourceUrl => 34,
            TagKind::CommercialInformationUrl => 35,
            TagKind::CopyrightUrl => 36,
            TagKind::TrackArtistUrl => 37,
            TagKind::RadioStationUrl => 38,
            TagKind::PaymentUrl => 39,
            TagKind::PublisherUrl => 40,
            TagKind::DiscNumber => 41,
            TagKind::DiscTotal => 42,
            TagKind::TrackNumber => 43,
            TagKind::TrackTotal => 44,
            TagKind::Movement => 45,
            TagKind::MovementNumber => 46,
            TagKind::MovementTotal => 47,
            TagKind::Year => 48,
            TagKind::RecordingDate => 49,
            TagKind::ReleaseDate => 50,
            TagKind::OriginalReleaseDate => 51,
            TagKind::FileType => 52,
            TagKind::FileOwner => 53,
            TagKind::TaggingTime => 54,
            TagKind::Length => 55,
            TagKind::OriginalFileName => 56,
            TagKind::OriginalMediaType => 57,
            TagKind::EncodedBy => 58,
            TagKind::EncoderSoftware => 59,
            TagKind::EncoderSettings => 60,
            TagKind::EncodingTime => 61,
            TagKind::ReplayGainAlbumGain => 62,
            TagKind::ReplayGainAlbumPeak => 63,
            TagKind::ReplayGainTrackGain => 64,
            TagKind::ReplayGainTrackPeak => 65,
            TagKind::Isrc => 66,
            TagKind::Barcode => 67,
            TagKind::CatalogNumber => 68,
            TagKind::Work => 69,
            TagKind::FlagCompilation => 70,
            TagKind::FlagPodcast => 71,
            TagKind::CopyrightMessage => 72,
            TagKind::License => 73,
            TagKind::Popularimeter => 74,
            TagKind::ParentalAdvisory => 75,
            TagKind::Arranger => 76,
            TagKind::Writer => 77,
            TagKind::Composer => 78,
            TagKind::ComposerSortOrder => 79,
            TagKind::Conductor => 80,
            TagKind::Director => 81,
            TagKind::Engineer => 82,
            TagKind::Lyricist => 83,
            TagKind::OriginalLyricist => 84,
            TagKind::MixDj => 85,
            TagKind::MixEngineer => 86,
            TagKind::MusicianCredits => 87,
            TagKind::Performer => 88,
            TagKind::Producer => 89,
            TagKind::Publisher => 90,
            TagKind::Label => 91,
            TagKind::InternetRadioStationName => 92,
            TagKind::InternetRadioStationOwner => 93,
            TagKind::Remixer => 94,
            TagKind::PodcastDescription => 95,
            TagKind::PodcastSeriesCategory => 96,
            TagKind::PodcastUrl => 97,
            TagKind::PodcastGlobalUniqueId => 98,
            TagKind::PodcastKeywords => 99,
        }
    }

    /// The kind at a position of the fixed order.
    pub open spec fn spec_from_index(i: int) -> Option<TagKind> {
        if i == 0 {
            Some(TagKind::TrackTitle)
        } else if i == 1 {
            Some(TagKind::MusicbrainzWorkId)
        } else if i == 2 {
            Some(TagKind::MusicbrainzTrackId)
        } else if i == 3 {
            Some(TagKind::MusicbrainzRecordingId)
        } else if i == 4 {
            Some(TagKind::TrackSubtitle)
        } else if i == 5 {
            Some(TagKind::TrackTitleSortOrder)
        } else if i == 6 {
            Some(TagKind::Comment)
        } else if i == 7 {
            Some(TagKind::Description)
        } else if i == 8 {
            Some(TagKind::Language)
        } else if i == 9 {
            Some(TagKind::Script)
        } else if i == 10 {
            Some(TagKind::Lyrics)
        } else if i == 11 {
            Some(TagKind::AlbumTitle)
        } else if i == 12 {
            Some(TagKind::SetSubtitle)
        } else if i == 13 {
            Some(TagKind::MusicbrainzReleaseId)
        } else if i == 14 {
            Some(TagKind::OriginalAlbumTitle)
        } else if i == 15 {
            Some(TagKind::AlbumTitleSortOrder)
        } else if i == 16 {
            Some(TagKind::AlbumArtist)
        } else if i == 17 {
            Some(TagKind::MusicbrainzReleaseArtistId)
        } else if i == 18 {
            Some(TagKind::ContentGroup)
        } else if i == 19 {
            Some(TagKind::MusicbrainzReleaseGroupId)
        } else if i == 20 {
            Some(TagKind::TrackArtist)
        } else if i == 21 {
            Some(TagKind::TrackArtists)
        } else if i == 22 {
            Some(TagKind::MusicbrainzArtistId)
        } else if i == 23 {
            Some(TagKind::OriginalArtist)
        } else if i == 24 {
            Some(TagKind::AlbumArtistSortOrder)
        } else if i == 25 {
            Some(TagKind::TrackArtistSortOrder)
        } else if i == 26 {
            Some(TagKind::ShowName)
        } else if i == 27 {
            Some(TagKind::ShowNameSortOrder)
        } else if i == 28 {
            Some(TagKind::Genre)
        } else if i == 29 {
            Some(TagKind::InitialKey)
        } else if i == 30 {
            Some(TagKind::Color)
        } else if i == 31 {
            Some(TagKind::Mood)
        } else if i == 32 {
            Some(TagKind::Bpm)
        } else if i == 33 {
            Some(TagKind::AudioFileUrl)
        } else if i == 34 {
            Some(TagKind::AudioSourceUrl)
        } else if i == 35 {
            Some(TagKind::CommercialInformationUrl)
        } else if i == 36 {
            Some(TagKind::CopyrightUrl)
        } else if i == 37 {
            Some(TagKind::TrackArtistUrl)
        } else if i == 38 {
            Some(TagKind::RadioStationUrl)
        } else if i == 39 {
            Some(TagKind::PaymentUrl)
        } else if i == 40 {
            Some(TagKind::PublisherUrl)
        } else if i == 41 {
            Some(TagKind::DiscNumber)
        } else if i == 42 {
            Some(TagKind::DiscTotal)
        } else if i == 43 {
            Some(TagKind::TrackNumber)
        } else if i == 44 {
            Some(TagKind::TrackTotal)
        } else if i == 45 {
            Some(TagKind::Movement)
        } else if i == 46 {
            Some(TagKind::MovementNumber)
        } else if i == 47 {
            Some(TagKind::MovementTotal)
        } else if i == 48 {
            Some(TagKind::Year)
        } else if i == 49 {
            Some(TagKind::RecordingDate)
        } else if i == 50 {
            Some(TagKind::ReleaseDate)
        } else if i == 51 {
            Some(TagKind::OriginalReleaseDate)
        } else if i == 52 {
            Some(TagKind::FileType)
        } else if i == 53 {
            Some(TagKind::FileOwner)
        } else if i == 54 {
            Some(TagKind::TaggingTime)
        } else if i == 55 {
            Some(TagKind::Length)
        } else if i == 56 {
            Some(TagKind::OriginalFileName)
        } else if i == 57 {
            Some(TagKind::OriginalMediaType)
        } else if i == 58 {
            Some(TagKind::EncodedBy)
        } else if i == 59 {
            Some(TagKind::EncoderSoftware)
        } else if i == 60 {
            Some(TagKind::EncoderSettings)
        } else if i == 61 {
            Some(TagKind::EncodingTime)
        } else if i == 62 {
            Some(TagKind::ReplayGainAlbumGain)
        } else if i == 63 {
            Some(TagKind::ReplayGainAlbumPeak)
        } else if i == 64 {
            Some(TagKind::ReplayGainTrackGain)
        } else if i == 65 {
            Some(TagKind::ReplayGainTrackPeak)
        } else if i == 66 {
            Some(TagKind::Isrc)
        } else if i == 67 {
            Some(TagKind::Barcode)
        } else if i == 68 {
            Some(TagKind::CatalogNumber)
        } else if i == 69 {
            Some(TagKind::Work)
        } else if i == 70 {
            Some(TagKind::FlagCompilation)
        } else if i == 71 {
            Some(TagKind::FlagPodcast)
        } else if i == 72 {
            Some(TagKind::CopyrightMessage)
        } else if i == 73 {
            Some(TagKind::License)
        } else if i == 74 {
            Some(TagKind::Popularimeter)
        } else if i == 75 {
            Some(TagKind::ParentalAdvisory)
        } else if i == 76 {
            Some(TagKind::Arranger)
        } else if i == 77 {
            Some(TagKind::Writer)
        } else if i == 78 {
            Some(TagKind::Composer)
        } else if i == 79 {
            Some(TagKind::ComposerSortOrder)
        } else if i == 80 {
            Some(TagKind::Conductor)
        } else if i == 81 {
            Some(TagKind::Director)
        } else if i == 82 {
            Some(TagKind::Engineer)
        } else if i == 83 {
            Some(TagKind::Lyricist)
        } else if i == 84 {
            Some(TagKind::OriginalLyricist)
        } else if i == 85 {
            Some(TagKind::MixDj)
        } else if i == 86 {
            Some(TagKind::MixEngineer)
        } else if i == 87 {
            Some(TagKind::MusicianCredits)
        } else if i == 88 {
            Some(TagKind::Performer)
        } else if i == 89 {
            Some(TagKind::Producer)
        } else if i == 90 {
            Some(TagKind::Publisher)
        } else if i == 91 {
            Some(TagKind::Label)
        } else if i == 92 {
            Some(TagKind::InternetRadioStationName)
        } else if i == 93 {
            Some(TagKind::InternetRadioStationOwner)
        } else if i == 94 {
            Some(TagKind::Remixer)
        } else if i == 95 {
            Some(TagKind::PodcastDescription)
        } else if i == 96 {
            Some(TagKind::PodcastSeriesCategory)
        } else if i == 97 {
            Some(TagKind::PodcastUrl)
        } else if i == 98 {
            Some(TagKind::PodcastGlobalUniqueId)
        } else if i == 99 {
            Some(TagKind::PodcastKeywords)
        } else {
            None
        }
    }

    /// Name of the field, as it stands on the wire and in the catalog.
    pub open spec fn spec_name(self) -> Seq<char> {
        match self {
            TagKind::TrackTitle => "track_title"@,
            TagKind::MusicbrainzWorkId => "musicbrainz_work_id"@,
            TagKind::MusicbrainzTrackId => "musicbrainz_track_id"@,
            TagKind::MusicbrainzRecordingId => "musicbrainz_recording_id"@,
            TagKind::TrackSubtitle => "track_subtitle"@,
            TagKind::TrackTitleSortOrder => "track_title_sort_order"@,
            TagKind::Comment => "comment"@,
            TagKind::Description => "description"@,
            TagKind::Language => "language"@,
            TagKind::Script => "script"@,
            TagKind::Lyrics => "lyrics"@,
            TagKind::AlbumTitle => "album_title"@,
            TagKind::SetSubtitle => "set_subtitle"@,
            TagKind::MusicbrainzReleaseId => "musicbrainz_release_id"@,
            TagKind::OriginalAlbumTitle => "original_album_title"@,
            TagKind::AlbumTitleSortOrder => "album_title_sort_order"@,
            TagKind::AlbumArtist => "album_artist"@,
            TagKind::MusicbrainzReleaseArtistId => "musicbrainz_release_artist_id"@,
            TagKind::ContentGroup => "content_group"@,
            TagKind::MusicbrainzReleaseGroupId => "musicbrainz_release_group_id"@,
            TagKind::TrackArtist => "track_artist"@,
            TagKind::TrackArtists => "track_artists"@,
            TagKind::MusicbrainzArtistId => "musicbrainz_artist_id"@,
            TagKind::OriginalArtist => "original_artist"@,
            TagKind::AlbumArtistSortOrder => "album_artist_sort_order"@,
            TagKind::TrackArtistSortOrder => "track_artist_sort_order"@,
            TagKind::ShowName => "show_name"@,
            TagKind::ShowNameSortOrder => "show_name_sort_order"@,
            TagKind::Genre => "genre"@,
            TagKind::InitialKey => "initial_key"@,
            TagKind::Color => "color"@,
            TagKind::Mood => "mood"@,
            TagKind::Bpm => "bpm"@,
            TagKind::AudioFileUrl => "audio_file_url"@,
            TagKind::AudioSourceUrl => "audio_source_url"@,
            TagKind::CommercialInformationUrl => "commercial_information_url"@,
            TagKind::CopyrightUrl => "copyright_url"@,
            TagKind::TrackArtistUrl => "track_artist_url"@,
            TagKind::RadioStationUrl => "radio_station_url"@,
            TagKind::PaymentUrl => "payment_url"@,
            TagKind::PublisherUrl => "publisher_url"@,
            TagKind::DiscNumber => "disc_number"@,
            TagKind::DiscTotal => "disc_total"@,
            TagKind::TrackNumber => "track_number"@,
            TagKind::TrackTotal => "track_total"@,
            TagKind::Movement => "movement"@,
            TagKind::MovementNumber => "movement_number"@,
            TagKind::MovementTotal => "movement_total"@,
            TagKind::Year => "year"@,
            TagKind::RecordingDate => "recording_date"@,
            TagKind::ReleaseDate => "release_date"@,
            TagKind::OriginalReleaseDate => "original_release_date"@,
            TagKind::FileType => "file_type"@,
            TagKind::FileOwner => "file_owner"@,
            TagKind::TaggingTime => "tagging_time"@,
            TagKind::Length => "length"@,
            TagKind::OriginalFileName => "original_file_name"@,
            TagKind::OriginalMediaType => "original_media_type"@,
            TagKind::EncodedBy => "encoded_by"@,
            TagKind::EncoderSoftware => "encoder_software"@,
            TagKind::EncoderSettings => "encoder_settings"@,
            TagKind::EncodingTime => "encoding_time"@,
            TagKind::ReplayGainAlbumGain => "replay_gain_album_gain"@,
            TagKind::ReplayGainAlbumPeak => "replay_gain_album_peak"@,
            TagKind::ReplayGainTrackGain => "replay_gain_track_gain"@,
            TagKind::ReplayGainTrackPeak => "replay_gain_track_peak"@,
            TagKind::Isrc => "isrc"@,
            TagKind::Barcode => "barcode"@,
            TagKind::CatalogNumber => "catalog_number"@,
            TagKind::Work => "work"@,
            TagKind::FlagCompilation => "flag_compilation"@,
            TagKind::FlagPodcast => "flag_podcast"@,
            TagKind::CopyrightMessage => "copyright_message"@,
            TagKind::License => "license"@,
            TagKind::Popularimeter => "popularimeter"@,
            TagKind::ParentalAdvisory => "parental_advisory"@,
            TagKind::Arranger => "arranger"@,
            TagKind::Writer => "writer"@,
            TagKind::Composer => "composer"@,
            TagKind::ComposerSortOrder => "composer_sort_order"@,
            TagKind::Conductor => "conductor"@,
            TagKind::Director => "director"@,
            TagKind::Engineer => "engineer"@,
            TagKind::Lyricist => "lyricist"@,
            TagKind::OriginalLyricist => "original_lyricist"@,
            TagKind::MixDj => "mix_dj"@,
            TagKind::MixEngineer => "mix_engineer"@,
            TagKind::MusicianCredits => "musician_credits"@,
            TagKind::Performer => "performer"@,
            TagKind::Producer => "producer"@,
            TagKind::Publisher => "publisher"@,
            TagKind::Label => "label"@,
            TagKind::InternetRadioStationName => "internet_radio_station_name"@,
            TagKind::InternetRadioStationOwner => "internet_radio_station_owner"@,
            TagKind::Remixer => "remixer"@,
            TagKind::PodcastDescription => "podcast_description"@,
            TagKind::PodcastSeriesCategory => "podcast_series_category"@,
            TagKind::PodcastUrl => "podcast_url"@,
            TagKind::PodcastGlobalUniqueId => "podcast_global_unique_id"@,
            TagKind::PodcastKeywords => "podcast_keywords"@,
        }
    }

    /// What sort of value the kind holds.
    pub open spec fn shape(self) -> TagShape {
        match self {
            TagKind::TrackTitle => TagShape::Title,
            TagKind::MusicbrainzWorkId
            | TagKind::MusicbrainzTrackId
            | TagKind::MusicbrainzRecordingId
            | TagKind::MusicbrainzReleaseId
            | TagKind::MusicbrainzReleaseArtistId
            | TagKind::MusicbrainzReleaseGroupId
            | TagKind::MusicbrainzArtistId => TagShape::Id,
            TagKind::Bpm => TagShape::Number,
            _ => TagShape::Text,
        }
    }

    /// Position of the kind in the fixed order of the tags.
    pub fn index(self) -> (r: usize)
        ensures
            r == self.spec_index(),
            r < TAG_COUNT,
    {
        match self {
            TagKind::TrackTitle => 0,
            TagKind::MusicbrainzWorkId => 1,
            TagKind::MusicbrainzTrackId => 2,
            TagKind::MusicbrainzRecordingId => 3,
            TagKind::TrackSubtitle => 4,
            TagKind::TrackTitleSortOrder => 5,
            TagKind::Comment => 6,
            TagKind::Description => 7,
            TagKind::Language => 8,
            TagKind::Script => 9,
            TagKind::Lyrics => 10,
            TagKind::AlbumTitle => 11,
            TagKind::SetSubtitle => 12,
            TagKind::MusicbrainzReleaseId => 13,
            TagKind::OriginalAlbumTitle => 14,
            TagKind::AlbumTitleSortOrder => 15,
            TagKind::AlbumArtist => 16,
            TagKind::MusicbrainzReleaseArtistId => 17,
            TagKind::ContentGroup => 18,
            TagKind::MusicbrainzReleaseGroupId => 19,
            TagKind::TrackArtist => 20,
            TagKind::TrackArtists => 21,
            TagKind::MusicbrainzArtistId => 22,
            TagKind::OriginalArtist => 23,
            TagKind::AlbumArtistSortOrder => 24,
            TagKind::TrackArtistSortOrder => 25,
            TagKind::ShowName => 26,
            TagKind::ShowNameSortOrder => 27,
            TagKind::Genre => 28,
            TagKind::InitialKey => 29,
            TagKind::Color => 30,
            TagKind::Mood => 31,
            TagKind::Bpm => 32,
            TagKind::AudioFileUrl => 33,
            TagKind::AudioSourceUrl => 34,
            TagKind::CommercialInformationUrl => 35,
            TagKind::CopyrightUrl => 36,
            TagKind::TrackArtistUrl => 37,
            TagKind::RadioStationUrl => 38,
            TagKind::PaymentUrl => 39,
            TagKind::PublisherUrl => 40,
            TagKind::DiscNumber => 41,
            TagKind::DiscTotal => 42,
            TagKind::TrackNumber => 43,
            TagKind::TrackTotal => 44,
            TagKind::Movement => 45,
            TagKind::MovementNumber => 46,
            TagKind::MovementTotal => 47,
            TagKind::Year => 48,
            TagKind::RecordingDate => 49,
            TagKind::ReleaseDate => 50,
            TagKind::OriginalReleaseDate => 51,
            TagKind::FileType => 52,
            TagKind::FileOwner => 53,
            TagKind::TaggingTime => 54,
            TagKind::Length => 55,
            TagKind::OriginalFileName => 56,
            TagKind::OriginalMediaType => 57,
            TagKind::EncodedBy => 58,
            TagKind::EncoderSoftware => 59,
            TagKind::EncoderSettings => 60,
            TagKind::EncodingTime => 61,
            TagKind::ReplayGainAlbumGain => 62,
            TagKind::ReplayGainAlbumPeak => 63,
            TagKind::ReplayGainTrackGain => 64,
            TagKind::ReplayGainTrackPeak => 65,
            TagKind::Isrc => 66,
            TagKind::Barcode => 67,
            TagKind::CatalogNumber => 68,
            TagKind::Work => 69,
            TagKind::FlagCompilation => 70,
            TagKind::FlagPodcast => 71,
            TagKind::CopyrightMessage => 72,
            TagKind::License => 73,
            TagKind::Popularimeter => 74,
            TagKind::ParentalAdvisory => 75,
            TagKind::Arranger => 76,
            TagKind::Writer => 77,
            TagKind::Composer => 78,
            TagKind::ComposerSortOrder => 79,
            TagKind::Conductor => 80,
            TagKind::Director => 81,
            TagKind::Engineer => 82,
            TagKind::Lyricist => 83,
            TagKind::OriginalLyricist => 84,
            TagKind::MixDj => 85,
            TagKind::MixEngineer => 86,
            TagKind::MusicianCredits => 87,
            TagKind::Performer => 88,
            TagKind::Producer => 89,
            TagKind::Publisher => 90,
            TagKind::Label => 91,
            TagKind::InternetRadioStationName => 92,
            TagKind::InternetRadioStationOwner => 93,
            TagKind::Remixer => 94,
            TagKind::PodcastDescription => 95,
            TagKind::PodcastSeriesCategory => 96,
            TagKind::PodcastUrl => 97,
            TagKind::PodcastGlobalUniqueId => 98,
            TagKind::PodcastKeywords => 99,
        }
    }

    /// The kind at a position of the fixed order, if the position is one.
    pub fn from_index(i: usize) -> (r: Option<TagKind>)
        ensures
            r == TagKind::spec_from_index(i as int),
            r is Some <==> i < TAG_COUNT,
    {
        if i == 0 {
            Some(TagKind::TrackTitle)
        } else if i == 1 {
            Some(TagKind::MusicbrainzWorkId)
        } else if i == 2 {
            Some(TagKind::MusicbrainzTrackId)
        } else if i == 3 {
            Some(TagKind::MusicbrainzRecordingId)
        } else if i == 4 {
            Some(TagKind::TrackSubtitle)
        } else if i == 5 {
            Some(TagKind::TrackTitleSortOrder)
        } else if i == 6 {
            Some(TagKind::Comment)
        } else if i == 7 {
            Some(TagKind::Description)
        } else if i == 8 {
            Some(TagKind::Language)
        } else if i == 9 {
            Some(TagKind::Script)
        } else if i == 10 {
            Some(TagKind::Lyrics)
        } else if i == 11 {
            Some(TagKind::AlbumTitle)
        } else if i == 12 {
            Some(TagKind::SetSubtitle)
        } else if i == 13 {
            Some(TagKind::MusicbrainzReleaseId)
        } else if i == 14 {
            Some(TagKind::OriginalAlbumTitle)
        } else if i == 15 {
            Some(TagKind::AlbumTitleSortOrder)
        } else if i == 16 {
            Some(TagKind::AlbumArtist)
        } else if i == 17 {
            Some(TagKind::MusicbrainzReleaseArtistId)
        } else if i == 18 {
            Some(TagKind::ContentGroup)
        } else if i == 19 {
            Some(TagKind::MusicbrainzReleaseGroupId)
        } else if i == 20 {
            Some(TagKind::TrackArtist)
        } else if i == 21 {
            Some(TagKind::TrackArtists)
        } else if i == 22 {
            Some(TagKind::MusicbrainzArtistId)
        } else if i == 23 {
            Some(TagKind::OriginalArtist)
        } else if i == 24 {
            Some(TagKind::AlbumArtistSortOrder)
        } else if i == 25 {
            Some(TagKind::TrackArtistSortOrder)
        } else if i == 26 {
            Some(TagKind::ShowName)
        } else if i == 27 {
            Some(TagKind::ShowNameSortOrder)
        } else if i == 28 {
            Some(TagKind::Genre)
        } else if i == 29 {
            Some(TagKind::InitialKey)
        } else if i == 30 {
            Some(TagKind::Color)
        } else if i == 31 {
            Some(TagKind::Mood)
        } else if i == 32 {
            Some(TagKind::Bpm)
        } else if i == 33 {
            Some(TagKind::AudioFileUrl)
        } else if i == 34 {
            Some(TagKind::AudioSourceUrl)
        } else if i == 35 {
            Some(TagKind::CommercialInformationUrl)
        } else if i == 36 {
            Some(TagKind::CopyrightUrl)
        } else if i == 37 {
            Some(TagKind::TrackArtistUrl)
        } else if i == 38 {
            Some(TagKind::RadioStationUrl)
        } else if i == 39 {
            Some(TagKind::PaymentUrl)
        } else if i == 40 {
            Some(TagKind::PublisherUrl)
        } else if i == 41 {
            Some(TagKind::DiscNumber)
        } else if i == 42 {
            Some(TagKind::DiscTotal)
        } else if i == 43 {
            Some(TagKind::TrackNumber)
        } else if i == 44 {
            Some(TagKind::TrackTotal)
        } else if i == 45 {
            Some(TagKind::Movement)
        } else if i == 46 {
            Some(TagKind::MovementNumber)
        } else if i == 47 {
            Some(TagKind::MovementTotal)
        } else if i == 48 {
            Some(TagKind::Year)
        } else if i == 49 {
            Some(TagKind::RecordingDate)
        } else if i == 50 {
            Some(TagKind::ReleaseDate)
        } else if i == 51 {
            Some(TagKind::OriginalReleaseDate)
        } else if i == 52 {
            Some(TagKind::FileType)
        } else if i == 53 {
            Some(TagKind::FileOwner)
        } else if i == 54 {
            Some(TagKind::TaggingTime)
        } else if i == 55 {
            Some(TagKind::Length)
        } else if i == 56 {
            Some(TagKind::OriginalFileName)
        } else if i == 57 {
            Some(TagKind::OriginalMediaType)
        } else if i == 58 {
            Some(TagKind::EncodedBy)
        } else if i == 59 {
            Some(TagKind::EncoderSoftware)
        } else if i == 60 {
            Some(TagKind::EncoderSettings)
        } else if i == 61 {
            Some(TagKind::EncodingTime)
        } else if i == 62 {
            Some(TagKind::ReplayGainAlbumGain)
        } else if i == 63 {
            Some(TagKind::ReplayGainAlbumPeak)
        } else if i == 64 {
            Some(TagKind::ReplayGainTrackGain)
        } else if i == 65 {
            Some(TagKind::ReplayGainTrackPeak)
        } else if i == 66 {
            Some(TagKind::Isrc)
        } else if i == 67 {
            Some(TagKind::Barcode)
        } else if i == 68 {
            Some(TagKind::CatalogNumber)
        } else if i == 69 {
            Some(TagKind::Work)
        } else if i == 70 {
            Some(TagKind::FlagCompilation)
        } else if i == 71 {
            Some(TagKind::FlagPodcast)
        } else if i == 72 {
            Some(TagKind::CopyrightMessage)
        } else if i == 73 {
            Some(TagKind::License)
        } else if i == 74 {
            Some(TagKind::Popularimeter)
        } else if i == 75 {
            Some(TagKind::ParentalAdvisory)
        } else if i == 76 {
            Some(TagKind::Arranger)
        } else if i == 77 {
            Some(TagKind::Writer)
        } else if i == 78 {
            Some(TagKind::Composer)
        } else if i == 79 {
            Some(TagKind::ComposerSortOrder)
        } else if i == 80 {
            Some(TagKind::Conductor)
        } else if i == 81 {
            Some(TagKind::Director)
        } else if i == 82 {
            Some(TagKind::Engineer)
        } else if i == 83 {
            Some(TagKind::Lyricist)
        } else if i == 84 {
            Some(TagKind::OriginalLyricist)
        } else if i == 85 {
            Some(TagKind::MixDj)
        } else if i == 86 {
            Some(TagKind::MixEngineer)
        } else if i == 87 {
            Some(TagKind::MusicianCredits)
        } else if i == 88 {
            Some(TagKind::Performer)
        } else if i == 89 {
            Some(TagKind::Producer)
        } else if i == 90 {
            Some(TagKind::Publisher)
        } else if i == 91 {
            Some(TagKind::Label)
        } else if i == 92 {
            Some(TagKind::InternetRadioStationName)
        } else if i == 93 {
            Some(TagKind::InternetRadioStationOwner)
        } else if i == 94 {
            Some(TagKind::Remixer)
        } else if i == 95 {
            Some(TagKind::PodcastDescription)
        } else if i == 96 {
            Some(TagKind::PodcastSeriesCategory)
        } else if i == 97 {
            Some(TagKind::PodcastUrl)
        } else if i == 98 {
            Some(TagKind::PodcastGlobalUniqueId)
        } else if i == 99 {
            Some(TagKind::PodcastKeywords)
        } else {
            None
        }
    }

    /// Name of the field, as it stands on the wire and in the catalog.
    pub fn name(self) -> (r: &'static str)
        ensures
            r@ == self.spec_name(),
    {
        match self {
            TagKind::TrackTitle => "track_title",
            TagKind::MusicbrainzWorkId => "musicbrainz_work_id",
            TagKind::MusicbrainzTrackId => "musicbrainz_track_id",
            TagKind::MusicbrainzRecordingId => "musicbrainz_recording_id",
            TagKind::TrackSubtitle => "track_subtitle",
            TagKind::TrackTitleSortOrder => "track_title_sort_order",
            TagKind::Comment => "comment",
            TagKind::Description => "description",
            TagKind::Language => "language",
            TagKind::Script => "script",
            TagKind::Lyrics => "lyrics",
            TagKind::AlbumTitle => "album_title",
            TagKind::SetSubtitle => "set_subtitle",
            TagKind::MusicbrainzReleaseId => "musicbrainz_release_id",
            TagKind::OriginalAlbumTitle => "original_album_title",
            TagKind::AlbumTitleSortOrder => "album_title_sort_order",
            TagKind::AlbumArtist => "album_artist",
            TagKind::MusicbrainzReleaseArtistId => "musicbrainz_release_artist_id",
            TagKind::ContentGroup => "content_group",
            TagKind::MusicbrainzReleaseGroupId => "musicbrainz_release_group_id",
            TagKind::TrackArtist => "track_artist",
            TagKind::TrackArtists => "track_artists",
            TagKind::MusicbrainzArtistId => "musicbrainz_artist_id",
            TagKind::OriginalArtist => "original_artist",
            TagKind::AlbumArtistSortOrder => "album_artist_sort_order",
            TagKind::TrackArtistSortOrder => "track_artist_sort_order",
            TagKind::ShowName => "show_name",
            TagKind::ShowNameSortOrder => "show_name_sort_order",
            TagKind::Genre => "genre",
            TagKind::InitialKey => "initial_key",
            TagKind::Color => "color",
            TagKind::Mood => "mood",
            TagKind::Bpm => "bpm",
            TagKind::AudioFileUrl => "audio_file_url",
            TagKind::AudioSourceUrl => "audio_source_url",
            TagKind::CommercialInformationUrl => "commercial_information_url",
            TagKind::CopyrightUrl => "copyright_url",
            TagKind::TrackArtistUrl => "track_artist_url",
            TagKind::RadioStationUrl => "radio_station_url",
            TagKind::PaymentUrl => "payment_url",
            TagKind::PublisherUrl => "publisher_url",
            TagKind::DiscNumber => "disc_number",
            TagKind::DiscTotal => "disc_total",
            TagKind::TrackNumber => "track_number",
            TagKind::TrackTotal => "track_total",
            TagKind::Movement => "movement",
            TagKind::MovementNumber => "movement_number",
            TagKind::MovementTotal => "movement_total",
            TagKind::Year => "year",
            TagKind::RecordingDate => "recording_date",
            TagKind::ReleaseDate => "release_date",
            TagKind::OriginalReleaseDate => "original_release_date",
            TagKind::FileType => "file_type",
            TagKind::FileOwner => "file_owner",
            TagKind::TaggingTime => "tagging_time",
            TagKind::Length => "length",
            TagKind::OriginalFileName => "original_file_name",
            TagKind::OriginalMediaType => "original_media_type",
            TagKind::EncodedBy => "encoded_by",
            TagKind::EncoderSoftware => "encoder_software",
            TagKind::EncoderSettings => "encoder_settings",
            TagKind::EncodingTime => "encoding_time",
            TagKind::ReplayGainAlbumGain => "replay_gain_album_gain",
            TagKind::ReplayGainAlbumPeak => "replay_gain_album_peak",
            TagKind::ReplayGainTrackGain => "replay_gain_track_gain",
            TagKind::ReplayGainTrackPeak => "replay_gain_track_peak",
            TagKind::Isrc => "isrc",
            TagKind::Barcode => "barcode",
            TagKind::CatalogNumber => "catalog_number",
            TagKind::Work => "work",
            TagKind::FlagCompilation => "flag_compilation",
            TagKind::FlagPodcast => "flag_podcast",
            TagKind::CopyrightMessage => "copyright_message",
            TagKind::License => "license",
            TagKind::Popularimeter => "popularimeter",
            TagKind::ParentalAdvisory => "parental_advisory",
            TagKind::Arranger => "arranger",
            TagKind::Writer => "writer",
            TagKind::Composer => "composer",
            TagKind::ComposerSortOrder => "composer_sort_order",
            TagKind::Conductor => "conductor",
            TagKind::Director => "director",
            TagKind::Engineer => "engineer",
            TagKind::Lyricist => "lyricist",
            TagKind::OriginalLyricist => "original_lyricist",
            TagKind::MixDj => "mix_dj",
            TagKind::MixEngineer => "mix_engineer",
            TagKind::MusicianCredits => "musician_credits",
            TagKind::Performer => "performer",
            TagKind::Producer => "producer",
            TagKind::Publisher => "publisher",
            TagKind::Label => "label",
            TagKind::InternetRadioStationName => "internet_radio_station_name",
            TagKind::InternetRadioStationOwner => "internet_radio_station_owner",
            TagKind::Remixer => "remixer",
            TagKind::PodcastDescription => "podcast_description",
            TagKind::PodcastSeriesCategory => "podcast_series_category",
            TagKind::PodcastUrl => "podcast_url",
            TagKind::PodcastGlobalUniqueId => "podcast_global_unique_id",
            TagKind::PodcastKeywords => "podcast_keywords",
        }
    }

    /// What sort of value the kind holds.
    pub fn kind_shape(self) -> (r: TagShape)
        ensures
            r == self.shape(),
    {
        match self {
            TagKind::TrackTitle => TagShape::Title,
            TagKind::MusicbrainzWorkId
            | TagKind::MusicbrainzTrackId
            | TagKind::MusicbrainzRecordingId
            | TagKind::MusicbrainzReleaseId
            | TagKind::MusicbrainzReleaseArtistId
            | TagKind::MusicbrainzReleaseGroupId
            | TagKind::MusicbrainzArtistId => TagShape::Id,
            TagKind::Bpm => TagShape::Number,
            _ => TagShape::Text,
        }
    }
}

/// Position and kind determine each other.
pub proof fn lemma_index_roundtrip(kind: TagKind)
    ensures
        0 <= kind.spec_index() < TAG_COUNT,
        TagKind::spec_from_index(kind.spec_index()) == Some(kind),
{
}

/// Every position below `TAG_COUNT` names a kind, and that kind stands at this position.
pub proof fn lemma_from_index_roundtrip(i: int)
    ensures
        TagKind::spec_from_index(i) is Some <==> 0 <= i < TAG_COUNT,
        TagKind::spec_from_index(i) matches Some(k) ==> k.spec_index() == i,
{
}

/// A value that a tag has.
#[derive(Debug, PartialEq, Eq)]
pub enum TagValueKind {
    String(String),
    Uuid(u128),
    /// IEEE-754 single-precision bit pattern.
    Float(u32),
}

/// The value of one tag of one track, or nothing.
#[derive(Debug, PartialEq, Eq)]
pub struct TagValue(pub Option<TagValueKind>);

/// What a `TagValue` stands for.
pub enum TagValueView {
    Absent,
    Text(Seq<char>),
    Id(u128),
    Number(u32),
}

impl TagValueView {
    /// Whether a field of the given shape can hold this value.
    pub open spec fn fits(self, shape: TagShape) -> bool {
        match shape {
            TagShape::Title => self is Text,
            TagShape::Text => self is Text || self is Absent,
            TagShape::Id => self is Id || self is Absent,
            TagShape::Number => self is Number || self is Absent,
        }
    }
}

impl View for TagValue {
    type V = TagValueView;

    open spec fn view(&self) -> TagValueView {
        match self.0 {
            None => TagValueView::Absent,
            Some(TagValueKind::String(s)) => TagValueView::Text(s@),
            Some(TagValueKind::Uuid(u)) => TagValueView::Id(u),
            Some(TagValueKind::Float(bits)) => TagValueView::Number(bits),
        }
    }
}

/// Optional text as a tag value.
pub open spec fn text_value(v: Option<String>) -> TagValueView {
    match v {
        Some(s) => TagValueView::Text(s@),
        None => TagValueView::Absent,
    }
}

/// An optional identifier as a tag value.
pub open spec fn id_value(v: Option<u128>) -> TagValueView {
    match v {
        Some(u) => TagValueView::Id(u),
        None => TagValueView::Absent,
    }
}

/// An optional number as a tag value.
pub open spec fn number_value(v: Option<u32>) -> TagValueView {
    match v {
        Some(bits) => TagValueView::Number(bits),
        None => TagValueView::Absent,
    }
}

fn text_tag(v: &Option<String>) -> (r: TagValue)
    ensures
        r@ == text_value(*v),
{
    match v {
        Some(s) => TagValue(Some(TagValueKind::String(s.clone()))),
        None => TagValue(None),
    }
}

fn id_tag(v: &Option<u128>) -> (r: TagValue)
    ensures
        r@ == id_value(*v),
{
    match v {
        Some(u) => TagValue(Some(TagValueKind::Uuid(*u))),
        None => TagValue(None),
    }
}

fn number_tag(v: &Option<u32>) -> (r: TagValue)
    ensures
        r@ == number_value(*v),
{
    match v {
        Some(bits) => TagValue(Some(TagValueKind::Float(*bits))),
        None => TagValue(None),
    }
}

/// The tags of one track: one field for each kind. Only the title is mandatory.
#[derive(Debug, PartialEq, Eq)]
pub struct Tags {
    // general
    pub track_title: String,
    pub musicbrainz_work_id: Option<u128>,
    pub musicbrainz_track_id: Option<u128>,
    pub musicbrainz_recording_id: Option<u128>,
    pub track_subtitle: Option<String>,
    pub track_title_sort_order: Option<String>,
    pub comment: Option<String>,
    pub description: Option<String>,
    pub language: Option<String>,
    pub script: Option<String>,
    pub lyrics: Option<String>,
    // album
    pub album_title: Option<String>,
    pub set_subtitle: Option<String>,
    pub musicbrainz_release_id: Option<u128>,
    pub original_album_title: Option<String>,
    pub album_title_sort_order: Option<String>,
    pub album_artist: Option<String>,
    pub musicbrainz_release_artist_id: Option<u128>,
    pub content_group: Option<String>,
    pub musicbrainz_release_group_id: Option<u128>,
    // artist
    pub track_artist: Option<String>,
    pub track_artists: Option<String>,
    pub musicbrainz_artist_id: Option<u128>,
    pub original_artist: Option<String>,
    pub album_artist_sort_order: Option<String>,
    pub track_artist_sort_order: Option<String>,
    // show
    pub show_name: Option<String>,
    pub show_name_sort_order: Option<String>,
    // style
    pub genre: Option<String>,
    pub initial_key: Option<String>,
    pub color: Option<String>,
    pub mood: Option<String>,
    /// IEEE-754 single-precision bit pattern.
    pub bpm: Option<u32>,
    // urls
    pub audio_file_url: Option<String>,
    pub audio_source_url: Option<String>,
    pub commercial_information_url: Option<String>,
    pub copyright_url: Option<String>,
    pub track_artist_url: Option<String>,
    pub radio_station_url: Option<String>,
    pub payment_url: Option<String>,
    pub publisher_url: Option<String>,
    // numbering
    pub disc_number: Option<String>,
    pub disc_total: Option<String>,
    pub track_number: Option<String>,
    pub track_total: Option<String>,
    pub movement: Option<String>,
    pub movement_number: Option<String>,
    pub movement_total: Option<String>,
    // dates
    pub year: Option<String>,
    pub recording_date: Option<String>,
    pub release_date: Option<String>,
    pub original_release_date: Option<String>,
    // file
    pub file_type: Option<String>,
    pub file_owner: Option<String>,
    pub tagging_time: Option<String>,
    pub length: Option<String>,
    pub original_file_name: Option<String>,
    pub original_media_type: Option<String>,
    // encoding
    pub encoded_by: Option<String>,
    pub encoder_software: Option<String>,
    pub encoder_settings: Option<String>,
    pub encoding_time: Option<String>,
    // replaygain
    pub replay_gain_album_gain: Option<String>,
    pub replay_gain_album_peak: Option<String>,
    pub replay_gain_track_gain: Option<String>,
    pub replay_gain_track_peak: Option<String>,
    // identification
    pub isrc: Option<String>,
    pub barcode: Option<String>,
    pub catalog_number: Option<String>,
    pub work: Option<String>,
    // flags
    pub flag_compilation: Option<String>,
    pub flag_podcast: Option<String>,
    // legal
    pub copyright_message: Option<String>,
    pub license: Option<String>,
    // misc
    pub popularimeter: Option<String>,
    pub parental_advisory: Option<String>,
    // people
    pub arranger: Option<String>,
    pub writer: Option<String>,
    pub composer: Option<String>,
    pub composer_sort_order: Option<String>,
    pub conductor: Option<String>,
    pub director: Option<String>,
    pub engineer: Option<String>,
    pub lyricist: Option<String>,
    pub original_lyricist: Option<String>,
    pub mix_dj: Option<String>,
    pub mix_engineer: Option<String>,
    pub musician_credits: Option<String>,
    pub performer: Option<String>,
    pub producer: Option<String>,
    pub publisher: Option<String>,
    pub label: Option<String>,
    pub internet_radio_station_name: Option<String>,
    pub internet_radio_station_owner: Option<String>,
    pub remixer: Option<String>,
    // podcast
    pub podcast_description: Option<String>,
    pub podcast_series_category: Option<String>,
    pub podcast_url: Option<String>,
    pub podcast_global_unique_id: Option<String>,
    pub podcast_keywords: Option<String>,
}

impl View for Tags {
    type V = Seq<TagValueView>;

    /// The values of all tags, in the fixed order of the kinds.
    open spec fn view(&self) -> Seq<TagValueView> {
        Seq::new(TAG_COUNT as nat, |i: int| self.value(TagKind::spec_from_index(i).unwrap()))
    }
}

impl Tags {
    /// The value that the record holds for a kind of tag.
    pub open spec fn value(&self, kind: TagKind) -> TagValueView {
        match kind {
            TagKind::TrackTitle => TagValueView::Text(self.track_title@),
            TagKind::MusicbrainzWorkId => id_value(self.musicbrainz_work_id),
            TagKind::MusicbrainzTrackId => id_value(self.musicbrainz_track_id),
            TagKind::MusicbrainzRecordingId => id_value(self.musicbrainz_recording_id),
            TagKind::TrackSubtitle => text_value(self.track_subtitle),
            TagKind::TrackTitleSortOrder => text_value(self.track_title_sort_order),
            TagKind::Comment => text_value(self.comment),
            TagKind::Description => text_value(self.description),
            TagKind::Language => text_value(self.language),
            TagKind::Script => text_value(self.script),
            TagKind::Lyrics => text_value(self.lyrics),
            TagKind::AlbumTitle => text_value(self.album_title),
            TagKind::SetSubtitle => text_value(self.set_subtitle),
            TagKind::MusicbrainzReleaseId => id_value(self.musicbrainz_release_id),
            TagKind::OriginalAlbumTitle => text_value(self.original_album_title),
            TagKind::AlbumTitleSortOrder => text_value(self.album_title_sort_order),
            TagKind::AlbumArtist => text_value(self.album_artist),
            TagKind::MusicbrainzReleaseArtistId => id_value(self.musicbrainz_release_artist_id),
            TagKind::ContentGroup => text_value(self.content_group),
            TagKind::MusicbrainzReleaseGroupId => id_value(self.musicbrainz_release_group_id),
            TagKind::TrackArtist => text_value(self.track_artist),
            TagKind::TrackArtists => text_value(self.track_artists),
            TagKind::MusicbrainzArtistId => id_value(self.musicbrainz_artist_id),
            TagKind::OriginalArtist => text_value(self.original_artist),
            TagKind::AlbumArtistSortOrder => text_value(self.album_artist_sort_order),
            TagKind::TrackArtistSortOrder => text_value(self.track_artist_sort_order),
            TagKind::ShowName => text_value(self.show_name),
            TagKind::ShowNameSortOrder => text_value(self.show_name_sort_order),
            TagKind::Genre => text_value(self.genre),
            TagKind::InitialKey => text_value(self.initial_key),
            TagKind::Color => text_value(self.color),
            TagKind::Mood => text_value(self.mood),
            TagKind::Bpm => number_value(self.bpm),
            TagKind::AudioFileUrl => text_value(self.audio_file_url),
            TagKind::AudioSourceUrl => text_value(self.audio_source_url),
            TagKind::CommercialInformationUrl => text_value(self.commercial_information_url),
            TagKind::CopyrightUrl => text_value(self.copyright_url),
            TagKind::TrackArtistUrl => text_value(self.track_artist_url),
            TagKind::RadioStationUrl => text_value(self.radio_station_url),
            TagKind::PaymentUrl => text_value(self.payment_url),
            TagKind::PublisherUrl => text_value(self.publisher_url),
            TagKind::DiscNumber => text_value(self.disc_number),
            TagKind::DiscTotal => text_value(self.disc_total),
            TagKind::TrackNumber => text_value(self.track_number),
            TagKind::TrackTotal => text_value(self.track_total),
            TagKind::Movement => text_value(self.movement),
            TagKind::MovementNumber => text_value(self.movement_number),
            TagKind::MovementTotal => text_value(self.movement_total),
            TagKind::Year => text_value(self.year),
            TagKind::RecordingDate => text_value(self.recording_date),
            TagKind::ReleaseDate => text_value(self.release_date),
            TagKind::OriginalReleaseDate => text_value(self.original_release_date),
            TagKind::FileType => text_value(self.file_type),
            TagKind::FileOwner => text_value(self.file_owner),
            TagKind::TaggingTime => text_value(self.tagging_time),
            TagKind::Length => text_value(self.length),
            TagKind::OriginalFileName => text_value(self.original_file_name),
            TagKind::OriginalMediaType => text_value(self.original_media_type),
            TagKind::EncodedBy => text_value(self.encoded_by),
            TagKind::EncoderSoftware => text_value(self.encoder_software),
            TagKind::EncoderSettings => text_value(self.encoder_settings),
            TagKind::EncodingTime => text_value(self.encoding_time),
            TagKind::ReplayGainAlbumGain => text_value(self.replay_gain_album_gain),
            TagKind::ReplayGainAlbumPeak => text_value(self.replay_gain_album_peak),
            TagKind::ReplayGainTrackGain => text_value(self.replay_gain_track_gain),
            TagKind::ReplayGainTrackPeak => text_value(self.replay_gain_track_peak),
            TagKind::Isrc => text_value(self.isrc),
            TagKind::Barcode => text_value(self.barcode),
            TagKind::CatalogNumber => text_value(self.catalog_number),
            TagKind::Work => text_value(self.work),
            TagKind::FlagCompilation => text_value(self.flag_compilation),
            TagKind::FlagPodcast => text_value(self.flag_podcast),
            TagKind::CopyrightMessage => text_value(self.copyright_message),
            TagKind::License => text_value(self.license),
            TagKind::Popularimeter => text_value(self.popularimeter),
            TagKind::ParentalAdvisory => text_value(self.parental_advisory),
            TagKind::Arranger => text_value(self.arranger),
            TagKind::Writer => text_value(self.writer),
            TagKind::Composer => text_value(self.composer),
            TagKind::ComposerSortOrder => text_value(self.composer_sort_order),
            TagKind::Conductor => text_value(self.conductor),
            TagKind::Director => text_value(self.director),
            TagKind::Engineer => text_value(self.engineer),
            TagKind::Lyricist => text_value(self.lyricist),
            TagKind::OriginalLyricist => text_value(self.original_lyricist),
            TagKind::MixDj => text_value(self.mix_dj),
            TagKind::MixEngineer => text_value(self.mix_engineer),
            TagKind::MusicianCredits => text_value(self.musician_credits),
            TagKind::Performer => text_value(self.performer),
            TagKind::Producer => text_value(self.producer),
            TagKind::Publisher => text_value(self.publisher),
            TagKind::Label => text_value(self.label),
            TagKind::InternetRadioStationName => text_value(self.internet_radio_station_name),
            TagKind::InternetRadioStationOwner => text_value(self.internet_radio_station_owner),
            TagKind::Remixer => text_value(self.remixer),
            TagKind::PodcastDescription => text_value(self.podcast_description),
            TagKind::PodcastSeriesCategory => text_value(self.podcast_series_category),
            TagKind::PodcastUrl => text_value(self.podcast_url),
            TagKind::PodcastGlobalUniqueId => text_value(self.podcast_global_unique_id),
            TagKind::PodcastKeywords => text_value(self.podcast_keywords),
        }
    }

    /// Tags with the given title and nothing else.
    pub fn new(title: String) -> (r: Tags)
        ensures
            r.value(TagKind::TrackTitle) == TagValueView::Text(title@),
            forall|k: TagKind| k != TagKind::TrackTitle ==> r.value(k) is Absent,
    {
        Tags {
            track_title: title,
            musicbrainz_work_id: None,
            musicbrainz_track_id: None,
            musicbrainz_recording_id: None,
            track_subtitle: None,
            track_title_sort_order: None,
            comment: None,
            description: None,
            language: None,
            script: None,
            lyrics: None,
            album_title: None,
            set_subtitle: None,
            musicbrainz_release_id: None,
            original_album_title: None,
            album_title_sort_order: None,
            album_artist: None,
            musicbrainz_release_artist_id: None,
            content_group: None,
            musicbrainz_release_group_id: None,
            track_artist: None,
            track_artists: None,
            musicbrainz_artist_id: None,
            original_artist: None,
            album_artist_sort_order: None,
            track_artist_sort_order: None,
            show_name: None,
            show_name_sort_order: None,
            genre: None,
            initial_key: None,
            color: None,
            mood: None,
            bpm: None,
            audio_file_url: None,
            audio_source_url: None,
            commercial_information_url: None,
            copyright_url: None,
            track_artist_url: None,
            radio_station_url: None,
            payment_url: None,
            publisher_url: None,
            disc_number: None,
            disc_total: None,
            track_number: None,
            track_total: None,
            movement: None,
            movement_number: None,
            movement_total: None,
            year: None,
            recording_date: None,
            release_date: None,
            original_release_date: None,
            file_type: None,
            file_owner: None,
            tagging_time: None,
            length: None,
            original_file_name: None,
            original_media_type: None,
            encoded_by: None,
            encoder_software: None,
            encoder_settings: None,
            encoding_time: None,
            replay_gain_album_gain: None,
            replay_gain_album_peak: None,
            replay_gain_track_gain: None,
            replay_gain_track_peak: None,
            isrc: None,
            barcode: None,
            catalog_number: None,
            work: None,
            flag_compilation: None,
            flag_podcast: None,
            copyright_message: None,
            license: None,
            popularimeter: None,
            parental_advisory: None,
            arranger: None,
            writer: None,
            composer: None,
            composer_sort_order: None,
            conductor: None,
            director: None,
            engineer: None,
            lyricist: None,
            original_lyricist: None,
            mix_dj: None,
            mix_engineer: None,
            musician_credits: None,
            performer: None,
            producer: None,
            publisher: None,
            label: None,
            internet_radio_station_name: None,
            internet_radio_station_owner: None,
            remixer: None,
            podcast_description: None,
            podcast_series_category: None,
            podcast_url: None,
            podcast_global_unique_id: None,
            podcast_keywords: None,
        }
    }

    /// The value of one kind of tag.
    pub fn get(&self, kind: TagKind) -> (r: TagValue)
        ensures
            r@ == self.value(kind),
    {
        match kind {
            TagKind::TrackTitle => TagValue(Some(TagValueKind::String(self.track_title.clone()))),
            TagKind::MusicbrainzWorkId => id_tag(&self.musicbrainz_work_id),
            TagKind::MusicbrainzTrackId => id_tag(&self.musicbrainz_track_id),
            TagKind::MusicbrainzRecordingId => id_tag(&self.musicbrainz_recording_id),
            TagKind::TrackSubtitle => text_tag(&self.track_subtitle),
            TagKind::TrackTitleSortOrder => text_tag(&self.track_title_sort_order),
            TagKind::Comment => text_tag(&self.comment),
            TagKind::Description => text_tag(&self.description),
            TagKind::Language => text_tag(&self.language),
            TagKind::Script => text_tag(&self.script),
            TagKind::Lyrics => text_tag(&self.lyrics),
            TagKind::AlbumTitle => text_tag(&self.album_title),
            TagKind::SetSubtitle => text_tag(&self.set_subtitle),
            TagKind::MusicbrainzReleaseId => id_tag(&self.musicbrainz_release_id),
            TagKind::OriginalAlbumTitle => text_tag(&self.original_album_title),
            TagKind::AlbumTitleSortOrder => text_tag(&self.album_title_sort_order),
            TagKind::AlbumArtist => text_tag(&self.album_artist),
            TagKind::MusicbrainzReleaseArtistId => id_tag(&self.musicbrainz_release_artist_id),
            TagKind::ContentGroup => text_tag(&self.content_group),
            TagKind::MusicbrainzReleaseGroupId => id_tag(&self.musicbrainz_release_group_id),
            TagKind::TrackArtist => text_tag(&self.track_artist),
            TagKind::TrackArtists => text_tag(&self.track_artists),
            TagKind::MusicbrainzArtistId => id_tag(&self.musicbrainz_artist_id),
            TagKind::OriginalArtist => text_tag(&self.original_artist),
            TagKind::AlbumArtistSortOrder => text_tag(&self.album_artist_sort_order),
            TagKind::TrackArtistSortOrder => text_tag(&self.track_artist_sort_order),
            TagKind::ShowName => text_tag(&self.show_name),
            TagKind::ShowNameSortOrder => text_tag(&self.show_name_sort_order),
            TagKind::Genre => text_tag(&self.genre),
            TagKind::InitialKey => text_tag(&self.initial_key),
            TagKind::Color => text_tag(&self.color),
            TagKind::Mood => text_tag(&self.mood),
            TagKind::Bpm => number_tag(&self.bpm),
            TagKind::AudioFileUrl => text_tag(&self.audio_file_url),
            TagKind::AudioSourceUrl => text_tag(&self.audio_source_url),
            TagKind::CommercialInformationUrl => text_tag(&self.commercial_information_url),
            TagKind::CopyrightUrl => text_tag(&self.copyright_url),
            TagKind::TrackArtistUrl => text_tag(&self.track_artist_url),
            TagKind::RadioStationUrl => text_tag(&self.radio_station_url),
            TagKind::PaymentUrl => text_tag(&self.payment_url),
            TagKind::PublisherUrl => text_tag(&self.publisher_url),
            TagKind::DiscNumber => text_tag(&self.disc_number),
            TagKind::DiscTotal => text_tag(&self.disc_total),
            TagKind::TrackNumber => text_tag(&self.track_number),
            TagKind::TrackTotal => text_tag(&self.track_total),
            TagKind::Movement => text_tag(&self.movement),
            TagKind::MovementNumber => text_tag(&self.movement_number),
            TagKind::MovementTotal => text_tag(&self.movement_total),
            TagKind::Year => text_tag(&self.year),
            TagKind::RecordingDate => text_tag(&self.recording_date),
            TagKind::ReleaseDate => text_tag(&self.release_date),
            TagKind::OriginalReleaseDate => text_tag(&self.original_release_date),
            TagKind::FileType => text_tag(&self.file_type),
            TagKind::FileOwner => text_tag(&self.file_owner),
            TagKind::TaggingTime => text_tag(&self.tagging_time),
            TagKind::Length => text_tag(&self.length),
            TagKind::OriginalFileName => text_tag(&self.original_file_name),
            TagKind::OriginalMediaType => text_tag(&self.original_media_type),
            TagKind::EncodedBy => text_tag(&self.encoded_by),
            TagKind::EncoderSoftware => text_tag(&self.encoder_software),
            TagKind::EncoderSettings => text_tag(&self.encoder_settings),
            TagKind::EncodingTime => text_tag(&self.encoding_time),
            TagKind::ReplayGainAlbumGain => text_tag(&self.replay_gain_album_gain),
            TagKind::ReplayGainAlbumPeak => text_tag(&self.replay_gain_album_peak),
            TagKind::ReplayGainTrackGain => text_tag(&self.replay_gain_track_gain),
            TagKind::ReplayGainTrackPeak => text_tag(&self.replay_gain_track_peak),
            TagKind::Isrc => text_tag(&self.isrc),
            TagKind::Barcode => text_tag(&self.barcode),
            TagKind::CatalogNumber => text_tag(&self.catalog_number),
            TagKind::Work => text_tag(&self.work),
            TagKind::FlagCompilation => text_tag(&self.flag_compilation),
            TagKind::FlagPodcast => text_tag(&self.flag_podcast),
            TagKind::CopyrightMessage => text_tag(&self.copyright_message),
            TagKind::License => text_tag(&self.license),
            TagKind::Popularimeter => text_tag(&self.popularimeter),
            TagKind::ParentalAdvisory => text_tag(&self.parental_advisory),
            TagKind::Arranger => text_tag(&self.arranger),
            TagKind::Writer => text_tag(&self.writer),
            TagKind::Composer => text_tag(&self.composer),
            TagKind::ComposerSortOrder => text_tag(&self.composer_sort_order),
            TagKind::Conductor => text_tag(&self.conductor),
            TagKind::Director => text_tag(&self.director),
            TagKind::Engineer => text_tag(&self.engineer),
            TagKind::Lyricist => text_tag(&self.lyricist),
            TagKind::OriginalLyricist => text_tag(&self.original_lyricist),
            TagKind::MixDj => text_tag(&self.mix_dj),
            TagKind::MixEngineer => text_tag(&self.mix_engineer),
            TagKind::MusicianCredits => text_tag(&self.musician_credits),
            TagKind::Performer => text_tag(&self.performer),
            TagKind::Producer => text_tag(&self.producer),
            TagKind::Publisher => text_tag(&self.publisher),
            TagKind::Label => text_tag(&self.label),
            TagKind::InternetRadioStationName => text_tag(&self.internet_radio_station_name),
            TagKind::InternetRadioStationOwner => text_tag(&self.internet_radio_station_owner),
            TagKind::Remixer => text_tag(&self.remixer),
            TagKind::PodcastDescription => text_tag(&self.podcast_description),
            TagKind::PodcastSeriesCategory => text_tag(&self.podcast_series_category),
            TagKind::PodcastUrl => text_tag(&self.podcast_url),
            TagKind::PodcastGlobalUniqueId => text_tag(&self.podcast_global_unique_id),
            TagKind::PodcastKeywords => text_tag(&self.podcast_keywords),
        }
    }

    /// Stores text under a kind that holds text; other kinds leave the record as it was.
    /// Returns whether the value was stored.
    pub fn set_text(&mut self, kind: TagKind, text: String) -> (stored: bool)
        ensures
            stored == (kind.shape() is Title || kind.shape() is Text),
            stored ==> final(self).value(kind) == TagValueView::Text(text@),
            forall|k: TagKind| k != kind || !stored ==> final(self).value(k) == old(self).value(k),
    {
        match kind {
            TagKind::TrackTitle => {
                self.track_title = text;
                true
            },
            TagKind::TrackSubtitle => {
                self.track_subtitle = Some(text);
                true
            },
            TagKind::TrackTitleSortOrder => {
                self.track_title_sort_order = Some(text);
                true
            },
            TagKind::Comment => {
                self.comment = Some(text);
                true
            },
            TagKind::Description => {
                self.description = Some(text);
                true
            },
            TagKind::Language => {
                self.language = Some(text);
                true
            },
            TagKind::Script => {
                self.script = Some(text);
                true
            },
            TagKind::Lyrics => {
                self.lyrics = Some(text);
                true
            },
            TagKind::AlbumTitle => {
                self.album_title = Some(text);
                true
            },
            TagKind::SetSubtitle => {
                self.set_subtitle = Some(text);
                true
            },
            TagKind::OriginalAlbumTitle => {
                self.original_album_title = Some(text);
                true
            },
            TagKind::AlbumTitleSortOrder => {
                self.album_title_sort_order = Some(text);
                true
            },
            TagKind::AlbumArtist => {
                self.album_artist = Some(text);
                true
            },
            TagKind::ContentGroup => {
                self.content_group = Some(text);
                true
            },
            TagKind::TrackArtist => {
                self.track_artist = Some(text);
                true
            },
            TagKind::TrackArtists => {
                self.track_artists = Some(text);
                true
            },
            TagKind::OriginalArtist => {
                self.original_artist = Some(text);
                true
            },
            TagKind::AlbumArtistSortOrder => {
                self.album_artist_sort_order = Some(text);
                true
            },
            TagKind::TrackArtistSortOrder => {
                self.track_artist_sort_order = Some(text);
                true
            },
            TagKind::ShowName => {
                self.show_name = Some(text);
                true
            },
            TagKind::ShowNameSortOrder => {
                self.show_name_sort_order = Some(text);
                true
            },
            TagKind::Genre => {
                self.genre = Some(text);
                true
            },
            TagKind::InitialKey => {
                self.initial_key = Some(text);
                true
            },
            TagKind::Color => {
                self.color = Some(text);
                true
            },
            TagKind::Mood => {
                self.mood = Some(text);
                true
            },
            TagKind::AudioFileUrl => {
                self.audio_file_url = Some(text);
                true
            },
            TagKind::AudioSourceUrl => {
                self.audio_source_url = Some(text);
                true
            },
            TagKind::CommercialInformationUrl => {
                self.commercial_information_url = Some(text);
                true
            },
            TagKind::CopyrightUrl => {
                self.copyright_url = Some(text);
                true
            },
            TagKind::TrackArtistUrl => {
                self.track_artist_url = Some(text);
                true
            },
            TagKind::RadioStationUrl => {
                self.radio_station_url = Some(text);
                true
            },
            TagKind::PaymentUrl => {
                self.payment_url = Some(text);
                true
            },
            TagKind::PublisherUrl => {
                self.publisher_url = Some(text);
                true
            },
            TagKind::DiscNumber => {
                self.disc_number = Some(text);
                true
            },
            TagKind::DiscTotal => {
                self.disc_total = Some(text);
                true
            },
            TagKind::TrackNumber => {
                self.track_number = Some(text);
                true
            },
            TagKind::TrackTotal => {
                self.track_total = Some(text);
                true
            },
            TagKind::Movement => {
                self.movement = Some(text);
                true
            },
            TagKind::MovementNumber => {
                self.movement_number = Some(text);
                true
            },
            TagKind::MovementTotal => {
                self.movement_total = Some(text);
                true
            },
            TagKind::Year => {
                self.year = Some(text);
                true
            },
            TagKind::RecordingDate => {
                self.recording_date = Some(text);
                true
            },
            TagKind::ReleaseDate => {
                self.release_date = Some(text);
                true
            },
            TagKind::OriginalReleaseDate => {
                self.original_release_date = Some(text);
                true
            },
            TagKind::FileType => {
                self.file_type = Some(text);
                true
            },
            TagKind::FileOwner => {
                self.file_owner = Some(text);
                true
            },
            TagKind::TaggingTime => {
                self.tagging_time = Some(text);
                true
            },
            TagKind::Length => {
                self.length = Some(text);
                true
            },
            TagKind::OriginalFileName => {
                self.original_file_name = Some(text);
                true
            },
            TagKind::OriginalMediaType => {
                self.original_media_type = Some(text);
                true
            },
            TagKind::EncodedBy => {
                self.encoded_by = Some(text);
                true
            },
            TagKind::EncoderSoftware => {
                self.encoder_software = Some(text);
                true
            },
            TagKind::EncoderSettings => {
                self.encoder_settings = Some(text);
                true
            },
            TagKind::EncodingTime => {
                self.encoding_time = Some(text);
                true
            },
            TagKind::ReplayGainAlbumGain => {
                self.replay_gain_album_gain = Some(text);
                true
            },
            TagKind::ReplayGainAlbumPeak => {
                self.replay_gain_album_peak = Some(text);
                true
            },
            TagKind::ReplayGainTrackGain => {
                self.replay_gain_track_gain = Some(text);
                true
            },
            TagKind::ReplayGainTrackPeak => {
                self.replay_gain_track_peak = Some(text);
                true
            },
            TagKind::Isrc => {
                self.isrc = Some(text);
                true
            },
            TagKind::Barcode => {
                self.barcode = Some(text);
                true
            },
            TagKind::CatalogNumber => {
                self.catalog_number = Some(text);
                true
            },
            TagKind::Work => {
                self.work = Some(text);
                true
            },
            TagKind::FlagCompilation => {
                self.flag_compilation = Some(text);
                true
            },
            TagKind::FlagPodcast => {
                self.flag_podcast = Some(text);
                true
            },
            TagKind::CopyrightMessage => {
                self.copyright_message = Some(text);
                true
            },
            TagKind::License => {
                self.license = Some(text);
                true
            },
            TagKind::Popularimeter => {
                self.popularimeter = Some(text);
                true
            },
            TagKind::ParentalAdvisory => {
                self.parental_advisory = Some(text);
                true
            },
            TagKind::Arranger => {
                self.arranger = Some(text);
                true
            },
            TagKind::Writer => {
                self.writer = Some(text);
                true
            },
            TagKind::Composer => {
                self.composer = Some(text);
                true
            },
            TagKind::ComposerSortOrder => {
                self.composer_sort_order = Some(text);
                true
            },
            TagKind::Conductor => {
                self.conductor = Some(text);
                true
            },
            TagKind::Director => {
                self.director = Some(text);
                true
            },
            TagKind::Engineer => {
                self.engineer = Some(text);
                true
            },
            TagKind::Lyricist => {
                self.lyricist = Some(text);
                true
            },
            TagKind::OriginalLyricist => {
                self.original_lyricist = Some(text);
                true
            },
            TagKind::MixDj => {
                self.mix_dj = Some(text);
                true
            },
            TagKind::MixEngineer => {
                self.mix_engineer = Some(text);
                true
            },
            TagKind::MusicianCredits => {
                self.musician_credits = Some(text);
                true
            },
            TagKind::Performer => {
                self.performer = Some(text);
                true
            },
            TagKind::Producer => {
                self.producer = Some(text);
                true
            },
            TagKind::Publisher => {
                self.publisher = Some(text);
                true
            },
            TagKind::Label => {
                self.label = Some(text);
                true
            },
            TagKind::InternetRadioStationName => {
                self.internet_radio_station_name = Some(text);
                true
            },
            TagKind::InternetRadioStationOwner => {
                self.internet_radio_station_owner = Some(text);
                true
            },
            TagKind::Remixer => {
                self.remixer = Some(text);
                true
            },
            TagKind::PodcastDescription => {
                self.podcast_description = Some(text);
                true
            },
            TagKind::PodcastSeriesCategory => {
                self.podcast_series_category = Some(text);
                true
            },
            TagKind::PodcastUrl => {
                self.podcast_url = Some(text);
                true
            },
            TagKind::PodcastGlobalUniqueId => {
                self.podcast_global_unique_id = Some(text);
                true
            },
            TagKind::PodcastKeywords => {
                self.podcast_keywords = Some(text);
                true
            },
            _ => false,
        }
    }

    /// Stores an identifier, or none, under a kind that holds identifiers; other kinds leave
    /// the record as it was. Returns whether the value was stored.
    pub fn set_id(&mut self, kind: TagKind, id: Option<u128>) -> (stored: bool)
        ensures
            stored == (kind.shape() is Id),
            stored ==> final(self).value(kind) == id_value(id),
            forall|k: TagKind| k != kind || !stored ==> final(self).value(k) == old(self).value(k),
    {
        match kind {
            TagKind::MusicbrainzWorkId => {
                self.musicbrainz_work_id = id;
                true
            },
            TagKind::MusicbrainzTrackId => {
                self.musicbrainz_track_id = id;
                true
            },
            TagKind::MusicbrainzRecordingId => {
                self.musicbrainz_recording_id = id;
                true
            },
            TagKind::MusicbrainzReleaseId => {
                self.musicbrainz_release_id = id;
                true
            },
            TagKind::MusicbrainzReleaseArtistId => {
                self.musicbrainz_release_artist_id = id;
                true
            },
            TagKind::MusicbrainzReleaseGroupId => {
                self.musicbrainz_release_group_id = id;
                true
            },
            TagKind::MusicbrainzArtistId => {
                self.musicbrainz_artist_id = id;
                true
            },
            _ => false,
        }
    }

    /// Stores a number, or none, under a kind that holds numbers; other kinds leave the
    /// record as it was. Returns whether the value was stored.
    pub fn set_number(&mut self, kind: TagKind, bits: Option<u32>) -> (stored: bool)
        ensures
            stored == (kind.shape() is Number),
            stored ==> final(self).value(kind) == number_value(bits),
            forall|k: TagKind| k != kind || !stored ==> final(self).value(k) == old(self).value(k),
    {
        match kind {
            TagKind::Bpm => {
                self.bpm = bits;
                true
            },
            _ => false,
        }
    }

    /// Removes the value of an optional kind; the title stays. Returns whether the kind is
    /// optional.
    pub fn clear(&mut self, kind: TagKind) -> (cleared: bool)
        ensures
            cleared == !(kind.shape() is Title),
            cleared ==> final(self).value(kind) is Absent,
            forall|k: TagKind| k != kind || !cleared ==> final(self).value(k) == old(self).value(k),
    {
        match kind {
            TagKind::TrackTitle => false,
            TagKind::MusicbrainzWorkId => {
                self.musicbrainz_work_id = None;
                true
            },
            TagKind::MusicbrainzTrackId => {
                self.musicbrainz_track_id = None;
                true
            },
            TagKind::MusicbrainzRecordingId => {
                self.musicbrainz_recording_id = None;
                true
            },
            TagKind::TrackSubtitle => {
                self.track_subtitle = None;
                true
            },
            TagKind::TrackTitleSortOrder => {
                self.track_title_sort_order = None;
                true
            },
            TagKind::Comment => {
                self.comment = None;
                true
            },
            TagKind::Description => {
                self.description = None;
                true
            },
            TagKind::Language => {
                self.language = None;
                true
            },
            TagKind::Script => {
                self.script = None;
                true
            },
            TagKind::Lyrics => {
                self.lyrics = None;
                true
            },
            TagKind::AlbumTitle => {
                self.album_title = None;
                true
            },
            TagKind::SetSubtitle => {
                self.set_subtitle = None;
                true
            },
            TagKind::MusicbrainzReleaseId => {
                self.musicbrainz_release_id = None;
                true
            },
            TagKind::OriginalAlbumTitle => {
                self.original_album_title = None;
                true
            },
            TagKind::AlbumTitleSortOrder => {
                self.album_title_sort_order = None;
                true
            },
            TagKind::AlbumArtist => {
                self.album_artist = None;
                true
            },
            TagKind::MusicbrainzReleaseArtistId => {
                self.musicbrainz_release_artist_id = None;
                true
            },
            TagKind::ContentGroup => {
                self.content_group = None;
                true
            },
            TagKind::MusicbrainzReleaseGroupId => {
                self.musicbrainz_release_group_id = None;
                true
            },
            TagKind::TrackArtist => {
                self.track_artist = None;
                true
            },
            TagKind::TrackArtists => {
                self.track_artists = None;
                true
            },
            TagKind::MusicbrainzArtistId => {
                self.musicbrainz_artist_id = None;
                true
            },
            TagKind::OriginalArtist => {
                self.original_artist = None;
                true
            },
            TagKind::AlbumArtistSortOrder => {
                self.album_artist_sort_order = None;
                true
            },
            TagKind::TrackArtistSortOrder => {
                self.track_artist_sort_order = None;
                true
            },
            TagKind::ShowName => {
                self.show_name = None;
                true
            },
            TagKind::ShowNameSortOrder => {
                self.show_name_sort_order = None;
                true
            },
            TagKind::Genre => {
                self.genre = None;
                true
            },
            TagKind::InitialKey => {
                self.initial_key = None;
                true
            },
            TagKind::Color => {
                self.color = None;
                true
            },
            TagKind::Mood => {
                self.mood = None;
                true
            },
            TagKind::Bpm => {
                self.bpm = None;
                true
            },
            TagKind::AudioFileUrl => {
                self.audio_file_url = None;
                true
            },
            TagKind::AudioSourceUrl => {
                self.audio_source_url = None;
                true
            },
            TagKind::CommercialInformationUrl => {
                self.commercial_information_url = None;
                true
            },
            TagKind::CopyrightUrl => {
                self.copyright_url = None;
                true
            },
            TagKind::TrackArtistUrl => {
                self.track_artist_url = None;
                true
            },
            TagKind::RadioStationUrl => {
                self.radio_station_url = None;
                true
            },
            TagKind::PaymentUrl => {
                self.payment_url = None;
                true
            },
            TagKind::PublisherUrl => {
                self.publisher_url = None;
                true
            },
            TagKind::DiscNumber => {
                self.disc_number = None;
                true
            },
            TagKind::DiscTotal => {
                self.disc_total = None;
                true
            },
            TagKind::TrackNumber => {
                self.track_number = None;
                true
            },
            TagKind::TrackTotal => {
                self.track_total = None;
                true
            },
            TagKind::Movement => {
                self.movement = None;
                true
            },
            TagKind::MovementNumber => {
                self.movement_number = None;
                true
            },
            TagKind::MovementTotal => {
                self.movement_total = None;
                true
            },
            TagKind::Year => {
                self.year = None;
                true
            },
            TagKind::RecordingDate => {
                self.recording_date = None;
                true
            },
            TagKind::ReleaseDate => {
                self.release_date = None;
                true
            },
            TagKind::OriginalReleaseDate => {
                self.original_release_date = None;
                true
            },
            TagKind::FileType => {
                self.file_type = None;
                true
            },
            TagKind::FileOwner => {
                self.file_owner = None;
                true
            },
            TagKind::TaggingTime => {
                self.tagging_time = None;
                true
            },
            TagKind::Length => {
                self.length = None;
                true
            },
            TagKind::OriginalFileName => {
                self.original_file_name = None;
                true
            },
            TagKind::OriginalMediaType => {
                self.original_media_type = None;
                true
            },
            TagKind::EncodedBy => {
                self.encoded_by = None;
                true
            },
            TagKind::EncoderSoftware => {
                self.encoder_software = None;
                true
            },
            TagKind::EncoderSettings => {
                self.encoder_settings = None;
                true
            },
            TagKind::EncodingTime => {
                self.encoding_time = None;
                true
            },
            TagKind::ReplayGainAlbumGain => {
                self.replay_gain_album_gain = None;
                true
            },
            TagKind::ReplayGainAlbumPeak => {
                self.replay_gain_album_peak = None;
                true
            },
            TagKind::ReplayGainTrackGain => {
                self.replay_gain_track_gain = None;
                true
            },
            TagKind::ReplayGainTrackPeak => {
                self.replay_gain_track_peak = None;
                true
            },
            TagKind::Isrc => {
                self.isrc = None;
                true
            },
            TagKind::Barcode => {
                self.barcode = None;
                true
            },
            TagKind::CatalogNumber => {
                self.catalog_number = None;
                true
            },
            TagKind::Work => {
                self.work = None;
                true
            },
            TagKind::FlagCompilation => {
                self.flag_compilation = None;
                true
            },
            TagKind::FlagPodcast => {
                self.flag_podcast = None;
                true
            },
            TagKind::CopyrightMessage => {
                self.copyright_message = None;
                true
            },
            TagKind::License => {
                self.license = None;
                true
            },
            TagKind::Popularimeter => {
                self.popularimeter = None;
                true
            },
            TagKind::ParentalAdvisory => {
                self.parental_advisory = None;
                true
            },
            TagKind::Arranger => {
                self.arranger = None;
                true
            },
            TagKind::Writer => {
                self.writer = None;
                true
            },
            TagKind::Composer => {
                self.composer = None;
                true
            },
            TagKind::ComposerSortOrder => {
                self.composer_sort_order = None;
                true
            },
            TagKind::Conductor => {
                self.conductor = None;
                true
            },
            TagKind::Director => {
                self.director = None;
                true
            },
            TagKind::Engineer => {
                self.engineer = None;
                true
            },
            TagKind::Lyricist => {
                self.lyricist = None;
                true
            },
            TagKind::OriginalLyricist => {
                self.original_lyricist = None;
                true
            },
            TagKind::MixDj => {
                self.mix_dj = None;
                true
            },
            TagKind::MixEngineer => {
                self.mix_engineer = None;
                true
            },
            TagKind::MusicianCredits => {
                self.musician_credits = None;
                true
            },
            TagKind::Performer => {
                self.performer = None;
                true
            },
            TagKind::Producer => {
                self.producer = None;
                true
            },
            TagKind::Publisher => {
                self.publisher = None;
                true
            },
            TagKind::Label => {
                self.label = None;
                true
            },
            TagKind::InternetRadioStationName => {
                self.internet_radio_station_name = None;
                true
            },
            TagKind::InternetRadioStationOwner => {
                self.internet_radio_station_owner = None;
                true
            },
            TagKind::Remixer => {
                self.remixer = None;
                true
            },
            TagKind::PodcastDescription => {
                self.podcast_description = None;
                true
            },
            TagKind::PodcastSeriesCategory => {
                self.podcast_series_category = None;
                true
            },
            TagKind::PodcastUrl => {
                self.podcast_url = None;
                true
            },
            TagKind::PodcastGlobalUniqueId => {
                self.podcast_global_unique_id = None;
                true
            },
            TagKind::PodcastKeywords => {
                self.podcast_keywords = None;
                true
            },
        }
    }

    /// Stores a value under a kind whose shape it fits; a value that does not fit leaves
    /// the record as it was. Returns whether the value was stored.
    pub fn set(&mut self, kind: TagKind, value: TagValue) -> (stored: bool)
        ensures
            stored == value@.fits(kind.shape()),
            stored ==> final(self).value(kind) == value@,
            forall|k: TagKind| k != kind || !stored ==> final(self).value(k) == old(self).value(k),
    {
        match value.0 {
            Some(TagValueKind::String(s)) => self.set_text(kind, s),
            Some(TagValueKind::Uuid(u)) => self.set_id(kind, Some(u)),
            Some(TagValueKind::Float(bits)) => self.set_number(kind, Some(bits)),
            None => self.clear(kind),
        }
    }
}

/// Every value that a record holds fits the shape of its kind.
pub proof fn lemma_values_fit(tags: Tags, kind: TagKind)
    ensures
        tags.value(kind).fits(kind.shape()),
{
}

/// The view lists the values by position.
pub proof fn lemma_view_at(tags: Tags, kind: TagKind)
    ensures
        tags@.len() == TAG_COUNT,
        tags@[kind.spec_index()] == tags.value(kind),
{
    lemma_index_roundtrip(kind);
}

} // verus!
