//! Tags as an audio file carries them, and how they become the tags of a track.

use crate::tags::{TagKind, TagShape, TagValueView, Tags};
use crate::text::str_equal;
use vstd::prelude::*;

verus! {

/// `lofty::tag::Tag`: the tags of an audio file.
#[verifier::external_type_specification]
#[verifier::external_body]
pub struct ExFileTag(lofty::tag::Tag);

/// Why the tags of a file could not become the tags of a track.
#[derive(Debug, Clone, Copy, PartialEq, Eq, Structural)]
pub enum TagsError {
    /// The file has no title.
    MissingTitle,
}

/// The value of one item of a file's tags.
#[derive(Debug, PartialEq, Eq)]
pub enum ItemValue {
    Text(String),
    Locator(String),
    Binary(Vec<u8>),
}

/// One item of a file's tags: the name of its key and its value.
#[derive(Debug, PartialEq, Eq)]
pub struct TagItem {
    pub key: String,
    pub value: ItemValue,
}

/// What an `ItemValue` stands for.
pub enum ItemValueView {
    Text(Seq<char>),
    Locator(Seq<char>),
    Binary(Seq<u8>),
}

/// What a `TagItem` stands for.
pub struct TagItemView {
    pub key: Seq<char>,
    pub value: ItemValueView,
}

impl View for ItemValue {
    type V = ItemValueView;

    open spec fn view(&self) -> ItemValueView {
        match self {
            ItemValue::Text(s) => ItemValueView::Text(s@),
            ItemValue::Locator(s) => ItemValueView::Locator(s@),
            ItemValue::Binary(b) => ItemValueView::Binary(b@),
        }
    }
}

impl View for TagItem {
    type V = TagItemView;

    open spec fn view(&self) -> TagItemView {
        TagItemView { key: self.key@, value: self.value@ }
    }
}

/// What a sequence of items stands for.
pub open spec fn items_of(s: Seq<TagItem>) -> Seq<TagItemView> {
    s.map_values(|i: TagItem| i@)
}

/// The items that the tags of a file hold, in their order, each key by its name.
pub uninterp spec fn tag_contents(tag: lofty::tag::Tag) -> Seq<TagItemView>;

/// The identifier that a text spells, in any of the forms in which identifiers are
/// written, if it spells one.
pub uninterp spec fn uuid_of_text(text: Seq<char>) -> Option<u128>;

/// `lofty::tag::Tag::items`: the items of the tags in their order, each with the name of
/// its key and a copy of its value.
#[verifier::external_body]
fn read_items(tag: &lofty::tag::Tag) -> (r: Vec<TagItem>)
    ensures
        items_of(r@) == tag_contents(*tag),
{
    tag.items().map(
        |item| TagItem {
            key: format!("{:?}", item.key()),
            value: match item.value() {
                lofty::tag::ItemValue::Text(text) => ItemValue::Text(text.clone()),
                lofty::tag::ItemValue::Locator(text) => ItemValue::Locator(text.clone()),
                lofty::tag::ItemValue::Binary(bytes) => ItemValue::Binary(bytes.clone()),
            },
        },
    ).collect()
}

/// `uuid::Uuid::parse_str`: the identifier that the text spells, if it spells one.
#[verifier::external_body]
fn parse_uuid_text(value: &str) -> (r: Option<u128>)
    ensures
        r == uuid_of_text(value@),
{
    uuid::Uuid::parse_str(value).ok().map(|id| id.as_u128())
}

/// The identifier that a text spells, if it spells one.
pub fn parse_uuid(value: &str) -> (r: Option<u128>)
    ensures
        r == uuid_of_text(value@),
{
    parse_uuid_text(value)
}

/// The kind of tag that files carry under a key of the given name, if there is one.
pub open spec fn kind_of_item_key(key: Seq<char>) -> Option<TagKind> {
    if key == "TrackTitle"@ {
        Some(TagKind::TrackTitle)
    } else if key == "MusicBrainzWorkId"@ {
        Some(TagKind::MusicbrainzWorkId)
    } else if key == "MusicBrainzTrackId"@ {
        Some(TagKind::MusicbrainzTrackId)
    } else if key == "MusicBrainzRecordingId"@ {
        Some(TagKind::MusicbrainzRecordingId)
    } else if key == "TrackSubtitle"@ {
        Some(TagKind::TrackSubtitle)
    } else if key == "TrackTitleSortOrder"@ {
        Some(TagKind::TrackTitleSortOrder)
    } else if key == "Comment"@ {
        Some(TagKind::Comment)
    } else if key == "Description"@ {
        Some(TagKind::Description)
    } else if key == "Language"@ {
        Some(TagKind::Language)
    } else if key == "Script"@ {
        Some(TagKind::Script)
    } else if key == "Lyrics"@ {
        Some(TagKind::Lyrics)
    } else if key == "AlbumTitle"@ {
        Some(TagKind::AlbumTitle)
    } else if key == "SetSubtitle"@ {
        Some(TagKind::SetSubtitle)
    } else if key == "MusicBrainzReleaseId"@ {
        Some(TagKind::MusicbrainzReleaseId)
    } else if key == "OriginalAlbumTitle"@ {
        Some(TagKind::OriginalAlbumTitle)
    } else if key == "AlbumTitleSortOrder"@ {
        Some(TagKind::AlbumTitleSortOrder)
    } else if key == "AlbumArtist"@ {
        Some(TagKind::AlbumArtist)
    } else if key == "MusicBrainzReleaseArtistId"@ {
        Some(TagKind::MusicbrainzReleaseArtistId)
    } else if key == "ContentGroup"@ {
        Some(TagKind::ContentGroup)
    } else if key == "MusicBrainzReleaseGroupId"@ {
        Some(TagKind::MusicbrainzReleaseGroupId)
    } else if key == "TrackArtist"@ {
        Some(TagKind::TrackArtist)
    } else if key == "TrackArtists"@ {
        Some(TagKind::TrackArtists)
    } else if key == "MusicBrainzArtistId"@ {
        Some(TagKind::MusicbrainzArtistId)
    } else if key == "OriginalArtist"@ {
        Some(TagKind::OriginalArtist)
    } else if key == "AlbumArtistSortOrder"@ {
        Some(TagKind::AlbumArtistSortOrder)
    } else if key == "TrackArtistSortOrder"@ {
        Some(TagKind::TrackArtistSortOrder)
    } else if key == "ShowName"@ {
        Some(TagKind::ShowName)
    } else if key == "ShowNameSortOrder"@ {
        Some(TagKind::ShowNameSortOrder)
    } else if key == "Genre"@ {
        Some(TagKind::Genre)
    } else if key == "InitialKey"@ {
        Some(TagKind::InitialKey)
    } else if key == "Color"@ {
        Some(TagKind::Color)
    } else if key == "Mood"@ {
        Some(TagKind::Mood)
    } else if key == "Bpm"@ {
        Some(TagKind::Bpm)
    } else if key == "AudioFileUrl"@ {
        Some(TagKind::AudioFileUrl)
    } else if key == "AudioSourceUrl"@ {
        Some(TagKind::AudioSourceUrl)
    } else if key == "CommercialInformationUrl"@ {
        Some(TagKind::CommercialInformationUrl)
    } else if key == "CopyrightUrl"@ {
        Some(TagKind::CopyrightUrl)
    } else if key == "TrackArtistUrl"@ {
        Some(TagKind::TrackArtistUrl)
    } else if key == "RadioStationUrl"@ {
        Some(TagKind::RadioStationUrl)
    } else if key == "PaymentUrl"@ {
        Some(TagKind::PaymentUrl)
    } else if key == "PublisherUrl"@ {
        Some(TagKind::PublisherUrl)
    } else if key == "DiscNumber"@ {
        Some(TagKind::DiscNumber)
    } else if key == "DiscTotal"@ {
        Some(TagKind::DiscTotal)
    } else if key == "TrackNumber"@ {
        Some(TagKind::TrackNumber)
    } else if key == "TrackTotal"@ {
        Some(TagKind::TrackTotal)
    } else if key == "Movement"@ {
        Some(TagKind::Movement)
    } else if key == "MovementNumber"@ {
        Some(TagKind::MovementNumber)
    } else if key == "MovementTotal"@ {
        Some(TagKind::MovementTotal)
    } else if key == "Year"@ {
        Some(TagKind::Year)
    } else if key == "RecordingDate"@ {
        Some(TagKind::RecordingDate)
    } else if key == "ReleaseDate"@ {
        Some(TagKind::ReleaseDate)
    } else if key == "OriginalReleaseDate"@ {
        Some(TagKind::OriginalReleaseDate)
    } else if key == "FileType"@ {
        Some(TagKind::FileType)
    } else if key == "FileOwner"@ {
        Some(TagKind::FileOwner)
    } else if key == "TaggingTime"@ {
        Some(TagKind::TaggingTime)
    } else if key == "Length"@ {
        Some(TagKind::Length)
    } else if key == "OriginalFileName"@ {
        Some(TagKind::OriginalFileName)
    } else if key == "OriginalMediaType"@ {
        Some(TagKind::OriginalMediaType)
    } else if key == "EncodedBy"@ {
        Some(TagKind::EncodedBy)
    } else if key == "EncoderSoftware"@ {
        Some(TagKind::EncoderSoftware)
    } else if key == "EncoderSettings"@ {
        Some(TagKind::EncoderSettings)
    } else if key == "EncodingTime"@ {
        Some(TagKind::EncodingTime)
    } else if key == "ReplayGainAlbumGain"@ {
        Some(TagKind::ReplayGainAlbumGain)
    } else if key == "ReplayGainAlbumPeak"@ {
        Some(TagKind::ReplayGainAlbumPeak)
    } else if key == "ReplayGainTrackGain"@ {
        Some(TagKind::ReplayGainTrackGain)
    } else if key == "ReplayGainTrackPeak"@ {
        Some(TagKind::ReplayGainTrackPeak)
    } else if key == "Isrc"@ {
        Some(TagKind::Isrc)
    } else if key == "Barcode"@ {
        Some(TagKind::Barcode)
    } else if key == "CatalogNumber"@ {
        Some(TagKind::CatalogNumber)
    } else if key == "Work"@ {
        Some(TagKind::Work)
    } else if key == "FlagCompilation"@ {
        Some(TagKind::FlagCompilation)
    } else if key == "FlagPodcast"@ {
        Some(TagKind::FlagPodcast)
    } else if key == "CopyrightMessage"@ {
        Some(TagKind::CopyrightMessage)
    } else if key == "License"@ {
        Some(TagKind::License)
    } else if key == "Popularimeter"@ {
        Some(TagKind::Popularimeter)
    } else if key == "ParentalAdvisory"@ {
        Some(TagKind::ParentalAdvisory)
    } else if key == "Arranger"@ {
        Some(TagKind::Arranger)
    } else if key == "Writer"@ {
        Some(TagKind::Writer)
    } else if key == "Composer"@ {
        Some(TagKind::Composer)
    } else if key == "ComposerSortOrder"@ {
        Some(TagKind::ComposerSortOrder)
    } else if key == "Conductor"@ {
        Some(TagKind::Conductor)
    } else if key == "Director"@ {
        Some(TagKind::Director)
    } else if key == "Engineer"@ {
        Some(TagKind::Engineer)
    } else if key == "Lyricist"@ {
        Some(TagKind::Lyricist)
    } else if key == "OriginalLyricist"@ {
        Some(TagKind::OriginalLyricist)
    } else if key == "MixDj"@ {
        Some(TagKind::MixDj)
    } else if key == "MixEngineer"@ {
        Some(TagKind::MixEngineer)
    } else if key == "MusicianCredits"@ {
        Some(TagKind::MusicianCredits)
    } else if key == "Performer"@ {
        Some(TagKind::Performer)
    } else if key == "Producer"@ {
        Some(TagKind::Producer)
    } else if key == "Publisher"@ {
        Some(TagKind::Publisher)
    } else if key == "Label"@ {
        Some(TagKind::Label)
    } else if key == "InternetRadioStationName"@ {
        Some(TagKind::InternetRadioStationName)
    } else if key == "InternetRadioStationOwner"@ {
        Some(TagKind::InternetRadioStationOwner)
    } else if key == "Remixer"@ {
        Some(TagKind::Remixer)
    } else if key == "PodcastDescription"@ {
        Some(TagKind::PodcastDescription)
    } else if key == "PodcastSeriesCategory"@ {
        Some(TagKind::PodcastSeriesCategory)
    } else if key == "PodcastUrl"@ {
        Some(TagKind::PodcastUrl)
    } else if key == "PodcastGlobalUniqueId"@ {
        Some(TagKind::PodcastGlobalUniqueId)
    } else if key == "PodcastKeywords"@ {
        Some(TagKind::PodcastKeywords)
    } else {
        None
    }
}

impl TagKind {
    /// The kind of tag that files carry under a key of the given name, if there is one.
    pub fn from_item_key(name: &str) -> (r: Option<TagKind>)
        ensures
            r == kind_of_item_key(name@),
    {
        if str_equal(name, "TrackTitle") {
            Some(TagKind::TrackTitle)
        } else if str_equal(name, "MusicBrainzWorkId") {
            Some(TagKind::MusicbrainzWorkId)
        } else if str_equal(name, "MusicBrainzTrackId") {
            Some(TagKind::MusicbrainzTrackId)
        } else if str_equal(name, "MusicBrainzRecordingId") {
            Some(TagKind::MusicbrainzRecordingId)
        } else if str_equal(name, "TrackSubtitle") {
            Some(TagKind::TrackSubtitle)
        } else if str_equal(name, "TrackTitleSortOrder") {
            Some(TagKind::TrackTitleSortOrder)
        } else if str_equal(name, "Comment") {
            Some(TagKind::Comment)
        } else if str_equal(name, "Description") {
            Some(TagKind::Description)
        } else if str_equal(name, "Language") {
            Some(TagKind::Language)
        } else if str_equal(name, "Script") {
            Some(TagKind::Script)
        } else if str_equal(name, "Lyrics") {
            Some(TagKind::Lyrics)
        } else if str_equal(name, "AlbumTitle") {
            Some(TagKind::AlbumTitle)
        } else if str_equal(name, "SetSubtitle") {
            Some(TagKind::SetSubtitle)
        } else if str_equal(name, "MusicBrainzReleaseId") {
            Some(TagKind::MusicbrainzReleaseId)
        } else if str_equal(name, "OriginalAlbumTitle") {
            Some(TagKind::OriginalAlbumTitle)
        } else if str_equal(name, "AlbumTitleSortOrder") {
            Some(TagKind::AlbumTitleSortOrder)
        } else if str_equal(name, "AlbumArtist") {
            Some(TagKind::AlbumArtist)
        } else if str_equal(name, "MusicBrainzReleaseArtistId") {
            Some(TagKind::MusicbrainzReleaseArtistId)
        } else if str_equal(name, "ContentGroup") {
            Some(TagKind::ContentGroup)
        } else if str_equal(name, "MusicBrainzReleaseGroupId") {
            Some(TagKind::MusicbrainzReleaseGroupId)
        } else if str_equal(name, "TrackArtist") {
            Some(TagKind::TrackArtist)
        } else if str_equal(name, "TrackArtists") {
            Some(TagKind::TrackArtists)
        } else if str_equal(name, "MusicBrainzArtistId") {
            Some(TagKind::MusicbrainzArtistId)
        } else if str_equal(name, "OriginalArtist") {
            Some(TagKind::OriginalArtist)
        } else if str_equal(name, "AlbumArtistSortOrder") {
            Some(TagKind::AlbumArtistSortOrder)
        } else if str_equal(name, "TrackArtistSortOrder") {
            Some(TagKind::TrackArtistSortOrder)
        } else if str_equal(name, "ShowName") {
            Some(TagKind::ShowName)
        } else if str_equal(name, "ShowNameSortOrder") {
            Some(TagKind::ShowNameSortOrder)
        } else if str_equal(name, "Genre") {
            Some(TagKind::Genre)
        } else if str_equal(name, "InitialKey") {
            Some(TagKind::InitialKey)
        } else if str_equal(name, "Color") {
            Some(TagKind::Color)
        } else if str_equal(name, "Mood") {
            Some(TagKind::Mood)
        } else if str_equal(name, "Bpm") {
            Some(TagKind::Bpm)
        } else if str_equal(name, "AudioFileUrl") {
            Some(TagKind::AudioFileUrl)
        } else if str_equal(name, "AudioSourceUrl") {
            Some(TagKind::AudioSourceUrl)
        } else if str_equal(name, "CommercialInformationUrl") {
            Some(TagKind::CommercialInformationUrl)
        } else if str_equal(name, "CopyrightUrl") {
            Some(TagKind::CopyrightUrl)
        } else if str_equal(name, "TrackArtistUrl") {
            Some(TagKind::TrackArtistUrl)
        } else if str_equal(name, "RadioStationUrl") {
            Some(TagKind::RadioStationUrl)
        } else if str_equal(name, "PaymentUrl") {
            Some(TagKind::PaymentUrl)
        } else if str_equal(name, "PublisherUrl") {
            Some(TagKind::PublisherUrl)
        } else if str_equal(name, "DiscNumber") {
            Some(TagKind::DiscNumber)
        } else if str_equal(name, "DiscTotal") {
            Some(TagKind::DiscTotal)
        } else if str_equal(name, "TrackNumber") {
            Some(TagKind::TrackNumber)
        } else if str_equal(name, "TrackTotal") {
            Some(TagKind::TrackTotal)
        } else if str_equal(name, "Movement") {
            Some(TagKind::Movement)
        } else if str_equal(name, "MovementNumber") {
            Some(TagKind::MovementNumber)
        } else if str_equal(name, "MovementTotal") {
            Some(TagKind::MovementTotal)
        } else if str_equal(name, "Year") {
            Some(TagKind::Year)
        } else if str_equal(name, "RecordingDate") {
            Some(TagKind::RecordingDate)
        } else if str_equal(name, "ReleaseDate") {
            Some(TagKind::ReleaseDate)
        } else if str_equal(name, "OriginalReleaseDate") {
            Some(TagKind::OriginalReleaseDate)
        } else if str_equal(name, "FileType") {
            Some(TagKind::FileType)
        } else if str_equal(name, "FileOwner") {
            Some(TagKind::FileOwner)
        } else if str_equal(name, "TaggingTime") {
            Some(TagKind::TaggingTime)
        } else if str_equal(name, "Length") {
            Some(TagKind::Length)
        } else if str_equal(name, "OriginalFileName") {
            Some(TagKind::OriginalFileName)
        } else if str_equal(name, "OriginalMediaType") {
            Some(TagKind::OriginalMediaType)
        } else if str_equal(name, "EncodedBy") {
            Some(TagKind::EncodedBy)
        } else if str_equal(name, "EncoderSoftware") {
            Some(TagKind::EncoderSoftware)
        } else if str_equal(name, "EncoderSettings") {
            Some(TagKind::EncoderSettings)
        } else if str_equal(name, "EncodingTime") {
            Some(TagKind::EncodingTime)
        } else if str_equal(name, "ReplayGainAlbumGain") {
            Some(TagKind::ReplayGainAlbumGain)
        } else if str_equal(name, "ReplayGainAlbumPeak") {
            Some(TagKind::ReplayGainAlbumPeak)
        } else if str_equal(name, "ReplayGainTrackGain") {
            Some(TagKind::ReplayGainTrackGain)
        } else if str_equal(name, "ReplayGainTrackPeak") {
            Some(TagKind::ReplayGainTrackPeak)
        } else if str_equal(name, "Isrc") {
            Some(TagKind::Isrc)
        } else if str_equal(name, "Barcode") {
            Some(TagKind::Barcode)
        } else if str_equal(name, "CatalogNumber") {
            Some(TagKind::CatalogNumber)
        } else if str_equal(name, "Work") {
            Some(TagKind::Work)
        } else if str_equal(name, "FlagCompilation") {
            Some(TagKind::FlagCompilation)
        } else if str_equal(name, "FlagPodcast") {
            Some(TagKind::FlagPodcast)
        } else if str_equal(name, "CopyrightMessage") {
            Some(TagKind::CopyrightMessage)
        } else if str_equal(name, "License") {
            Some(TagKind::License)
        } else if str_equal(name, "Popularimeter") {
            Some(TagKind::Popularimeter)
        } else if str_equal(name, "ParentalAdvisory") {
            Some(TagKind::ParentalAdvisory)
        } else if str_equal(name, "Arranger") {
            Some(TagKind::Arranger)
        } else if str_equal(name, "Writer") {
            Some(TagKind::Writer)
        } else if str_equal(name, "Composer") {
            Some(TagKind::Composer)
        } else if str_equal(name, "ComposerSortOrder") {
            Some(TagKind::ComposerSortOrder)
        } else if str_equal(name, "Conductor") {
            Some(TagKind::Conductor)
        } else if str_equal(name, "Director") {
            Some(TagKind::Director)
        } else if str_equal(name, "Engineer") {
            Some(TagKind::Engineer)
        } else if str_equal(name, "Lyricist") {
            Some(TagKind::Lyricist)
        } else if str_equal(name, "OriginalLyricist") {
            Some(TagKind::OriginalLyricist)
        } else if str_equal(name, "MixDj") {
            Some(TagKind::MixDj)
        } else if str_equal(name, "MixEngineer") {
            Some(TagKind::MixEngineer)
        } else if str_equal(name, "MusicianCredits") {
            Some(TagKind::MusicianCredits)
        } else if str_equal(name, "Performer") {
            Some(TagKind::Performer)
        } else if str_equal(name, "Producer") {
            Some(TagKind::Producer)
        } else if str_equal(name, "Publisher") {
            Some(TagKind::Publisher)
        } else if str_equal(name, "Label") {
            Some(TagKind::Label)
        } else if str_equal(name, "InternetRadioStationName") {
            Some(TagKind::InternetRadioStationName)
        } else if str_equal(name, "InternetRadioStationOwner") {
            Some(TagKind::InternetRadioStationOwner)
        } else if str_equal(name, "Remixer") {
            Some(TagKind::Remixer)
        } else if str_equal(name, "PodcastDescription") {
            Some(TagKind::PodcastDescription)
        } else if str_equal(name, "PodcastSeriesCategory") {
            Some(TagKind::PodcastSeriesCategory)
        } else if str_equal(name, "PodcastUrl") {
            Some(TagKind::PodcastUrl)
        } else if str_equal(name, "PodcastGlobalUniqueId") {
            Some(TagKind::PodcastGlobalUniqueId)
        } else if str_equal(name, "PodcastKeywords") {
            Some(TagKind::PodcastKeywords)
        } else {
            None
        }
    }
}

/// Whether a file's item under the given key name sets a tag of the track: every kind
/// does but the title, which is taken beforehand, and the identifier of the artist.
pub open spec fn is_taken(kind: TagKind) -> bool {
    kind != TagKind::TrackTitle && kind != TagKind::MusicbrainzArtistId
}

/// Whether the closure, asked to read the text as a number, gave this answer.
pub open spec fn was_read<P: Fn(&str) -> Option<u32>>(
    parse_number: P,
    text: Seq<char>,
    number: Option<u32>,
) -> bool {
    exists|asked: &str| asked@ == text && #[trigger] parse_number.ensures((asked,), number)
}

/// The value that a tag of the given kind takes from a text; `number` is what the text
/// reads as, and counts only for a kind that holds a number.
pub open spec fn value_from_text(kind: TagKind, text: Seq<char>, number: Option<u32>) -> TagValueView {
    match kind.shape() {
        TagShape::Title | TagShape::Text => TagValueView::Text(text),
        TagShape::Id => match uuid_of_text(text) {
            Some(id) => TagValueView::Id(id),
            None => TagValueView::Absent,
        },
        TagShape::Number => match number {
            Some(bits) => TagValueView::Number(bits),
            None => TagValueView::Absent,
        },
    }
}

/// Whether an item under the given key has its text read as a number when it is added.
pub open spec fn asks_number(key: Seq<char>) -> bool {
    kind_of_item_key(key) matches Some(kind) && is_taken(kind) && kind.shape() is Number
}

/// The tags after one item of a file was added: an item whose key names a kind that is
/// taken sets that kind, any other changes nothing. `number` is what the text reads as.
pub open spec fn with_item(
    tags: Seq<TagValueView>,
    key: Seq<char>,
    text: Seq<char>,
    number: Option<u32>,
) -> Seq<TagValueView> {
    match kind_of_item_key(key) {
        Some(kind) => if is_taken(kind) {
            tags.update(kind.spec_index(), value_from_text(kind, text, number))
        } else {
            tags
        },
        None => tags,
    }
}

/// The text of an item, be it text or a locator; a binary item has none.
pub open spec fn text_of_item(value: ItemValueView) -> Option<Seq<char>> {
    match value {
        ItemValueView::Text(s) => Some(s),
        ItemValueView::Locator(s) => Some(s),
        ItemValueView::Binary(_) => None,
    }
}

/// The tags after the first `k` items of a file were added, one after the other;
/// `numbers` holds for each item what its text reads as.
pub open spec fn with_items(
    tags: Seq<TagValueView>,
    items: Seq<TagItemView>,
    k: nat,
    numbers: Seq<Option<u32>>,
) -> Seq<TagValueView>
    decreases k,
{
    if k == 0 {
        tags
    } else {
        let before = with_items(tags, items, (k - 1) as nat, numbers);
        match text_of_item(items[k - 1].value) {
            Some(text) => with_item(before, items[k - 1].key, text, numbers[k - 1]),
            None => before,
        }
    }
}

/// Whether `numbers` holds, for each of the items whose text is read as a number when it
/// is added, what the closure answered when it was asked to read that text.
pub open spec fn were_read<P: Fn(&str) -> Option<u32>>(
    parse_number: P,
    items: Seq<TagItemView>,
    numbers: Seq<Option<u32>>,
) -> bool {
    &&& numbers.len() == items.len()
    &&& forall|j: int|
        0 <= j < items.len() && text_of_item(items[j].value) is Some && asks_number(items[j].key)
            ==> was_read(parse_number, text_of_item(items[j].value)->0, #[trigger] numbers[j])
}

/// What is added of the first `k` items depends on what their texts read as, and on
/// nothing that is said of the items behind them.
pub proof fn lemma_added_items_count(
    tags: Seq<TagValueView>,
    items: Seq<TagItemView>,
    k: nat,
    a: Seq<Option<u32>>,
    b: Seq<Option<u32>>,
)
    requires
        forall|j: int| 0 <= j < k ==> a[j] == b[j],
    ensures
        with_items(tags, items, k, a) == with_items(tags, items, k, b),
    decreases k,
{
    if k > 0 {
        lemma_added_items_count(tags, items, (k - 1) as nat, a, b);
    }
}

/// Items that hold no number are added in the same way whatever the closure reads: where
/// no item among the first `k` has its text read as a number, the tags are the same for
/// all answers.
pub proof fn lemma_text_needs_no_number(
    tags: Seq<TagValueView>,
    items: Seq<TagItemView>,
    k: nat,
    a: Seq<Option<u32>>,
    b: Seq<Option<u32>>,
)
    requires
        k <= items.len(),
        forall|j: int| 0 <= j < k ==> !asks_number(#[trigger] items[j].key),
    ensures
        with_items(tags, items, k, a) == with_items(tags, items, k, b),
    decreases k,
{
    if k > 0 {
        lemma_text_needs_no_number(tags, items, (k - 1) as nat, a, b);
        assert(!asks_number(items[k - 1].key));
    }
}

/// Selects the items under the given key name.
pub open spec fn has_key(key: Seq<char>) -> spec_fn(TagItemView) -> bool {
    |i: TagItemView| i.key == key
}

/// The title that a file's tags give: the text of the first item under the title's key,
/// if that item is text.
pub open spec fn title_in(items: Seq<TagItemView>) -> Option<Seq<char>> {
    match crate::db::model::first_where(items, has_key("TrackTitle"@)) {
        Some(i) => match items[i].value {
            ItemValueView::Text(s) => Some(s),
            _ => None,
        },
        None => None,
    }
}

/// Adds one item of a file to the tags of a track. An item whose key names a kind of tag
/// that is taken sets the tag: text is taken as it is, an identifier is read from the
/// text, a number is read from it by `parse_number`; an identifier or a number that
/// cannot be read leaves the tag empty. Any other item changes nothing.
pub fn add_lofty_tag<P: Fn(&str) -> Option<u32>>(
    key: &str,
    value: String,
    tags: &mut Tags,
    parse_number: &P,
)
    requires
        forall|text: &str| parse_number.requires((text,)),
    ensures
        exists|number: Option<u32>|
            {
                &&& asks_number(key@) ==> was_read(*parse_number, value@, number)
                &&& final(tags)@ == #[trigger] with_item(old(tags)@, key@, value@, number)
            },
{
    let ghost before = *tags;
    let ghost text = value@;
    let ghost mut number: Option<u32> = None;
    match TagKind::from_item_key(key) {
        Some(kind) => {
            let taken = match kind {
                TagKind::TrackTitle | TagKind::MusicbrainzArtistId => false,
                _ => true,
            };
            if taken {
                match kind.kind_shape() {
                    TagShape::Title | TagShape::Text => {
                        let stored = tags.set_text(kind, value);
                    },
                    TagShape::Id => {
                        let stored = tags.set_id(kind, parse_uuid(value.as_str()));
                    },
                    TagShape::Number => {
                        let asked = value.as_str();
                        let parsed = parse_number(asked);
                        proof {
                            number = parsed;
                            assert(asked@ == text && parse_number.ensures((asked,), number));
                        }
                        let stored = tags.set_number(kind, parsed);
                    },
                }
                proof {
                    lemma_set_updates_view(before, *tags, kind);
                }
            }
        },
        None => {},
    }
    assert(tags@ == with_item(before@, key@, text, number));
}

/// The tags of a track that has a title and nothing else.
pub open spec fn fresh_tags(title: Seq<char>) -> Seq<TagValueView> {
    Seq::new(
        crate::tags::TAG_COUNT as nat,
        |i: int|
            if i == 0 {
                TagValueView::Text(title)
            } else {
                TagValueView::Absent
            },
    )
}

/// The tags of a track that the items of a file give: the title, and whatever the items
/// add, one after the other; `numbers` holds for each item what its text reads as.
pub open spec fn tags_from_items(items: Seq<TagItemView>, numbers: Seq<Option<u32>>) -> Option<
    Seq<TagValueView>,
> {
    match title_in(items) {
        Some(title) => Some(with_items(fresh_tags(title), items, items.len(), numbers)),
        None => None,
    }
}

fn find_title(items: &Vec<TagItem>) -> (r: Option<String>)
    ensures
        match r {
            Some(title) => title_in(items_of(items@)) == Some(title@),
            None => title_in(items_of(items@)) is None,
        },
{
    let mut i: usize = 0;
    while i < items.len()
        invariant
            i <= items@.len(),
            forall|j: int| 0 <= j < i ==> !(has_key("TrackTitle"@))(#[trigger] items_of(items@)[j]),
        decreases items@.len() - i,
    {
        if str_equal(items[i].key.as_str(), "TrackTitle") {
            proof {
                crate::db::model::lemma_first_where_is(
                    items_of(items@),
                    has_key("TrackTitle"@),
                    i as int,
                );
            }
            return match &items[i].value {
                ItemValue::Text(text) => Some(text.clone()),
                _ => None,
            };
        }
        i += 1;
    }
    proof {
        crate::db::model::lemma_first_where_none(items_of(items@), has_key("TrackTitle"@));
    }
    None
}

/// Turns the items of a file's tags into the tags of a track. A file without a title has
/// no tags. Binary items are passed over. The text of an item that holds a number is
/// read by `parse_number`, and the tag holds what it answered.
pub fn map_items<P: Fn(&str) -> Option<u32>>(items: &Vec<TagItem>, parse_number: &P) -> (r:
    Result<Tags, TagsError>)
    requires
        forall|text: &str| parse_number.requires((text,)),
    ensures
        title_in(items_of(items@)) is None ==> r == Err::<Tags, TagsError>(TagsError::MissingTitle),
        title_in(items_of(items@)) is Some ==> r is Ok,
        r matches Ok(tags) ==> exists|numbers: Seq<Option<u32>>|
            were_read(*parse_number, items_of(items@), numbers) && Some(tags@)
                == #[trigger] tags_from_items(items_of(items@), numbers),
{
    let title = match find_title(items) {
        Some(title) => title,
        None => {
            return Err(TagsError::MissingTitle);
        },
    };
    let ghost start = fresh_tags(title@);
    let ghost all = items_of(items@);
    let mut tags = Tags::new(title);
    proof {
        assert forall|i: int| 0 <= i < crate::tags::TAG_COUNT implies tags@[i] == start[i] by {
            crate::tags::lemma_from_index_roundtrip(i);
        }
        assert(tags@ =~= start);
    }
    let ghost mut numbers: Seq<Option<u32>> = Seq::empty();
    let mut i: usize = 0;
    while i < items.len()
        invariant
            i <= items@.len(),
            all == items_of(items@),
            all.len() == items@.len(),
            forall|text: &str| parse_number.requires((text,)),
            numbers.len() == i,
            forall|j: int|
                0 <= j < i && text_of_item(all[j].value) is Some && asks_number(all[j].key)
                    ==> was_read(*parse_number, text_of_item(all[j].value)->0, #[trigger] numbers[j]),
            tags@ == with_items(start, all, i as nat, numbers),
        decreases items@.len() - i,
    {
        let ghost before = tags@;
        let ghost read = numbers;
        match &items[i].value {
            ItemValue::Text(text) => {
                add_lofty_tag(items[i].key.as_str(), text.clone(), &mut tags, parse_number);
                proof {
                    let number = choose|number: Option<u32>|
                        (asks_number(all[i as int].key) ==> was_read(*parse_number, text@, number))
                            && tags@ == #[trigger] with_item(before, all[i as int].key, text@, number);
                    numbers = read.push(number);
                }
            },
            ItemValue::Locator(text) => {
                add_lofty_tag(items[i].key.as_str(), text.clone(), &mut tags, parse_number);
                proof {
                    let number = choose|number: Option<u32>|
                        (asks_number(all[i as int].key) ==> was_read(*parse_number, text@, number))
                            && tags@ == #[trigger] with_item(before, all[i as int].key, text@, number);
                    numbers = read.push(number);
                }
            },
            ItemValue::Binary(_) => {
                proof {
                    numbers = read.push(None);
                }
            },
        }
        proof {
            lemma_added_items_count(start, all, i as nat, read, numbers);
            assert forall|j: int|
                0 <= j < i + 1 && text_of_item(all[j].value) is Some && asks_number(
                    all[j].key,
                ) implies was_read(
                *parse_number,
                text_of_item(all[j].value)->0,
                #[trigger] numbers[j],
            ) by {
                if j < i {
                    assert(numbers[j] == read[j]);
                }
            }
        }
        i += 1;
    }
    proof {
        assert(were_read(*parse_number, all, numbers));
        assert(Some(tags@) == tags_from_items(all, numbers));
    }
    Ok(tags)
}

/// Reads the tags of a file and turns them into the tags of a track.
pub fn map_lofty_to_internal<P: Fn(&str) -> Option<u32>>(
    input: &lofty::tag::Tag,
    parse_number: &P,
) -> (r: Result<Tags, TagsError>)
    requires
        forall|text: &str| parse_number.requires((text,)),
    ensures
        title_in(tag_contents(*input)) is None ==> r == Err::<Tags, TagsError>(
            TagsError::MissingTitle,
        ),
        title_in(tag_contents(*input)) is Some ==> r is Ok,
        r matches Ok(tags) ==> exists|numbers: Seq<Option<u32>>|
            were_read(*parse_number, tag_contents(*input), numbers) && Some(tags@)
                == #[trigger] tags_from_items(tag_contents(*input), numbers),
{
    let items = read_items(input);
    map_items(&items, parse_number)
}

/// The kind of tag that an item sets when every item counts: the kind that its key
/// names, and the number of beats for the key of whole beats.
pub open spec fn kind_of_any_key(key: Seq<char>) -> Option<TagKind> {
    if key == "IntegerBpm"@ {
        Some(TagKind::Bpm)
    } else {
        kind_of_item_key(key)
    }
}

/// Whether an item has its text read as a number when it is entered, every item
/// counting.
pub open spec fn field_asks_number(item: TagItemView) -> bool {
    item.value is Text && (kind_of_any_key(item.key) matches Some(kind) && kind.shape() is Number)
}

/// The tags after one item was entered, every item counting: text and locators become
/// the text of a tag that holds text; text becomes the identifier or the number of a tag
/// that holds one, if it can be read as such. Whatever does not fit leaves the tags as
/// they are. `number` is what the text of the item reads as.
pub open spec fn with_field(tags: Seq<TagValueView>, item: TagItemView, number: Option<u32>) -> Seq<
    TagValueView,
> {
    match kind_of_any_key(item.key) {
        Some(kind) => match (item.value, kind.shape()) {
            (ItemValueView::Text(s), TagShape::Title) | (ItemValueView::Text(s), TagShape::Text)
            | (ItemValueView::Locator(s), TagShape::Title) | (
                ItemValueView::Locator(s),
                TagShape::Text,
            ) => tags.update(kind.spec_index(), TagValueView::Text(s)),
            (ItemValueView::Text(s), TagShape::Id) => match uuid_of_text(s) {
                Some(id) => tags.update(kind.spec_index(), TagValueView::Id(id)),
                None => tags,
            },
            (ItemValueView::Text(s), TagShape::Number) => match number {
                Some(bits) => tags.update(kind.spec_index(), TagValueView::Number(bits)),
                None => tags,
            },
            _ => tags,
        },
        None => tags,
    }
}

/// Enters one item of a file's tags into the tags of a track, every item counting. The
/// text of an item that holds a number is read by `parse_number`.
pub fn set_tag_field<P: Fn(&str) -> Option<u32>>(tags: &mut Tags, item: &TagItem, parse_number: &P)
    requires
        forall|text: &str| parse_number.requires((text,)),
    ensures
        exists|number: Option<u32>|
            {
                &&& field_asks_number(item@) ==> was_read(
                    *parse_number,
                    item@.value->Text_0,
                    number,
                )
                &&& final(tags)@ == #[trigger] with_field(old(tags)@, item@, number)
            },
{
    let ghost before = *tags;
    let ghost mut number: Option<u32> = None;
    let found = if str_equal(item.key.as_str(), "IntegerBpm") {
        Some(TagKind::Bpm)
    } else {
        TagKind::from_item_key(item.key.as_str())
    };
    let kind = match found {
        Some(kind) => kind,
        None => {
            assert(tags@ == with_field(before@, item@, number));
            return ;
        },
    };
    match (&item.value, kind.kind_shape()) {
        (ItemValue::Text(text), TagShape::Title) | (ItemValue::Text(text), TagShape::Text) | (
            ItemValue::Locator(text),
            TagShape::Title,
        ) | (ItemValue::Locator(text), TagShape::Text) => {
            let stored = tags.set_text(kind, text.clone());
        },
        (ItemValue::Text(text), TagShape::Id) => {
            match parse_uuid(text.as_str()) {
                Some(id) => {
                    let stored = tags.set_id(kind, Some(id));
                },
                None => {},
            }
        },
        (ItemValue::Text(text), TagShape::Number) => {
            let asked = text.as_str();
            let parsed = parse_number(asked);
            proof {
                number = parsed;
                assert(asked@ == text@ && parse_number.ensures((asked,), number));
            }
            match parsed {
                Some(bits) => {
                    let stored = tags.set_number(kind, Some(bits));
                },
                None => {},
            }
        },
        _ => {},
    }
    proof {
        lemma_set_updates_view(before, *tags, kind);
        assert(before@.update(kind.spec_index(), before.value(kind)) =~= before@) by {
            crate::tags::lemma_view_at(before, kind);
        }
        assert(tags@ == with_field(before@, item@, number));
    }
}

/// Where a record differs from another at one kind only, its view is the other's view
/// with the value of that kind replaced.
pub proof fn lemma_set_updates_view(before: Tags, after: Tags, kind: TagKind)
    requires
        forall|k: TagKind| k != kind ==> after.value(k) == before.value(k),
    ensures
        after@ == before@.update(kind.spec_index(), after.value(kind)),
{
    crate::tags::lemma_index_roundtrip(kind);
    assert forall|i: int| 0 <= i < crate::tags::TAG_COUNT implies after@[i] == before@.update(
        kind.spec_index(),
        after.value(kind),
    )[i] by {
        crate::tags::lemma_from_index_roundtrip(i);
    }
    assert(after@ =~= before@.update(kind.spec_index(), after.value(kind)));
}

} // verus!
