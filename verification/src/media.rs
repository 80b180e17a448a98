//! What a media item is, and how much of it was consumed.
use vstd::prelude::*;

verus! {

/// The kind of a media item.
#[derive(Debug, Clone, Copy, PartialEq, Eq, Structural)]
pub enum MetadataLot {
    AudioBook,
    Book,
    Movie,
    Podcast,
    Show,
    VideoGame,
}

/// The catalogue that a media item came from.
#[derive(Debug, Clone, Copy, PartialEq, Eq, Structural)]
pub enum MetadataSource {
    Audible,
    Custom,
    Goodreads,
    Igdb,
    Listennotes,
    Openlibrary,
    Tmdb,
}

#[derive(Debug, Clone, PartialEq, Eq)]
pub struct AudioBookSpecifics {
    pub runtime: Option<i32>,
}

#[derive(Debug, Clone, PartialEq, Eq)]
pub struct BookSpecifics {
    pub pages: Option<i32>,
}

#[derive(Debug, Clone, PartialEq, Eq)]
pub struct MovieSpecifics {
    pub runtime: Option<i32>,
}

#[derive(Debug, Clone, PartialEq, Eq)]
pub struct PodcastEpisode {
    pub id: String,
    pub number: i32,
    pub runtime: Option<i32>,
}

#[derive(Debug, Clone, PartialEq, Eq)]
pub struct PodcastSpecifics {
    pub episodes: Vec<PodcastEpisode>,
}

#[derive(Debug, Clone, PartialEq, Eq)]
pub struct ShowEpisode {
    pub episode_number: i32,
    pub runtime: Option<i32>,
}

#[derive(Debug, Clone, PartialEq, Eq)]
pub struct ShowSeason {
    pub id: i32,
    pub season_number: i32,
    pub episodes: Vec<ShowEpisode>,
}

#[derive(Debug, Clone, PartialEq, Eq)]
pub struct ShowSpecifics {
    pub seasons: Vec<ShowSeason>,
}

#[derive(Debug, Clone, PartialEq, Eq)]
pub struct VideoGameSpecifics {}

/// What is known of a media item beyond the details that all kinds share.
#[derive(Debug, Clone, PartialEq, Eq)]
pub enum MediaSpecifics {
    AudioBook(AudioBookSpecifics),
    Book(BookSpecifics),
    Movie(MovieSpecifics),
    Podcast(PodcastSpecifics),
    Show(ShowSpecifics),
    VideoGame(VideoGameSpecifics),
    Unknown,
}

impl MediaSpecifics {
    /// Whether the specifics are those of a media item of this kind.
    pub open spec fn are_of(self, lot: MetadataLot) -> bool {
        match lot {
            MetadataLot::AudioBook => self is AudioBook,
            MetadataLot::Book => self is Book,
            MetadataLot::Movie => self is Movie,
            MetadataLot::Podcast => self is Podcast,
            MetadataLot::Show => self is Show,
            MetadataLot::VideoGame => self is VideoGame,
        }
    }
}

/// A `chrono::NaiveDate`, carried through as it is.
#[verifier::external_type_specification]
#[verifier::external_body]
pub struct ExNaiveDate(chrono::NaiveDate);

/// Where an image lies.
#[derive(Debug, PartialEq, Eq)]
pub enum MetadataImageUrl {
    /// The key of an object in the service's own storage.
    S3(String),
    /// An address elsewhere.
    Url(String),
}

/// What an image is for.
#[derive(Debug, Clone, Copy, PartialEq, Eq, Structural)]
pub enum MetadataImageLot {
    Backdrop,
    Poster,
}

/// An image of a media item.
#[derive(Debug, PartialEq, Eq)]
pub struct MetadataImage {
    pub url: MetadataImageUrl,
    pub lot: MetadataImageLot,
}

/// Somebody who had a part in a media item.
#[derive(Debug, PartialEq, Eq)]
pub struct MetadataCreator {
    pub name: String,
    pub role: String,
    pub image_urls: Vec<String>,
}

/// Everything that a catalogue tells of a media item.
#[derive(Debug, PartialEq, Eq)]
pub struct MediaDetails {
    pub identifier: String,
    pub title: String,
    pub description: Option<String>,
    pub lot: MetadataLot,
    pub source: MetadataSource,
    pub creators: Vec<MetadataCreator>,
    pub genres: Vec<String>,
    pub images: Vec<MetadataImage>,
    pub publish_year: Option<i32>,
    pub publish_date: Option<chrono::NaiveDate>,
    pub specifics: MediaSpecifics,
}

/// The episode of a show that was seen or reviewed.
#[derive(Debug, Clone, Copy, PartialEq, Eq)]
pub struct SeenShowExtraInformation {
    pub season: i32,
    pub episode: i32,
}

/// The episode of a podcast that was heard or reviewed.
#[derive(Debug, Clone, Copy, PartialEq, Eq)]
pub struct SeenPodcastExtraInformation {
    pub episode: i32,
}

/// Which part of a media item an entry is about.
#[derive(Debug, Clone, Copy, PartialEq, Eq)]
pub enum SeenExtraInformation {
    Show(SeenShowExtraInformation),
    Podcast(SeenPodcastExtraInformation),
}

/// A stored entry of a user's history: how far they got with a media item.
#[derive(Debug, PartialEq, Eq)]
pub struct SeenModel {
    pub id: i32,
    pub progress: i32,
    pub user_id: i32,
    pub metadata_id: i32,
    pub extra_information: Option<SeenExtraInformation>,
}

/// A stored media item.
#[derive(Debug, PartialEq, Eq)]
pub struct MetadataModel {
    pub id: i32,
    pub lot: MetadataLot,
    pub title: String,
    pub publish_year: Option<i32>,
    pub source: MetadataSource,
    pub identifier: String,
    pub specifics: MediaSpecifics,
}

} // verus!
