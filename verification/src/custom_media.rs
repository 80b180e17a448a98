//! Media items that a user made up.
use vstd::prelude::*;

use crate::collections::PutMediaIntoCollection;
use crate::error::Error;
use crate::media::{
    AudioBookSpecifics, BookSpecifics, MediaDetails, MediaSpecifics, MetadataCreator,
    MetadataImage, MetadataImageLot, MetadataImageUrl, MetadataLot, MetadataSource,
    MovieSpecifics, PodcastSpecifics, ShowSpecifics, VideoGameSpecifics,
};
use crate::service::MiscService;
use crate::step::Step;
use crate::store::IdObject;
use crate::unique_id::draw;

verus! {

/// A media item that a user wants to make up.
#[derive(Debug, Clone, PartialEq, Eq)]
pub struct CreateCustomMediaInput {
    pub title: String,
    pub lot: MetadataLot,
    pub description: Option<String>,
    pub creators: Option<Vec<String>>,
    pub genres: Option<Vec<String>>,
    pub images: Option<Vec<String>>,
    pub publish_year: Option<i32>,
    pub book_specifics: Option<BookSpecifics>,
    pub movie_specifics: Option<MovieSpecifics>,
    pub show_specifics: Option<ShowSpecifics>,
    pub video_game_specifics: Option<VideoGameSpecifics>,
    pub audio_book_specifics: Option<AudioBookSpecifics>,
    pub podcast_specifics: Option<PodcastSpecifics>,
}

#[derive(Debug, Clone, Copy, PartialEq, Eq)]
pub enum CreateCustomMediaErrorVariant {
    LotDoesNotMatchSpecifics,
}

#[derive(Debug, Clone, Copy, PartialEq, Eq)]
pub struct CreateCustomMediaError {
    pub error: CreateCustomMediaErrorVariant,
}

#[derive(Debug, Clone, Copy, PartialEq, Eq)]
pub enum CreateCustomMediaResult {
    Success(IdObject),
    Error(CreateCustomMediaError),
}

/// The specifics that go with the kind of the media item, where they were given.
pub open spec fn specifics_for_lot(input: CreateCustomMediaInput) -> Option<MediaSpecifics> {
    match input.lot {
        MetadataLot::AudioBook => match input.audio_book_specifics {
            Some(specifics) => Some(MediaSpecifics::AudioBook(specifics)),
            None => None,
        },
        MetadataLot::Book => match input.book_specifics {
            Some(specifics) => Some(MediaSpecifics::Book(specifics)),
            None => None,
        },
        MetadataLot::Movie => match input.movie_specifics {
            Some(specifics) => Some(MediaSpecifics::Movie(specifics)),
            None => None,
        },
        MetadataLot::Podcast => match input.podcast_specifics {
            Some(specifics) => Some(MediaSpecifics::Podcast(specifics)),
            None => None,
        },
        MetadataLot::Show => match input.show_specifics {
            Some(specifics) => Some(MediaSpecifics::Show(specifics)),
            None => None,
        },
        MetadataLot::VideoGame => match input.video_game_specifics {
            Some(specifics) => Some(MediaSpecifics::VideoGame(specifics)),
            None => None,
        },
    }
}

/// What a list holds; nothing where none was given.
pub open spec fn given<T>(list: Option<Vec<T>>) -> Seq<T> {
    match list {
        Some(list) => list@,
        None => Seq::empty(),
    }
}

/// A poster in the service's own storage.
pub open spec fn poster(key: String) -> MetadataImage {
    MetadataImage { url: MetadataImageUrl::S3(key), lot: MetadataImageLot::Poster }
}

/// Somebody of this name, of whom no more is known than that they created the media item.
pub open spec fn is_creator(creator: MetadataCreator, name: String) -> bool {
    &&& creator.name == name
    &&& creator.role@ == "Creator"@
    &&& creator.image_urls@.len() == 0
}

/// Everything that is told of the media item that the input describes.
pub open spec fn are_custom_details(
    details: MediaDetails,
    input: CreateCustomMediaInput,
    identifier: Seq<char>,
) -> bool {
    &&& details.identifier@ == identifier
    &&& details.title == input.title
    &&& details.description == input.description
    &&& details.lot == input.lot
    &&& details.source == MetadataSource::Custom
    &&& details.creators@.len() == given(input.creators).len()
    &&& forall|i: int|
        0 <= i < details.creators@.len() ==> is_creator(
            #[trigger] details.creators@[i],
            given(input.creators)[i],
        )
    &&& details.genres@ == given(input.genres)
    &&& details.images@ == given(input.images).map_values(|key: String| poster(key))
    &&& details.publish_year == input.publish_year
    &&& details.publish_date is None
    &&& Some(details.specifics) == specifics_for_lot(input)
}

fn given_or_empty<T>(list: Option<Vec<T>>) -> (items: Vec<T>)
    ensures
        items@ == given(list),
{
    match list {
        Some(list) => list,
        None => Vec::new(),
    }
}

fn posters(keys: Vec<String>) -> (images: Vec<MetadataImage>)
    ensures
        images@ == keys@.map_values(|key: String| poster(key)),
{
    let ghost all = keys@;
    let mut images: Vec<MetadataImage> = Vec::new();
    for key in iter: keys
        invariant
            iter.seq() == all,
            images@ == all.take(iter.index()).map_values(|key: String| poster(key)),
    {
        images.push(MetadataImage { url: MetadataImageUrl::S3(key), lot: MetadataImageLot::Poster });
        assert(images@ =~= all.take(iter.index() + 1).map_values(|key: String| poster(key)));
    }
    assert(all.take(all.len() as int) =~= all);
    images
}

fn creators(names: Vec<String>) -> (creators: Vec<MetadataCreator>)
    ensures
        creators@.len() == names@.len(),
        forall|i: int|
            0 <= i < creators@.len() ==> is_creator(#[trigger] creators@[i], names@[i]),
{
    let ghost all = names@;
    let mut creators: Vec<MetadataCreator> = Vec::new();
    for name in iter: names
        invariant
            iter.seq() == all,
            creators@.len() == iter.index(),
            forall|i: int|
                0 <= i < creators@.len() ==> is_creator(#[trigger] creators@[i], all[i]),
    {
        creators.push(
            MetadataCreator { name, role: "Creator".to_owned(), image_urls: Vec::new() },
        );
    }
    creators
}

/// Waits for the media item to be saved by the service for its kind.
#[derive(Debug, PartialEq, Eq)]
pub struct SaveMedia {
    pub details: MediaDetails,
    pub user_id: i32,
    /// The collection that the media item is put into.
    pub collection_name: String,
}

impl SaveMedia {
    /// Once it is saved, the media item is put into the user's collection of custom media.
    pub open spec fn after(self, media: Result<IdObject, Error>) -> Step<
        CollectCustomMedia,
        CreateCustomMediaResult,
    > {
        match media {
            Ok(media) => Step::Do(
                CollectCustomMedia {
                    add: PutMediaIntoCollection {
                        collection_name: self.collection_name,
                        user_id: self.user_id,
                        media_id: media.id,
                    },
                    media,
                },
            ),
            Err(error) => Step::Done(Err(error)),
        }
    }

    pub fn saved(self, media: Result<IdObject, Error>) -> (next: Step<
        CollectCustomMedia,
        CreateCustomMediaResult,
    >)
        ensures
            next == self.after(media),
    {
        match media {
            Ok(media) => Step::Do(
                CollectCustomMedia {
                    add: PutMediaIntoCollection {
                        collection_name: self.collection_name,
                        user_id: self.user_id,
                        media_id: media.id,
                    },
                    media,
                },
            ),
            Err(error) => Step::Done(Err(error)),
        }
    }
}

/// Waits for the outcome of putting the saved media item into a collection.
#[derive(Debug, PartialEq, Eq)]
pub struct CollectCustomMedia {
    pub add: PutMediaIntoCollection,
    pub media: IdObject,
}

impl CollectCustomMedia {
    /// The saved media item, whether it was put into the collection now or not.
    pub fn added(self, outcome: Result<bool, Error>) -> (result: Result<
        CreateCustomMediaResult,
        Error,
    >)
        ensures
            result == (match outcome {
                Ok(_) => Ok(CreateCustomMediaResult::Success(self.media)),
                Err(error) => Err(error),
            }),
    {
        match outcome {
            Ok(_) => Ok(CreateCustomMediaResult::Success(self.media)),
            Err(error) => Err(error),
        }
    }
}

/// What creating a custom media item begins with: saving it under its identifier, or the
/// error where the specifics for its kind are missing.
pub open spec fn begins_custom_media(
    next: Step<SaveMedia, CreateCustomMediaResult>,
    service: MiscService,
    input: CreateCustomMediaInput,
    user_id: i32,
    identifier: Seq<char>,
) -> bool {
    match next {
        Step::Do(save) => {
            &&& specifics_for_lot(input) is Some
            &&& are_custom_details(save.details, input, identifier)
            &&& save.user_id == user_id
            &&& save.collection_name == service.defaults.custom
        },
        Step::Done(outcome) => {
            &&& specifics_for_lot(input) is None
            &&& outcome == Ok::<CreateCustomMediaResult, Error>(
                CreateCustomMediaResult::Error(
                    CreateCustomMediaError {
                        error: CreateCustomMediaErrorVariant::LotDoesNotMatchSpecifics,
                    },
                ),
            )
        },
    }
}

impl MiscService {
    /// Create a custom media item under a given identifier.
    pub fn create_custom_media_as(
        &self,
        input: CreateCustomMediaInput,
        user_id: i32,
        identifier: String,
    ) -> (next: Step<SaveMedia, CreateCustomMediaResult>)
        ensures
            begins_custom_media(next, *self, input, user_id, identifier@),
    {
        let specifics: Option<MediaSpecifics> = match input.lot {
            MetadataLot::AudioBook => match input.audio_book_specifics {
                Some(specifics) => Some(MediaSpecifics::AudioBook(specifics)),
                None => None,
            },
            MetadataLot::Book => match input.book_specifics {
                Some(specifics) => Some(MediaSpecifics::Book(specifics)),
                None => None,
            },
            MetadataLot::Movie => match input.movie_specifics {
                Some(specifics) => Some(MediaSpecifics::Movie(specifics)),
                None => None,
            },
            MetadataLot::Podcast => match input.podcast_specifics {
                Some(specifics) => Some(MediaSpecifics::Podcast(specifics)),
                None => None,
            },
            MetadataLot::Show => match input.show_specifics {
                Some(specifics) => Some(MediaSpecifics::Show(specifics)),
                None => None,
            },
            MetadataLot::VideoGame => match input.video_game_specifics {
                Some(specifics) => Some(MediaSpecifics::VideoGame(specifics)),
                None => None,
            },
        };
        let specifics = match specifics {
            Some(specifics) => specifics,
            None => {
                return Step::Done(
                    Ok(
                        CreateCustomMediaResult::Error(
                            CreateCustomMediaError {
                                error: CreateCustomMediaErrorVariant::LotDoesNotMatchSpecifics,
                            },
                        ),
                    ),
                );
            },
        };
        let details = MediaDetails {
            identifier,
            title: input.title,
            description: input.description,
            lot: input.lot,
            source: MetadataSource::Custom,
            creators: creators(given_or_empty(input.creators)),
            genres: given_or_empty(input.genres),
            images: posters(given_or_empty(input.images)),
            publish_year: input.publish_year,
            publish_date: None,
            specifics,
        };
        Step::Do(SaveMedia { details, user_id, collection_name: self.defaults.custom.clone() })
    }

    /// Create a custom media item.
    pub fn create_custom_media(&self, input: CreateCustomMediaInput, user_id: i32) -> (next: Step<
        SaveMedia,
        CreateCustomMediaResult,
    >)
        ensures
            exists|identifier: Seq<char>|
                crate::unique_id::is_unique_id(identifier) && #[trigger] begins_custom_media(
                    next,
                    *self,
                    input,
                    user_id,
                    identifier,
                ),
    {
        self.create_custom_media_as(input, user_id, draw())
    }
}

/// Law: a media item is made up exactly where the specifics for its kind were given, whatever
/// else was given; what is saved then has the kind that was asked for, and specifics of that
/// kind.
pub proof fn law_custom_media_has_specifics_of_its_lot(
    service: MiscService,
    input: CreateCustomMediaInput,
    user_id: i32,
    identifier: Seq<char>,
    next: Step<SaveMedia, CreateCustomMediaResult>,
)
    requires
        begins_custom_media(next, service, input, user_id, identifier),
    ensures
        next is Do <==> match input.lot {
            MetadataLot::AudioBook => input.audio_book_specifics is Some,
            MetadataLot::Book => input.book_specifics is Some,
            MetadataLot::Movie => input.movie_specifics is Some,
            MetadataLot::Podcast => input.podcast_specifics is Some,
            MetadataLot::Show => input.show_specifics is Some,
            MetadataLot::VideoGame => input.video_game_specifics is Some,
        },
        next matches Step::Do(save) ==> save.details.lot == input.lot
            && save.details.specifics.are_of(input.lot),
{
}

/// Law: a saved custom media item goes into the collection that is kept for custom media, and
/// that collection can not be deleted.
pub proof fn law_custom_media_is_collected(
    service: MiscService,
    input: CreateCustomMediaInput,
    user_id: i32,
    identifier: Seq<char>,
    save: SaveMedia,
    media: IdObject,
)
    requires
        service.wf(),
        begins_custom_media(Step::Do(save), service, input, user_id, identifier),
    ensures
        save.after(Ok(media)) matches Step::Do(collect) && collect.media == media
            && collect.add.media_id == media.id && collect.add.user_id == user_id
            && collect.add.collection_name == service.defaults.custom
            && service.deletion(user_id, collect.add.collection_name) is Done,
{
}

/// Law: what is saved for a custom media item is what the user gave, nothing lost and nothing
/// changed: the specifics for its kind, title, description, kind, genres and year as they are,
/// every creator and every image in order. It comes from the user alone, under the identifier
/// that was drawn.
pub proof fn law_custom_media_is_saved_as_given(
    service: MiscService,
    input: CreateCustomMediaInput,
    user_id: i32,
    identifier: Seq<char>,
    save: SaveMedia,
)
    requires
        begins_custom_media(Step::Do(save), service, input, user_id, identifier),
    ensures
        ({
            &&& input.lot is AudioBook ==> (input.audio_book_specifics matches Some(given)
                && save.details.specifics == MediaSpecifics::AudioBook(given))
            &&& input.lot is Book ==> (input.book_specifics matches Some(given)
                && save.details.specifics == MediaSpecifics::Book(given))
            &&& input.lot is Movie ==> (input.movie_specifics matches Some(given)
                && save.details.specifics == MediaSpecifics::Movie(given))
            &&& input.lot is Podcast ==> (input.podcast_specifics matches Some(given)
                && save.details.specifics == MediaSpecifics::Podcast(given))
            &&& input.lot is Show ==> (input.show_specifics matches Some(given)
                && save.details.specifics == MediaSpecifics::Show(given))
            &&& input.lot is VideoGame ==> (input.video_game_specifics matches Some(given)
                && save.details.specifics == MediaSpecifics::VideoGame(given))
        }),
        save.details.identifier@ == identifier,
        save.details.title == input.title,
        save.details.description == input.description,
        save.details.lot == input.lot,
        save.details.source is Custom,
        save.details.publish_year == input.publish_year,
        save.details.publish_date is None,
        match input.genres {
            Some(genres) => save.details.genres@ == genres@,
            None => save.details.genres@.len() == 0,
        },
        match input.creators {
            Some(names) => {
                &&& save.details.creators@.len() == names@.len()
                &&& forall|i: int|
                    0 <= i < names@.len() ==> {
                        &&& (#[trigger] save.details.creators@[i]).name == names@[i]
                        &&& save.details.creators@[i].role@ == "Creator"@
                        &&& save.details.creators@[i].image_urls@.len() == 0
                    }
            },
            None => save.details.creators@.len() == 0,
        },
        match input.images {
            Some(keys) => {
                &&& save.details.images@.len() == keys@.len()
                &&& forall|i: int|
                    0 <= i < keys@.len() ==> {
                        &&& (#[trigger] save.details.images@[i]).url == MetadataImageUrl::S3(
                            keys@[i],
                        )
                        &&& save.details.images@[i].lot is Poster
                    }
            },
            None => save.details.images@.len() == 0,
        },
        save.user_id == user_id,
        save.collection_name == service.defaults.custom,
{
    assert forall|i: int| 0 <= i < save.details.creators@.len() implies is_creator(
        #[trigger] save.details.creators@[i],
        given(input.creators)[i],
    ) by {}
}

/// Law: a custom media item without the specifics for its kind is turned down as such, and
/// nothing is saved.
pub proof fn law_missing_specifics_are_turned_down(
    service: MiscService,
    input: CreateCustomMediaInput,
    user_id: i32,
    identifier: Seq<char>,
    next: Step<SaveMedia, CreateCustomMediaResult>,
)
    requires
        begins_custom_media(next, service, input, user_id, identifier),
        match input.lot {
            MetadataLot::AudioBook => input.audio_book_specifics is None,
            MetadataLot::Book => input.book_specifics is None,
            MetadataLot::Movie => input.movie_specifics is None,
            MetadataLot::Podcast => input.podcast_specifics is None,
            MetadataLot::Show => input.show_specifics is None,
            MetadataLot::VideoGame => input.video_game_specifics is None,
        },
    ensures
        next == Step::<SaveMedia, CreateCustomMediaResult>::Done(
            Ok(
                CreateCustomMediaResult::Error(
                    CreateCustomMediaError {
                        error: CreateCustomMediaErrorVariant::LotDoesNotMatchSpecifics,
                    },
                ),
            ),
        ),
{
}

/// Law: a saved media item is put into the collection that was named, for the same user and
/// under its own id; one that was not saved is put nowhere, and the user is told why.
pub proof fn law_saved_media_is_put_there(save: SaveMedia, media: IdObject, error: Error)
    ensures
        save.after(Ok(media)) == Step::<CollectCustomMedia, CreateCustomMediaResult>::Do(
            CollectCustomMedia {
                add: PutMediaIntoCollection {
                    collection_name: save.collection_name,
                    user_id: save.user_id,
                    media_id: media.id,
                },
                media,
            },
        ),
        save.after(Err(error)) == Step::<CollectCustomMedia, CreateCustomMediaResult>::Done(
            Err(error),
        ),
{
}

} // verus!
