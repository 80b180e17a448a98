use ryot_misc::clock::Timestamp;
use ryot_misc::custom_media::{
    CreateCustomMediaError, CreateCustomMediaErrorVariant, CreateCustomMediaInput,
    CreateCustomMediaResult,
};
use ryot_misc::error::Error;
use ryot_misc::export::{ExportMedia, ExportSeen};
use ryot_misc::media::{
    AudioBookSpecifics, BookSpecifics, MediaSpecifics, MetadataCreator, MetadataImage,
    MetadataImageLot, MetadataImageUrl, MetadataLot, MetadataModel, MetadataSource,
    MovieSpecifics, PodcastSpecifics, SeenModel, ShowSpecifics, VideoGameSpecifics,
};
use ryot_misc::service::{DefaultCollections, MiscService};
use ryot_misc::step::Step;
use ryot_misc::store::{
    IdObject, Identifier, ReviewModel, ReviewVisibility, UserToMetadataModel,
};

fn service() -> MiscService {
    MiscService::new(DefaultCollections {
        names: vec!["In Progress".to_string(), "Custom".to_string()],
        in_progress: "In Progress".to_string(),
        custom: "Custom".to_string(),
    })
}

fn input(lot: MetadataLot) -> CreateCustomMediaInput {
    CreateCustomMediaInput {
        title: "mine".to_string(),
        lot,
        description: None,
        creators: None,
        genres: None,
        images: None,
        publish_year: None,
        book_specifics: None,
        movie_specifics: None,
        show_specifics: None,
        video_game_specifics: None,
        audio_book_specifics: None,
        podcast_specifics: None,
    }
}

fn full(lot: MetadataLot) -> CreateCustomMediaInput {
    CreateCustomMediaInput {
        book_specifics: Some(BookSpecifics { pages: Some(1) }),
        movie_specifics: Some(MovieSpecifics { runtime: Some(2) }),
        show_specifics: Some(ShowSpecifics { seasons: vec![] }),
        video_game_specifics: Some(VideoGameSpecifics {}),
        audio_book_specifics: Some(AudioBookSpecifics { runtime: Some(3) }),
        podcast_specifics: Some(PodcastSpecifics { episodes: vec![] }),
        ..input(lot)
    }
}

fn mismatch() -> CreateCustomMediaResult {
    CreateCustomMediaResult::Error(CreateCustomMediaError {
        error: CreateCustomMediaErrorVariant::LotDoesNotMatchSpecifics,
    })
}

fn all_lots() -> Vec<MetadataLot> {
    vec![
        MetadataLot::AudioBook,
        MetadataLot::Book,
        MetadataLot::Movie,
        MetadataLot::Podcast,
        MetadataLot::Show,
        MetadataLot::VideoGame,
    ]
}

#[test]
fn specifics_must_match_the_lot() {
    for lot in all_lots() {
        assert_eq!(
            service().create_custom_media_as(input(lot), 1, "id".to_string()),
            Step::Done(Ok(mismatch()))
        );
        let mut others = full(lot);
        match lot {
            MetadataLot::AudioBook => others.audio_book_specifics = None,
            MetadataLot::Book => others.book_specifics = None,
            MetadataLot::Movie => others.movie_specifics = None,
            MetadataLot::Podcast => others.podcast_specifics = None,
            MetadataLot::Show => others.show_specifics = None,
            MetadataLot::VideoGame => others.video_game_specifics = None,
        }
        assert_eq!(service().create_custom_media(others, 1), Step::Done(Ok(mismatch())));
    }
}

#[test]
fn the_specifics_of_the_lot_are_saved() {
    let specifics = |lot| match service().create_custom_media_as(full(lot), 1, "id".to_string()) {
        Step::Do(save) => {
            assert_eq!(save.details.lot, lot);
            save.details.specifics
        }
        Step::Done(_) => panic!("nothing was saved"),
    };
    let found: Vec<MediaSpecifics> = all_lots().into_iter().map(specifics).collect();
    assert_eq!(
        found,
        vec![
            MediaSpecifics::AudioBook(AudioBookSpecifics { runtime: Some(3) }),
            MediaSpecifics::Book(BookSpecifics { pages: Some(1) }),
            MediaSpecifics::Movie(MovieSpecifics { runtime: Some(2) }),
            MediaSpecifics::Podcast(PodcastSpecifics { episodes: vec![] }),
            MediaSpecifics::Show(ShowSpecifics { seasons: vec![] }),
            MediaSpecifics::VideoGame(VideoGameSpecifics {}),
        ]
    );
}

#[test]
fn a_custom_media_item_is_saved_in_full() {
    let mut given = full(MetadataLot::Book);
    given.description = Some("about".to_string());
    given.creators = Some(vec!["a".to_string(), "b".to_string()]);
    given.genres = Some(vec!["g".to_string()]);
    given.images = Some(vec!["x".to_string(), "y".to_string()]);
    given.publish_year = Some(2001);
    let save = match service().create_custom_media_as(given, 9, "id".to_string()) {
        Step::Do(save) => save,
        Step::Done(_) => panic!("nothing was saved"),
    };
    assert_eq!(save.user_id, 9);
    assert_eq!(save.collection_name, "Custom");
    let creator = |name: &str| MetadataCreator {
        name: name.to_string(),
        role: "Creator".to_string(),
        image_urls: vec![],
    };
    let poster = |key: &str| MetadataImage {
        url: MetadataImageUrl::S3(key.to_string()),
        lot: MetadataImageLot::Poster,
    };
    assert_eq!(save.details.identifier, "id");
    assert_eq!(save.details.title, "mine");
    assert_eq!(save.details.description, Some("about".to_string()));
    assert_eq!(save.details.source, MetadataSource::Custom);
    assert_eq!(save.details.creators, vec![creator("a"), creator("b")]);
    assert_eq!(save.details.genres, vec!["g".to_string()]);
    assert_eq!(save.details.images, vec![poster("x"), poster("y")]);
    assert_eq!(save.details.publish_year, Some(2001));
    assert_eq!(save.details.publish_date, None);
}

#[test]
fn what_is_not_given_is_empty() {
    match service().create_custom_media_as(full(MetadataLot::Show), 9, "id".to_string()) {
        Step::Do(save) => {
            assert!(save.details.creators.is_empty());
            assert!(save.details.genres.is_empty());
            assert!(save.details.images.is_empty());
            assert_eq!(save.details.description, None);
            assert_eq!(save.details.publish_year, None);
        }
        Step::Done(_) => panic!("nothing was saved"),
    }
}

#[test]
fn identifiers_are_drawn() {
    let draw = || match service().create_custom_media(full(MetadataLot::Movie), 1) {
        Step::Do(save) => save.details.identifier,
        Step::Done(_) => panic!("nothing was saved"),
    };
    let id = draw();
    assert_eq!(id.len(), 36);
    assert_eq!(id.as_bytes()[14], b'4');
    assert_ne!(id, draw());
}

#[test]
fn a_saved_item_is_collected() {
    let save = || match service().create_custom_media_as(full(MetadataLot::Movie), 9, "id".to_string()) {
        Step::Do(save) => save,
        Step::Done(_) => panic!("nothing was saved"),
    };
    let media = IdObject { id: Identifier(77) };
    let collect = || match save().saved(Ok(media)) {
        Step::Do(collect) => collect,
        Step::Done(_) => panic!("it was not collected"),
    };
    assert_eq!(collect().add.collection_name, "Custom");
    assert_eq!((collect().add.user_id, collect().add.media_id), (9, Identifier(77)));
    assert_eq!(collect().added(Ok(true)), Ok(CreateCustomMediaResult::Success(media)));
    assert_eq!(collect().added(Ok(false)), Ok(CreateCustomMediaResult::Success(media)));
    let down = || Error::Outside("down".to_string());
    assert_eq!(collect().added(Err(down())), Err(down()));
    assert_eq!(save().saved(Err(down())), Step::Done(Err(down())));
}

fn metadata(id: i32, source: MetadataSource) -> MetadataModel {
    MetadataModel {
        id,
        lot: MetadataLot::Movie,
        title: format!("title {}", id),
        publish_year: None,
        source,
        identifier: format!("at source {}", id),
        specifics: MediaSpecifics::Unknown,
    }
}

fn seen(metadata_id: i32) -> SeenModel {
    SeenModel { id: 1, progress: 5, user_id: 2, metadata_id, extra_information: None }
}

fn review(metadata_id: i32) -> ReviewModel {
    ReviewModel {
        id: 1,
        posted_on: Timestamp { secs: 0, nanos: 0 },
        rating: None,
        text: None,
        visibility: ReviewVisibility::Private,
        spoiler: false,
        user_id: 2,
        metadata_id,
        extra_information: None,
        identifier: None,
    }
}

fn run(first: Step<ExportSeen, Vec<ExportMedia>>) -> Result<Vec<ExportMedia>, Error> {
    let mut step = first;
    loop {
        match step {
            Step::Do(export) => {
                assert_eq!(export.user_id, 2);
                let id = export.metadata_id();
                let export = export.seen(vec![seen(id)]);
                assert_eq!(export.metadata_id(), id);
                step = export.reviewed(vec![review(id), review(id)]);
            }
            Step::Done(outcome) => return outcome,
        }
    }
}

#[test]
fn an_export_asks_for_the_users_media() {
    let export = service().json_export(2);
    assert_eq!(export.user_id, 2);
    let links = vec![
        UserToMetadataModel { user_id: 2, metadata_id: 30 },
        UserToMetadataModel { user_id: 2, metadata_id: 10 },
    ];
    let find = export.found(links);
    assert_eq!((find.user_id, find.metadata_ids), (2, vec![30, 10]));
}

#[test]
fn an_export_holds_every_media_item() {
    let sources = vec![
        MetadataSource::Audible,
        MetadataSource::Custom,
        MetadataSource::Goodreads,
        MetadataSource::Igdb,
        MetadataSource::Listennotes,
        MetadataSource::Openlibrary,
        MetadataSource::Tmdb,
    ];
    let metas: Vec<MetadataModel> = sources
        .into_iter()
        .enumerate()
        .map(|(i, source)| metadata(10 + i as i32, source))
        .collect();
    let exports = run(service().json_export(2).found(vec![]).found(Ok(metas))).unwrap();
    assert_eq!(exports.len(), 7);
    for (i, media) in exports.iter().enumerate() {
        let id = 10 + i as i32;
        assert_eq!(media.ryot_id, id);
        assert_eq!(media.title, format!("title {}", id));
        assert_eq!(media.lot, MetadataLot::Movie);
        assert_eq!(media.seen_history, vec![seen(id)]);
        assert_eq!(media.user_reviews, vec![review(id), review(id)]);
        let ids = [
            &media.audible_id,
            &media.custom_id,
            &media.goodreads_id,
            &media.igdb_id,
            &media.listennotes_id,
            &media.openlibrary_id,
            &media.tmdb_id,
        ];
        for (k, at_source) in ids.iter().enumerate() {
            if k == i {
                assert_eq!(**at_source, Some(format!("at source {}", id)));
            } else {
                assert_eq!(**at_source, None);
            }
        }
    }
}

#[test]
fn an_export_may_be_empty_or_fail() {
    assert_eq!(run(service().json_export(2).found(vec![]).found(Ok(vec![]))), Ok(vec![]));
    let down = || Error::Outside("down".to_string());
    assert_eq!(run(service().json_export(2).found(vec![]).found(Err(down()))), Err(down()));
}
