use ryot_misc::collections::{
    AddMediaToCollection, CollectionItem, CreateCollection, DeleteCollection, FetchMedia,
    GenericMetadata, InsertCollection, LinkMedia, MediaSearchItem, RemoveCollection, UnlinkMedia,
};
use ryot_misc::error::Error;
use ryot_misc::media::{MediaSpecifics, MetadataLot, MetadataModel, MetadataSource};
use ryot_misc::service::{DefaultCollections, MiscService};
use ryot_misc::step::Step;
use ryot_misc::store::{CollectionModel, IdObject, Identifier, NamedObject};

fn service() -> MiscService {
    MiscService::new(DefaultCollections {
        names: vec![
            "Watchlist".to_string(),
            "In Progress".to_string(),
            "Custom".to_string(),
        ],
        in_progress: "In Progress".to_string(),
        custom: "Custom".to_string(),
    })
}

fn collection(id: i32, name: &str) -> CollectionModel {
    CollectionModel { id, name: name.to_string(), user_id: 1 }
}

fn metadata(id: i32) -> MetadataModel {
    MetadataModel {
        id,
        lot: MetadataLot::Movie,
        title: format!("title {}", id),
        publish_year: Some(1990 + id),
        source: MetadataSource::Tmdb,
        identifier: format!("tmdb {}", id),
        specifics: MediaSpecifics::Unknown,
    }
}

fn catalogue(id: i32) -> GenericMetadata {
    GenericMetadata { model: metadata(id), poster_images: vec![format!("poster {}", id)] }
}

fn listed(id: i32) -> MediaSearchItem {
    MediaSearchItem {
        identifier: id.to_string(),
        lot: MetadataLot::Movie,
        title: format!("title {}", id),
        images: vec![format!("poster {}", id)],
        publish_year: Some(1990 + id),
    }
}

fn run(first: Step<FetchMedia, Vec<CollectionItem>>) -> (Vec<i32>, Result<Vec<CollectionItem>, Error>) {
    let mut asked = vec![];
    let mut step = first;
    loop {
        match step {
            Step::Do(fetch) => {
                let id = fetch.metadata_id();
                asked.push(id);
                step = fetch.fetched(Ok(catalogue(id)));
            }
            Step::Done(outcome) => return (asked, outcome),
        }
    }
}

#[test]
fn collections_list_their_media_in_order() {
    let find = service().collections(1);
    assert_eq!(find.user_id, 1);
    let rows = vec![
        (collection(10, "a"), vec![metadata(5), metadata(3)]),
        (collection(11, "b"), vec![]),
        (collection(12, "c"), vec![metadata(-4)]),
        (collection(13, "d"), vec![]),
    ];
    let (asked, outcome) = run(find.found(rows));
    assert_eq!(asked, vec![5, 3, -4]);
    let expected = vec![
        CollectionItem {
            collection_details: collection(10, "a"),
            media_details: vec![listed(5), listed(3)],
        },
        CollectionItem { collection_details: collection(11, "b"), media_details: vec![] },
        CollectionItem { collection_details: collection(12, "c"), media_details: vec![listed(-4)] },
        CollectionItem { collection_details: collection(13, "d"), media_details: vec![] },
    ];
    assert_eq!(outcome, Ok(expected));
}

#[test]
fn empty_collections_need_no_catalogue() {
    let rows = vec![(collection(10, "a"), vec![]), (collection(11, "b"), vec![])];
    let (asked, outcome) = run(service().collections(1).found(rows));
    assert!(asked.is_empty());
    assert_eq!(outcome.unwrap().len(), 2);
    assert_eq!(run(service().collections(1).found(vec![])), (vec![], Ok(vec![])));
}

#[test]
fn a_failing_catalogue_ends_the_listing() {
    let rows = vec![(collection(10, "a"), vec![metadata(5), metadata(3)])];
    match service().collections(1).found(rows) {
        Step::Do(fetch) => {
            let next = fetch.fetched(Err(Error::Outside("gone".to_string())));
            assert_eq!(next, Step::Done(Err(Error::Outside("gone".to_string()))));
        }
        Step::Done(_) => panic!("the catalogue was not asked"),
    }
}

#[test]
fn a_collection_is_created_once() {
    let create = service().create_collection(1, NamedObject { name: "a".to_string() });
    assert_eq!(create, CreateCollection { name: "a".to_string(), user_id: 1 });
    let insert = InsertCollection { name: "a".to_string(), user_id: 1 };
    match create.found(None) {
        Step::Do(next) => {
            assert_eq!(next, insert);
            assert_eq!(next.inserted(Ok(7)), Ok(IdObject { id: Identifier(7) }));
        }
        Step::Done(_) => panic!("nothing was inserted"),
    }
    let create = service().create_collection(1, NamedObject { name: "a".to_string() });
    assert_eq!(
        create.found(Some(collection(7, "a"))),
        Step::Done(Ok(IdObject { id: Identifier(7) }))
    );
}

#[test]
fn a_failed_insert_is_not_explained() {
    let insert = InsertCollection { name: "a".to_string(), user_id: 1 };
    let error = Error::Outside("secret".to_string());
    assert_eq!(insert.inserted(Err(error)), Err(Error::CollectionNotCreated));
}

#[test]
fn default_collections_are_not_deleted() {
    for name in ["Watchlist", "In Progress", "Custom"] {
        assert_eq!(
            service().delete_collection(1, name.to_string()),
            Step::Done(Err(Error::DefaultCollection))
        );
    }
}

#[test]
fn other_collections_are_deleted() {
    let name = "watchlist".to_string();
    match service().delete_collection(1, name.clone()) {
        Step::Do(delete) => {
            assert_eq!(delete, DeleteCollection { name, user_id: 1 });
            assert_eq!(
                delete.found(Ok(Some(collection(9, "watchlist")))),
                Step::Do(RemoveCollection { collection_id: 9 })
            );
        }
        Step::Done(_) => panic!("not a default collection"),
    }
    let delete = || DeleteCollection { name: "x".to_string(), user_id: 1 };
    assert_eq!(delete().found(Ok(None)), Step::Done(Ok(false)));
    assert_eq!(
        delete().found(Err(Error::Outside("down".to_string()))),
        Step::Done(Err(Error::Outside("down".to_string())))
    );
    let remove = || RemoveCollection { collection_id: 9 };
    assert_eq!(remove().removed(Ok(())), Ok(true));
    assert_eq!(remove().removed(Err(Error::Outside("down".to_string()))), Ok(false));
}

#[test]
fn media_goes_into_and_out_of_a_collection() {
    let input =
        AddMediaToCollection { collection_name: "a".to_string(), media_id: Identifier(5) };
    let put = service().add_media_to_collection(1, input);
    assert_eq!((put.collection_name.as_str(), put.user_id), ("a", 1));
    let link = put.found(collection(10, "a"));
    assert_eq!(link, LinkMedia { metadata_id: 5, collection_id: 10 });
    assert_eq!(link.linked(Ok(())), Ok(true));
    let link = LinkMedia { metadata_id: 5, collection_id: 10 };
    assert_eq!(link.linked(Err(Error::Outside("there".to_string()))), Ok(false));

    let remove = service().remove_media_item_from_collection(1, 5, "a".to_string());
    assert_eq!((remove.collection_name.as_str(), remove.user_id), ("a", 1));
    let unlink = remove.found(collection(10, "a"));
    assert_eq!(unlink, UnlinkMedia { metadata_id: 5, collection_id: 10 });
    assert_eq!(unlink.unlinked(Ok(())), Ok(IdObject { id: Identifier(10) }));
    let unlink = UnlinkMedia { metadata_id: 5, collection_id: 10 };
    assert_eq!(
        unlink.unlinked(Err(Error::Outside("not there".to_string()))),
        Ok(IdObject { id: Identifier(10) })
    );
}

#[test]
fn a_new_user_gets_the_default_collections() {
    let mut names = vec![];
    let mut step = service().user_created_job(8);
    let outcome = loop {
        match step {
            Step::Do(create) => {
                let current = create.current();
                assert_eq!(current.user_id, 8);
                names.push(current.name);
                step = create.created(Err(Error::CollectionNotCreated));
            }
            Step::Done(outcome) => break outcome,
        }
    };
    assert_eq!(names, vec!["Watchlist", "In Progress", "Custom"]);
    assert_eq!(outcome, Ok(()));
}

/// Runs the job for a new user on a table of collections.
fn run_job(user_id: i32, table: &mut Vec<(i32, String)>) {
    let mut step = service().user_created_job(user_id);
    while let Step::Do(create) = step {
        let current = create.current();
        let row = (current.user_id, current.name.clone());
        let id = table.iter().position(|known| *known == row);
        let existing = id.map(|id| CollectionModel {
            id: id as i32,
            name: row.1.clone(),
            user_id: row.0,
        });
        let outcome = match current.found(existing) {
            Step::Do(insert) => {
                table.push((insert.user_id, insert.name.clone()));
                insert.inserted(Ok(table.len() as i32 - 1))
            }
            Step::Done(outcome) => outcome,
        };
        step = create.created(outcome);
    }
}

#[test]
fn the_job_adds_what_is_missing_and_no_more() {
    let row = |user_id: i32, name: &str| (user_id, name.to_string());
    let mut table = vec![row(8, "In Progress"), row(9, "Custom"), row(8, "mine")];
    run_job(8, &mut table);
    let expected = vec![
        row(8, "In Progress"),
        row(9, "Custom"),
        row(8, "mine"),
        row(8, "Watchlist"),
        row(8, "Custom"),
    ];
    assert_eq!(table, expected);
    run_job(8, &mut table);
    assert_eq!(table, expected);
}
