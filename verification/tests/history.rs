use ryot_misc::clock::Timestamp;
use ryot_misc::error::Error;
use ryot_misc::imports::{FinishImportJob, StartImportJob};
use ryot_misc::media::{
    BookSpecifics, MediaDetails, MediaSpecifics, MetadataCreator, MetadataImage, MetadataImageLot,
    MetadataImageUrl, MetadataLot, MetadataModel, MetadataSource, SeenModel,
};
use ryot_misc::service::{DefaultCollections, MiscService};
use ryot_misc::step::Step;
use ryot_misc::store::{
    ActiveValue, IdObject, Identifier, ImportReportActiveModel, ImportReportModel, SummaryModel,
    UserLot, UserModel,
};
use ryot_misc::summaries::{DeploySummaryJob, InsertSummary};
use ryot_misc::summary::{BooksSummary, UserSummary};

fn service() -> MiscService {
    MiscService::new(DefaultCollections {
        names: vec!["In Progress".to_string(), "Custom".to_string()],
        in_progress: "In Progress".to_string(),
        custom: "Custom".to_string(),
    })
}

fn seen(progress: i32, user_id: i32) -> SeenModel {
    SeenModel { id: 5, progress, user_id, metadata_id: 70, extra_information: None }
}

fn down() -> Error {
    Error::Outside("down".to_string())
}

fn metadata(id: i32, lot: MetadataLot, specifics: MediaSpecifics) -> MetadataModel {
    MetadataModel {
        id,
        lot,
        title: "title".to_string(),
        publish_year: None,
        source: MetadataSource::Openlibrary,
        identifier: "OL1".to_string(),
        specifics,
    }
}

fn summary(id: i32, pages: i32) -> SummaryModel {
    let mut data = UserSummary::default();
    data.books = BooksSummary { pages, read: 1 };
    SummaryModel { id, created_on: Timestamp { secs: 9, nanos: 0 }, user_id: 1, data }
}

fn user(id: i32) -> UserModel {
    UserModel {
        id,
        name: String::new(),
        email: None,
        password: String::new(),
        lot: UserLot::Normal,
    }
}

#[test]
fn an_unfinished_item_leaves_in_progress() {
    let delete = service().delete_seen_item(5, 1);
    assert_eq!((delete.seen_id, delete.user_id), (5, 1));
    let remove = match delete.found(Some(seen(99, 1))) {
        Step::Do(remove) => remove,
        Step::Done(_) => panic!("nothing was removed"),
    };
    match remove.removed(Err(down())) {
        Step::Do(leave) => {
            assert_eq!(leave.remove.collection_name, "In Progress");
            assert_eq!((leave.remove.user_id, leave.remove.metadata_id), (1, 70));
            assert_eq!(leave.left(Err(down())), Ok(IdObject { id: Identifier(5) }));
        }
        Step::Done(_) => panic!("the collection was left alone"),
    }
}

#[test]
fn a_finished_item_was_not_in_progress() {
    let remove = match service().delete_seen_item(5, 1).found(Some(seen(100, 1))) {
        Step::Do(remove) => remove,
        Step::Done(_) => panic!("nothing was removed"),
    };
    assert_eq!(remove.removed(Ok(())), Step::Done(Ok(IdObject { id: Identifier(5) })));
}

#[test]
fn only_own_entries_are_deleted() {
    assert_eq!(
        service().delete_seen_item(5, 1).found(Some(seen(10, 2))),
        Step::Done(Err(Error::SeenItemNotOwned))
    );
    assert_eq!(
        service().delete_seen_item(5, 1).found(None),
        Step::Done(Err(Error::SeenItemMissing))
    );
}

#[test]
fn all_summaries_are_cleaned_up() {
    let mut ids = vec![];
    let cleanup = service().cleanup_summaries_for_user(1);
    assert_eq!(cleanup.user_id, 1);
    let mut step = cleanup.found(vec![summary(3, 1), summary(1, 1), summary(2, 1)]);
    let outcome = loop {
        match step {
            Step::Do(remove) => {
                ids.push(remove.summary_id());
                step = remove.removed(Err(down()));
            }
            Step::Done(outcome) => break outcome,
        }
    };
    assert_eq!(ids, vec![3, 1, 2]);
    assert_eq!(outcome, Ok(()));
    assert_eq!(
        service().cleanup_summaries_for_user(1).found(vec![]),
        Step::Done(Ok(()))
    );
}

#[test]
fn the_latest_summary_is_shown() {
    assert_eq!(
        service().latest_user_summary(1).found(Some(summary(3, 44))),
        Ok(summary(3, 44))
    );
    let shown = service().user_summary(1);
    assert_eq!(shown.latest.user_id, 1);
    assert_eq!(shown.found(Some(summary(3, 44))), Ok(summary(3, 44).data));
}

#[test]
fn without_a_summary_nothing_is_shown() {
    let empty = SummaryModel {
        id: 0,
        created_on: Timestamp { secs: 0, nanos: 0 },
        user_id: 0,
        data: UserSummary::default(),
    };
    assert_eq!(SummaryModel::default(), empty);
    assert_eq!(service().latest_user_summary(1).found(None), Ok(empty));
    assert_eq!(service().user_summary(1).found(None), Ok(UserSummary::default()));
}

#[test]
fn a_summary_is_calculated_and_inserted() {
    let calculate = service().calculate_user_summary(1);
    assert_eq!((calculate.user_id, calculate.progress), (1, 100));
    let book = MediaSpecifics::Book(BookSpecifics { pages: Some(44) });
    let items = vec![(seen(100, 1), metadata(70, MetadataLot::Book, book))];
    match calculate.found(Ok(items)) {
        Step::Do(insert) => {
            assert_eq!(insert, InsertSummary { user_id: 1, data: summary(0, 44).data });
            assert_eq!(insert.inserted(12), Ok(IdObject { id: Identifier(12) }));
        }
        Step::Done(_) => panic!("nothing was inserted"),
    }
    assert_eq!(
        service().calculate_user_summary(1).found(Err(down())),
        Step::Done(Err(down()))
    );
}

#[test]
fn what_cannot_be_summarized_is_not_inserted() {
    let item = |pages| {
        let book = MediaSpecifics::Book(BookSpecifics { pages: Some(pages) });
        (seen(100, 1), metadata(70, MetadataLot::Book, book))
    };
    let items = vec![item(i32::MAX), item(1)];
    assert_eq!(service().calculate_user_summary(1).try_found(Ok(items)), None);
    assert!(service().calculate_user_summary(1).try_found(Ok(vec![item(3)])).is_some());
    assert_eq!(
        service().calculate_user_summary(1).try_found(Err(down())),
        Some(Step::Done(Err(down())))
    );
}

#[test]
fn every_user_gets_a_summary() {
    let mut ids = vec![];
    let mut step = service().regenerate_user_summaries().found(vec![user(4), user(2)]);
    let outcome = loop {
        match step {
            Step::Do(calculate) => {
                let current = calculate.current();
                assert_eq!(current.progress, 100);
                ids.push(current.user_id);
                step = calculate.calculated(Ok(IdObject { id: Identifier(1) }));
            }
            Step::Done(outcome) => break outcome,
        }
    };
    assert_eq!(ids, vec![4, 2]);
    assert_eq!(outcome, Ok(()));
    assert_eq!(service().regenerate_user_summaries().found(vec![]), Step::Done(Ok(())));
}

#[test]
fn a_failed_calculation_ends_the_round() {
    match service().regenerate_user_summaries().found(vec![user(4), user(2)]) {
        Step::Do(calculate) => {
            assert_eq!(calculate.calculated(Err(down())), Step::Done(Err(down())));
        }
        Step::Done(_) => panic!("nothing was calculated"),
    }
}

#[test]
fn a_summary_is_regenerated_after_the_clean_up() {
    let regenerate = service().regenerate_user_summary(6);
    assert_eq!(regenerate.cleanup.user_id, 6);
    assert_eq!(regenerate.cleaned(Ok(())), Step::Do(DeploySummaryJob { user_id: 6 }));
    assert_eq!(
        service().regenerate_user_summary(6).cleaned(Err(down())),
        Step::Done(Err(down()))
    );
    assert_eq!(DeploySummaryJob { user_id: 6 }.deployed(Ok(())), Ok(true));
    assert_eq!(DeploySummaryJob { user_id: 6 }.deployed(Err(down())), Err(down()));
}

#[test]
fn metadata_is_taken_over() {
    let stored = metadata(70, MetadataLot::Book, MediaSpecifics::Unknown);
    let update = service().update_metadata(&stored);
    assert_eq!((update.metadata_id, update.lot), (70, MetadataLot::Book));
    let image = || MetadataImage {
        url: MetadataImageUrl::Url("u".to_string()),
        lot: MetadataImageLot::Backdrop,
    };
    let creator = || MetadataCreator {
        name: "n".to_string(),
        role: "Author".to_string(),
        image_urls: vec!["i".to_string()],
    };
    let details = MediaDetails {
        identifier: "OL2".to_string(),
        title: "new".to_string(),
        description: Some("about".to_string()),
        lot: MetadataLot::Book,
        source: MetadataSource::Openlibrary,
        creators: vec![creator()],
        genres: vec!["g".to_string()],
        images: vec![image()],
        publish_year: Some(1),
        publish_date: None,
        specifics: MediaSpecifics::Book(BookSpecifics { pages: Some(3) }),
    };
    match update.fetched(Ok(details)) {
        Step::Do(media) => {
            assert_eq!(media.metadata_id, 70);
            assert_eq!(media.title, "new");
            assert_eq!(media.description, Some("about".to_string()));
            assert_eq!(media.images, vec![image()]);
            assert_eq!(media.creators, vec![creator()]);
            assert_eq!(media.specifics, MediaSpecifics::Book(BookSpecifics { pages: Some(3) }));
            assert_eq!(media.genres, vec!["g".to_string()]);
            assert_eq!(media.updated(Err(down())), Ok(()));
        }
        Step::Done(_) => panic!("nothing was taken over"),
    }
    assert_eq!(
        service().update_metadata(&stored).fetched(Err(down())),
        Step::Done(Ok(()))
    );
}

#[test]
fn every_media_item_gets_an_update_job() {
    let all = || {
        vec![
            metadata(3, MetadataLot::Book, MediaSpecifics::Unknown),
            metadata(1, MetadataLot::Show, MediaSpecifics::Unknown),
        ]
    };
    let mut ids = vec![];
    let mut step = service().update_all_metadata().found(all());
    let outcome = loop {
        match step {
            Step::Do(deploy) => {
                ids.push(deploy.metadata_id());
                step = deploy.deployed(Ok(()));
            }
            Step::Done(outcome) => break outcome,
        }
    };
    assert_eq!((ids, outcome), (vec![3, 1], Ok(true)));
    match service().update_all_metadata().found(all()) {
        Step::Do(deploy) => assert_eq!(deploy.deployed(Err(down())), Step::Done(Err(down()))),
        Step::Done(_) => panic!("no job was deployed"),
    }
    assert_eq!(service().update_all_metadata().found(vec![]), Step::Done(Ok(true)));
}

fn report() -> ImportReportModel<&'static str, u32> {
    ImportReportModel {
        id: 4,
        user_id: 1,
        source: "trakt",
        finished_on: None,
        details: None,
        success: None,
    }
}

#[test]
fn an_import_is_begun() {
    let start: StartImportJob<&str, u32> = service().start_import_job(1, "trakt");
    assert_eq!(
        start.report,
        ImportReportActiveModel {
            id: ActiveValue::NotSet,
            user_id: ActiveValue::Write(1),
            source: ActiveValue::Write("trakt"),
            finished_on: ActiveValue::NotSet,
            details: ActiveValue::NotSet,
            success: ActiveValue::NotSet,
        }
    );
    assert_eq!(start.inserted(report()), Ok(report()));
}

#[test]
fn an_import_is_finished() {
    let at = Timestamp { secs: 77, nanos: 8 };
    let finish: FinishImportJob<&str, u32> = service().finish_import_job_at(report(), 12, at);
    assert_eq!(
        finish.report,
        ImportReportActiveModel {
            id: ActiveValue::Unchanged(4),
            user_id: ActiveValue::Unchanged(1),
            source: ActiveValue::Unchanged("trakt"),
            finished_on: ActiveValue::Write(Some(at)),
            details: ActiveValue::Write(Some(12)),
            success: ActiveValue::Write(Some(true)),
        }
    );
    assert_eq!(finish.updated(report()), Ok(report()));
}

#[test]
fn an_import_is_finished_now() {
    let before = chrono::Utc::now().timestamp();
    let finish = service().finish_import_job(report(), 12);
    let after = chrono::Utc::now().timestamp();
    match finish.report.finished_on {
        ActiveValue::Write(Some(at)) => {
            assert!(before <= at.secs && at.secs <= after);
            assert!(at.nanos < 1_000_000_000);
        }
        _ => panic!("the moment was not noted"),
    }
}

#[test]
fn import_reports_are_given_as_found() {
    let find = service().media_import_reports(1);
    assert_eq!(find.user_id, 1);
    assert_eq!(find.found(vec![report()]), Ok(vec![report()]));
}
