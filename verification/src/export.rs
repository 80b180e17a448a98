//! A user's data as a whole, for taking it elsewhere.
use vstd::prelude::*;

use crate::error::Error;
use crate::media::{MetadataLot, MetadataModel, MetadataSource, SeenModel};
use crate::service::MiscService;
use crate::step::{Queue, Step};
use crate::store::{ReviewModel, UserToMetadataModel};

verus! {

/// A media item with everything that a user did with it.
#[derive(Debug, PartialEq)]
pub struct ExportMedia {
    pub ryot_id: i32,
    pub title: String,
    pub lot: MetadataLot,
    pub audible_id: Option<String>,
    pub custom_id: Option<String>,
    pub goodreads_id: Option<String>,
    pub igdb_id: Option<String>,
    pub listennotes_id: Option<String>,
    pub openlibrary_id: Option<String>,
    pub tmdb_id: Option<String>,
    pub seen_history: Vec<SeenModel>,
    pub user_reviews: Vec<ReviewModel>,
}

/// The identifier of a media item, where it comes from this source.
pub open spec fn id_at(meta: MetadataModel, source: MetadataSource) -> Option<String> {
    if meta.source == source {
        Some(meta.identifier)
    } else {
        None
    }
}

/// A media item as it is exported, with a user's history of it and their reviews.
pub open spec fn exported(
    meta: MetadataModel,
    seen_history: Vec<SeenModel>,
    user_reviews: Vec<ReviewModel>,
) -> ExportMedia {
    ExportMedia {
        ryot_id: meta.id,
        title: meta.title,
        lot: meta.lot,
        audible_id: id_at(meta, MetadataSource::Audible),
        custom_id: id_at(meta, MetadataSource::Custom),
        goodreads_id: id_at(meta, MetadataSource::Goodreads),
        igdb_id: id_at(meta, MetadataSource::Igdb),
        listennotes_id: id_at(meta, MetadataSource::Listennotes),
        openlibrary_id: id_at(meta, MetadataSource::Openlibrary),
        tmdb_id: id_at(meta, MetadataSource::Tmdb),
        seen_history,
        user_reviews,
    }
}

fn export_media(
    meta: MetadataModel,
    seen_history: Vec<SeenModel>,
    user_reviews: Vec<ReviewModel>,
) -> (media: ExportMedia)
    ensures
        media == exported(meta, seen_history, user_reviews),
{
    let mut media = ExportMedia {
        ryot_id: meta.id,
        title: meta.title,
        lot: meta.lot,
        audible_id: None,
        custom_id: None,
        goodreads_id: None,
        igdb_id: None,
        listennotes_id: None,
        openlibrary_id: None,
        tmdb_id: None,
        seen_history,
        user_reviews,
    };
    match meta.source {
        MetadataSource::Audible => media.audible_id = Some(meta.identifier),
        MetadataSource::Custom => media.custom_id = Some(meta.identifier),
        MetadataSource::Goodreads => media.goodreads_id = Some(meta.identifier),
        MetadataSource::Igdb => media.igdb_id = Some(meta.identifier),
        MetadataSource::Listennotes => media.listennotes_id = Some(meta.identifier),
        MetadataSource::Openlibrary => media.openlibrary_id = Some(meta.identifier),
        MetadataSource::Tmdb => media.tmdb_id = Some(meta.identifier),
    }
    media
}

/// Waits for all links from the user to media items.
#[derive(Debug, PartialEq, Eq)]
pub struct JsonExport {
    pub user_id: i32,
}

impl JsonExport {
    pub fn found(self, links: Vec<UserToMetadataModel>) -> (next: FindExported)
        ensures
            next.user_id == self.user_id,
            next.metadata_ids@ == links@.map_values(|link: UserToMetadataModel| link.metadata_id),
    {
        let mut metadata_ids: Vec<i32> = Vec::new();
        for i in 0..links.len()
            invariant
                metadata_ids@ == links@.take(i as int).map_values(
                    |link: UserToMetadataModel| link.metadata_id,
                ),
        {
            metadata_ids.push(links[i].metadata_id);
            assert(metadata_ids@ =~= links@.take(i + 1).map_values(
                |link: UserToMetadataModel| link.metadata_id,
            ));
        }
        assert(links@.take(links@.len() as int) =~= links@);
        FindExported { user_id: self.user_id, metadata_ids }
    }
}

/// Waits for all media items with one of these ids, in the order of their ids.
#[derive(Debug, PartialEq, Eq)]
pub struct FindExported {
    pub user_id: i32,
    pub metadata_ids: Vec<i32>,
}

impl FindExported {
    pub fn found(self, metas: Result<Vec<MetadataModel>, Error>) -> (next: Step<
        ExportSeen,
        Vec<ExportMedia>,
    >)
        ensures
            match metas {
                Ok(metas) => match next {
                    Step::Do(export) => export.user_id == self.user_id && export.left@ == metas@
                        && metas@.len() > 0 && export.done@.len() == 0,
                    Step::Done(outcome) => metas@.len() == 0 && (outcome matches Ok(exports)
                        && exports@.len() == 0),
                },
                Err(error) => next == Step::<ExportSeen, Vec<ExportMedia>>::Done(Err(error)),
            },
    {
        match metas {
            Ok(metas) => match Queue::line_up(metas) {
                Some(left) => Step::Do(
                    ExportSeen { user_id: self.user_id, left, done: Vec::new() },
                ),
                None => Step::Done(Ok(Vec::new())),
            },
            Err(error) => Step::Done(Err(error)),
        }
    }
}

/// Waits for the user's history of the media item that is first among those left.
#[derive(Debug, PartialEq)]
pub struct ExportSeen {
    pub user_id: i32,
    pub left: Queue<MetadataModel>,
    pub done: Vec<ExportMedia>,
}

impl ExportSeen {
    /// The media item whose history is waited for.
    pub fn metadata_id(&self) -> (id: i32)
        ensures
            self.left@.len() > 0,
            id == self.left@[0].id,
    {
        self.left.current().id
    }

    pub fn seen(self, seen_history: Vec<SeenModel>) -> (next: ExportReviews)
        ensures
            next == (ExportReviews {
                user_id: self.user_id,
                left: self.left,
                done: self.done,
                seen_history,
            }),
    {
        ExportReviews { user_id: self.user_id, left: self.left, done: self.done, seen_history }
    }
}

/// Waits for the user's reviews of the media item that is first among those left.
#[derive(Debug, PartialEq)]
pub struct ExportReviews {
    pub user_id: i32,
    pub left: Queue<MetadataModel>,
    pub done: Vec<ExportMedia>,
    pub seen_history: Vec<SeenModel>,
}

impl ExportReviews {
    /// The media item whose reviews are waited for.
    pub fn metadata_id(&self) -> (id: i32)
        ensures
            self.left@.len() > 0,
            id == self.left@[0].id,
    {
        self.left.current().id
    }

    /// The media item is exported, and the next one follows where there is one.
    pub fn reviewed(self, user_reviews: Vec<ReviewModel>) -> (next: Step<
        ExportSeen,
        Vec<ExportMedia>,
    >)
        ensures
            ({
                let media = exported(self.left@[0], self.seen_history, user_reviews);
                match next {
                    Step::Do(export) => export.user_id == self.user_id && export.left@
                        == self.left@.skip(1) && export.left@.len() > 0 && export.done@
                        == self.done@.push(media),
                    Step::Done(outcome) => self.left@.len() == 1 && (outcome matches Ok(exports)
                        && exports@ == self.done@.push(media)),
                }
            }),
    {
        let (meta, left) = self.left.take_first();
        let mut done = self.done;
        done.push(export_media(meta, self.seen_history, user_reviews));
        match left {
            Some(left) => Step::Do(ExportSeen { user_id: self.user_id, left, done }),
            None => Step::Done(Ok(done)),
        }
    }
}

impl MiscService {
    /// Get everything that a user did, as a list that can be written down as JSON.
    pub fn json_export(&self, user_id: i32) -> (next: JsonExport)
        ensures
            next == (JsonExport { user_id }),
    {
        JsonExport { user_id }
    }
}

/// Everything that has been exported in the end, where `left` is still to be exported and the
/// store holds these histories and reviews of the user.
pub open spec fn export_run(
    left: Seq<MetadataModel>,
    done: Seq<ExportMedia>,
    histories: spec_fn(i32) -> Vec<SeenModel>,
    reviews: spec_fn(i32) -> Vec<ReviewModel>,
) -> Seq<ExportMedia>
    decreases left.len(),
{
    if left.len() == 0 {
        done
    } else {
        let media = exported(left[0], histories(left[0].id), reviews(left[0].id));
        export_run(left.skip(1), done.push(media), histories, reviews)
    }
}

/// Law: an export holds every media item that was found, in the same order, each with the
/// history and the reviews of its own id.
pub proof fn law_export_is_complete(
    left: Seq<MetadataModel>,
    done: Seq<ExportMedia>,
    histories: spec_fn(i32) -> Vec<SeenModel>,
    reviews: spec_fn(i32) -> Vec<ReviewModel>,
)
    ensures
        export_run(left, done, histories, reviews) == done + left.map_values(
            |meta: MetadataModel| exported(meta, histories(meta.id), reviews(meta.id)),
        ),
    decreases left.len(),
{
    let export = |meta: MetadataModel| exported(meta, histories(meta.id), reviews(meta.id));
    if left.len() == 0 {
        assert(done + left.map_values(export) =~= done);
    } else {
        law_export_is_complete(left.skip(1), done.push(export(left[0])), histories, reviews);
        assert(done.push(export(left[0])) + left.skip(1).map_values(export) =~= done
            + left.map_values(export));
    }
}

/// How many of the identifiers at other services an exported media item has.
pub open spec fn ids_given(media: ExportMedia) -> int {
    let one = |id: Option<String>| -> int { if id is Some { 1 } else { 0 } };
    one(media.audible_id) + one(media.custom_id) + one(media.goodreads_id) + one(media.igdb_id)
        + one(media.listennotes_id) + one(media.openlibrary_id) + one(media.tmdb_id)
}

/// Law: an exported media item has exactly one identifier, the one at its own source.
pub proof fn law_export_has_one_identifier(
    meta: MetadataModel,
    seen_history: Vec<SeenModel>,
    user_reviews: Vec<ReviewModel>,
)
    ensures
        ids_given(exported(meta, seen_history, user_reviews)) == 1,
        ({
            let media = exported(meta, seen_history, user_reviews);
            Some(meta.identifier) == match meta.source {
                MetadataSource::Audible => media.audible_id,
                MetadataSource::Custom => media.custom_id,
                MetadataSource::Goodreads => media.goodreads_id,
                MetadataSource::Igdb => media.igdb_id,
                MetadataSource::Listennotes => media.listennotes_id,
                MetadataSource::Openlibrary => media.openlibrary_id,
                MetadataSource::Tmdb => media.tmdb_id,
            }
        }),
{
}

/// Law: an exported media item has the id, title and kind of its own, its identifier at the
/// source that it comes from and at no other, and the history and the reviews that were found.
pub proof fn law_exported_media_is_the_stored_one(
    meta: MetadataModel,
    seen_history: Vec<SeenModel>,
    user_reviews: Vec<ReviewModel>,
)
    ensures
        ({
            let media = exported(meta, seen_history, user_reviews);
            &&& media.ryot_id == meta.id
            &&& media.title == meta.title
            &&& media.lot == meta.lot
            &&& media.audible_id == if meta.source is Audible {
                Some(meta.identifier)
            } else {
                None
            }
            &&& media.custom_id == if meta.source is Custom {
                Some(meta.identifier)
            } else {
                None
            }
            &&& media.goodreads_id == if meta.source is Goodreads {
                Some(meta.identifier)
            } else {
                None
            }
            &&& media.igdb_id == if meta.source is Igdb {
                Some(meta.identifier)
            } else {
                None
            }
            &&& media.listennotes_id == if meta.source is Listennotes {
                Some(meta.identifier)
            } else {
                None
            }
            &&& media.openlibrary_id == if meta.source is Openlibrary {
                Some(meta.identifier)
            } else {
                None
            }
            &&& media.tmdb_id == if meta.source is Tmdb {
                Some(meta.identifier)
            } else {
                None
            }
            &&& media.seen_history == seen_history
            &&& media.user_reviews == user_reviews
        }),
{
}

} // verus!
