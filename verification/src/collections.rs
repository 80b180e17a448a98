//! Collections of media items.
use vstd::prelude::*;

use crate::decimal::to_decimal_string;
use crate::error::Error;
use crate::media::{MetadataLot, MetadataModel};
use crate::service::MiscService;
use crate::step::{Queue, Step};
use crate::store::{CollectionModel, IdObject, Identifier, NamedObject};

verus! {

/// A media item with its posters, as the media service gives it.
#[derive(Debug, PartialEq, Eq)]
pub struct GenericMetadata {
    pub model: MetadataModel,
    pub poster_images: Vec<String>,
}

/// A media item as it is listed.
#[derive(Debug, PartialEq, Eq)]
pub struct MediaSearchItem {
    pub identifier: String,
    pub lot: MetadataLot,
    pub title: String,
    pub images: Vec<String>,
    pub publish_year: Option<i32>,
}

/// A collection with the media items in it.
#[derive(Debug, PartialEq, Eq)]
pub struct CollectionItem {
    pub collection_details: CollectionModel,
    pub media_details: Vec<MediaSearchItem>,
}

/// A media item that is to be put into a collection.
#[derive(Debug, PartialEq, Eq)]
pub struct AddMediaToCollection {
    pub collection_name: String,
    pub media_id: Identifier,
}

/// The entry lists this media item: under its id, with its title, posters and year.
pub open spec fn lists(item: MediaSearchItem, media: GenericMetadata) -> bool {
    &&& item.identifier@ == crate::decimal::ascii(crate::decimal::decimal(media.model.id as int))
    &&& item.lot == media.model.lot
    &&& item.title == media.model.title
    &&& item.images == media.poster_images
    &&& item.publish_year == media.model.publish_year
}

/// The ids of all media items in the given collections, in order.
pub open spec fn media_ids(rows: Seq<(CollectionModel, Vec<MetadataModel>)>) -> Seq<i32>
    decreases rows.len(),
{
    if rows.len() == 0 {
        Seq::empty()
    } else {
        media_ids(rows.drop_last()) + rows.last().1@.map_values(|media: MetadataModel| media.id)
    }
}

/// A collection, and how many media items belong to it.
pub open spec fn shelves(rows: Seq<(CollectionModel, Vec<MetadataModel>)>) -> Seq<
    (CollectionModel, usize),
> {
    rows.map_values(
        |row: (CollectionModel, Vec<MetadataModel>)| (row.0, row.1@.len() as usize),
    )
}

/// How many media items belong to all shelves together.
pub open spec fn room(shelves: Seq<(CollectionModel, usize)>) -> nat
    decreases shelves.len(),
{
    if shelves.len() == 0 {
        0
    } else {
        room(shelves.drop_last()) + shelves.last().1 as nat
    }
}

/// The collections hold the listed media items: each as many as belong to it, in order.
pub open spec fn filled(
    shelves: Seq<(CollectionModel, usize)>,
    listed: Seq<MediaSearchItem>,
    items: Seq<CollectionItem>,
) -> bool {
    &&& items.len() == shelves.len()
    &&& forall|i: int|
        0 <= i < items.len() ==> {
            &&& (#[trigger] items[i]).collection_details == shelves[i].0
            &&& items[i].media_details@ == listed.subrange(
                room(shelves.take(i)) as int,
                room(shelves.take(i + 1)) as int,
            )
        }
}

proof fn lemma_room_take(shelves: Seq<(CollectionModel, usize)>, i: int)
    requires
        0 <= i < shelves.len(),
    ensures
        room(shelves.take(i + 1)) == room(shelves.take(i)) + shelves[i].1,
{
    assert(shelves.take(i + 1).drop_last() =~= shelves.take(i));
}

proof fn lemma_room_grows(shelves: Seq<(CollectionModel, usize)>, i: int)
    requires
        0 <= i <= shelves.len(),
    ensures
        room(shelves.take(i)) <= room(shelves),
    decreases shelves.len() - i,
{
    if i == shelves.len() {
        assert(shelves.take(i) =~= shelves);
    } else {
        lemma_room_take(shelves, i);
        lemma_room_grows(shelves, i + 1);
    }
}

/// As many ids as there is room for.
proof fn lemma_media_ids_fill(rows: Seq<(CollectionModel, Vec<MetadataModel>)>)
    ensures
        media_ids(rows).len() == room(shelves(rows)),
    decreases rows.len(),
{
    if rows.len() > 0 {
        lemma_media_ids_fill(rows.drop_last());
        assert(shelves(rows).drop_last() =~= shelves(rows.drop_last()));
        let media = rows.last().1;
        assert(media.len() == media@.len());
    }
}

fn list(media: GenericMetadata) -> (item: MediaSearchItem)
    ensures
        lists(item, media),
{
    MediaSearchItem {
        identifier: to_decimal_string(media.model.id),
        lot: media.model.lot,
        title: media.model.title,
        images: media.poster_images,
        publish_year: media.model.publish_year,
    }
}

/// Puts the listed media items into the collections that they belong to.
fn fill(places: Vec<(CollectionModel, usize)>, listed: Vec<MediaSearchItem>) -> (items: Vec<
    CollectionItem,
>)
    requires
        room(places@) == listed@.len(),
    ensures
        filled(places@, listed@, items@),
{
    let ghost all = places@;
    let ghost every = listed@;
    let mut left = listed;
    let mut items: Vec<CollectionItem> = Vec::new();
    assert(every.skip(0) =~= every);
    for place in iter: places
        invariant
            iter.seq() == all,
            room(all) == every.len(),
            left@ == every.skip(room(all.take(iter.index())) as int),
            items@.len() == iter.index(),
            forall|i: int|
                0 <= i < items@.len() ==> {
                    &&& (#[trigger] items@[i]).collection_details == all[i].0
                    &&& items@[i].media_details@ == every.subrange(
                        room(all.take(i)) as int,
                        room(all.take(i + 1)) as int,
                    )
                },
    {
        proof {
            lemma_room_take(all, iter.index());
            lemma_room_grows(all, iter.index());
            lemma_room_grows(all, iter.index() + 1);
        }
        let later = left.split_off(place.1);
        assert(left@ =~= every.subrange(
            room(all.take(iter.index())) as int,
            room(all.take(iter.index() + 1)) as int,
        ));
        items.push(CollectionItem { collection_details: place.0, media_details: left });
        left = later;
        assert(left@ =~= every.skip(room(all.take(iter.index() + 1)) as int));
    }
    items
}

/// Waits for the collections of a user, each with the media items in it.
#[derive(Debug, PartialEq, Eq)]
pub struct Collections {
    pub user_id: i32,
}

impl Collections {
    pub fn found(self, rows: Vec<(CollectionModel, Vec<MetadataModel>)>) -> (next: Step<
        FetchMedia,
        Vec<CollectionItem>,
    >)
        ensures
            match next {
                Step::Do(fetch) => {
                    &&& media_ids(rows@).len() > 0
                    &&& fetch.shelves() == shelves(rows@)
                    &&& fetch.ids() == media_ids(rows@)
                    &&& fetch.listed() == Seq::<MediaSearchItem>::empty()
                },
                Step::Done(outcome) => {
                    &&& media_ids(rows@).len() == 0
                    &&& outcome matches Ok(items) && filled(
                        shelves(rows@),
                        Seq::<MediaSearchItem>::empty(),
                        items@,
                    )
                },
            },
    {
        let ghost all = rows@;
        let mut ids: Vec<i32> = Vec::new();
        let mut places: Vec<(CollectionModel, usize)> = Vec::new();
        for row in iter: rows
            invariant
                iter.seq() == all,
                ids@ == media_ids(all.take(iter.index())),
                places@ == shelves(all.take(iter.index())),
        {
            let ghost before = ids@;
            let (collection, media) = row;
            for i in 0..media.len()
                invariant
                    ids@ == before + media@.take(i as int).map_values(
                        |media: MetadataModel| media.id,
                    ),
            {
                ids.push(media[i].id);
                assert(media@.take(i + 1) =~= media@.take(i as int).push(media@[i as int]));
                assert(ids@ =~= before + media@.take(i + 1).map_values(
                    |media: MetadataModel| media.id,
                ));
            }
            places.push((collection, media.len()));
            proof {
                assert(media@.take(media@.len() as int) =~= media@);
                assert(all.take(iter.index() + 1).drop_last() =~= all.take(iter.index()));
                assert(places@ =~= shelves(all.take(iter.index() + 1)));
            }
        }
        proof {
            assert(all.take(all.len() as int) =~= all);
            lemma_media_ids_fill(all);
        }
        if ids.len() == 0 {
            let listed: Vec<MediaSearchItem> = Vec::new();
            Step::Done(Ok(fill(places, listed)))
        } else {
            Step::Do(FetchMedia { places, ids, listed: Vec::new() })
        }
    }
}

/// Waits for one media item after another.
#[derive(Debug, PartialEq, Eq)]
pub struct FetchMedia {
    places: Vec<(CollectionModel, usize)>,
    ids: Vec<i32>,
    listed: Vec<MediaSearchItem>,
}

impl FetchMedia {
    #[verifier::type_invariant]
    spec fn wf(self) -> bool {
        &&& self.ids@.len() == room(self.places@)
        &&& self.listed@.len() < self.ids@.len()
    }

    /// The collections, and how many media items belong to each.
    pub closed spec fn shelves(self) -> Seq<(CollectionModel, usize)> {
        self.places@
    }

    /// The ids of all media items that are asked for, in order.
    pub closed spec fn ids(self) -> Seq<i32> {
        self.ids@
    }

    /// The media items that were given so far.
    pub closed spec fn listed(self) -> Seq<MediaSearchItem> {
        self.listed@
    }

    /// The id of the media item that is waited for.
    pub fn metadata_id(&self) -> (id: i32)
        ensures
            self.listed().len() < self.ids().len(),
            id == self.ids()[self.listed().len() as int],
    {
        proof {
            use_type_invariant(self);
        }
        self.ids[self.listed.len()]
    }

    /// One media item that cannot be had spoils the whole list.
    pub fn fetched(self, media: Result<GenericMetadata, Error>) -> (next: Step<
        FetchMedia,
        Vec<CollectionItem>,
    >)
        ensures
            match media {
                Err(error) => next == Step::<FetchMedia, Vec<CollectionItem>>::Done(Err(error)),
                Ok(media) => exists|item: MediaSearchItem| #[trigger]
                    lists(item, media) && match next {
                        Step::Do(fetch) => {
                            &&& self.listed().len() + 1 < self.ids().len()
                            &&& fetch.shelves() == self.shelves()
                            &&& fetch.ids() == self.ids()
                            &&& fetch.listed() == self.listed().push(item)
                        },
                        Step::Done(outcome) => {
                            &&& self.listed().len() + 1 == self.ids().len()
                            &&& outcome matches Ok(items) && filled(
                                self.shelves(),
                                self.listed().push(item),
                                items@,
                            )
                        },
                    },
            },
    {
        proof {
            use_type_invariant(&self);
        }
        match media {
            Err(error) => Step::Done(Err(error)),
            Ok(media) => {
                let places = self.places;
                let ids = self.ids;
                let mut listed = self.listed;
                let item = list(media);
                let ghost entry = item;
                assert(lists(entry, media));
                listed.push(item);
                if listed.len() == ids.len() {
                    Step::Done(Ok(fill(places, listed)))
                } else {
                    Step::Do(FetchMedia { places, ids, listed })
                }
            },
        }
    }
}

/// Waits for the user's collection of this name, if there is one.
#[derive(Debug, PartialEq, Eq)]
pub struct CreateCollection {
    pub name: String,
    pub user_id: i32,
}

/// The collection is the user's and has this name.
pub open spec fn is_named(collection: CollectionModel, user_id: i32, name: Seq<char>) -> bool {
    collection.user_id == user_id && collection.name@ == name
}

/// The user has a collection of this name in the table.
pub open spec fn owns(table: Seq<CollectionModel>, user_id: i32, name: Seq<char>) -> bool {
    exists|k: int| 0 <= k < table.len() && is_named(#[trigger] table[k], user_id, name)
}

/// The user does not have two collections of this name in the table.
pub open spec fn owns_at_most_one(table: Seq<CollectionModel>, user_id: i32, name: Seq<char>) -> bool {
    forall|k: int, l: int|
        0 <= k < l < table.len() ==> !(is_named(#[trigger] table[k], user_id, name) && is_named(
            #[trigger] table[l],
            user_id,
            name,
        ))
}

impl CreateCollection {
    /// What a store with this table answers.
    pub open spec fn is_answer(
        self,
        table: Seq<CollectionModel>,
        existing: Option<CollectionModel>,
    ) -> bool {
        match existing {
            Some(collection) => table.contains(collection) && is_named(
                collection,
                self.user_id,
                self.name@,
            ),
            None => !owns(table, self.user_id, self.name@),
        }
    }

    /// What becomes of the table once the answer has come: a collection that is to be inserted
    /// is added to it, where the store takes it.
    pub open spec fn leads_to(
        self,
        table: Seq<CollectionModel>,
        existing: Option<CollectionModel>,
        taken: bool,
        later: Seq<CollectionModel>,
    ) -> bool {
        match self.after(existing) {
            Step::Do(insert) => if taken {
                &&& later.len() == table.len() + 1
                &&& later.drop_last() == table
                &&& is_named(later.last(), insert.user_id, insert.name@)
            } else {
                later == table
            },
            Step::Done(_) => later == table,
        }
    }

    /// A collection that is there already is the outcome; otherwise one is inserted.
    pub open spec fn after(self, existing: Option<CollectionModel>) -> Step<
        InsertCollection,
        IdObject,
    > {
        match existing {
            Some(collection) => Step::Done(Ok(IdObject { id: Identifier(collection.id) })),
            None => Step::Do(InsertCollection { name: self.name, user_id: self.user_id }),
        }
    }

    pub fn found(self, existing: Option<CollectionModel>) -> (next: Step<InsertCollection, IdObject>)
        ensures
            next == self.after(existing),
    {
        match existing {
            Some(collection) => Step::Done(Ok(IdObject { id: Identifier(collection.id) })),
            None => Step::Do(InsertCollection { name: self.name, user_id: self.user_id }),
        }
    }
}

/// Waits for a collection of this name to be inserted for the user.
#[derive(Debug, PartialEq, Eq)]
pub struct InsertCollection {
    pub name: String,
    pub user_id: i32,
}

impl InsertCollection {
    /// The id of the new collection. Why it was not taken, the user is not told.
    pub open spec fn after(self, insertion: Result<i32, Error>) -> Result<IdObject, Error> {
        match insertion {
            Ok(id) => Ok(IdObject { id: Identifier(id) }),
            Err(_) => Err(Error::CollectionNotCreated),
        }
    }

    pub fn inserted(self, insertion: Result<i32, Error>) -> (outcome: Result<IdObject, Error>)
        ensures
            outcome == self.after(insertion),
    {
        match insertion {
            Ok(id) => Ok(IdObject { id: Identifier(id) }),
            Err(_) => Err(Error::CollectionNotCreated),
        }
    }
}

/// Waits for the user's collection of this name, if there is one.
#[derive(Debug, PartialEq, Eq)]
pub struct DeleteCollection {
    pub name: String,
    pub user_id: i32,
}

impl DeleteCollection {
    pub fn found(self, collection: Result<Option<CollectionModel>, Error>) -> (next: Step<
        RemoveCollection,
        bool,
    >)
        ensures
            match collection {
                Ok(Some(collection)) => next == Step::<RemoveCollection, bool>::Do(
                    RemoveCollection { collection_id: collection.id },
                ),
                Ok(None) => next == Step::<RemoveCollection, bool>::Done(Ok(false)),
                Err(error) => next == Step::<RemoveCollection, bool>::Done(Err(error)),
            },
    {
        match collection {
            Ok(Some(collection)) => Step::Do(RemoveCollection { collection_id: collection.id }),
            Ok(None) => Step::Done(Ok(false)),
            Err(error) => Step::Done(Err(error)),
        }
    }
}

/// Waits for the collection with this id to be removed.
#[derive(Debug, PartialEq, Eq)]
pub struct RemoveCollection {
    pub collection_id: i32,
}

impl RemoveCollection {
    /// Whether the collection is gone. Why it could not be removed, the user is not told.
    pub fn removed(self, removal: Result<(), Error>) -> (outcome: Result<bool, Error>)
        ensures
            outcome == Ok::<bool, Error>(removal is Ok),
    {
        Ok(removal.is_ok())
    }
}

/// Waits for the user's collection of this name.
#[derive(Debug, PartialEq, Eq)]
pub struct RemoveMediaFromCollection {
    pub collection_name: String,
    pub user_id: i32,
    pub metadata_id: i32,
}

impl RemoveMediaFromCollection {
    pub open spec fn after(self, collection: CollectionModel) -> UnlinkMedia {
        UnlinkMedia { metadata_id: self.metadata_id, collection_id: collection.id }
    }

    pub fn found(self, collection: CollectionModel) -> (next: UnlinkMedia)
        ensures
            next == self.after(collection),
    {
        UnlinkMedia { metadata_id: self.metadata_id, collection_id: collection.id }
    }
}

/// Waits for a media item to be taken out of a collection.
#[derive(Debug, PartialEq, Eq)]
pub struct UnlinkMedia {
    pub metadata_id: i32,
    pub collection_id: i32,
}

impl UnlinkMedia {
    /// The media items in collections, as pairs of their ids, once this one is taken out.
    pub open spec fn taken_out_of(self, links: Set<(i32, i32)>) -> Set<(i32, i32)> {
        links.remove((self.metadata_id, self.collection_id))
    }

    /// The collection, whether the media item was in it or not.
    pub fn unlinked(self, removal: Result<(), Error>) -> (outcome: Result<IdObject, Error>)
        ensures
            outcome == Ok::<IdObject, Error>(IdObject { id: Identifier(self.collection_id) }),
    {
        Ok(IdObject { id: Identifier(self.collection_id) })
    }
}

/// Waits for the user's collection of this name.
#[derive(Debug, PartialEq, Eq)]
pub struct PutMediaIntoCollection {
    pub collection_name: String,
    pub user_id: i32,
    pub media_id: Identifier,
}

impl PutMediaIntoCollection {
    pub open spec fn after(self, collection: CollectionModel) -> LinkMedia {
        LinkMedia { metadata_id: self.media_id.0, collection_id: collection.id }
    }

    pub fn found(self, collection: CollectionModel) -> (next: LinkMedia)
        ensures
            next == self.after(collection),
    {
        LinkMedia { metadata_id: self.media_id.0, collection_id: collection.id }
    }
}

/// Waits for a media item to be put into a collection.
#[derive(Debug, PartialEq, Eq)]
pub struct LinkMedia {
    pub metadata_id: i32,
    pub collection_id: i32,
}

impl LinkMedia {
    /// The media items in collections, as pairs of their ids, once this one is put there.
    pub open spec fn put_into(self, links: Set<(i32, i32)>) -> Set<(i32, i32)> {
        links.insert((self.metadata_id, self.collection_id))
    }

    /// Whether the media item was put there; a second time it is not.
    pub fn linked(self, insertion: Result<(), Error>) -> (outcome: Result<bool, Error>)
        ensures
            outcome == Ok::<bool, Error>(insertion is Ok),
    {
        Ok(insertion.is_ok())
    }
}

/// Waits for the default collections of a new user to be created, one after another.
#[derive(Debug, PartialEq, Eq)]
pub struct CreateDefaultCollections {
    pub user_id: i32,
    /// The names of the collections that are still to be created.
    pub names: Queue<String>,
}

impl CreateDefaultCollections {
    /// The collection whose turn it is.
    pub fn current(&self) -> (create: CreateCollection)
        ensures
            self.names@.len() > 0,
            create == (CreateCollection { name: self.names@[0], user_id: self.user_id }),
    {
        CreateCollection { name: self.names.current().clone(), user_id: self.user_id }
    }

    /// Goes on to the next collection, whatever became of this one.
    pub fn created(self, outcome: Result<IdObject, Error>) -> (next: Step<Self, ()>)
        ensures
            match next {
                Step::Do(rest) => rest.user_id == self.user_id && rest.names@ == self.names@.skip(1)
                    && rest.names@.len() > 0,
                Step::Done(done) => self.names@.len() == 1 && done is Ok,
            },
    {
        let user_id: i32 = self.user_id;
        match self.names.advance() {
            Some(names) => Step::Do(CreateDefaultCollections { user_id, names }),
            None => Step::Done(Ok(())),
        }
    }
}

impl MiscService {
    /// Get all collections of a user.
    pub fn collections(&self, user_id: i32) -> (next: Collections)
        ensures
            next == (Collections { user_id }),
    {
        Collections { user_id }
    }

    /// Create a new collection for a user.
    pub fn create_collection(&self, user_id: i32, input: NamedObject) -> (next: CreateCollection)
        ensures
            next == (CreateCollection { name: input.name, user_id }),
    {
        CreateCollection { name: input.name, user_id }
    }

    /// What deleting a collection begins with: nothing at all for a default collection.
    pub open spec fn deletion(self, user_id: i32, name: String) -> Step<DeleteCollection, bool> {
        if self.defaults.has(name@) {
            Step::Done(Err(Error::DefaultCollection))
        } else {
            Step::Do(DeleteCollection { name, user_id })
        }
    }

    /// Delete a collection.
    pub fn delete_collection(&self, user_id: i32, name: String) -> (next: Step<
        DeleteCollection,
        bool,
    >)
        ensures
            next == self.deletion(user_id, name),
    {
        if self.defaults.contains(&name) {
            return Step::Done(Err(Error::DefaultCollection));
        }
        Step::Do(DeleteCollection { name, user_id })
    }

    /// Remove a media item from a collection if it is there, otherwise do nothing.
    pub fn remove_media_item_from_collection(
        &self,
        user_id: i32,
        metadata_id: i32,
        collection_name: String,
    ) -> (next: RemoveMediaFromCollection)
        ensures
            next == (RemoveMediaFromCollection { collection_name, user_id, metadata_id }),
    {
        RemoveMediaFromCollection { collection_name, user_id, metadata_id }
    }

    /// Add a media item to a collection if it is not there, otherwise do nothing.
    pub fn add_media_to_collection(&self, user_id: i32, input: AddMediaToCollection) -> (next:
        PutMediaIntoCollection)
        ensures
            next == (PutMediaIntoCollection {
                collection_name: input.collection_name,
                user_id,
                media_id: input.media_id,
            }),
    {
        PutMediaIntoCollection {
            collection_name: input.collection_name,
            user_id,
            media_id: input.media_id,
        }
    }

    /// This job is run when a user is created for the first time: all default collections are
    /// created for them, in order.
    pub fn user_created_job(&self, user_id: i32) -> (next: Step<CreateDefaultCollections, ()>)
        ensures
            match next {
                Step::Do(create) => create.user_id == user_id && create.names@
                    == self.defaults.names@ && create.names@.len() > 0,
                Step::Done(done) => self.defaults.names@.len() == 0 && done is Ok,
            },
    {
        let mut names: Vec<String> = Vec::new();
        for i in 0..self.defaults.names.len()
            invariant
                names@ == self.defaults.names@.take(i as int),
        {
            names.push(self.defaults.names[i].clone());
            assert(names@ =~= self.defaults.names@.take(i + 1));
        }
        assert(names@ =~= self.defaults.names@);
        match Queue::line_up(names) {
            Some(names) => Step::Do(CreateDefaultCollections { user_id, names }),
            None => Step::Done(Ok(())),
        }
    }
}

/// Where the ids of a collection's media items stand among all ids.
proof fn lemma_media_id_at(rows: Seq<(CollectionModel, Vec<MetadataModel>)>, i: int, j: int)
    requires
        0 <= i < rows.len(),
        0 <= j < rows[i].1@.len(),
    ensures
        room(shelves(rows).take(i)) + j < room(shelves(rows).take(i + 1)) <= media_ids(rows).len(),
        media_ids(rows)[room(shelves(rows).take(i)) + j] == rows[i].1@[j].id,
    decreases rows.len(),
{
    let rest = rows.drop_last();
    lemma_media_ids_fill(rows);
    lemma_media_ids_fill(rest);
    assert(rows[i].1.len() == rows[i].1@.len());
    lemma_room_take(shelves(rows), i);
    lemma_room_grows(shelves(rows), i + 1);
    assert(shelves(rows).drop_last() =~= shelves(rest));
    if i < rest.len() {
        lemma_media_id_at(rest, i, j);
        assert(shelves(rows).take(i) =~= shelves(rest).take(i));
        assert(shelves(rows).take(i + 1) =~= shelves(rest).take(i + 1));
    } else {
        assert(shelves(rows).take(i) =~= shelves(rest));
    }
}

/// Law: all collections of a user are listed in the order in which they were found, each with
/// all of its media items in order, where every media item asked for was given as the
/// catalogue has it.
pub proof fn law_collections_are_listed(
    rows: Seq<(CollectionModel, Vec<MetadataModel>)>,
    catalogue: spec_fn(i32) -> GenericMetadata,
    listed: Seq<MediaSearchItem>,
    items: Seq<CollectionItem>,
)
    requires
        listed.len() == media_ids(rows).len(),
        forall|k: int|
            0 <= k < listed.len() ==> lists(#[trigger] listed[k], catalogue(media_ids(rows)[k])),
        filled(shelves(rows), listed, items),
    ensures
        items.len() == rows.len(),
        forall|i: int|
            0 <= i < rows.len() ==> {
                &&& (#[trigger] items[i]).collection_details == rows[i].0
                &&& items[i].media_details@.len() == rows[i].1@.len()
                &&& forall|j: int|
                    0 <= j < rows[i].1@.len() ==> lists(
                        #[trigger] items[i].media_details@[j],
                        catalogue(rows[i].1@[j].id),
                    )
            },
{
    assert forall|i: int| 0 <= i < rows.len() implies {
        &&& (#[trigger] items[i]).collection_details == rows[i].0
        &&& items[i].media_details@.len() == rows[i].1@.len()
        &&& forall|j: int|
            0 <= j < rows[i].1@.len() ==> lists(
                #[trigger] items[i].media_details@[j],
                catalogue(rows[i].1@[j].id),
            )
    } by {
        lemma_media_ids_fill(rows);
        assert(rows[i].1.len() == rows[i].1@.len());
        lemma_room_take(shelves(rows), i);
        lemma_room_grows(shelves(rows), i + 1);
        assert forall|j: int| 0 <= j < rows[i].1@.len() implies lists(
            #[trigger] items[i].media_details@[j],
            catalogue(rows[i].1@[j].id),
        ) by {
            lemma_media_id_at(rows, i, j);
            let k = room(shelves(rows).take(i)) + j;
            assert(items[i].media_details@[j] == listed[k]);
        }
    }
}

/// Law: creating a collection again gives the collection that was created first, and inserts
/// nothing.
pub proof fn law_create_collection_twice(
    create: CreateCollection,
    stored: CollectionModel,
    insert: InsertCollection,
)
    requires
        create.after(None) == Step::<InsertCollection, IdObject>::Do(insert),
    ensures
        create.after(Some(stored)) == Step::<InsertCollection, IdObject>::Done(
            insert.after(Ok(stored.id)),
        ),
        insert.name == create.name,
        insert.user_id == create.user_id,
{
}

/// Law: no default collection can be deleted by anybody, and the store is not even asked;
/// among them are those of media in progress and of custom media.
pub proof fn law_default_collections_stay(service: MiscService, user_id: i32, name: String)
    requires
        service.wf(),
    ensures
        service.defaults.has(name@) ==> service.deletion(user_id, name) == Step::<
            DeleteCollection,
            bool,
        >::Done(Err(Error::DefaultCollection)),
        service.deletion(user_id, service.defaults.in_progress) is Done,
        service.deletion(user_id, service.defaults.custom) is Done,
{
}

/// Law: taking a media item out of a collection undoes putting it there, where it was not
/// there before; putting it there where it is changes nothing, and neither does taking it out
/// where it is not.
pub proof fn law_remove_undoes_add(
    put: PutMediaIntoCollection,
    remove: RemoveMediaFromCollection,
    collection: CollectionModel,
    links: Set<(i32, i32)>,
)
    requires
        put.media_id.0 == remove.metadata_id,
    ensures
        ({
            let link = put.after(collection);
            let unlink = remove.after(collection);
            let there = links.contains((remove.metadata_id, collection.id));
            &&& !there ==> unlink.taken_out_of(link.put_into(links)) == links
            &&& !there ==> unlink.taken_out_of(links) == links
            &&& there ==> link.put_into(links) == links
        }),
{
    let link = put.after(collection);
    let unlink = remove.after(collection);
    if links.contains((remove.metadata_id, collection.id)) {
        assert(link.put_into(links) =~= links);
    } else {
        assert(unlink.taken_out_of(link.put_into(links)) =~= links);
        assert(unlink.taken_out_of(links) =~= links);
    }
}

/// The default collections of a user are created one after another, each with an answer from
/// the store: `tables` holds what its table was before the first collection, and what it was
/// after each.
pub open spec fn is_job(
    service: MiscService,
    user_id: i32,
    states: Seq<CreateDefaultCollections>,
    answers: Seq<Option<CollectionModel>>,
    taken: Seq<bool>,
    tables: Seq<Seq<CollectionModel>>,
) -> bool {
    &&& states.len() > 0
    &&& answers.len() == states.len()
    &&& taken.len() == states.len()
    &&& tables.len() == states.len() + 1
    &&& states[0].names@ == service.defaults.names@
    &&& states.last().names@.len() == 1
    &&& forall|i: int|
        0 <= i < states.len() ==> (#[trigger] states[i]).user_id == user_id
            && states[i].names@.len() > 0
    &&& forall|i: int|
        0 < i < states.len() ==> (#[trigger] states[i]).names@ == states[i - 1].names@.skip(1)
    &&& forall|i: int|
        0 <= i < states.len() ==> {
            let create = CreateCollection { name: (#[trigger] states[i]).names@[0], user_id };
            &&& create.is_answer(tables[i], answers[i])
            &&& create.leads_to(tables[i], answers[i], taken[i], tables[i + 1])
        }
}

/// In a job, the names have their turn in order.
proof fn lemma_job_goes_through_names(
    service: MiscService,
    user_id: i32,
    states: Seq<CreateDefaultCollections>,
    answers: Seq<Option<CollectionModel>>,
    taken: Seq<bool>,
    tables: Seq<Seq<CollectionModel>>,
)
    requires
        is_job(service, user_id, states, answers, taken, tables),
    ensures
        states.len() == service.defaults.names@.len(),
        forall|i: int|
            0 <= i < states.len() ==> (#[trigger] states[i]).names@[0] == service.defaults.names@[i],
{
    let lines = states.map_values(|state: CreateDefaultCollections| state.names@);
    assert forall|i: int| 0 < i < lines.len() implies #[trigger] lines[i] == lines[i - 1].skip(1) by {
        assert(lines[i] == states[i].names@);
    }
    crate::step::law_everything_has_its_turn(lines);
    assert forall|i: int| 0 <= i < states.len() implies (#[trigger] states[i]).names@[0]
        == service.defaults.names@[i] by {
        assert(lines[i] == states[i].names@);
    }
}

/// What holds after each collection of a job: the table has kept what it held, what was added
/// are default collections that the user did not have, none of them twice, and every name
/// that had its turn is there where it was found or the store took it.
proof fn lemma_job(
    service: MiscService,
    user_id: i32,
    states: Seq<CreateDefaultCollections>,
    answers: Seq<Option<CollectionModel>>,
    taken: Seq<bool>,
    tables: Seq<Seq<CollectionModel>>,
    i: int,
)
    requires
        is_job(service, user_id, states, answers, taken, tables),
        0 <= i <= states.len(),
    ensures
        tables[0].is_prefix_of(tables[i]),
        forall|k: int|
            tables[0].len() <= k < tables[i].len() ==> {
                &&& (#[trigger] tables[i][k]).user_id == user_id
                &&& service.defaults.has(tables[i][k].name@)
                &&& !owns(tables[0], user_id, tables[i][k].name@)
            },
        forall|name: Seq<char>|
            owns_at_most_one(tables[0], user_id, name) ==> #[trigger] owns_at_most_one(
                tables[i],
                user_id,
                name,
            ),
        forall|j: int|
            0 <= j < i && (answers[j] is Some || taken[j]) ==> owns(
                tables[i],
                user_id,
                (#[trigger] service.defaults.names@[j])@,
            ),
    decreases i,
{
    if i > 0 {
        lemma_job(service, user_id, states, answers, taken, tables, i - 1);
        lemma_job_goes_through_names(service, user_id, states, answers, taken, tables);
        let before = tables[i - 1];
        let after = tables[i];
        let name = states[i - 1].names@[0];
        let create = CreateCollection { name, user_id };
        assert(create.is_answer(tables[i - 1], answers[i - 1]));
        assert(create.leads_to(tables[i - 1], answers[i - 1], taken[i - 1], tables[i]));
        assert(name == service.defaults.names@[i - 1]);
        assert(service.defaults.has(name@));
        let added = answers[i - 1] is None && taken[i - 1];
        if added {
            assert(after =~= before.push(after.last()));
            assert(!owns(tables[0], user_id, name@)) by {
                if owns(tables[0], user_id, name@) {
                    let k = choose|k: int|
                        0 <= k < tables[0].len() && is_named(
                            #[trigger] tables[0][k],
                            user_id,
                            name@,
                        );
                    assert(is_named(before[k], user_id, name@));
                }
            }
            assert(is_named(after[before.len() as int], user_id, name@));
        } else {
            assert(after == before);
        }
        assert forall|k: int| 0 <= k < before.len() implies #[trigger] after[k] == before[k] by {}
        assert forall|n: Seq<char>| owns_at_most_one(tables[0], user_id, n) implies
            #[trigger] owns_at_most_one(after, user_id, n) by {
            assert(owns_at_most_one(before, user_id, n));
            if added {
                assert forall|k: int, l: int| 0 <= k < l < after.len() implies !(is_named(
                    #[trigger] after[k],
                    user_id,
                    n,
                ) && is_named(#[trigger] after[l], user_id, n)) by {
                    assert(after[k] == before[k]);
                    if l == before.len() && is_named(after[l], user_id, n) {
                        assert(!is_named(before[k], user_id, name@));
                    } else if l < before.len() {
                        assert(after[l] == before[l]);
                    }
                }
            }
        }
        assert forall|j: int| 0 <= j < i && (answers[j] is Some || taken[j]) implies owns(
            after,
            user_id,
            (#[trigger] service.defaults.names@[j])@,
        ) by {
            if j < i - 1 {
                assert(owns(before, user_id, service.defaults.names@[j]@));
                let k = choose|k: int|
                    0 <= k < before.len() && is_named(
                        #[trigger] before[k],
                        user_id,
                        service.defaults.names@[j]@,
                    );
                assert(is_named(after[k], user_id, service.defaults.names@[j]@));
            } else if !added {
                let collection = answers[i - 1]->0;
                let k = choose|k: int| 0 <= k < before.len() && before[k] == collection;
                assert(is_named(after[k], user_id, name@));
            }
        }
    }
}

/// Law: after the job for a new user, they have every default collection that was there or that
/// the store took, and none of these can be deleted. The table has kept all that it held, and only default
/// collections that the user did not have were added: the user has one of a name at most where
/// that was so before, and where they had them all, nothing has changed.
pub proof fn law_new_user_has_default_collections(
    service: MiscService,
    user_id: i32,
    states: Seq<CreateDefaultCollections>,
    answers: Seq<Option<CollectionModel>>,
    taken: Seq<bool>,
    tables: Seq<Seq<CollectionModel>>,
)
    requires
        is_job(service, user_id, states, answers, taken, tables),
    ensures
        states.len() == service.defaults.names@.len(),
        forall|i: int|
            0 <= i < service.defaults.names@.len() && (answers[i] is Some || taken[i]) ==> owns(
                tables.last(),
                user_id,
                (#[trigger] service.defaults.names@[i])@,
            ),
        forall|i: int|
            0 <= i < service.defaults.names@.len() ==> service.deletion(
                user_id,
                #[trigger] service.defaults.names@[i],
            ) is Done,
        tables[0].is_prefix_of(tables.last()),
        forall|k: int|
            tables[0].len() <= k < tables.last().len() ==> {
                &&& (#[trigger] tables.last()[k]).user_id == user_id
                &&& service.defaults.has(tables.last()[k].name@)
                &&& !owns(tables[0], user_id, tables.last()[k].name@)
            },
        forall|name: Seq<char>|
            owns_at_most_one(tables[0], user_id, name) ==> #[trigger] owns_at_most_one(
                tables.last(),
                user_id,
                name,
            ),
        (forall|i: int|
            0 <= i < service.defaults.names@.len() ==> owns(
                tables[0],
                user_id,
                (#[trigger] service.defaults.names@[i])@,
            )) ==> tables.last() == tables[0],
{
    let names = service.defaults.names@;
    lemma_job(service, user_id, states, answers, taken, tables, states.len() as int);
    lemma_job_goes_through_names(service, user_id, states, answers, taken, tables);
    assert forall|i: int| 0 <= i < names.len() implies service.deletion(
        user_id,
        #[trigger] names[i],
    ) is Done by {
        assert(names[i]@ == names[i]@);
    }
    if forall|i: int| 0 <= i < names.len() ==> owns(tables[0], user_id, (#[trigger] names[i])@) {
        let last = tables.last();
        if last.len() > tables[0].len() {
            let added = last[tables[0].len() as int];
            let i = choose|i: int| 0 <= i < names.len() && #[trigger] names[i]@ == added.name@;
            assert(owns(tables[0], user_id, names[i]@));
            assert(false);
        }
        assert(last =~= tables[0]);
    }
}

/// Law: where the store took every default collection that was not there, running the job once
/// more changes nothing.
pub proof fn law_second_job_changes_nothing(
    service: MiscService,
    user_id: i32,
    states: Seq<CreateDefaultCollections>,
    answers: Seq<Option<CollectionModel>>,
    taken: Seq<bool>,
    tables: Seq<Seq<CollectionModel>>,
    later_states: Seq<CreateDefaultCollections>,
    later_answers: Seq<Option<CollectionModel>>,
    later_taken: Seq<bool>,
    later_tables: Seq<Seq<CollectionModel>>,
)
    requires
        is_job(service, user_id, states, answers, taken, tables),
        forall|i: int| 0 <= i < taken.len() ==> answers[i] is Some || #[trigger] taken[i],
        is_job(service, user_id, later_states, later_answers, later_taken, later_tables),
        later_tables[0] == tables.last(),
    ensures
        later_tables.last() == tables.last(),
{
    law_new_user_has_default_collections(service, user_id, states, answers, taken, tables);
    law_new_user_has_default_collections(
        service,
        user_id,
        later_states,
        later_answers,
        later_taken,
        later_tables,
    );
    assert forall|i: int| 0 <= i < service.defaults.names@.len() implies owns(
        later_tables[0],
        user_id,
        (#[trigger] service.defaults.names@[i])@,
    ) by {
        assert(answers[i] is Some || taken[i]);
    }
}

/// Law: a listed media item is the one of the catalogue: its kind, title, posters and year as
/// they are, under its id in decimal.
pub proof fn law_listed_media_is_the_catalogues(item: MediaSearchItem, media: GenericMetadata)
    requires
        lists(item, media),
    ensures
        item.lot == media.model.lot,
        item.title == media.model.title,
        item.images == media.poster_images,
        item.publish_year == media.model.publish_year,
        ({
            let id = crate::decimal::decimal(media.model.id as int);
            &&& item.identifier@.len() == id.len()
            &&& forall|i: int|
                0 <= i < id.len() ==> (#[trigger] item.identifier@[i]) as u32 == id[i] as u32
        }),
{
    crate::decimal::law_ascii(crate::decimal::decimal(media.model.id as int));
}

/// Law: what creating a collection comes to: the id of one that the user has under that name,
/// or an insert in the name and for the user given, whose id is the outcome; why an insert
/// failed is not told.
pub proof fn law_creation_is_answered(
    create: CreateCollection,
    existing: CollectionModel,
    id: i32,
    error: Error,
)
    ensures
        create.after(Some(existing)) == Step::<InsertCollection, IdObject>::Done(
            Ok(IdObject { id: Identifier(existing.id) }),
        ),
        create.after(None) == Step::<InsertCollection, IdObject>::Do(
            InsertCollection { name: create.name, user_id: create.user_id },
        ),
        create.after(None) matches Step::Do(insert) && insert.after(Ok(id)) == Ok::<
            IdObject,
            Error,
        >(IdObject { id: Identifier(id) }) && insert.after(Err(error)) == Err::<IdObject, Error>(
            Error::CollectionNotCreated,
        ),
{
}

/// Law: a collection is looked for, to be deleted, under the name and for the user given, unless
/// the name is that of a default collection.
pub proof fn law_deletion_is_answered(service: MiscService, user_id: i32, name: String)
    ensures
        ({
            let default = exists|i: int|
                0 <= i < service.defaults.names@.len() && #[trigger] service.defaults.names@[i]@
                    == name@;
            &&& default ==> service.deletion(user_id, name) == Step::<DeleteCollection, bool>::Done(
                Err(Error::DefaultCollection),
            )
            &&& !default ==> service.deletion(user_id, name) == Step::<DeleteCollection, bool>::Do(
                DeleteCollection { name, user_id },
            )
        }),
{
    crate::service::law_default_names(service.defaults, name@);
}

/// Law: a media item is put into, and taken out of, the collection that was found, and it is
/// the media item that was given.
pub proof fn law_links_join_what_was_given(
    put: PutMediaIntoCollection,
    remove: RemoveMediaFromCollection,
    collection: CollectionModel,
)
    ensures
        put.after(collection).metadata_id == put.media_id.0,
        put.after(collection).collection_id == collection.id,
        remove.after(collection).metadata_id == remove.metadata_id,
        remove.after(collection).collection_id == collection.id,
{
}

} // verus!
