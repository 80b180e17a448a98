//! A user's history of seen media items.
use vstd::prelude::*;

use crate::collections::RemoveMediaFromCollection;
use crate::error::Error;
use crate::media::SeenModel;
use crate::service::MiscService;
use crate::step::Step;
use crate::store::{IdObject, Identifier};

verus! {

/// The progress of somebody who has finished a media item.
pub const FINISHED: i32 = 100;

/// Waits for the entry of the history with this id, if there is one.
#[derive(Debug, PartialEq, Eq)]
pub struct DeleteSeenItem {
    pub seen_id: i32,
    pub user_id: i32,
    /// The collection that unfinished media items are in.
    pub in_progress: String,
}

impl DeleteSeenItem {
    /// Only an entry of the user's own history is removed.
    pub open spec fn after(self, seen: Option<SeenModel>) -> Step<RemoveSeenItem, IdObject> {
        match seen {
            Some(seen) => if seen.user_id == self.user_id {
                Step::Do(RemoveSeenItem { seen, in_progress: self.in_progress })
            } else {
                Step::Done(Err(Error::SeenItemNotOwned))
            },
            None => Step::Done(Err(Error::SeenItemMissing)),
        }
    }

    pub fn found(self, seen: Option<SeenModel>) -> (next: Step<RemoveSeenItem, IdObject>)
        ensures
            next == self.after(seen),
    {
        match seen {
            Some(seen) => {
                if seen.user_id != self.user_id {
                    return Step::Done(Err(Error::SeenItemNotOwned));
                }
                Step::Do(RemoveSeenItem { seen, in_progress: self.in_progress })
            },
            None => Step::Done(Err(Error::SeenItemMissing)),
        }
    }
}

/// Waits for the entry to be removed from the history.
#[derive(Debug, PartialEq, Eq)]
pub struct RemoveSeenItem {
    pub seen: SeenModel,
    pub in_progress: String,
}

impl RemoveSeenItem {
    /// A media item that was not finished is no longer in progress, whether the entry could
    /// be removed or not.
    pub open spec fn after(self) -> Step<LeaveInProgress, IdObject> {
        if self.seen.progress < FINISHED {
            Step::Do(
                LeaveInProgress {
                    remove: RemoveMediaFromCollection {
                        collection_name: self.in_progress,
                        user_id: self.seen.user_id,
                        metadata_id: self.seen.metadata_id,
                    },
                    seen_id: self.seen.id,
                },
            )
        } else {
            Step::Done(Ok(IdObject { id: Identifier(self.seen.id) }))
        }
    }

    pub fn removed(self, removal: Result<(), Error>) -> (next: Step<LeaveInProgress, IdObject>)
        ensures
            next == self.after(),
    {
        if self.seen.progress < FINISHED {
            return Step::Do(
                LeaveInProgress {
                    remove: RemoveMediaFromCollection {
                        collection_name: self.in_progress,
                        user_id: self.seen.user_id,
                        metadata_id: self.seen.metadata_id,
                    },
                    seen_id: self.seen.id,
                },
            );
        }
        Step::Done(Ok(IdObject { id: Identifier(self.seen.id) }))
    }
}

/// Waits for the media item to be taken out of the collection of those in progress.
#[derive(Debug, PartialEq, Eq)]
pub struct LeaveInProgress {
    pub remove: RemoveMediaFromCollection,
    pub seen_id: i32,
}

impl LeaveInProgress {
    /// The entry, whatever became of the collection.
    pub fn left(self, outcome: Result<IdObject, Error>) -> (result: Result<IdObject, Error>)
        ensures
            result == Ok::<IdObject, Error>(IdObject { id: Identifier(self.seen_id) }),
    {
        Ok(IdObject { id: Identifier(self.seen_id) })
    }
}

impl MiscService {
    /// What deleting an entry of the history begins with.
    pub open spec fn seen_deletion(self, seen_id: i32, user_id: i32) -> DeleteSeenItem {
        DeleteSeenItem { seen_id, user_id, in_progress: self.defaults.in_progress }
    }

    /// Delete a seen item from a user's history.
    pub fn delete_seen_item(&self, seen_id: i32, user_id: i32) -> (next: DeleteSeenItem)
        ensures
            next == self.seen_deletion(seen_id, user_id),
    {
        DeleteSeenItem { seen_id, user_id, in_progress: self.defaults.in_progress.clone() }
    }
}

/// Law: an entry is removed exactly if it is in the user's own history. Then its media item
/// leaves the user's collection of those in progress exactly if it was not finished.
pub proof fn law_unfinished_item_leaves_in_progress(
    service: MiscService,
    user_id: i32,
    seen: SeenModel,
)
    ensures
        ({
            let next = service.seen_deletion(seen.id, user_id).after(Some(seen));
            &&& next is Do <==> seen.user_id == user_id
            &&& next matches Step::Do(remove) ==> {
                &&& remove.seen == seen
                &&& remove.after() is Do <==> seen.progress < 100
                &&& remove.after() matches Step::Do(leave) ==> {
                    &&& leave.seen_id == seen.id
                    &&& leave.remove.user_id == user_id
                    &&& leave.remove.metadata_id == seen.metadata_id
                    &&& leave.remove.collection_name == service.defaults.in_progress
                }
            }
        }),
{
}

/// Law: what is done about an entry of the history, and what is answered: an entry that is not
/// there and one of somebody else are left alone, and the user is told which it was.
pub proof fn law_seen_deletion_is_answered(
    service: MiscService,
    seen_id: i32,
    user_id: i32,
    seen: SeenModel,
)
    ensures
        ({
            let delete = service.seen_deletion(seen_id, user_id);
            &&& delete.seen_id == seen_id
            &&& delete.user_id == user_id
            &&& delete.in_progress == service.defaults.in_progress
            &&& delete.after(None) == Step::<RemoveSeenItem, IdObject>::Done(
                Err(Error::SeenItemMissing),
            )
            &&& seen.user_id != user_id ==> delete.after(Some(seen)) == Step::<
                RemoveSeenItem,
                IdObject,
            >::Done(Err(Error::SeenItemNotOwned))
            &&& seen.user_id == user_id ==> delete.after(Some(seen)) == Step::<
                RemoveSeenItem,
                IdObject,
            >::Do(RemoveSeenItem { seen, in_progress: service.defaults.in_progress })
        }),
{
}

/// Law: once an entry is removed, its media item leaves the collection of those in progress
/// where its progress is below a hundred; otherwise the entry is the outcome at once.
pub proof fn law_removed_entry_is_followed_up(remove: RemoveSeenItem)
    ensures
        remove.seen.progress < 100 ==> remove.after() == Step::<LeaveInProgress, IdObject>::Do(
            LeaveInProgress {
                remove: RemoveMediaFromCollection {
                    collection_name: remove.in_progress,
                    user_id: remove.seen.user_id,
                    metadata_id: remove.seen.metadata_id,
                },
                seen_id: remove.seen.id,
            },
        ),
        remove.seen.progress >= 100 ==> remove.after() == Step::<LeaveInProgress, IdObject>::Done(
            Ok(IdObject { id: Identifier(remove.seen.id) }),
        ),
{
}

} // verus!
