//! What can go wrong, in words that a user may read.
use vstd::prelude::*;

verus! {

/// Why a request was turned down or could not be carried out.
#[derive(Debug, PartialEq, Eq)]
pub enum Error {
    /// The review was written by somebody else.
    ReviewNotOwned,
    /// The store did not take a new collection.
    CollectionNotCreated,
    /// The collection is one that every user has.
    DefaultCollection,
    /// The entry of the history belongs to somebody else.
    SeenItemNotOwned,
    /// There is no such entry of the history.
    SeenItemMissing,
    /// Outside work failed, with the message that it gave.
    Outside(String),
}

impl Error {
    /// The words for the error.
    pub open spec fn words(self) -> Seq<char> {
        match self {
            Error::ReviewNotOwned => "This review does not belong to you"@,
            Error::CollectionNotCreated => "There was an error creating the collection"@,
            Error::DefaultCollection => "Can not delete a default collection"@,
            Error::SeenItemNotOwned => "This seen item does not belong to this user"@,
            Error::SeenItemMissing => "This seen item does not exist"@,
            Error::Outside(message) => message@,
        }
    }

    pub fn message(&self) -> (message: String)
        ensures
            message@ == self.words(),
    {
        match self {
            Error::ReviewNotOwned => "This review does not belong to you".to_owned(),
            Error::CollectionNotCreated => "There was an error creating the collection".to_owned(),
            Error::DefaultCollection => "Can not delete a default collection".to_owned(),
            Error::SeenItemNotOwned => "This seen item does not belong to this user".to_owned(),
            Error::SeenItemMissing => "This seen item does not exist".to_owned(),
            Error::Outside(message) => message.clone(),
        }
    }
}

/// Law: an error from outside is told in its own words, and each error of this crate in words
/// that say what happened.
pub proof fn law_errors_speak_for_themselves(message: String)
    ensures
        Error::Outside(message).words() == message@,
        Error::ReviewNotOwned.words() == "This review does not belong to you"@,
        Error::CollectionNotCreated.words() == "There was an error creating the collection"@,
        Error::DefaultCollection.words() == "Can not delete a default collection"@,
        Error::SeenItemNotOwned.words() == "This seen item does not belong to this user"@,
        Error::SeenItemMissing.words() == "This seen item does not exist"@,
{
}

} // verus!
