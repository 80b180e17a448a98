//! Keeping stored media items up to date with their catalogues.
use vstd::prelude::*;

use crate::error::Error;
use crate::media::{
    MediaDetails, MediaSpecifics, MetadataCreator, MetadataImage, MetadataLot, MetadataModel,
};
use crate::service::MiscService;
use crate::step::{Queue, Step};

verus! {

/// Waits for the details of a media item from its catalogue, by way of the service for its
/// kind.
#[derive(Debug, PartialEq, Eq)]
pub struct UpdateMetadata {
    pub metadata_id: i32,
    pub lot: MetadataLot,
}

impl UpdateMetadata {
    /// What the catalogue tells is taken over. Where it tells nothing, all stays as it is.
    pub open spec fn after(self, details: Result<MediaDetails, Error>) -> Step<UpdateMedia, ()> {
        match details {
            Ok(details) => Step::Do(
                UpdateMedia {
                    metadata_id: self.metadata_id,
                    title: details.title,
                    description: details.description,
                    images: details.images,
                    creators: details.creators,
                    specifics: details.specifics,
                    genres: details.genres,
                },
            ),
            Err(_) => Step::Done(Ok(())),
        }
    }

    pub fn fetched(self, details: Result<MediaDetails, Error>) -> (next: Step<UpdateMedia, ()>)
        ensures
            next == self.after(details),
    {
        match details {
            Ok(details) => Step::Do(
                UpdateMedia {
                    metadata_id: self.metadata_id,
                    title: details.title,
                    description: details.description,
                    images: details.images,
                    creators: details.creators,
                    specifics: details.specifics,
                    genres: details.genres,
                },
            ),
            Err(_) => Step::Done(Ok(())),
        }
    }
}

/// Waits for the stored media item to be given these details.
#[derive(Debug, PartialEq, Eq)]
pub struct UpdateMedia {
    pub metadata_id: i32,
    pub title: String,
    pub description: Option<String>,
    pub images: Vec<MetadataImage>,
    pub creators: Vec<MetadataCreator>,
    pub specifics: MediaSpecifics,
    pub genres: Vec<String>,
}

impl UpdateMedia {
    /// The update is over, whether the details were taken or not.
    pub fn updated(self, update: Result<(), Error>) -> (outcome: Result<(), Error>)
        ensures
            outcome == Ok::<(), Error>(()),
    {
        Ok(())
    }
}

/// Waits for all media items.
#[derive(Debug, PartialEq, Eq)]
pub struct UpdateAllMetadata {}

impl UpdateAllMetadata {
    pub fn found(self, metadatas: Vec<MetadataModel>) -> (next: Step<DeployUpdateJobs, bool>)
        ensures
            match next {
                Step::Do(deploy) => deploy.metadatas@ == metadatas@ && metadatas@.len() > 0,
                Step::Done(outcome) => metadatas@.len() == 0 && outcome == Ok::<bool, Error>(true),
            },
    {
        match Queue::line_up(metadatas) {
            Some(metadatas) => Step::Do(DeployUpdateJobs { metadatas }),
            None => Step::Done(Ok(true)),
        }
    }
}

/// Waits for the job that updates the first of these media items to be deployed.
#[derive(Debug, PartialEq, Eq)]
pub struct DeployUpdateJobs {
    pub metadatas: Queue<MetadataModel>,
}

impl DeployUpdateJobs {
    /// The media item whose turn it is.
    pub fn metadata_id(&self) -> (id: i32)
        ensures
            self.metadatas@.len() > 0,
            id == self.metadatas@[0].id,
    {
        self.metadatas.current().id
    }

    /// Goes on to the next media item; an error ends it all.
    pub fn deployed(self, deployment: Result<(), Error>) -> (next: Step<Self, bool>)
        ensures
            match deployment {
                Ok(_) => match next {
                    Step::Do(rest) => rest.metadatas@ == self.metadatas@.skip(1)
                        && rest.metadatas@.len() > 0,
                    Step::Done(outcome) => self.metadatas@.len() == 1 && outcome == Ok::<
                        bool,
                        Error,
                    >(true),
                },
                Err(error) => next == Step::<Self, bool>::Done(Err(error)),
            },
    {
        match deployment {
            Ok(_) => match self.metadatas.advance() {
                Some(metadatas) => Step::Do(DeployUpdateJobs { metadatas }),
                None => Step::Done(Ok(true)),
            },
            Err(error) => Step::Done(Err(error)),
        }
    }
}

impl MiscService {
    /// Update a media item's metadata.
    pub fn update_metadata(&self, metadata: &MetadataModel) -> (next: UpdateMetadata)
        ensures
            next == (UpdateMetadata { metadata_id: metadata.id, lot: metadata.lot }),
    {
        UpdateMetadata { metadata_id: metadata.id, lot: metadata.lot }
    }

    /// Deploy jobs to update all media item's metadata.
    pub fn update_all_metadata(&self) -> (next: UpdateAllMetadata)
        ensures
            next == (UpdateAllMetadata {  }),
    {
        UpdateAllMetadata {  }
    }
}

/// Law: updating a media item fails in no case, and touches no other media item.
pub proof fn law_update_metadata_never_fails(
    update: UpdateMetadata,
    details: Result<MediaDetails, Error>,
)
    ensures
        match update.after(details) {
            Step::Do(media) => details is Ok && media.metadata_id == update.metadata_id,
            Step::Done(outcome) => details is Err && outcome is Ok,
        },
{
}

/// Law: all that the catalogue tells is taken over as it is told, for the media item that was
/// asked about; where the catalogue fails, nothing is written and nobody is told.
pub proof fn law_details_are_taken_over(
    update: UpdateMetadata,
    details: MediaDetails,
    error: Error,
)
    ensures
        update.after(Ok(details)) == Step::<UpdateMedia, ()>::Do(
            UpdateMedia {
                metadata_id: update.metadata_id,
                title: details.title,
                description: details.description,
                images: details.images,
                creators: details.creators,
                specifics: details.specifics,
                genres: details.genres,
            },
        ),
        update.after(Err(error)) == Step::<UpdateMedia, ()>::Done(Ok(())),
{
}

} // verus!
