//! What the database holds, and changes that are to be made to it.
use vstd::prelude::*;

use crate::clock::Timestamp;
use crate::media::SeenExtraInformation;
use crate::summary::UserSummary;

verus! {

/// A `rust_decimal::Decimal`, carried through as it is.
#[verifier::external_type_specification]
#[verifier::external_body]
pub struct ExDecimal(rust_decimal::Decimal);

/// The id of a stored thing, as it is shown outside.
#[derive(Debug, Clone, Copy, PartialEq, Eq)]
pub struct Identifier(pub i32);

/// An id, as the outcome of an operation.
#[derive(Debug, Clone, Copy, PartialEq, Eq)]
pub struct IdObject {
    pub id: Identifier,
}

/// A name, as the input of an operation.
#[derive(Debug, PartialEq, Eq)]
pub struct NamedObject {
    pub name: String,
}

/// A column of a row that is to be written.
#[derive(Debug, PartialEq, Eq)]
pub enum ActiveValue<T> {
    /// The column is given this value.
    Write(T),
    /// The column holds this value and keeps it.
    Unchanged(T),
    /// The column is left to the database.
    NotSet,
}

impl<T> ActiveValue<T> {
    /// What the column holds once the row is written, where it held `before`.
    pub open spec fn written(self, before: T) -> T {
        match self {
            ActiveValue::Write(value) => value,
            _ => before,
        }
    }
}

#[derive(Debug, Clone, Copy, PartialEq, Eq, Structural)]
pub enum ReviewVisibility {
    Public,
    Private,
}

#[derive(Debug, Clone, Copy, PartialEq, Eq, Structural)]
pub enum UserLot {
    Admin,
    Normal,
}

/// A stored review.
#[derive(Debug, PartialEq)]
pub struct ReviewModel {
    pub id: i32,
    pub posted_on: Timestamp,
    pub rating: Option<rust_decimal::Decimal>,
    pub text: Option<String>,
    pub visibility: ReviewVisibility,
    pub spoiler: bool,
    pub user_id: i32,
    pub metadata_id: i32,
    pub extra_information: Option<SeenExtraInformation>,
    pub identifier: Option<String>,
}

/// A review that is to be written.
#[derive(Debug, PartialEq)]
pub struct ReviewActiveModel {
    pub id: ActiveValue<i32>,
    pub posted_on: ActiveValue<Timestamp>,
    pub rating: ActiveValue<Option<rust_decimal::Decimal>>,
    pub text: ActiveValue<Option<String>>,
    pub visibility: ActiveValue<ReviewVisibility>,
    pub spoiler: ActiveValue<bool>,
    pub user_id: ActiveValue<i32>,
    pub metadata_id: ActiveValue<i32>,
    pub extra_information: ActiveValue<Option<SeenExtraInformation>>,
    pub identifier: ActiveValue<Option<String>>,
}

impl ReviewActiveModel {
    /// The stored review once the change is written.
    pub open spec fn written(self, before: ReviewModel) -> ReviewModel {
        ReviewModel {
            id: self.id.written(before.id),
            posted_on: self.posted_on.written(before.posted_on),
            rating: self.rating.written(before.rating),
            text: self.text.written(before.text),
            visibility: self.visibility.written(before.visibility),
            spoiler: self.spoiler.written(before.spoiler),
            user_id: self.user_id.written(before.user_id),
            metadata_id: self.metadata_id.written(before.metadata_id),
            extra_information: self.extra_information.written(before.extra_information),
            identifier: self.identifier.written(before.identifier),
        }
    }
}

/// A stored user.
#[derive(Debug, PartialEq, Eq)]
pub struct UserModel {
    pub id: i32,
    pub name: String,
    pub email: Option<String>,
    pub password: String,
    pub lot: UserLot,
}

/// A user who is to be written.
#[derive(Debug, PartialEq, Eq)]
pub struct UserActiveModel {
    pub id: ActiveValue<i32>,
    pub name: ActiveValue<String>,
    pub email: ActiveValue<Option<String>>,
    pub password: ActiveValue<String>,
    pub lot: ActiveValue<UserLot>,
}

impl UserActiveModel {
    /// The stored user once the change is written.
    pub open spec fn written(self, before: UserModel) -> UserModel {
        UserModel {
            id: self.id.written(before.id),
            name: self.name.written(before.name),
            email: self.email.written(before.email),
            password: self.password.written(before.password),
            lot: self.lot.written(before.lot),
        }
    }
}

/// A stored collection.
#[derive(Debug, PartialEq, Eq)]
pub struct CollectionModel {
    pub id: i32,
    pub name: String,
    pub user_id: i32,
}

/// A stored link: the user did something with the media item.
#[derive(Debug, Clone, Copy, PartialEq, Eq)]
pub struct UserToMetadataModel {
    pub user_id: i32,
    pub metadata_id: i32,
}

/// A stored summary.
#[derive(Debug, Clone, Copy, PartialEq, Eq)]
pub struct SummaryModel {
    pub id: i32,
    pub created_on: Timestamp,
    pub user_id: i32,
    pub data: UserSummary,
}

/// A stored report on an import from a source `S`, with details `D` once it has finished.
#[derive(Debug, PartialEq, Eq)]
pub struct ImportReportModel<S, D> {
    pub id: i32,
    pub user_id: i32,
    pub source: S,
    pub finished_on: Option<Timestamp>,
    pub details: Option<D>,
    pub success: Option<bool>,
}

/// A report on an import that is to be written.
#[derive(Debug, PartialEq, Eq)]
pub struct ImportReportActiveModel<S, D> {
    pub id: ActiveValue<i32>,
    pub user_id: ActiveValue<i32>,
    pub source: ActiveValue<S>,
    pub finished_on: ActiveValue<Option<Timestamp>>,
    pub details: ActiveValue<Option<D>>,
    pub success: ActiveValue<Option<bool>>,
}

impl<S, D> ImportReportActiveModel<S, D> {
    /// The stored report once the change is written.
    pub open spec fn written(self, before: ImportReportModel<S, D>) -> ImportReportModel<S, D> {
        ImportReportModel {
            id: self.id.written(before.id),
            user_id: self.user_id.written(before.user_id),
            source: self.source.written(before.source),
            finished_on: self.finished_on.written(before.finished_on),
            details: self.details.written(before.details),
            success: self.success.written(before.success),
        }
    }
}

} // verus!
