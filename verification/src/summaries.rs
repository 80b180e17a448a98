//! Stored summaries of what users have consumed.
use vstd::prelude::*;

use crate::clock::Timestamp;
use crate::error::Error;
use crate::service::MiscService;
use crate::step::{Queue, Step};
use crate::store::{IdObject, Identifier, SummaryModel, UserModel};
use crate::summary::{summarize, SeenItem, UserSummary};

verus! {

/// Waits for all summaries of the user.
#[derive(Debug, PartialEq, Eq)]
pub struct CleanupSummaries {
    pub user_id: i32,
}

impl CleanupSummaries {
    pub fn found(self, summaries: Vec<SummaryModel>) -> (next: Step<RemoveSummaries, ()>)
        ensures
            match next {
                Step::Do(remove) => remove.summaries@ == summaries@ && summaries@.len() > 0,
                Step::Done(outcome) => summaries@.len() == 0 && outcome is Ok,
            },
    {
        match Queue::line_up(summaries) {
            Some(summaries) => Step::Do(RemoveSummaries { summaries }),
            None => Step::Done(Ok(())),
        }
    }
}

/// Waits for the first of these summaries to be removed.
#[derive(Debug, PartialEq, Eq)]
pub struct RemoveSummaries {
    pub summaries: Queue<SummaryModel>,
}

impl RemoveSummaries {
    /// The summary whose turn it is.
    pub fn summary_id(&self) -> (id: i32)
        ensures
            self.summaries@.len() > 0,
            id == self.summaries@[0].id,
    {
        self.summaries.current().id
    }

    /// Goes on to the next summary, whether this one could be removed or not.
    pub fn removed(self, removal: Result<(), Error>) -> (next: Step<Self, ()>)
        ensures
            match next {
                Step::Do(rest) => rest.summaries@ == self.summaries@.skip(1)
                    && rest.summaries@.len() > 0,
                Step::Done(outcome) => self.summaries@.len() == 1 && outcome is Ok,
            },
    {
        match self.summaries.advance() {
            Some(summaries) => Step::Do(RemoveSummaries { summaries }),
            None => Step::Done(Ok(())),
        }
    }
}

/// What stands for the summary of a user who has none.
pub open spec fn no_summary() -> SummaryModel {
    SummaryModel {
        id: 0,
        created_on: Timestamp { secs: 0, nanos: 0 },
        user_id: 0,
        data: crate::summary::nothing(),
    }
}

impl Default for SummaryModel {
    fn default() -> (summary: Self)
        ensures
            summary == no_summary(),
    {
        SummaryModel {
            id: 0,
            created_on: Timestamp { secs: 0, nanos: 0 },
            user_id: 0,
            data: UserSummary::default(),
        }
    }
}

/// Waits for the summary of the user that was created last, if there is one.
#[derive(Debug, PartialEq, Eq)]
pub struct LatestSummary {
    pub user_id: i32,
}

impl LatestSummary {
    /// The summary, or an empty one.
    pub open spec fn after(self, latest: Option<SummaryModel>) -> SummaryModel {
        match latest {
            Some(summary) => summary,
            None => no_summary(),
        }
    }

    pub fn found(self, latest: Option<SummaryModel>) -> (outcome: Result<SummaryModel, Error>)
        ensures
            outcome == Ok::<SummaryModel, Error>(self.after(latest)),
    {
        match latest {
            Some(summary) => Ok(summary),
            None => Ok(SummaryModel::default()),
        }
    }
}

/// Waits for the summary of the user that was created last, if there is one.
#[derive(Debug, PartialEq, Eq)]
pub struct GetUserSummary {
    pub latest: LatestSummary,
}

impl GetUserSummary {
    /// The figures of the summary.
    pub fn found(self, latest: Option<SummaryModel>) -> (outcome: Result<UserSummary, Error>)
        ensures
            outcome == Ok::<UserSummary, Error>(self.latest.after(latest).data),
    {
        match self.latest.found(latest) {
            Ok(summary) => Ok(summary.data),
            Err(error) => Err(error),
        }
    }
}

/// The entries that were found, in order.
pub open spec fn entries(items: Result<Vec<SeenItem>, Error>) -> Result<Seq<SeenItem>, Error> {
    match items {
        Ok(items) => Ok(items@),
        Err(error) => Err(error),
    }
}

/// Waits for everything that the user has finished: the entries of their history with full
/// progress, each with its media item.
#[derive(Debug, PartialEq, Eq)]
pub struct CalculateSummary {
    pub user_id: i32,
    pub progress: i32,
}

impl CalculateSummary {
    /// What follows once the entries are found: inserting their summary.
    pub open spec fn goes_on(
        self,
        next: Step<InsertSummary, IdObject>,
        items: Result<Seq<SeenItem>, Error>,
    ) -> bool {
        match items {
            Ok(items) => next matches Step::Do(insert) && insert.user_id == self.user_id
                && crate::summary::is_summary(items, insert.data),
            Err(error) => next == Step::<InsertSummary, IdObject>::Done(Err(error)),
        }
    }

    /// Goes on with the summary of the entries.
    pub fn found(self, items: Result<Vec<SeenItem>, Error>) -> (next: Step<InsertSummary, IdObject>)
        requires
            items matches Ok(items) ==> crate::summary::summarizable(items@),
        ensures
            self.goes_on(next, entries(items)),
    {
        match items {
            Ok(items) => {
                let data: UserSummary = summarize(&items).unwrap();
                Step::Do(InsertSummary { user_id: self.user_id, data })
            },
            Err(error) => Step::Done(Err(error)),
        }
    }

    /// Goes on with the summary of the entries where they can be summarized, and gives nothing
    /// otherwise.
    pub fn try_found(self, items: Result<Vec<SeenItem>, Error>) -> (next: Option<
        Step<InsertSummary, IdObject>,
    >)
        ensures
            next is Some <==> (items matches Ok(items) ==> crate::summary::summarizable(items@)),
            next matches Some(next) ==> self.goes_on(next, entries(items)),
    {
        match items {
            Ok(items) => match summarize(&items) {
                Some(data) => Some(Step::Do(InsertSummary { user_id: self.user_id, data })),
                None => None,
            },
            Err(error) => Some(Step::Done(Err(error))),
        }
    }
}

/// Waits for a summary with these figures to be inserted for the user.
#[derive(Debug, PartialEq, Eq)]
pub struct InsertSummary {
    pub user_id: i32,
    pub data: UserSummary,
}

impl InsertSummary {
    pub fn inserted(self, summary_id: i32) -> (outcome: Result<IdObject, Error>)
        ensures
            outcome == Ok::<IdObject, Error>(IdObject { id: Identifier(summary_id) }),
    {
        Ok(IdObject { id: Identifier(summary_id) })
    }
}

/// Waits for all users.
#[derive(Debug, PartialEq, Eq)]
pub struct RegenerateSummaries {}

impl RegenerateSummaries {
    pub fn found(self, users: Vec<UserModel>) -> (next: Step<CalculateSummaries, ()>)
        ensures
            match next {
                Step::Do(calculate) => calculate.users@ == users@ && users@.len() > 0,
                Step::Done(outcome) => users@.len() == 0 && outcome is Ok,
            },
    {
        match Queue::line_up(users) {
            Some(users) => Step::Do(CalculateSummaries { users }),
            None => Step::Done(Ok(())),
        }
    }
}

/// Waits for the summary of the first of these users to be calculated.
#[derive(Debug, PartialEq, Eq)]
pub struct CalculateSummaries {
    pub users: Queue<UserModel>,
}

impl CalculateSummaries {
    /// The calculation for the user whose turn it is.
    pub fn current(&self) -> (calculate: CalculateSummary)
        ensures
            self.users@.len() > 0,
            calculate == (CalculateSummary {
                user_id: self.users@[0].id,
                progress: crate::history::FINISHED,
            }),
    {
        CalculateSummary { user_id: self.users.current().id, progress: crate::history::FINISHED }
    }

    /// Goes on to the next user; an error ends it all.
    pub fn calculated(self, outcome: Result<IdObject, Error>) -> (next: Step<Self, ()>)
        ensures
            match outcome {
                Ok(_) => match next {
                    Step::Do(rest) => rest.users@ == self.users@.skip(1) && rest.users@.len() > 0,
                    Step::Done(done) => self.users@.len() == 1 && done is Ok,
                },
                Err(error) => next == Step::<Self, ()>::Done(Err(error)),
            },
    {
        match outcome {
            Ok(_) => match self.users.advance() {
                Some(users) => Step::Do(CalculateSummaries { users }),
                None => Step::Done(Ok(())),
            },
            Err(error) => Step::Done(Err(error)),
        }
    }
}

/// Waits for the user's summaries to be cleaned up.
#[derive(Debug, PartialEq, Eq)]
pub struct RegenerateSummary {
    pub cleanup: CleanupSummaries,
}

impl RegenerateSummary {
    /// A new summary is calculated only after the clean-up.
    pub fn cleaned(self, outcome: Result<(), Error>) -> (next: Step<DeploySummaryJob, bool>)
        ensures
            next == (match outcome {
                Ok(_) => Step::<DeploySummaryJob, bool>::Do(
                    DeploySummaryJob { user_id: self.cleanup.user_id },
                ),
                Err(error) => Step::Done(Err(error)),
            }),
    {
        match outcome {
            Ok(_) => Step::Do(DeploySummaryJob { user_id: self.cleanup.user_id }),
            Err(error) => Step::Done(Err(error)),
        }
    }
}

/// Waits for the job that calculates the user's summary to be deployed.
#[derive(Debug, PartialEq, Eq)]
pub struct DeploySummaryJob {
    pub user_id: i32,
}

impl DeploySummaryJob {
    pub fn deployed(self, deployment: Result<(), Error>) -> (outcome: Result<bool, Error>)
        ensures
            outcome == (match deployment {
                Ok(_) => Ok(true),
                Err(error) => Err(error),
            }),
    {
        match deployment {
            Ok(_) => Ok(true),
            Err(error) => Err(error),
        }
    }
}

impl MiscService {
    /// Delete all summaries of a user.
    pub fn cleanup_summaries_for_user(&self, user_id: i32) -> (next: CleanupSummaries)
        ensures
            next == (CleanupSummaries { user_id }),
    {
        CleanupSummaries { user_id }
    }

    /// Get the latest summary of a user.
    pub fn latest_user_summary(&self, user_id: i32) -> (next: LatestSummary)
        ensures
            next == (LatestSummary { user_id }),
    {
        LatestSummary { user_id }
    }

    /// Get a summary of all the media items that have been consumed by a user.
    pub fn user_summary(&self, user_id: i32) -> (next: GetUserSummary)
        ensures
            next == (GetUserSummary { latest: LatestSummary { user_id } }),
    {
        GetUserSummary { latest: self.latest_user_summary(user_id) }
    }

    /// Calculate a summary of all the media items that have been consumed by a user.
    pub fn calculate_user_summary(&self, user_id: i32) -> (next: CalculateSummary)
        ensures
            next == (CalculateSummary { user_id, progress: crate::history::FINISHED }),
    {
        CalculateSummary { user_id, progress: crate::history::FINISHED }
    }

    /// Calculate a new summary for every user.
    pub fn regenerate_user_summaries(&self) -> (next: RegenerateSummaries)
        ensures
            next == (RegenerateSummaries {  }),
    {
        RegenerateSummaries {  }
    }

    /// Delete all summaries of a user and then generate one from scratch.
    pub fn regenerate_user_summary(&self, user_id: i32) -> (next: RegenerateSummary)
        ensures
            next == (RegenerateSummary { cleanup: CleanupSummaries { user_id } }),
    {
        RegenerateSummary { cleanup: self.cleanup_summaries_for_user(user_id) }
    }
}

/// Law: a user who has no summary is shown one in which nothing was consumed, which is also
/// what is calculated for somebody who has finished nothing.
pub proof fn law_no_summary_shows_nothing(latest: LatestSummary, data: UserSummary)
    requires
        crate::summary::is_summary(Seq::empty(), data),
    ensures
        latest.after(None).data == crate::summary::nothing(),
        latest.after(None).data == data,
{
    crate::summary::law_nothing_seen(data);
}

/// Law: what is shown to a user is the summary that the store gives as their latest.
pub proof fn law_latest_summary_is_shown(latest: LatestSummary, stored: SummaryModel)
    ensures
        latest.after(Some(stored)) == stored,
{
}

/// Law: what a user is shown who has no summary is a row of zeros.
pub proof fn law_missing_summary_is_zero(latest: LatestSummary)
    ensures
        ({
            let row = latest.after(None);
            &&& row.id == 0
            &&& row.user_id == 0
            &&& row.created_on.secs == 0 && row.created_on.nanos == 0
            &&& row.data.books.pages == 0 && row.data.books.read == 0
            &&& row.data.movies.runtime == 0 && row.data.movies.watched == 0
            &&& row.data.podcasts.runtime == 0 && row.data.podcasts.played == 0
                && row.data.podcasts.played_episodes == 0
            &&& row.data.shows.runtime == 0 && row.data.shows.watched == 0
                && row.data.shows.watched_episodes == 0 && row.data.shows.watched_seasons == 0
            &&& row.data.video_games.played == 0
            &&& row.data.audio_books.runtime == 0 && row.data.audio_books.played == 0
        }),
{
}

/// Law: what is inserted for a user is the summary of all entries that were found, in the
/// user's own name; where the entries could not be had, nothing is inserted and the error is
/// the outcome.
pub proof fn law_calculated_summary_is_inserted(
    calculate: CalculateSummary,
    next: Step<InsertSummary, IdObject>,
    items: Result<Vec<SeenItem>, Error>,
)
    requires
        calculate.goes_on(next, entries(items)),
    ensures
        match items {
            Ok(items) => next matches Step::Do(insert) && insert.user_id == calculate.user_id
                && crate::summary::is_summary(items@, insert.data),
            Err(error) => next == Step::<InsertSummary, IdObject>::Done(Err(error)),
        },
{
}

} // verus!
