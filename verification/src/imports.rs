//! Reports on imports from other services.
use vstd::prelude::*;

use crate::clock::{now, Timestamp};
use crate::error::Error;
use crate::service::MiscService;
use crate::store::{ActiveValue, ImportReportActiveModel, ImportReportModel};

verus! {

/// Waits for the report on a new import to be inserted.
#[derive(Debug, PartialEq, Eq)]
pub struct StartImportJob<S, D> {
    pub report: ImportReportActiveModel<S, D>,
}

impl<S, D> StartImportJob<S, D> {
    pub fn inserted(self, report: ImportReportModel<S, D>) -> (outcome: Result<
        ImportReportModel<S, D>,
        Error,
    >)
        ensures
            outcome == Ok::<ImportReportModel<S, D>, Error>(report),
    {
        Ok(report)
    }
}

/// Waits for the report on a finished import to be updated.
#[derive(Debug, PartialEq, Eq)]
pub struct FinishImportJob<S, D> {
    pub report: ImportReportActiveModel<S, D>,
}

impl<S, D> FinishImportJob<S, D> {
    pub fn updated(self, report: ImportReportModel<S, D>) -> (outcome: Result<
        ImportReportModel<S, D>,
        Error,
    >)
        ensures
            outcome == Ok::<ImportReportModel<S, D>, Error>(report),
    {
        Ok(report)
    }
}

/// Waits for all reports on the user's imports.
#[derive(Debug, PartialEq, Eq)]
pub struct MediaImportReports {
    pub user_id: i32,
}

impl MediaImportReports {
    pub fn found<S, D>(self, reports: Vec<ImportReportModel<S, D>>) -> (outcome: Result<
        Vec<ImportReportModel<S, D>>,
        Error,
    >)
        ensures
            outcome == Ok::<Vec<ImportReportModel<S, D>>, Error>(reports),
    {
        Ok(reports)
    }
}

/// The report on an import that a user begins.
pub open spec fn begun<S, D>(user_id: i32, source: S) -> ImportReportActiveModel<S, D> {
    ImportReportActiveModel {
        id: ActiveValue::NotSet,
        user_id: ActiveValue::Write(user_id),
        source: ActiveValue::Write(source),
        finished_on: ActiveValue::NotSet,
        details: ActiveValue::NotSet,
        success: ActiveValue::NotSet,
    }
}

/// The report on an import that succeeded at a moment.
pub open spec fn finished<S, D>(
    job: ImportReportModel<S, D>,
    details: D,
    at: Timestamp,
) -> ImportReportActiveModel<S, D> {
    ImportReportActiveModel {
        id: ActiveValue::Unchanged(job.id),
        user_id: ActiveValue::Unchanged(job.user_id),
        source: ActiveValue::Unchanged(job.source),
        finished_on: ActiveValue::Write(Some(at)),
        details: ActiveValue::Write(Some(details)),
        success: ActiveValue::Write(Some(true)),
    }
}

impl MiscService {
    /// Note that an import has begun.
    pub fn start_import_job<S, D>(&self, user_id: i32, source: S) -> (next: StartImportJob<S, D>)
        ensures
            next.report == begun::<S, D>(user_id, source),
    {
        StartImportJob {
            report: ImportReportActiveModel {
                id: ActiveValue::NotSet,
                user_id: ActiveValue::Write(user_id),
                source: ActiveValue::Write(source),
                finished_on: ActiveValue::NotSet,
                details: ActiveValue::NotSet,
                success: ActiveValue::NotSet,
            },
        }
    }

    /// Note that an import has succeeded at a given moment.
    pub fn finish_import_job_at<S, D>(
        &self,
        job: ImportReportModel<S, D>,
        details: D,
        at: Timestamp,
    ) -> (next: FinishImportJob<S, D>)
        ensures
            next.report == finished(job, details, at),
    {
        FinishImportJob {
            report: ImportReportActiveModel {
                id: ActiveValue::Unchanged(job.id),
                user_id: ActiveValue::Unchanged(job.user_id),
                source: ActiveValue::Unchanged(job.source),
                finished_on: ActiveValue::Write(Some(at)),
                details: ActiveValue::Write(Some(details)),
                success: ActiveValue::Write(Some(true)),
            },
        }
    }

    /// Note that an import has succeeded.
    pub fn finish_import_job<S, D>(&self, job: ImportReportModel<S, D>, details: D) -> (next:
        FinishImportJob<S, D>)
        ensures
            exists|at: Timestamp|
                at.secs >= 0 && at.nanos < 1_000_000_000 && next.report == #[trigger] finished(
                    job,
                    details,
                    at,
                ),
    {
        self.finish_import_job_at(job, details, now())
    }

    /// Get the reports on all imports of a user.
    pub fn media_import_reports(&self, user_id: i32) -> (next: MediaImportReports)
        ensures
            next == (MediaImportReports { user_id }),
    {
        MediaImportReports { user_id }
    }
}

/// Law: finishing an import leaves its report the user's, about the same source and under the
/// same id, and notes success, the details and the moment, whatever was noted before.
pub proof fn law_finished_report<S, D>(
    job: ImportReportModel<S, D>,
    details: D,
    at: Timestamp,
)
    ensures
        finished(job, details, at).written(job) == (ImportReportModel {
            finished_on: Some(at),
            details: Some(details),
            success: Some(true),
            ..job
        }),
{
}

/// Law: the report on a new import names its user and its source, and leaves all else to the
/// store.
pub proof fn law_begun_report<S, D>(user_id: i32, source: S)
    ensures
        ({
            let report = begun::<S, D>(user_id, source);
            &&& report.id is NotSet
            &&& report.user_id == ActiveValue::Write(user_id)
            &&& report.source == ActiveValue::Write(source)
            &&& report.finished_on is NotSet
            &&& report.details is NotSet
            &&& report.success is NotSet
        }),
{
}

/// Law: finishing an import writes the moment, the details and the success, and no other
/// column.
pub proof fn law_finish_writes_three_columns<S, D>(
    job: ImportReportModel<S, D>,
    details: D,
    at: Timestamp,
)
    ensures
        ({
            let report = finished(job, details, at);
            &&& report.id == ActiveValue::Unchanged(job.id)
            &&& report.user_id == ActiveValue::Unchanged(job.user_id)
            &&& report.source == ActiveValue::Unchanged(job.source)
            &&& report.finished_on == ActiveValue::Write(Some(at))
            &&& report.details == ActiveValue::Write(Some(details))
            &&& report.success == ActiveValue::Write(Some(true))
        }),
{
}

} // verus!
