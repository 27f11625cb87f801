//! Transcription jobs and the status poller's transition rule.

use vstd::prelude::*;

use crate::error::PipelineError;
use crate::storage_ref::{parse_s3_uri, parsed_ref, StorageRef};
use crate::text::same_text;

verus! {

broadcast use vstd::string::group_string_axioms;

/// Seconds the poller waits between two status queries.
pub const POLL_INTERVAL_SECS: u64 = 10;

/// Seconds after which a driver stops polling a job and cancels its file.
pub const POLL_DEADLINE_SECS: u64 = 3600;

/// Where a transcription job stands.
#[derive(Debug, Clone, Copy, PartialEq, Eq, Structural)]
pub enum JobStatus {
    Queued,
    InProgress,
    Completed,
    Failed,
    NotFound,
}

impl JobStatus {
    /// Completed, Failed and NotFound end the polling.
    pub open spec fn is_terminal(self) -> bool {
        self is Completed || self is Failed || self is NotFound
    }
}

/// The status that a status query reports. `found` is false where the
/// response holds no job. A missing or unrecognised status name counts as
/// in progress: the poller asks again.
pub fn status_from_wire(found: bool, status: Option<&str>) -> (s: JobStatus)
    ensures
        !found ==> s == JobStatus::NotFound,
        found ==> match status {
            Some(name) => {
                if name@ == "QUEUED"@ {
                    s == JobStatus::Queued
                } else if name@ == "COMPLETED"@ {
                    s == JobStatus::Completed
                } else if name@ == "FAILED"@ {
                    s == JobStatus::Failed
                } else {
                    s == JobStatus::InProgress
                }
            },
            None => s == JobStatus::InProgress,
        },
{
    if !found {
        return JobStatus::NotFound;
    }
    match status {
        Some(name) => {
            if same_text(name, "QUEUED") {
                JobStatus::Queued
            } else if same_text(name, "COMPLETED") {
                JobStatus::Completed
            } else if same_text(name, "FAILED") {
                JobStatus::Failed
            } else {
                JobStatus::InProgress
            }
        },
        None => JobStatus::InProgress,
    }
}

/// One answer to a status query.
#[derive(Debug, Clone, PartialEq, Eq)]
pub struct StatusReport {
    pub status: JobStatus,
    /// The result document's address, where the answer names one.
    pub result_location: Option<String>,
}

/// A submitted transcription job.
#[derive(Debug, Clone, PartialEq, Eq)]
pub struct Job {
    pub name: String,
    /// The audio that is transcribed.
    pub source: StorageRef,
    /// Bucket of the result document.
    pub output_bucket: String,
    /// Key prefix of the result document.
    pub output_prefix: String,
    pub status: JobStatus,
    /// Where the result document is; set exactly when the job completed.
    pub result: Option<StorageRef>,
}

impl Job {
    pub open spec fn well_formed(&self) -> bool {
        &&& (self.result is Some <==> self.status == JobStatus::Completed)
        &&& (self.result matches Some(r) ==> r@.is_valid())
    }

    /// The job as it stands once its submission was accepted.
    pub fn submitted(
        name: String,
        source: StorageRef,
        output_bucket: String,
        output_prefix: String,
    ) -> (j: Job)
        ensures
            j.well_formed(),
            j.name == name,
            j.source == source,
            j.output_bucket == output_bucket,
            j.output_prefix == output_prefix,
            j.status == JobStatus::Queued,
    {
        Job { name, source, output_bucket, output_prefix, status: JobStatus::Queued, result: None }
    }
}

/// What the poller does after one status answer, when it does not fail.
#[derive(Debug, Clone, PartialEq, Eq)]
pub enum PollStep {
    /// Wait `POLL_INTERVAL_SECS` and query again.
    Wait,
    /// The job completed; its result document is here.
    Done(StorageRef),
}

/// Applies one status answer to the job. Queued and in-progress answers mean
/// waiting; a completed answer yields the parsed result address; a failed or
/// missing job, or a completed one without a result address, stops the
/// polling with an error. Only the status and result of the job change.
pub fn check_transcription_job_status(job: &mut Job, report: StatusReport) -> (r: Result<
    PollStep,
    PipelineError,
>)
    requires
        old(job).well_formed(),
    ensures
        final(job).well_formed(),
        final(job).name == old(job).name,
        final(job).source == old(job).source,
        final(job).output_bucket == old(job).output_bucket,
        final(job).output_prefix == old(job).output_prefix,
        r == Ok::<PollStep, PipelineError>(PollStep::Wait) <==> !report.status.is_terminal(),
        !report.status.is_terminal() ==> final(job).status == report.status,
        report.status == JobStatus::Failed ==> {
            &&& r == Err::<PollStep, PipelineError>(PipelineError::JobFailed { name: old(job).name })
            &&& final(job).status == JobStatus::Failed
        },
        report.status == JobStatus::NotFound ==> {
            &&& r == Err::<PollStep, PipelineError>(
                PipelineError::JobNotFound { name: old(job).name },
            )
            &&& final(job).status == JobStatus::NotFound
        },
        report.status == JobStatus::Completed ==> match report.result_location {
            None => {
                &&& r == Err::<PollStep, PipelineError>(
                    PipelineError::MissingResultLocation { name: old(job).name },
                )
                &&& *final(job) == *old(job)
            },
            Some(loc) => match parsed_ref(loc@) {
                Some(v) => {
                    &&& r matches Ok(PollStep::Done(sr)) && sr@ == v
                    &&& final(job).status == JobStatus::Completed
                    &&& final(job).result == Some(r->Ok_0->Done_0)
                },
                None => {
                    &&& r == Err::<PollStep, PipelineError>(PipelineError::InvalidUriFormat)
                    &&& *final(job) == *old(job)
                },
            },
        },
{
    match report.status {
        JobStatus::Queued | JobStatus::InProgress => {
            job.status = report.status;
            job.result = None;
            Ok(PollStep::Wait)
        },
        JobStatus::Failed => {
            job.status = JobStatus::Failed;
            job.result = None;
            Err(PipelineError::JobFailed { name: job.name.clone() })
        },
        JobStatus::NotFound => {
            job.status = JobStatus::NotFound;
            job.result = None;
            Err(PipelineError::JobNotFound { name: job.name.clone() })
        },
        JobStatus::Completed => match report.result_location {
            None => Err(PipelineError::MissingResultLocation { name: job.name.clone() }),
            Some(loc) => match parse_s3_uri(loc.as_str()) {
                Ok(sr) => {
                    let kept = sr.duplicate();
                    job.status = JobStatus::Completed;
                    job.result = Some(kept);
                    Ok(PollStep::Done(sr))
                },
                Err(e) => Err(e),
            },
        },
    }
}

} // verus!
