//! The per-file stage sequence: upload, submit, poll, extract, analyse.
//!
//! `FilePipeline` holds the decisions; whoever drives it performs each
//! returned `Action` and hands the outcome back to the matching `on_*`
//! method. Every pipeline owns its job alone, so independent pipelines share
//! nothing mutable.

use vstd::prelude::*;

use crate::error::PipelineError;
use crate::job::{
    check_transcription_job_status, Job, JobStatus, PollStep, StatusReport, POLL_INTERVAL_SECS,
};
use crate::storage_ref::{parsed_ref, s3_uri, StorageRef};
use crate::submit::{transcribe_audio, TranscriptionRequest, TRANSCRIPTION_LANGUAGE};
use crate::text::{decimal, push_decimal};
use crate::transcript::{get_transcription_result, parsed_json, transcript_of};

verus! {

broadcast use vstd::string::group_string_axioms;

/// Bucket that uploaded audio and transcription results go to.
pub const AUDIO_BUCKET: &'static str = "audio-wav-rust";

/// Key prefix of transcription results.
pub const OUTPUT_KEY_PREFIX: &'static str = "my-output-files/";

/// Where a file's pipeline stands.
#[derive(Debug, Clone, Copy, PartialEq, Eq, Structural)]
pub enum Stage {
    Upload,
    Submit,
    Poll,
    Extract,
    Analyze,
    Finished,
    Failed,
}

/// The next piece of outside work for the driver.
#[derive(Debug, Clone, PartialEq, Eq)]
pub enum Action {
    /// Store the file's bytes at `target`; then call `on_uploaded`.
    Upload { target: StorageRef },
    /// Start the transcription job; then call `on_submitted`.
    Submit { request: TranscriptionRequest },
    /// Ask for the job's status now; then call `on_status`.
    QueryStatus { job_name: String },
    /// Wait `seconds`, then ask for the job's status; then call `on_status`.
    WaitThenQuery { job_name: String, seconds: u64 },
    /// Download the result document; then call `on_fetched`.
    Fetch { location: StorageRef },
    /// Analyse the transcript's sentiment; then call `on_analyzed`.
    Analyze { text: String },
    /// All stages succeeded.
    Finish { job_name: String },
    /// A stage failed; nothing more is to be done for this file.
    Abort { error: PipelineError },
}

/// `audio_<index>.wav`.
pub open spec fn staging_key(index: nat) -> Seq<char> {
    "audio_"@ + decimal(index) + ".wav"@
}

/// The decisions of one file's run through the stages.
pub struct FilePipeline {
    pub stage: Stage,
    /// Where the audio is stored.
    pub source: StorageRef,
    pub output_bucket: String,
    pub output_prefix: String,
    pub job_name: String,
    /// The job, once its submission was accepted.
    pub job: Option<Job>,
    pub transcript: Option<String>,
    /// The sentiment label of the transcript.
    pub sentiment: Option<String>,
}

impl FilePipeline {
    pub open spec fn well_formed(&self) -> bool {
        &&& (self.stage is Upload || self.stage is Submit) ==> self.job is None
        &&& (self.job matches Some(j) ==> j.well_formed() && j.name == self.job_name)
        &&& (self.stage is Poll || self.stage is Extract || self.stage is Analyze
            || self.stage is Finished) ==> self.job is Some
        &&& (self.stage is Extract || self.stage is Analyze || self.stage is Finished)
            ==> self.job->0.status == JobStatus::Completed
        &&& (self.stage is Analyze || self.stage is Finished) ==> self.transcript is Some
        &&& self.stage is Finished ==> self.sentiment is Some
    }

    /// The file's own fields, which no stage changes: its job name, where
    /// its audio is, and where its result goes.
    pub open spec fn same_file(&self, other: &FilePipeline) -> bool {
        &&& self.job_name == other.job_name
        &&& self.source == other.source
        &&& self.output_bucket == other.output_bucket
        &&& self.output_prefix == other.output_prefix
    }

    /// A pipeline for the file at `index` of a request, to be transcribed
    /// under `job_name`. The audio goes to `bucket` under `audio_<index>.wav`,
    /// the result below `output_prefix` in the same bucket.
    pub fn new(bucket: &str, output_prefix: &str, index: u64, job_name: String) -> (p:
        FilePipeline)
        ensures
            p.well_formed(),
            p.stage == Stage::Upload,
            p.source.bucket@ == bucket@,
            p.source.key@ == staging_key(index as nat),
            p.output_bucket@ == bucket@,
            p.output_prefix@ == output_prefix@,
            p.job_name == job_name,
            p.transcript is None,
            p.sentiment is None,
    {
        let mut key = String::from_str("audio_");
        push_decimal(&mut key, index);
        key.append(".wav");
        FilePipeline {
            stage: Stage::Upload,
            source: StorageRef { bucket: String::from_str(bucket), key },
            output_bucket: String::from_str(bucket),
            output_prefix: String::from_str(output_prefix),
            job_name,
            job: None,
            transcript: None,
            sentiment: None,
        }
    }

    /// The first action: store the audio.
    pub fn start(&self) -> (a: Action)
        requires
            self.stage == Stage::Upload,
        ensures
            a == (Action::Upload { target: self.source }),
    {
        Action::Upload { target: self.source.duplicate() }
    }

    /// Stops the pipeline with `error`.
    fn fail(&mut self, error: PipelineError) -> (a: Action)
        requires
            old(self).well_formed(),
        ensures
            final(self).well_formed(),
            final(self).same_file(old(self)),
            final(self).stage == Stage::Failed,
            final(self).job == old(self).job,
            final(self).job_name == old(self).job_name,
            a == (Action::Abort { error }),
    {
        self.stage = Stage::Failed;
        Action::Abort { error }
    }

    /// The outcome of storing the audio. On success the job is submitted.
    pub fn on_uploaded(&mut self, outcome: Result<(), PipelineError>) -> (a: Action)
        requires
            old(self).well_formed(),
            old(self).stage == Stage::Upload,
        ensures
            final(self).well_formed(),
            final(self).same_file(old(self)),
            match outcome {
                Ok(()) => {
                    &&& final(self).stage == Stage::Submit
                    &&& a matches Action::Submit { request }
                    &&& request.job_name@ == old(self).job_name@
                    &&& request.media_uri@ == s3_uri(old(self).source@)
                    &&& request.output_bucket@ == old(self).output_bucket@
                    &&& request.output_key@ == old(self).output_prefix@
                    &&& request.language_code@ == TRANSCRIPTION_LANGUAGE@
                },
                Err(e) => final(self).stage == Stage::Failed && a == (Action::Abort { error: e }),
            },
    {
        match outcome {
            Ok(()) => {
                let request = transcribe_audio(
                    &self.source,
                    self.output_bucket.as_str(),
                    self.output_prefix.as_str(),
                    self.job_name.as_str(),
                );
                self.stage = Stage::Submit;
                Action::Submit { request }
            },
            Err(e) => self.fail(e),
        }
    }

    /// The outcome of starting the job. On success the job exists, queued,
    /// and its status is asked for at once.
    pub fn on_submitted(&mut self, outcome: Result<(), PipelineError>) -> (a: Action)
        requires
            old(self).well_formed(),
            old(self).stage == Stage::Submit,
        ensures
            final(self).well_formed(),
            final(self).same_file(old(self)),
            match outcome {
                Ok(()) => {
                    &&& final(self).stage == Stage::Poll
                    &&& final(self).job matches Some(j)
                    &&& j.status == JobStatus::Queued
                    &&& j.source == old(self).source
                    &&& j.output_bucket == old(self).output_bucket
                    &&& j.output_prefix == old(self).output_prefix
                    &&& a == (Action::QueryStatus { job_name: old(self).job_name })
                },
                Err(e) => final(self).stage == Stage::Failed && a == (Action::Abort { error: e }),
            },
    {
        match outcome {
            Ok(()) => {
                let job = Job::submitted(
                    self.job_name.clone(),
                    self.source.duplicate(),
                    self.output_bucket.clone(),
                    self.output_prefix.clone(),
                );
                self.job = Some(job);
                self.stage = Stage::Poll;
                Action::QueryStatus { job_name: self.job_name.clone() }
            },
            Err(e) => self.fail(e),
        }
    }

    /// The outcome of a status query. A queued or in-progress job is asked
    /// for again after `POLL_INTERVAL_SECS`; a completed one has its result
    /// fetched; anything else ends the pipeline with the poller's error.
    pub fn on_status(&mut self, outcome: Result<StatusReport, PipelineError>) -> (a: Action)
        requires
            old(self).well_formed(),
            old(self).stage == Stage::Poll,
        ensures
            final(self).well_formed(),
            final(self).same_file(old(self)),
            final(self).stage == Stage::Poll || final(self).stage == Stage::Extract
                || final(self).stage == Stage::Failed,
            final(self).stage == Stage::Poll <==> a is WaitThenQuery,
            match outcome {
                Ok(report) => {
                    &&& !report.status.is_terminal() ==> {
                        &&& final(self).stage == Stage::Poll
                        &&& final(self).job->0.status == report.status
                        &&& a == (Action::WaitThenQuery {
                            job_name: old(self).job_name,
                            seconds: POLL_INTERVAL_SECS,
                        })
                    }
                    &&& report.status == JobStatus::Failed ==> a == (Action::Abort {
                        error: PipelineError::JobFailed { name: old(self).job_name },
                    })
                    &&& report.status == JobStatus::NotFound ==> a == (Action::Abort {
                        error: PipelineError::JobNotFound { name: old(self).job_name },
                    })
                    &&& (report.status == JobStatus::Completed && report.result_location is None)
                        ==> a == (Action::Abort {
                        error: PipelineError::MissingResultLocation { name: old(self).job_name },
                    })
                    &&& report.status == JobStatus::Completed ==> (report.result_location matches Some(
                        loc,
                    ) ==> match parsed_ref(loc@) {
                        Some(v) => {
                            &&& final(self).stage == Stage::Extract
                            &&& a matches Action::Fetch { location }
                            &&& location@ == v
                            &&& final(self).job->0.result == Some(location)
                        },
                        None => a == (Action::Abort { error: PipelineError::InvalidUriFormat }),
                    })
                    &&& final(self).stage == Stage::Failed <==> a is Abort
                },
                Err(e) => final(self).stage == Stage::Failed && a == (Action::Abort { error: e }),
            },
    {
        let report = match outcome {
            Ok(report) => report,
            Err(e) => return self.fail(e),
        };
        let mut job = match self.job.take() {
            Some(j) => j,
            None => return self.fail(PipelineError::JobNotFound { name: self.job_name.clone() }),
        };
        let step = check_transcription_job_status(&mut job, report);
        self.job = Some(job);
        match step {
            Ok(PollStep::Wait) => Action::WaitThenQuery {
                job_name: self.job_name.clone(),
                seconds: POLL_INTERVAL_SECS,
            },
            Ok(PollStep::Done(location)) => {
                self.stage = Stage::Extract;
                Action::Fetch { location }
            },
            Err(e) => self.fail(e),
        }
    }

    /// The outcome of downloading the result document. On success the
    /// transcript is read out of it and analysed.
    pub fn on_fetched(&mut self, outcome: Result<String, PipelineError>) -> (a: Action)
        requires
            old(self).well_formed(),
            old(self).stage == Stage::Extract,
        ensures
            final(self).well_formed(),
            final(self).same_file(old(self)),
            match outcome {
                Ok(document) => match transcript_of(document@) {
                    Some(t) => {
                        &&& final(self).stage == Stage::Analyze
                        &&& final(self).transcript matches Some(s) && s@ == t
                        &&& a matches Action::Analyze { text } && text@ == t
                    },
                    None => {
                        &&& final(self).stage == Stage::Failed
                        &&& a == (Action::Abort {
                            error: if parsed_json(document@) is None {
                                PipelineError::MalformedResult
                            } else {
                                PipelineError::TranscriptNotFound
                            },
                        })
                    },
                },
                Err(e) => final(self).stage == Stage::Failed && a == (Action::Abort { error: e }),
            },
    {
        match outcome {
            Ok(document) => match get_transcription_result(document.as_str()) {
                Ok(text) => {
                    self.transcript = Some(text.clone());
                    self.stage = Stage::Analyze;
                    Action::Analyze { text }
                },
                Err(e) => self.fail(e),
            },
            Err(e) => self.fail(e),
        }
    }

    /// Cancels a file that has not finished or failed: the driver's way to
    /// bound how long a file's work, above all its polling, may take. No
    /// further action follows.
    pub fn on_cancelled(&mut self) -> (a: Action)
        requires
            old(self).well_formed(),
            !(old(self).stage is Finished || old(self).stage is Failed),
        ensures
            final(self).well_formed(),
            final(self).same_file(old(self)),
            final(self).stage == Stage::Failed,
            final(self).job == old(self).job,
            a == (Action::Abort { error: PipelineError::Cancelled { name: old(self).job_name } }),
    {
        let name = self.job_name.clone();
        self.fail(PipelineError::Cancelled { name })
    }

    /// The outcome of the sentiment analysis: the label, on success. That
    /// finishes the file.
    pub fn on_analyzed(&mut self, outcome: Result<String, PipelineError>) -> (a: Action)
        requires
            old(self).well_formed(),
            old(self).stage == Stage::Analyze,
        ensures
            final(self).well_formed(),
            final(self).same_file(old(self)),
            match outcome {
                Ok(label) => {
                    &&& final(self).stage == Stage::Finished
                    &&& final(self).sentiment == Some(label)
                    &&& a == (Action::Finish { job_name: old(self).job_name })
                },
                Err(e) => final(self).stage == Stage::Failed && a == (Action::Abort { error: e }),
            },
    {
        match outcome {
            Ok(label) => {
                self.sentiment = Some(label);
                self.stage = Stage::Finished;
                Action::Finish { job_name: self.job_name.clone() }
            },
            Err(e) => self.fail(e),
        }
    }
}

} // verus!
