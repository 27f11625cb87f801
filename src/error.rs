//! The failures that a pipeline stage can report.

use vstd::prelude::*;

verus! {

broadcast use vstd::string::group_string_axioms;

/// Why a stage of the pipeline stopped.
#[derive(Debug, Clone, PartialEq, Eq)]
pub enum PipelineError {
    /// An object address did not split into a bucket and a key.
    InvalidUriFormat,
    /// A remote call failed; `message` is the service's own text.
    RemoteError { operation: String, message: String },
    /// The transcription job ended in the failed state.
    JobFailed { name: String },
    /// The transcription service does not know the job.
    JobNotFound { name: String },
    /// The job completed without naming where its result is stored.
    MissingResultLocation { name: String },
    /// The result document could not be parsed as JSON.
    MalformedResult,
    /// The result document holds no transcript text.
    TranscriptNotFound,
    /// Reading or writing a local staging file failed.
    LocalIoError { message: String },
    /// The driver gave up on the file, as when its polling deadline passed.
    Cancelled { name: String },
}

impl PipelineError {
    /// The text shown to a client for this failure.
    pub open spec fn text(&self) -> Seq<char> {
        match self {
            PipelineError::InvalidUriFormat => "Invalid S3 URI format!"@,
            PipelineError::RemoteError { operation, message } => operation@ + " failed: "@
                + message@,
            PipelineError::JobFailed { name } => "Transcription job "@ + name@ + " failed."@,
            PipelineError::JobNotFound { name } => "Transcription job "@ + name@ + " not found."@,
            PipelineError::MissingResultLocation { name } => "Transcription job "@ + name@
                + " completed without a transcript location."@,
            PipelineError::MalformedResult => "The transcription result is not valid JSON."@,
            PipelineError::TranscriptNotFound => "Transcription text not found"@,
            PipelineError::LocalIoError { message } => "Local file error: "@ + message@,
            PipelineError::Cancelled { name } => "Transcription job "@ + name@ + " was cancelled."@,
        }
    }

    /// The text shown to a client for this failure.
    pub fn message(&self) -> (r: String)
        ensures
            r@ == self.text(),
    {
        match self {
            PipelineError::InvalidUriFormat => String::from_str("Invalid S3 URI format!"),
            PipelineError::RemoteError { operation, message } => {
                let mut s = operation.clone();
                s.append(" failed: ");
                s.append(message.as_str());
                s
            },
            PipelineError::JobFailed { name } => {
                let mut s = String::from_str("Transcription job ");
                s.append(name.as_str());
                s.append(" failed.");
                s
            },
            PipelineError::JobNotFound { name } => {
                let mut s = String::from_str("Transcription job ");
                s.append(name.as_str());
                s.append(" not found.");
                s
            },
            PipelineError::MissingResultLocation { name } => {
                let mut s = String::from_str("Transcription job ");
                s.append(name.as_str());
                s.append(" completed without a transcript location.");
                s
            },
            PipelineError::MalformedResult => String::from_str(
                "The transcription result is not valid JSON.",
            ),
            PipelineError::TranscriptNotFound => String::from_str("Transcription text not found"),
            PipelineError::Cancelled { name } => {
                let mut s = String::from_str("Transcription job ");
                s.append(name.as_str());
                s.append(" was cancelled.");
                s
            },
            PipelineError::LocalIoError { message } => {
                let mut s = String::from_str("Local file error: ");
                s.append(message.as_str());
                s
            },
        }
    }
}

/// The language that transcripts are analysed in.
pub const SENTIMENT_LANGUAGE: &'static str = "en";

/// The name under which a failed sentiment analysis is reported.
pub const SENTIMENT_OPERATION: &'static str = "detect_sentiment";

/// A failure of the text-analytics service.
#[derive(Debug, Clone, PartialEq, Eq)]
pub enum ComprehendError {
    /// The service's own message.
    AwsError(String),
}

impl ComprehendError {
    /// `AWS Error: ` followed by the service's message.
    pub fn message(&self) -> (r: String)
        ensures
            r@ == "AWS Error: "@ + self->AwsError_0@,
    {
        match self {
            ComprehendError::AwsError(err) => {
                let mut s = String::from_str("AWS Error: ");
                s.append(err.as_str());
                s
            },
        }
    }

    /// The pipeline failure it stands for: a remote error of the sentiment
    /// analysis, carrying the service's message.
    pub fn into_pipeline_error(self) -> (e: PipelineError)
        ensures
            e matches PipelineError::RemoteError { operation, message } && operation@
                == SENTIMENT_OPERATION@ && message == self->AwsError_0,
    {
        match self {
            ComprehendError::AwsError(err) => PipelineError::RemoteError {
                operation: String::from_str(SENTIMENT_OPERATION),
                message: err,
            },
        }
    }
}

} // verus!
