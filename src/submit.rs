//! Job submission: the request that starts a transcription job.

use vstd::prelude::*;

use crate::storage_ref::{format_s3_uri, s3_uri, StorageRef};

verus! {

broadcast use vstd::string::group_string_axioms;

/// The language that audio is transcribed in.
pub const TRANSCRIPTION_LANGUAGE: &'static str = "en-US";

/// Everything the transcription service is told when a job is started.
#[derive(Debug, Clone, PartialEq, Eq)]
pub struct TranscriptionRequest {
    /// Unique among the service's active jobs; a clash is the service's error.
    pub job_name: String,
    /// The audio, in the `s3://bucket/key` form.
    pub media_uri: String,
    pub output_bucket: String,
    pub output_key: String,
    pub language_code: String,
}

/// Builds the request that starts transcribing `source` under `job_name`,
/// with the result written below `output_key` in `output_bucket`.
pub fn transcribe_audio(
    source: &StorageRef,
    output_bucket: &str,
    output_key: &str,
    job_name: &str,
) -> (r: TranscriptionRequest)
    ensures
        r.job_name@ == job_name@,
        r.media_uri@ == s3_uri(source@),
        r.output_bucket@ == output_bucket@,
        r.output_key@ == output_key@,
        r.language_code@ == TRANSCRIPTION_LANGUAGE@,
{
    TranscriptionRequest {
        job_name: String::from_str(job_name),
        media_uri: format_s3_uri(source),
        output_bucket: String::from_str(output_bucket),
        output_key: String::from_str(output_key),
        language_code: String::from_str(TRANSCRIPTION_LANGUAGE),
    }
}

} // verus!
