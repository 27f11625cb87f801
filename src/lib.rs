//! Orchestration logic for an audio transcription pipeline: object-store
//! addresses, job submission, status polling, transcript extraction and the
//! per-file stage sequence.

pub mod batch;
pub mod error;
pub mod job;
pub mod job_name;
pub mod medical;
pub mod pipeline;
pub mod storage_ref;
pub mod submit;
pub mod transcript;
pub mod text;

pub use error::{ComprehendError, PipelineError, SENTIMENT_LANGUAGE, SENTIMENT_OPERATION};
pub use storage_ref::{format_s3_uri, parse_s3_uri, StorageRef, S3_HTTPS_PREFIX, S3_URI_SCHEME};
pub use transcript::{get_transcription_result, transcript_from_field, FIRST_TRANSCRIPT_POINTER, TRANSCRIPTS_POINTER};
pub use job_name::{generate_random_job_name, JOB_NAME_LEN};
pub use job::{check_transcription_job_status, status_from_wire, Job, JobStatus, PollStep, StatusReport, POLL_DEADLINE_SECS, POLL_INTERVAL_SECS};
pub use submit::{transcribe_audio, TranscriptionRequest, TRANSCRIPTION_LANGUAGE};
pub use pipeline::{Action, FilePipeline, Stage, AUDIO_BUCKET, OUTPUT_KEY_PREFIX};
pub use batch::UploadBatch;
pub use medical::medical_entities_reply;
