use transcribe_pipeline::{
    generate_random_job_name, medical_entities_reply, transcribe_audio, Action, ComprehendError,
    FilePipeline, JobStatus, PipelineError, Stage, StatusReport, StorageRef, UploadBatch,
    AUDIO_BUCKET, JOB_NAME_LEN, OUTPUT_KEY_PREFIX,
};

fn status(s: JobStatus, loc: Option<&str>) -> StatusReport {
    StatusReport { status: s, result_location: loc.map(|l| l.to_string()) }
}

#[test]
fn one_file_runs_through_every_stage() {
    let mut batch = UploadBatch::new(1);
    let index = batch.next_index().unwrap();
    assert_eq!(index, 0);
    let mut p = FilePipeline::new(AUDIO_BUCKET, OUTPUT_KEY_PREFIX, index, "J1".to_string());

    let target = StorageRef { bucket: "audio-wav-rust".to_string(), key: "audio_0.wav".to_string() };
    assert_eq!(p.start(), Action::Upload { target });

    match p.on_uploaded(Ok(())) {
        Action::Submit { request } => {
            assert_eq!(request.job_name, "J1");
            assert_eq!(request.media_uri, "s3://audio-wav-rust/audio_0.wav");
            assert_eq!(request.output_bucket, "audio-wav-rust");
            assert_eq!(request.output_key, "my-output-files/");
            assert_eq!(request.language_code, "en-US");
        }
        other => panic!("unexpected {:?}", other),
    }
    assert_eq!(p.on_submitted(Ok(())), Action::QueryStatus { job_name: "J1".to_string() });
    assert_eq!(
        p.on_status(Ok(status(JobStatus::InProgress, None))),
        Action::WaitThenQuery { job_name: "J1".to_string(), seconds: 10 }
    );
    let location = StorageRef { bucket: "out".to_string(), key: "J1.json".to_string() };
    assert_eq!(
        p.on_status(Ok(status(JobStatus::Completed, Some("s3://out/J1.json")))),
        Action::Fetch { location }
    );
    let doc = r#"{"results":{"transcripts":[{"transcript":"hello world"}]}}"#.to_string();
    assert_eq!(p.on_fetched(Ok(doc)), Action::Analyze { text: "hello world".to_string() });
    let last = p.on_analyzed(Ok("POSITIVE".to_string()));
    assert_eq!(last, Action::Finish { job_name: "J1".to_string() });
    assert_eq!(p.stage, Stage::Finished);
    assert_eq!(p.transcript.as_deref(), Some("hello world"));
    assert_eq!(p.sentiment.as_deref(), Some("POSITIVE"));

    batch.record(last);
    assert_eq!(batch.next_index(), None);
    assert_eq!(batch.response().unwrap(), vec!["J1".to_string()]);
}

#[test]
fn first_failure_ends_the_request() {
    let mut batch = UploadBatch::new(3);
    assert_eq!(batch.next_index(), Some(0));
    batch.record(Action::Finish { job_name: "A".to_string() });
    assert_eq!(batch.next_index(), Some(1));
    let mut p = FilePipeline::new(AUDIO_BUCKET, OUTPUT_KEY_PREFIX, 1, "B".to_string());
    let err = PipelineError::RemoteError { operation: "put_object".to_string(), message: "denied".to_string() };
    let last = p.on_uploaded(Err(err.clone()));
    assert_eq!(last, Action::Abort { error: err.clone() });
    assert_eq!(p.stage, Stage::Failed);
    batch.record(last);
    assert_eq!(batch.next_index(), None);
    assert_eq!(batch.response(), Err(err));
}

#[test]
fn every_file_finishing_lists_names_in_order() {
    let mut batch = UploadBatch::new(2);
    batch.record(Action::Finish { job_name: "A".to_string() });
    batch.record(Action::Finish { job_name: "B".to_string() });
    assert_eq!(batch.next_index(), None);
    assert_eq!(batch.response().unwrap(), vec!["A".to_string(), "B".to_string()]);
}

#[test]
fn empty_request_answers_empty_list() {
    let batch = UploadBatch::new(0);
    assert_eq!(batch.next_index(), None);
    assert_eq!(batch.response().unwrap(), Vec::<String>::new());
}

#[test]
fn staging_key_carries_the_index() {
    let p = FilePipeline::new("bkt", "out/", 1234567, "J".to_string());
    assert_eq!(p.source.key, "audio_1234567.wav");
    assert_eq!(p.source.bucket, "bkt");
    let p = FilePipeline::new("bkt", "out/", u64::MAX, "J".to_string());
    assert_eq!(p.source.key, format!("audio_{}.wav", u64::MAX));
}

#[test]
fn bad_result_document_fails_the_file() {
    let mut p = FilePipeline::new(AUDIO_BUCKET, OUTPUT_KEY_PREFIX, 0, "J1".to_string());
    p.on_uploaded(Ok(()));
    p.on_submitted(Ok(()));
    p.on_status(Ok(status(JobStatus::Completed, Some("s3://out/J1.json"))));
    let a = p.on_fetched(Ok(r#"{"results":{"transcripts":[]}}"#.to_string()));
    assert_eq!(a, Action::Abort { error: PipelineError::TranscriptNotFound });
    assert_eq!(p.stage, Stage::Failed);
}

#[test]
fn submission_failure_is_reported() {
    let mut p = FilePipeline::new(AUDIO_BUCKET, OUTPUT_KEY_PREFIX, 0, "J1".to_string());
    p.on_uploaded(Ok(()));
    let err = PipelineError::RemoteError { operation: "start_transcription_job".to_string(), message: "conflict".to_string() };
    assert_eq!(p.on_submitted(Err(err.clone())), Action::Abort { error: err });
    assert!(p.job.is_none());
}

#[test]
fn analysis_failure_carries_the_service_message() {
    let e = ComprehendError::AwsError("throttled".to_string());
    assert_eq!(e.message(), "AWS Error: throttled");
    let pe = e.into_pipeline_error();
    assert_eq!(
        pe,
        PipelineError::RemoteError { operation: "detect_sentiment".to_string(), message: "throttled".to_string() }
    );
    assert_eq!(pe.message(), "detect_sentiment failed: throttled");
}

#[test]
fn error_messages() {
    assert_eq!(PipelineError::InvalidUriFormat.message(), "Invalid S3 URI format!");
    assert_eq!(PipelineError::JobFailed { name: "J".to_string() }.message(), "Transcription job J failed.");
    assert_eq!(PipelineError::JobNotFound { name: "J".to_string() }.message(), "Transcription job J not found.");
    assert_eq!(
        PipelineError::MissingResultLocation { name: "J".to_string() }.message(),
        "Transcription job J completed without a transcript location."
    );
    assert_eq!(PipelineError::MalformedResult.message(), "The transcription result is not valid JSON.");
    assert_eq!(PipelineError::TranscriptNotFound.message(), "Transcription text not found");
    assert_eq!(PipelineError::LocalIoError { message: "disk full".to_string() }.message(), "Local file error: disk full");
}

#[test]
fn submission_request_fields() {
    let src = StorageRef { bucket: "b".to_string(), key: "k.wav".to_string() };
    let r = transcribe_audio(&src, "ob", "prefix/", "job42");
    assert_eq!(r.media_uri, "s3://b/k.wav");
    assert_eq!(r.job_name, "job42");
    assert_eq!(r.output_bucket, "ob");
    assert_eq!(r.output_key, "prefix/");
    assert_eq!(r.language_code, "en-US");
}

#[test]
fn job_names_are_ten_alphanumerics() {
    for _ in 0..20 {
        let n = generate_random_job_name();
        assert_eq!(n.len(), JOB_NAME_LEN);
        assert!(n.chars().all(|c| c.is_ascii_alphanumeric()));
    }
    assert_ne!(generate_random_job_name(), generate_random_job_name());
}

#[test]
fn medical_reply_joins_lines_or_says_none() {
    assert_eq!(medical_entities_reply(&vec![]), "No entities found.");
    assert_eq!(medical_entities_reply(&vec!["a".to_string()]), "a");
    assert_eq!(
        medical_entities_reply(&vec!["a".to_string(), "b c".to_string(), "d".to_string()]),
        "a\nb c\nd"
    );
}
