use transcribe_pipeline::{get_transcription_result, transcript_from_field, PipelineError};

#[test]
fn extracts_first_transcript() {
    let doc = r#"{"results":{"transcripts":[{"transcript":"hello world"}]}}"#;
    assert_eq!(get_transcription_result(doc).unwrap(), "hello world");
}

#[test]
fn empty_transcript_list_is_not_found() {
    let doc = r#"{"results":{"transcripts":[]}}"#;
    assert_eq!(get_transcription_result(doc), Err(PipelineError::TranscriptNotFound));
}

#[test]
fn takes_the_first_of_several() {
    let doc = r#"{"jobName":"J1","results":{"transcripts":[{"transcript":"one"},{"transcript":"two"}],"items":[]}}"#;
    assert_eq!(get_transcription_result(doc).unwrap(), "one");
}

#[test]
fn text_that_is_not_json_is_malformed() {
    assert_eq!(get_transcription_result("{results"), Err(PipelineError::MalformedResult));
    assert_eq!(get_transcription_result(""), Err(PipelineError::MalformedResult));
}

#[test]
fn empty_or_non_string_transcript_is_not_found() {
    let empty = r#"{"results":{"transcripts":[{"transcript":""}]}}"#;
    assert_eq!(get_transcription_result(empty), Err(PipelineError::TranscriptNotFound));
    let number = r#"{"results":{"transcripts":[{"transcript":5}]}}"#;
    assert_eq!(get_transcription_result(number), Err(PipelineError::TranscriptNotFound));
    assert_eq!(get_transcription_result("[]"), Err(PipelineError::TranscriptNotFound));
}

#[test]
fn field_decides_the_outcome() {
    assert_eq!(transcript_from_field(Some("hi")).unwrap(), "hi");
    assert_eq!(transcript_from_field(Some("")), Err(PipelineError::TranscriptNotFound));
    assert_eq!(transcript_from_field(None), Err(PipelineError::TranscriptNotFound));
}

#[test]
fn transcripts_must_be_an_array() {
    let doc = r#"{"results":{"transcripts":{"0":{"transcript":"x"}}}}"#;
    assert_eq!(get_transcription_result(doc), Err(PipelineError::TranscriptNotFound));
    let nested = r#"{"results":{"transcripts":[[{"transcript":"x"}]]}}"#;
    assert_eq!(get_transcription_result(nested), Err(PipelineError::TranscriptNotFound));
    let no_results = r#"{"transcripts":[{"transcript":"x"}]}"#;
    assert_eq!(get_transcription_result(no_results), Err(PipelineError::TranscriptNotFound));
}
