use transcribe_pipeline::{format_s3_uri, parse_s3_uri, PipelineError, StorageRef};

fn sref(bucket: &str, key: &str) -> StorageRef {
    StorageRef { bucket: bucket.to_string(), key: key.to_string() }
}

#[test]
fn parses_scheme_form() {
    let r = parse_s3_uri("s3://bucket1/path/to/key.json").unwrap();
    assert_eq!(r, sref("bucket1", "path/to/key.json"));
}

#[test]
fn parses_https_form() {
    let r = parse_s3_uri("https://s3.us-east-1.amazonaws.com/bucket2/key2").unwrap();
    assert_eq!(r, sref("bucket2", "key2"));
}

#[test]
fn rejects_text_without_separator() {
    assert_eq!(parse_s3_uri("not-a-valid-uri"), Err(PipelineError::InvalidUriFormat));
}

#[test]
fn rejects_scheme_form_without_separator() {
    assert_eq!(parse_s3_uri("s3://bucket-only"), Err(PipelineError::InvalidUriFormat));
}

#[test]
fn rejects_https_form_without_separator() {
    assert_eq!(
        parse_s3_uri("https://s3.us-east-1.amazonaws.com/bucket-only"),
        Err(PipelineError::InvalidUriFormat)
    );
}

#[test]
fn rejects_empty_key() {
    assert_eq!(parse_s3_uri("s3://bucket/"), Err(PipelineError::InvalidUriFormat));
    assert_eq!(parse_s3_uri("https://s3.us-east-1.amazonaws.com/bucket/"), Err(PipelineError::InvalidUriFormat));
    assert_eq!(parse_s3_uri(""), Err(PipelineError::InvalidUriFormat));
}

#[test]
fn accepts_empty_bucket() {
    assert_eq!(parse_s3_uri("s3:///key").unwrap(), sref("", "key"));
    assert_eq!(parse_s3_uri("https://s3.us-east-1.amazonaws.com//key").unwrap(), sref("", "key"));
}

#[test]
fn strips_only_one_prefix() {
    let r = parse_s3_uri("s3://s3://b/k").unwrap();
    assert_eq!(r, sref("s3:", "/b/k"));
}

#[test]
fn accepts_address_without_prefix() {
    assert_eq!(parse_s3_uri("my-bucket/my-key.txt").unwrap(), sref("my-bucket", "my-key.txt"));
}

#[test]
fn key_keeps_later_separators() {
    let r = parse_s3_uri("s3://out/a/b/c.json").unwrap();
    assert_eq!(r, sref("out", "a/b/c.json"));
}

#[test]
fn formats_scheme_form() {
    assert_eq!(format_s3_uri(&sref("out", "J1.json")), "s3://out/J1.json");
}

#[test]
fn format_then_parse_gives_the_address_back() {
    for (b, k) in [("bucket1", "path/to/key.json"), ("b", "k"), ("", "k"), ("s3:", "/k"), ("x.y-z", "ü/ñ/é.json")] {
        let r = sref(b, k);
        assert_eq!(parse_s3_uri(&format_s3_uri(&r)).unwrap(), r);
    }
}

#[test]
fn duplicate_is_equal() {
    let r = sref("a", "b");
    assert_eq!(r.duplicate(), r);
}
