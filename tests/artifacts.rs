use runtime_supervisor::artifact::{
    file_name_from_url, model_artifact, plan_fetch, server_binary_artifact, validate_artifact,
    ArtifactSpec, DownloadProgress, FetchError, FetchPlan, MODEL_MIN_SIZE, SERVER_BINARY_MIN_SIZE,
};
use runtime_supervisor::digest::DigestStream;
use runtime_supervisor::resolver::TargetOs;

const ABC_SHA256: &str = "ba7816bf8f01cfea414140de5dae2223b00361a396177a9cb410ff61f20015ad";

fn spec_with(min_size: Option<u64>, hash: Option<&str>) -> ArtifactSpec {
    ArtifactSpec {
        url: "https://example.com/m.gguf".to_string(),
        dest: "/tmp/m.gguf".to_string(),
        expected_sha256: hash.map(|h| h.to_string()),
        min_size,
        executable: false,
    }
}

fn digest_of(data: &[u8]) -> String {
    let mut d = DigestStream::new();
    d.absorb(data);
    d.finish_hex()
}

#[test]
fn digest_of_abc_is_the_known_value() {
    assert_eq!(digest_of(b"abc"), ABC_SHA256);
}

#[test]
fn digest_streamed_in_blocks_equals_digest_in_one_piece() {
    let mut d = DigestStream::new();
    d.absorb(b"a");
    d.absorb(b"");
    d.absorb(b"bc");
    assert_eq!(d.finish_hex(), ABC_SHA256);
}

#[test]
fn digest_of_nothing_is_the_empty_digest() {
    assert_eq!(
        digest_of(b""),
        "e3b0c44298fc1c149afbf4c8996fb92427ae41e4649b934ca495991b7852b855"
    );
}

#[test]
fn small_file_is_rejected_and_not_reused() {
    let spec = spec_with(Some(1000), None);
    assert_eq!(
        validate_artifact(&spec, 999, ""),
        Err(FetchError::ArtifactTooSmall { actual: 999, minimum: 1000 })
    );
    assert_eq!(plan_fetch(&spec, Some(999), ""), FetchPlan::Download);
}

#[test]
fn file_of_exactly_the_minimum_size_is_valid() {
    let spec = spec_with(Some(1000), None);
    assert_eq!(validate_artifact(&spec, 1000, ""), Ok(()));
    assert_eq!(plan_fetch(&spec, Some(1000), ""), FetchPlan::Reuse);
}

#[test]
fn wrong_digest_is_an_integrity_mismatch() {
    let spec = spec_with(None, Some(ABC_SHA256));
    let got = digest_of(b"abd");
    assert_eq!(
        validate_artifact(&spec, 3, &got),
        Err(FetchError::IntegrityMismatch { computed: got.clone(), expected: ABC_SHA256.to_string() })
    );
    assert_eq!(plan_fetch(&spec, Some(3), &got), FetchPlan::Download);
}

#[test]
fn matching_digest_in_upper_case_is_accepted_and_reused() {
    let spec = spec_with(Some(3), Some(&ABC_SHA256.to_uppercase()));
    let got = digest_of(b"abc");
    assert_eq!(validate_artifact(&spec, 3, &got), Ok(()));
    assert_eq!(plan_fetch(&spec, Some(3), &got), FetchPlan::Reuse);
}

#[test]
fn size_is_checked_before_digest() {
    let spec = spec_with(Some(10), Some(ABC_SHA256));
    assert_eq!(
        validate_artifact(&spec, 3, "00"),
        Err(FetchError::ArtifactTooSmall { actual: 3, minimum: 10 })
    );
}

#[test]
fn missing_file_is_downloaded() {
    let spec = spec_with(None, None);
    assert_eq!(plan_fetch(&spec, None, ""), FetchPlan::Download);
}

#[test]
fn file_name_is_last_segment_without_query_or_fragment() {
    assert_eq!(
        file_name_from_url("https://huggingface.co/g/o/resolve/main/DeepSeek-Q8_0.gguf?download=true"),
        "DeepSeek-Q8_0.gguf"
    );
    assert_eq!(file_name_from_url("https://h/x/w.gguf#part"), "w.gguf");
    assert_eq!(file_name_from_url("plain"), "plain");
}

#[test]
fn empty_file_name_falls_back_to_default() {
    assert_eq!(file_name_from_url("https://h/models/"), "model.gguf");
    assert_eq!(file_name_from_url("https://h/?q=1"), "model.gguf");
    assert_eq!(file_name_from_url(""), "model.gguf");
}

#[test]
fn model_artifact_requires_a_hundred_mebibytes() {
    let spec = model_artifact("u".to_string(), None, "d".to_string());
    assert_eq!(spec.min_size, Some(MODEL_MIN_SIZE));
    assert_eq!(MODEL_MIN_SIZE, 104_857_600);
    assert!(!spec.executable);
}

#[test]
fn server_binary_uses_override_or_platform_default() {
    let spec = server_binary_artifact(None, TargetOs::Windows, "d".to_string());
    assert_eq!(
        spec.url,
        "https://github.com/ggerganov/llama.cpp/releases/download/b3289/llama-server.exe"
    );
    assert_eq!(spec.min_size, Some(SERVER_BINARY_MIN_SIZE));
    assert_eq!(SERVER_BINARY_MIN_SIZE, 102_400);
    assert!(spec.executable);
    let spec = server_binary_artifact(Some("http://mirror/bin".to_string()), TargetOs::Other, "d".to_string());
    assert_eq!(spec.url, "http://mirror/bin");
}

#[test]
fn progress_counts_chunks_and_saturates() {
    let mut p = DownloadProgress::new(None);
    assert_eq!(p.total, 0);
    p.record_chunk(10);
    p.record_chunk(5);
    assert_eq!(p.downloaded, 15);
    p.record_chunk(u64::MAX);
    assert_eq!(p.downloaded, u64::MAX);
    assert_eq!(DownloadProgress::new(Some(42)).total, 42);
}
