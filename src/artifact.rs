//! Artifacts fetched over the network (binaries and model weights): where a
//! download lands, how its progress is counted, and when a file at the
//! destination counts as valid. A file is accepted only once it passed the
//! size check and, where a digest is expected, the digest check; a file that
//! is already there and passes both is reused without any network call.

use vstd::prelude::*;
use crate::resolver::TargetOs;
use crate::text::{chars_of, eq_ascii_folded, eq_ignore_ascii_case, string_of};

verus! {

/// What to fetch and what the result must satisfy.
#[derive(Clone, Debug, PartialEq, Eq)]
pub struct ArtifactSpec {
    pub url: String,
    /// Where the file goes.
    pub dest: String,
    /// The SHA-256 digest the file must have, in hexadecimal of either case.
    pub expected_sha256: Option<String>,
    /// The least number of bytes a valid file has.
    pub min_size: Option<u64>,
    /// Whether the file is a program that must be made executable.
    pub executable: bool,
}

/// Why a fetched file was rejected.
#[derive(Clone, Debug, PartialEq, Eq)]
pub enum FetchError {
    /// The file is smaller than the spec's minimum.
    ArtifactTooSmall { actual: u64, minimum: u64 },
    /// The file's digest is not the expected one.
    IntegrityMismatch { computed: String, expected: String },
}

/// The verdict on a file, without the details.
#[derive(Clone, Copy, Debug, PartialEq, Eq, Structural)]
pub enum Verdict {
    Valid,
    TooSmall,
    Mismatch,
}

/// The verdict on a file of `size` bytes whose SHA-256 digest, in lowercase
/// hexadecimal, is `digest`: size first, then digest.
pub open spec fn verdict_spec(spec: ArtifactSpec, size: u64, digest: Seq<char>) -> Verdict {
    if spec.min_size is Some && size < spec.min_size->0 {
        Verdict::TooSmall
    } else if spec.expected_sha256 is Some && !eq_ascii_folded(
        digest,
        spec.expected_sha256->0@,
    ) {
        Verdict::Mismatch
    } else {
        Verdict::Valid
    }
}

/// Whether the file passes every check of the spec.
pub open spec fn artifact_valid(spec: ArtifactSpec, size: u64, digest: Seq<char>) -> bool {
    verdict_spec(spec, size, digest) == Verdict::Valid
}

/// Whether the spec needs the file's digest to judge it.
pub fn needs_digest(spec: &ArtifactSpec) -> (r: bool)
    ensures
        r == spec.expected_sha256 is Some,
{
    spec.expected_sha256.is_some()
}

/// Judges a file of `size` bytes whose SHA-256 digest, in lowercase
/// hexadecimal, is `digest` (ignored where the spec expects none).
pub fn validate_artifact(spec: &ArtifactSpec, size: u64, digest: &str) -> (r: Result<(), FetchError>)
    ensures
        verdict_spec(*spec, size, digest@) == Verdict::Valid <==> r is Ok,
        verdict_spec(*spec, size, digest@) == Verdict::TooSmall <==> r matches Err(
            FetchError::ArtifactTooSmall { .. },
        ),
        verdict_spec(*spec, size, digest@) == Verdict::Mismatch <==> r matches Err(
            FetchError::IntegrityMismatch { .. },
        ),
        r matches Err(FetchError::ArtifactTooSmall { actual, minimum }) ==> actual == size
            && spec.min_size == Some(minimum),
        r matches Err(FetchError::IntegrityMismatch { computed, expected }) ==> computed@
            == digest@ && spec.expected_sha256 is Some && expected@ == spec.expected_sha256->0@,
{
    match spec.min_size {
        Some(m) => {
            if size < m {
                return Err(FetchError::ArtifactTooSmall { actual: size, minimum: m });
            }
        },
        None => {},
    }
    match &spec.expected_sha256 {
        Some(e) => {
            if !eq_ignore_ascii_case(digest, e.as_str()) {
                return Err(
                    FetchError::IntegrityMismatch {
                        computed: String::from_str(digest),
                        expected: e.clone(),
                    },
                );
            }
        },
        None => {},
    }
    Ok(())
}

/// Whether a fetch goes to the network.
#[derive(Clone, Copy, Debug, PartialEq, Eq, Structural)]
pub enum FetchPlan {
    /// The file at the destination is valid: no network call.
    Reuse,
    /// The file is missing or invalid: download it again.
    Download,
}

/// The plan for a destination that holds a file of `existing` bytes (none
/// where there is no file) whose digest is `digest`.
pub open spec fn plan_spec(spec: ArtifactSpec, existing: Option<u64>, digest: Seq<char>) -> FetchPlan {
    if existing is Some && artifact_valid(spec, existing->0, digest) {
        FetchPlan::Reuse
    } else {
        FetchPlan::Download
    }
}

/// Decides whether the file already at the destination can be reused; it
/// is judged again every time, never trusted for merely existing.
pub fn plan_fetch(spec: &ArtifactSpec, existing: Option<u64>, digest: &str) -> (r: FetchPlan)
    ensures
        r == plan_spec(*spec, existing, digest@),
{
    match existing {
        Some(size) => {
            if validate_artifact(spec, size, digest).is_ok() {
                FetchPlan::Reuse
            } else {
                FetchPlan::Download
            }
        },
        None => FetchPlan::Download,
    }
}

/// A file smaller than the spec's minimum is rejected as too small, and a
/// later resolution of the same destination downloads it again instead of
/// accepting it.
pub proof fn lemma_too_small_is_never_accepted(spec: ArtifactSpec, size: u64, digest: Seq<char>)
    requires
        spec.min_size matches Some(m) && size < m,
    ensures
        verdict_spec(spec, size, digest) == Verdict::TooSmall,
        plan_spec(spec, Some(size), digest) == FetchPlan::Download,
{
}

/// With an expected digest, a file whose digest differs is rejected as an
/// integrity mismatch; one whose digest matches (in either case) and that is
/// large enough is accepted, and fetching it again makes no network call.
pub proof fn lemma_digest_decides(spec: ArtifactSpec, size: u64, digest: Seq<char>)
    requires
        spec.expected_sha256 is Some,
        !(spec.min_size matches Some(m) && size < m),
    ensures
        !eq_ascii_folded(digest, spec.expected_sha256->0@) ==> verdict_spec(spec, size, digest)
            == Verdict::Mismatch,
        eq_ascii_folded(digest, spec.expected_sha256->0@) ==> verdict_spec(spec, size, digest)
            == Verdict::Valid && plan_spec(spec, Some(size), digest) == FetchPlan::Reuse,
{
}

/// What follows the last `c` in `s` (all of `s` where there is none).
pub open spec fn after_last(s: Seq<char>, c: char) -> Seq<char>
    decreases s.len(),
{
    if s.len() == 0 {
        s
    } else if s.last() == c {
        Seq::empty()
    } else {
        after_last(s.drop_last(), c).push(s.last())
    }
}

/// What precedes the first `c` in `s` (all of `s` where there is none).
pub open spec fn before_first(s: Seq<char>, c: char) -> Seq<char>
    decreases s.len(),
{
    if s.len() == 0 {
        s
    } else if s[0] == c {
        Seq::empty()
    } else {
        seq![s[0]] + before_first(s.drop_first(), c)
    }
}

/// The file name a download from `url` is stored under: the last path
/// segment without query or fragment, or `model.gguf` where that is empty.
pub open spec fn url_file_name(url: Seq<char>) -> Seq<char> {
    let name = before_first(before_first(after_last(url, '/'), '?'), '#');
    if name.len() == 0 {
        "model.gguf"@
    } else {
        name
    }
}

pub proof fn lemma_before_first_is_prefix(s: Seq<char>, c: char, j: int)
    requires
        0 <= j <= s.len(),
        forall|k: int| 0 <= k < j ==> s[k] != c,
        j == s.len() || s[j] == c,
    ensures
        before_first(s, c) == s.subrange(0, j),
    decreases s.len(),
{
    if s.len() > 0 && j > 0 {
        lemma_before_first_is_prefix(s.drop_first(), c, j - 1);
        assert(seq![s[0]] + s.drop_first().subrange(0, j - 1) =~= s.subrange(0, j));
    } else {
        assert(s.subrange(0, j) =~= Seq::<char>::empty());
    }
}

/// The characters of `cs` before the first `c`.
fn prefix_before(cs: &Vec<char>, c: char) -> (r: Vec<char>)
    ensures
        r@ == before_first(cs@, c),
{
    let mut j: usize = 0;
    while j < cs.len() && cs[j] != c
        invariant
            j <= cs@.len(),
            forall|k: int| 0 <= k < j ==> cs@[k] != c,
        decreases cs@.len() - j,
    {
        j = j + 1;
    }
    proof {
        lemma_before_first_is_prefix(cs@, c, j as int);
    }
    let mut out: Vec<char> = Vec::new();
    let mut i: usize = 0;
    while i < j
        invariant
            j <= cs@.len(),
            i <= j,
            out@ == cs@.subrange(0, i as int),
        decreases j - i,
    {
        out.push(cs[i]);
        i = i + 1;
        assert(out@ =~= cs@.subrange(0, i as int));
    }
    out
}

/// The characters of `cs` after the last `c`.
fn suffix_after(cs: &Vec<char>, c: char) -> (r: Vec<char>)
    ensures
        r@ == after_last(cs@, c),
{
    let mut start: usize = 0;
    let mut i: usize = 0;
    while i < cs.len()
        invariant
            start <= i <= cs@.len(),
            cs@.subrange(start as int, i as int) == after_last(cs@.subrange(0, i as int), c),
        decreases cs@.len() - i,
    {
        proof {
            assert(cs@.subrange(0, i + 1).drop_last() =~= cs@.subrange(0, i as int));
        }
        if cs[i] == c {
            start = i + 1;
            assert(cs@.subrange(start as int, i + 1) =~= Seq::<char>::empty());
        } else {
            assert(cs@.subrange(start as int, i + 1) =~= cs@.subrange(start as int, i as int).push(
                cs@[i as int],
            ));
        }
        i = i + 1;
    }
    assert(cs@.subrange(0, cs@.len() as int) =~= cs@);
    let mut out: Vec<char> = Vec::new();
    let mut k: usize = start;
    while k < cs.len()
        invariant
            start <= k <= cs@.len(),
            out@ == cs@.subrange(start as int, k as int),
        decreases cs@.len() - k,
    {
        out.push(cs[k]);
        k = k + 1;
        assert(out@ =~= cs@.subrange(start as int, k as int));
    }
    out
}

/// The file name a download from `url` is stored under.
pub fn file_name_from_url(url: &str) -> (r: String)
    ensures
        r@ == url_file_name(url@),
{
    let cs = chars_of(url);
    let segment = suffix_after(&cs, '/');
    let no_query = prefix_before(&segment, '?');
    let name = prefix_before(&no_query, '#');
    if name.len() == 0 {
        String::from_str("model.gguf")
    } else {
        string_of(&name)
    }
}

/// The least size of a valid model weights file: 100 MiB.
pub const MODEL_MIN_SIZE: u64 = 100 * 1024 * 1024;

/// The least size of a valid inference server binary: 100 KiB.
pub const SERVER_BINARY_MIN_SIZE: u64 = 100 * 1024;

/// Model weights from `url`, stored at `dest`, at least 100 MiB and with
/// the given digest where there is one.
pub fn model_artifact(url: String, expected_sha256: Option<String>, dest: String) -> (r: ArtifactSpec)
    ensures
        r == (ArtifactSpec {
            url,
            dest,
            expected_sha256,
            min_size: Some(MODEL_MIN_SIZE),
            executable: false,
        }),
{
    ArtifactSpec { url, dest, expected_sha256, min_size: Some(MODEL_MIN_SIZE), executable: false }
}

/// The inference server binary's file name on the platform.
pub fn server_binary_name(os: TargetOs) -> (r: &'static str)
    ensures
        os == TargetOs::Windows ==> r@ == "llama-server.exe"@,
        os != TargetOs::Windows ==> r@ == "llama-server"@,
{
    match os {
        TargetOs::Windows => "llama-server.exe",
        _ => "llama-server",
    }
}

/// Where the inference server binary for the platform is published.
pub open spec fn server_binary_url_spec(os: TargetOs) -> Seq<char> {
    match os {
        TargetOs::MacOs => "https://github.com/ggerganov/llama.cpp/releases/download/b3289/llama-server-macos-universal"@,
        TargetOs::Windows => "https://github.com/ggerganov/llama.cpp/releases/download/b3289/llama-server.exe"@,
        TargetOs::Other => "https://github.com/ggerganov/llama.cpp/releases/download/b3289/llama-server"@,
    }
}

/// Where the inference server binary for the platform is published.
pub fn server_binary_default_url(os: TargetOs) -> (r: &'static str)
    ensures
        r@ == server_binary_url_spec(os),
{
    match os {
        TargetOs::MacOs => "https://github.com/ggerganov/llama.cpp/releases/download/b3289/llama-server-macos-universal",
        TargetOs::Windows => "https://github.com/ggerganov/llama.cpp/releases/download/b3289/llama-server.exe",
        TargetOs::Other => "https://github.com/ggerganov/llama.cpp/releases/download/b3289/llama-server",
    }
}

/// The inference server binary: from the configured URL, else the
/// platform's published one; executable, at least 100 KiB.
pub fn server_binary_artifact(url_override: Option<String>, os: TargetOs, dest: String) -> (r:
    ArtifactSpec)
    ensures
        r.url@ == match url_override {
            Some(u) => u@,
            None => server_binary_url_spec(os),
        },
        r.dest == dest,
        r.expected_sha256 is None,
        r.min_size == Some(SERVER_BINARY_MIN_SIZE),
        r.executable,
{
    let url = match url_override {
        Some(u) => u,
        None => String::from_str(server_binary_default_url(os)),
    };
    ArtifactSpec { url, dest, expected_sha256: None, min_size: Some(SERVER_BINARY_MIN_SIZE), executable: true }
}

/// A weights file rejected as too small for a model is never selected by a
/// later resolution that applies the model minimum.
pub proof fn lemma_too_small_weights_are_not_eligible(
    f: crate::resolver::WeightsCandidate,
    url: String,
    dest: String,
    expected_sha256: Option<String>,
    digest: Seq<char>,
)
    requires
        verdict_spec(
            ArtifactSpec { url, dest, expected_sha256, min_size: Some(MODEL_MIN_SIZE), executable: false },
            f.size,
            digest,
        ) == Verdict::TooSmall,
    ensures
        !crate::resolver::weights_eligible(f, MODEL_MIN_SIZE),
{
}

/// Download progress: bytes so far, and the total where the server gave one
/// (zero where it is unknown).
#[derive(Clone, Copy, Debug, PartialEq, Eq, Structural)]
pub struct DownloadProgress {
    pub downloaded: u64,
    pub total: u64,
}

impl DownloadProgress {
    /// Nothing downloaded yet.
    pub fn new(total: Option<u64>) -> (r: DownloadProgress)
        ensures
            r.downloaded == 0,
            r.total == match total {
                Some(t) => t,
                None => 0,
            },
    {
        DownloadProgress {
            downloaded: 0,
            total: match total {
                Some(t) => t,
                None => 0,
            },
        }
    }

    /// Counts a chunk of `len` bytes; the count saturates at `u64::MAX`.
    pub fn record_chunk(&mut self, len: u64)
        ensures
            final(self).total == old(self).total,
            final(self).downloaded as int == if old(self).downloaded + len > u64::MAX {
                u64::MAX as int
            } else {
                old(self).downloaded + len
            },
    {
        self.downloaded = self.downloaded.saturating_add(len);
    }
}

} // verus!
