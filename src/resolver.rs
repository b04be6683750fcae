//! Location resolution: ordered candidate lists evaluated first-usable-wins,
//! the choice of the largest local weights file, and the one-time
//! decompression of a bundled daemon binary.

use vstd::prelude::*;

verus! {

/// The platform the program runs on, where it changes a candidate list.
#[derive(Clone, Copy, Debug, PartialEq, Eq, Structural)]
pub enum TargetOs {
    MacOs,
    Windows,
    Other,
}

/// The views of a list of strings.
pub open spec fn views(v: Seq<String>) -> Seq<Seq<char>> {
    v.map_values(|s: String| s@)
}

/// Picks the first usable candidate of a list evaluated in priority order.
pub fn first_usable(usable: &Vec<bool>) -> (r: Option<usize>)
    ensures
        r is None <==> forall|k: int| 0 <= k < usable@.len() ==> !usable@[k],
        r matches Some(i) ==> i < usable@.len() && usable@[i as int] && forall|k: int|
            0 <= k < i ==> !usable@[k],
{
    let mut i: usize = 0;
    while i < usable.len()
        invariant
            i <= usable@.len(),
            forall|k: int| 0 <= k < i ==> !usable@[k],
        decreases usable@.len() - i,
    {
        if usable[i] {
            return Some(i);
        }
        i = i + 1;
    }
    None
}

/// The extension that local weights files carry.
pub open spec fn weights_extension() -> Seq<char> {
    seq!['g', 'g', 'u', 'f']
}

/// Whether a file name has the weights extension: it ends in `.gguf` after
/// a non-empty stem.
pub open spec fn is_weights_name(name: Seq<char>) -> bool {
    name.len() > 5 && name.subrange(name.len() - 5, name.len() as int) == seq!['.'] + weights_extension()
}

/// A file seen while scanning the known weights directories.
#[derive(Clone, Debug, PartialEq, Eq)]
pub struct WeightsCandidate {
    /// The file's name within its directory.
    pub file_name: String,
    /// The file's full path.
    pub path: String,
    /// Its size in bytes.
    pub size: u64,
}

/// Whether the file name carries the weights extension.
pub fn is_weights_file(name: &str) -> (r: bool)
    ensures
        r == is_weights_name(name@),
{
    let cs = crate::text::chars_of(name);
    let n = cs.len();
    if n <= 5 {
        return false;
    }
    let r = cs[n - 5] == '.' && cs[n - 4] == 'g' && cs[n - 3] == 'g' && cs[n - 2] == 'u' && cs[n
        - 1] == 'f';
    proof {
        let tail = name@.subrange(n - 5, n as int);
        if r {
            assert(tail =~= seq!['.'] + weights_extension());
        } else {
            if tail == seq!['.'] + weights_extension() {
                assert(tail[0] == '.' && tail[1] == 'g' && tail[2] == 'g' && tail[3] == 'u' && tail[4]
                    == 'f');
            }
        }
    }
    r
}

/// Whether a scanned file may serve as model weights: it has the weights
/// extension and at least `min_size` bytes, so a partial or truncated file
/// is never taken for a usable one.
pub open spec fn weights_eligible(f: WeightsCandidate, min_size: u64) -> bool {
    is_weights_name(f.file_name@) && f.size >= min_size
}

/// Index of the largest eligible weights file, the first seen among equals;
/// files smaller than `min_size` are skipped.
pub fn select_largest_weights(files: &Vec<WeightsCandidate>, min_size: u64) -> (r: Option<usize>)
    ensures
        r is None <==> forall|k: int| 0 <= k < files@.len() ==> !weights_eligible(files@[k], min_size),
        r matches Some(i) ==> {
            &&& i < files@.len()
            &&& weights_eligible(files@[i as int], min_size)
            &&& files@[i as int].size >= min_size
            &&& forall|k: int|
                0 <= k < files@.len() && weights_eligible(files@[k], min_size) ==> files@[k].size
                    <= files@[i as int].size
            &&& forall|k: int|
                0 <= k < i && weights_eligible(files@[k], min_size) ==> files@[k].size
                    < files@[i as int].size
        },
{
    let mut best: Option<usize> = None;
    let mut i: usize = 0;
    while i < files.len()
        invariant
            i <= files@.len(),
            best is None <==> forall|k: int| 0 <= k < i ==> !weights_eligible(files@[k], min_size),
            best matches Some(b) ==> {
                &&& b < i
                &&& weights_eligible(files@[b as int], min_size)
                &&& forall|k: int|
                    0 <= k < i && weights_eligible(files@[k], min_size) ==> files@[k].size
                        <= files@[b as int].size
                &&& forall|k: int|
                    0 <= k < b && weights_eligible(files@[k], min_size) ==> files@[k].size
                        < files@[b as int].size
            },
        decreases files@.len() - i,
    {
        if files[i].size >= min_size && is_weights_file(files[i].file_name.as_str()) {
            match best {
                None => {
                    best = Some(i);
                },
                Some(b) => {
                    if files[i].size > files[b].size {
                        best = Some(i);
                    }
                },
            }
        }
        i = i + 1;
    }
    best
}

/// Index of the first eligible weights file, in scanning order.
pub fn first_eligible_weights(files: &Vec<WeightsCandidate>, min_size: u64) -> (r: Option<usize>)
    ensures
        r is None <==> forall|k: int| 0 <= k < files@.len() ==> !weights_eligible(files@[k], min_size),
        r matches Some(i) ==> i < files@.len() && weights_eligible(files@[i as int], min_size)
            && files@[i as int].size >= min_size && forall|k: int|
            0 <= k < i ==> !weights_eligible(files@[k], min_size),
{
    let mut i: usize = 0;
    while i < files.len()
        invariant
            i <= files@.len(),
            forall|k: int| 0 <= k < i ==> !weights_eligible(files@[k], min_size),
        decreases files@.len() - i,
    {
        if files[i].size >= min_size && is_weights_file(files[i].file_name.as_str()) {
            return Some(i);
        }
        i = i + 1;
    }
    None
}

/// The daemon binary inside the companion application bundle.
pub open spec fn companion_binary() -> Seq<char> {
    "/Applications/Ollama.app/Contents/MacOS/ollama"@
}

/// Daemon binaries in priority order: the configured override (else the
/// bare command name, resolved through the search path), the well-known
/// install directories, the bundled binaries that exist, and on macOS the
/// companion application's binary, system-wide then in the user's home.
pub open spec fn daemon_candidates_spec(
    env_override: Option<Seq<char>>,
    bundled: Seq<Seq<char>>,
    os: TargetOs,
    home: Seq<char>,
) -> Seq<Seq<char>> {
    let first = match env_override {
        Some(p) => p,
        None => "ollama"@,
    };
    let fixed = seq![first, "/opt/homebrew/bin/ollama"@, "/usr/local/bin/ollama"@, "/usr/bin/ollama"@]
        + bundled;
    if os == TargetOs::MacOs {
        if home.len() > 0 {
            fixed.push(companion_binary()).push(home + companion_binary())
        } else {
            fixed.push(companion_binary())
        }
    } else {
        fixed
    }
}

/// The daemon binaries to try, in priority order; rebuilt on every call.
pub fn daemon_binary_candidates(
    env_override: Option<&str>,
    bundled: &Vec<String>,
    os: TargetOs,
    home: &str,
) -> (r: Vec<String>)
    ensures
        views(r@) == daemon_candidates_spec(
            match env_override {
                Some(p) => Some(p@),
                None => None,
            },
            views(bundled@),
            os,
            home@,
        ),
{
    let mut v: Vec<String> = Vec::new();
    match env_override {
        Some(p) => v.push(String::from_str(p)),
        None => v.push(String::from_str("ollama")),
    }
    v.push(String::from_str("/opt/homebrew/bin/ollama"));
    v.push(String::from_str("/usr/local/bin/ollama"));
    v.push(String::from_str("/usr/bin/ollama"));
    let ghost first = match env_override {
        Some(p) => p@,
        None => "ollama"@,
    };
    let ghost prefix = seq![
        first,
        "/opt/homebrew/bin/ollama"@,
        "/usr/local/bin/ollama"@,
        "/usr/bin/ollama"@,
    ];
    assert(views(v@) =~= prefix);
    let mut i: usize = 0;
    while i < bundled.len()
        invariant
            i <= bundled@.len(),
            views(v@) == prefix + views(bundled@.subrange(0, i as int)),
        decreases bundled@.len() - i,
    {
        let ghost before = v@;
        v.push(bundled[i].clone());
        i = i + 1;
        assert(views(v@) =~= views(before).push(bundled@[i - 1]@));
        assert(views(bundled@.subrange(0, i as int)) =~= views(bundled@.subrange(0, i - 1)).push(
            bundled@[i - 1]@,
        ));
        assert(views(v@) =~= prefix + views(bundled@.subrange(0, i as int)));
    }
    assert(bundled@.subrange(0, bundled@.len() as int) =~= bundled@);
    let ghost fixed = views(v@);
    if os == TargetOs::MacOs {
        v.push(String::from_str("/Applications/Ollama.app/Contents/MacOS/ollama"));
        assert(views(v@) =~= fixed.push(companion_binary()));
        if !home.is_empty() {
            let ghost with_app = views(v@);
            let mut h = String::from_str(home);
            h.append("/Applications/Ollama.app/Contents/MacOS/ollama");
            v.push(h);
            assert(views(v@) =~= with_app.push(home@ + companion_binary()));
        }
    }
    v
}

/// What a gzip decoder yields for `data`: the decoded bytes of its first
/// gzip member, or nothing where that member is malformed.
pub uninterp spec fn gunzip_of(data: Seq<u8>) -> Option<Seq<u8>>;

/// Relies on `flate2::read::GzDecoder` read to the end: the decoded bytes of
/// the first gzip member, or an error where it is malformed.
#[verifier::external_body]
fn gunzip(data: &[u8]) -> (r: Option<Vec<u8>>)
    ensures
        r matches Some(v) ==> gunzip_of(data@) == Some(v@),
        r is None ==> gunzip_of(data@) is None,
{
    let mut decoder = flate2::read::GzDecoder::new(data);
    let mut out = Vec::new();
    match std::io::Read::read_to_end(&mut decoder, &mut out) {
        Ok(_) => Some(out),
        Err(_) => None,
    }
}

/// What to do with a daemon binary bundled in compressed form.
#[derive(Clone, Copy, Debug, PartialEq, Eq, Structural)]
pub enum BundlePlan {
    /// Nothing is bundled.
    NoBundle,
    /// It was unpacked before: use the unpacked copy.
    UseUnpacked,
    /// Unpack it once into the writable data directory.
    Unpack,
}

/// Decides whether the bundled archive must be unpacked.
pub fn bundle_plan(archive_present: bool, unpacked_present: bool) -> (r: BundlePlan)
    ensures
        !archive_present ==> r == BundlePlan::NoBundle,
        archive_present && unpacked_present ==> r == BundlePlan::UseUnpacked,
        archive_present && !unpacked_present ==> r == BundlePlan::Unpack,
{
    if !archive_present {
        BundlePlan::NoBundle
    } else if unpacked_present {
        BundlePlan::UseUnpacked
    } else {
        BundlePlan::Unpack
    }
}

/// The bundled daemon binary, decompressed from its gzip archive.
pub fn unpack_bundled(archive: &[u8]) -> (r: Option<Vec<u8>>)
    ensures
        r is Some <==> gunzip_of(archive@) is Some,
        r matches Some(v) ==> gunzip_of(archive@) == Some(v@),
{
    gunzip(archive)
}

} // verus!
