use std::io::Write;

use runtime_supervisor::artifact::MODEL_MIN_SIZE;

use runtime_supervisor::resolver::{
    bundle_plan, daemon_binary_candidates, first_usable, is_weights_file, select_largest_weights,
    unpack_bundled, BundlePlan, TargetOs, WeightsCandidate,
};

const MB: u64 = 1024 * 1024;

fn weights(name: &str, size: u64) -> WeightsCandidate {
    WeightsCandidate { file_name: name.to_string(), path: format!("/m/{}", name), size }
}

#[test]
fn largest_weights_file_is_selected() {
    let files = vec![weights("a.gguf", 10 * MB), weights("b.gguf", 250 * MB), weights("c.gguf", 90 * MB)];
    let i = select_largest_weights(&files, 0).unwrap();
    assert_eq!(files[i].path, "/m/b.gguf");
    assert_eq!(files[i].size, 250 * MB);
}

#[test]
fn equal_sizes_keep_the_first_seen() {
    let files = vec![weights("x.txt", 500 * MB), weights("a.gguf", 190 * MB), weights("b.gguf", 190 * MB)];
    assert_eq!(select_largest_weights(&files, MODEL_MIN_SIZE), Some(1));
}

#[test]
fn files_without_the_extension_are_ignored() {
    let files = vec![weights("a.bin", 10), weights(".gguf", 20), weights("gguf", 30)];
    assert_eq!(select_largest_weights(&files, 0), None);
    assert_eq!(select_largest_weights(&Vec::new(), 0), None);
}

#[test]
fn weights_extension_needs_a_stem() {
    assert!(is_weights_file("m.gguf"));
    assert!(!is_weights_file(".gguf"));
    assert!(!is_weights_file("m.gguf.part"));
    assert!(!is_weights_file("m.GGUF"));
}

#[test]
fn first_usable_candidate_wins() {
    assert_eq!(first_usable(&vec![false, true, true]), Some(1));
    assert_eq!(first_usable(&vec![false, false]), None);
    assert_eq!(first_usable(&Vec::new()), None);
}

#[test]
fn daemon_candidates_in_priority_order() {
    let bundled = vec!["/data/bin/ollama".to_string()];
    let c = daemon_binary_candidates(None, &bundled, TargetOs::Other, "/home/u");
    assert_eq!(
        c,
        vec!["ollama", "/opt/homebrew/bin/ollama", "/usr/local/bin/ollama", "/usr/bin/ollama", "/data/bin/ollama"]
    );
}

#[test]
fn daemon_candidates_on_macos_add_the_companion_app() {
    let c = daemon_binary_candidates(Some("/custom/ollama"), &Vec::new(), TargetOs::MacOs, "/Users/u");
    assert_eq!(c.len(), 6);
    assert_eq!(c[0], "/custom/ollama");
    assert_eq!(c[4], "/Applications/Ollama.app/Contents/MacOS/ollama");
    assert_eq!(c[5], "/Users/u/Applications/Ollama.app/Contents/MacOS/ollama");
    let c = daemon_binary_candidates(None, &Vec::new(), TargetOs::MacOs, "");
    assert_eq!(c.len(), 5);
}

#[test]
fn bundle_is_unpacked_once() {
    assert_eq!(bundle_plan(false, false), BundlePlan::NoBundle);
    assert_eq!(bundle_plan(true, false), BundlePlan::Unpack);
    assert_eq!(bundle_plan(true, true), BundlePlan::UseUnpacked);
}

#[test]
fn bundled_archive_is_decompressed() {
    let mut enc = flate2::write::GzEncoder::new(Vec::new(), flate2::Compression::default());
    enc.write_all(b"binary payload").unwrap();
    let archive = enc.finish().unwrap();
    assert_eq!(unpack_bundled(&archive), Some(b"binary payload".to_vec()));
}

#[test]
fn malformed_archive_is_refused() {
    assert_eq!(unpack_bundled(b"not gzip at all"), None);
}

#[test]
fn weights_below_the_minimum_are_never_selected() {
    let files = vec![weights("m.gguf", 50 * MB)];
    assert_eq!(select_largest_weights(&files, MODEL_MIN_SIZE), None);
    let files = vec![weights("partial.gguf", 99 * MB), weights("ok.gguf", 100 * MB)];
    assert_eq!(select_largest_weights(&files, MODEL_MIN_SIZE), Some(1));
    let files = vec![weights("a.gguf", 10 * MB), weights("b.gguf", 250 * MB), weights("c.gguf", 90 * MB)];
    assert_eq!(select_largest_weights(&files, MODEL_MIN_SIZE), Some(1));
}
