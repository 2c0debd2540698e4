use std::io::Read;

use ddc_shob::archive::{archive_file_name, package, SourceEntry};
use ddc_shob::ignore::{expand_dir_pattern, normalize_root, IgnoreSet};

fn file(path: &str, data: &[u8]) -> SourceEntry {
    SourceEntry { path: path.to_string(), is_dir: false, data: data.to_vec() }
}

fn dir(path: &str) -> SourceEntry {
    SourceEntry { path: path.to_string(), is_dir: true, data: Vec::new() }
}

fn ignore_set(raws: &[&str], dirs: &[bool]) -> IgnoreSet {
    let patterns: Vec<String> = raws
        .iter()
        .zip(dirs.iter())
        .map(|(r, d)| expand_dir_pattern(normalize_root(r), *d))
        .collect();
    IgnoreSet::build(patterns).unwrap()
}

fn unpack(bytes: &[u8]) -> Vec<(String, Vec<u8>)> {
    let decoder = flate2::read::GzDecoder::new(bytes);
    let mut archive = tar::Archive::new(decoder);
    let mut out = Vec::new();
    for entry in archive.entries().unwrap() {
        let mut entry = entry.unwrap();
        let name = entry.path().unwrap().to_str().unwrap().to_string();
        let mut data = Vec::new();
        entry.read_to_end(&mut data).unwrap();
        out.push((name, data));
    }
    out
}

#[test]
fn archive_holds_only_the_unignored_file() {
    let set = ignore_set(&["*.pem", ".git/*"], &[false, false]);
    let entries = vec![
        file("./key.pem", b"private key bytes"),
        dir("./.git"),
        file("./.git/config", b"[core]"),
        dir("./app"),
        file("./app/main.py", b"print('hi')\n"),
    ];
    let bytes = package(&entries, &set).unwrap();
    let contents = unpack(&bytes);
    assert_eq!(contents.len(), 1);
    assert_eq!(contents[0].0, "build/app/main.py");
    assert_eq!(contents[0].1, b"print('hi')\n");
}

#[test]
fn files_keep_their_bytes_and_relative_paths() {
    let set = ignore_set(&["*.tar.gz"], &[false]);
    let entries = vec![
        file("./a.txt", b"alpha"),
        dir("./nested"),
        file("./nested/b.bin", &[0u8, 1, 2, 255, 254]),
        file("./old.tar.gz", b"not this one"),
    ];
    let bytes = package(&entries, &set).unwrap();
    let contents = unpack(&bytes);
    assert_eq!(contents.len(), 2);
    assert_eq!(contents[0].0, "build/a.txt");
    assert_eq!(contents[0].1, b"alpha");
    assert_eq!(contents[1].0, "build/nested/b.bin");
    assert_eq!(contents[1].1, vec![0u8, 1, 2, 255, 254]);
}

#[test]
fn directory_pattern_excludes_the_whole_subtree() {
    let set = ignore_set(&["sub"], &[true]);
    let entries = vec![
        dir("./sub"),
        file("./sub/x.txt", b"x"),
        dir("./sub/deep"),
        file("./sub/deep/y.txt", b"y"),
        file("./keep.txt", b"kept"),
    ];
    let bytes = package(&entries, &set).unwrap();
    let contents = unpack(&bytes);
    assert_eq!(contents.len(), 1);
    assert_eq!(contents[0].0, "build/keep.txt");
    assert_eq!(contents[0].1, b"kept");
}

#[test]
fn empty_selection_still_yields_a_valid_archive() {
    let set = ignore_set(&["*.log"], &[false]);
    let entries = vec![file("./run.log", b"gone")];
    let bytes = package(&entries, &set).unwrap();
    assert!(unpack(&bytes).is_empty());
}

#[test]
fn archive_names_are_fresh_and_well_formed() {
    let a = archive_file_name();
    let b = archive_file_name();
    assert_eq!(a.len(), 45);
    assert!(a.starts_with("build_"));
    assert!(a.ends_with(".tar.gz"));
    assert_ne!(a, b);
}
