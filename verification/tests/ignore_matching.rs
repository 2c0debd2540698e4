use ddc_shob::error::DeployError;
use ddc_shob::ignore::{
    default_patterns, effective_patterns, expand_dir_pattern, normalize_root, trim_spaces,
    IgnoreSet,
};

fn normalized(raws: &[&str]) -> Vec<String> {
    raws.iter()
        .map(|r| expand_dir_pattern(normalize_root(r), false))
        .collect()
}

#[test]
fn trim_strips_surrounding_whitespace_only() {
    assert_eq!(trim_spaces("  *.pem \t"), "*.pem");
    assert_eq!(trim_spaces("a b"), "a b");
    assert_eq!(trim_spaces("   "), "");
    assert_eq!(trim_spaces(""), "");
    assert_eq!(trim_spaces("\n.git/*\r\n"), ".git/*");
}

#[test]
fn trim_covers_unicode_white_space() {
    assert_eq!(trim_spaces("\u{a0}\u{2003}target \u{85}"), "target");
    assert_eq!(trim_spaces("\u{3000}*.pem\u{2028}"), "*.pem");
    assert_eq!(trim_spaces("\u{200b}x"), "\u{200b}x");
}

#[test]
fn normalize_roots_patterns_at_the_project_directory() {
    assert_eq!(normalize_root("*.pem"), "./*.pem");
    assert_eq!(normalize_root("/secrets"), "./secrets");
    assert_eq!(normalize_root("./target"), "./target");
    assert_eq!(normalize_root("  .git/*  "), "./.git/*");
}

#[test]
fn directory_patterns_cover_their_contents() {
    assert_eq!(expand_dir_pattern("./node_modules".to_string(), true), "./node_modules/*");
    assert_eq!(expand_dir_pattern("./*.pem".to_string(), false), "./*.pem");
}

#[test]
fn default_patterns_cover_keys_vcs_build_and_archives() {
    let d = default_patterns();
    assert_eq!(d, vec!["*.pem", ".git/*", "_build/*", "*.tar.gz"]);
}

#[test]
fn ignore_file_lines_replace_defaults_entirely() {
    let lines = vec![
        "".to_string(),
        "# keys".to_string(),
        " *.pem ".to_string(),
        "\t".to_string(),
        "data".to_string(),
    ];
    let chosen = effective_patterns(Some(lines));
    assert_eq!(chosen, vec![" *.pem ", "data"]);
    let fallback = effective_patterns(None);
    assert_eq!(fallback, default_patterns());
}

#[test]
fn invalid_pattern_is_a_pattern_error() {
    let r = IgnoreSet::build(normalized(&["[unclosed"]));
    match r {
        Err(DeployError::PatternError(_)) => {},
        _ => panic!("an invalid glob must be rejected as PatternError"),
    }
}

#[test]
fn matcher_matches_exactly_the_ignored_files() {
    let set = IgnoreSet::build(normalized(&["*.pem", ".git/*"])).unwrap();
    assert!(set.is_match("./key.pem"));
    assert!(set.is_match("./.git/config"));
    assert!(!set.is_match("./app/main.py"));
    assert!(!set.is_match("./readme.md"));
}

#[test]
fn directory_pattern_matches_whole_subtree() {
    let set = IgnoreSet::build(vec![
        expand_dir_pattern(normalize_root("node_modules"), true),
    ])
    .unwrap();
    assert!(set.is_match("./node_modules/left-pad/index.js"));
    assert!(set.is_match("./node_modules/a"));
    assert!(!set.is_match("./src/node_modules.rs"));
}
