use audio_fetch::invoke::{
    build_version_args, choose_title, expected_paths, join_path, normalize_separators_str,
};

#[test]
fn successful_probe_title_is_trimmed() {
    assert_eq!(choose_title(true, "  My Title \n"), "My Title");
}

#[test]
fn failed_probe_falls_back_to_placeholder() {
    assert_eq!(choose_title(false, "whatever was printed"), "Unknown Title");
}

#[test]
fn version_probe_has_one_flag() {
    assert_eq!(build_version_args(), vec!["--version"]);
}

#[test]
fn join_inserts_separator_only_when_needed() {
    assert_eq!(join_path("out", "a.mp3"), "out/a.mp3");
    assert_eq!(join_path("out/", "a.mp3"), "out/a.mp3");
    assert_eq!(join_path("out\\", "a.mp3"), "out\\a.mp3");
    assert_eq!(join_path("", "a.mp3"), "a.mp3");
}

#[test]
fn expected_paths_carry_both_extensions() {
    let (primary, fallback) = expected_paths("music", "Song_ Name");
    assert_eq!(primary, "music/Song_ Name.mp3");
    assert_eq!(fallback, "music/Song_ Name.mp4");
}

#[test]
fn separators_normalize_both_ways() {
    assert_eq!(normalize_separators_str("a\\b/c", false), "a/b/c");
    assert_eq!(normalize_separators_str("a\\b/c", true), "a\\b\\c");
}
