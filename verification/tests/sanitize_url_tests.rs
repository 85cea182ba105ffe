use audio_fetch::sanitize::sanitize_filename;
use audio_fetch::url::canonicalize_url;

#[test]
fn sanitize_replaces_each_forbidden_character() {
    assert_eq!(sanitize_filename("a<b>c:d\"e/f\\g|h?i*j"), "a_b_c_d_e_f_g_h_i_j");
}

#[test]
fn sanitize_keeps_length() {
    let input = "My Song: Live/Remix";
    let output = sanitize_filename(input);
    assert_eq!(input.chars().count(), output.chars().count());
}

#[test]
fn sanitize_title_scenario() {
    assert_eq!(sanitize_filename("My Song: Live/Remix"), "My Song_ Live_Remix");
}

#[test]
fn sanitize_passes_safe_titles_unchanged() {
    assert_eq!(sanitize_filename("plain title 123"), "plain title 123");
}

#[test]
fn sanitize_keeps_non_ascii() {
    assert_eq!(sanitize_filename("ünïcødé: okay"), "ünïcødé_ okay");
}

#[test]
fn sanitize_empty_title() {
    assert_eq!(sanitize_filename(""), "");
}

#[test]
fn sanitize_is_idempotent() {
    let once = sanitize_filename("My Song: Live/Remix");
    let twice = sanitize_filename(&once);
    assert_eq!(once, twice);
}

#[test]
fn canonical_url_cuts_at_first_separator() {
    let url = canonicalize_url("https://youtu.be/watch?v=abc123&list=xyz\n");
    assert_eq!(url, "https://www.youtube.com/watch?v=abc123");
}

#[test]
fn canonical_url_cuts_at_space_and_newline() {
    assert_eq!(
        canonicalize_url("see v=idone more"),
        "https://www.youtube.com/watch?v=idone"
    );
    assert_eq!(
        canonicalize_url("v=lineone\nsecond"),
        "https://www.youtube.com/watch?v=lineone"
    );
}

#[test]
fn canonical_url_trims_identifier_without_separator() {
    let url = canonicalize_url("https://www.youtube.com/watch?v=tail123  ");
    assert_eq!(url, "https://www.youtube.com/watch?v=tail123");
}

#[test]
fn canonical_url_fallback_takes_first_line() {
    let url = canonicalize_url("  https://example.com/clip\nsecond line\n");
    assert_eq!(url, "https://example.com/clip");
}

#[test]
fn canonical_url_fallback_trims_whole_input() {
    let url = canonicalize_url("   https://example.com/only   ");
    assert_eq!(url, "https://example.com/only");
}
