use audio_fetch::classify::{classify_output, Classification};

#[test]
fn exit_success_proceeds() {
    assert!(matches!(classify_output(true, "", ""), Classification::Proceed));
}

#[test]
fn completion_marker_overrides_exit_failure() {
    let c = classify_output(false, "[download] 100% of 3.1MiB", "some error");
    assert!(matches!(c, Classification::Proceed));
}

#[test]
fn destination_line_overrides_exit_failure() {
    let c = classify_output(false, "[download] Destination: out/My Song.mp3", "boom");
    assert!(matches!(c, Classification::Proceed));
}

#[test]
fn forbidden_diagnostic_is_terminal() {
    let c = classify_output(false, "", "HTTP Error 403: Forbidden");
    match c {
        Classification::Terminal(m) => {
            assert!(m.contains("403 Forbidden"));
            assert!(m.contains("Wait a few minutes and try again"));
            assert!(m.contains("HTTP Error 403: Forbidden"));
        }
        _ => panic!("expected a terminal classification"),
    }
}

#[test]
fn extraction_diagnostic_asks_for_update() {
    let c = classify_output(false, "", "ERROR: Failed to extract player response");
    match c {
        Classification::Terminal(m) => {
            assert!(m.contains("yt-dlp needs to be updated"));
            assert!(m.contains("Failed to extract"));
        }
        _ => panic!("expected a terminal classification"),
    }
}

#[test]
fn missing_converter_is_deferred() {
    let c = classify_output(false, "", "ERROR: ffmpeg not found. Please install");
    assert!(matches!(c, Classification::Deferred));
    let c2 = classify_output(false, "", "ffprobe is missing");
    assert!(matches!(c2, Classification::Deferred));
}

#[test]
fn unknown_diagnostic_is_generic() {
    let c = classify_output(false, "", "something odd happened");
    match c {
        Classification::Terminal(m) => {
            assert_eq!(
                m,
                "yt-dlp error: something odd happened\n\nTry updating yt-dlp: winget upgrade yt-dlp"
            );
        }
        _ => panic!("expected a terminal classification"),
    }
}

#[test]
fn forbidden_takes_precedence_over_converter() {
    let c = classify_output(false, "", "403 while talking to ffmpeg");
    assert!(matches!(c, Classification::Terminal(_)));
}
