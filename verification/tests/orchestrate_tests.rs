use audio_fetch::orchestrate::{Action, Event, Orchestrator};
use audio_fetch::poll::{CandidateFile, PollObservation};

fn started(url: &str, dir: &str) -> (Orchestrator, Action) {
    let mut o = Orchestrator::new(url, dir, false);
    let a = o.step(Event::ToolChecked { available: true });
    (o, a)
}

fn probed(url: &str, dir: &str, title: &str) -> (Orchestrator, Action) {
    let (mut o, _probe) = started(url, dir);
    let a = o.step(Event::TitleProbed {
        exit_ok: true,
        stdout: String::from(title),
    });
    (o, a)
}

#[test]
fn missing_tool_finishes_with_install_hint() {
    let mut o = Orchestrator::new("v=abc", "out", false);
    match o.step(Event::ToolChecked { available: false }) {
        Action::Finish { result } => {
            assert!(!result.success);
            assert!(result.title.is_none());
            assert!(result.path.is_none());
            let e = result.error.expect("an error message");
            assert!(e.starts_with("yt-dlp not found."));
        }
        _ => panic!("expected an immediate finish"),
    }
}

#[test]
fn probe_arguments_use_canonical_url() {
    let (_o, a) = started("https://youtu.be/watch?v=abc123&list=xyz\n", "out");
    match a {
        Action::ProbeTitle { args } => {
            assert_eq!(
                args,
                vec![
                    "--print",
                    "%(title)s",
                    "--no-playlist",
                    "--no-warnings",
                    "--extractor-args",
                    "youtube:player_client=android",
                    "https://www.youtube.com/watch?v=abc123",
                ]
            );
        }
        _ => panic!("expected the title probe"),
    }
}

#[test]
fn download_arguments_carry_template_and_retries() {
    let (o, a) = probed("v=abc123", "out", "My Song: Live/Remix\n");
    assert_eq!(o.title, "My Song: Live/Remix");
    assert_eq!(o.primary_path, "out/My Song_ Live_Remix.mp3");
    assert_eq!(o.fallback_path, "out/My Song_ Live_Remix.mp4");
    match a {
        Action::RunDownload { args } => {
            assert_eq!(
                args,
                vec![
                    "--extract-audio",
                    "--audio-format",
                    "mp3",
                    "--audio-quality",
                    "192K",
                    "-o",
                    "out/%(title)s.%(ext)s",
                    "--no-playlist",
                    "--no-warnings",
                    "--extractor-args",
                    "youtube:player_client=android",
                    "--retries",
                    "3",
                    "--fragment-retries",
                    "3",
                    "--file-access-retries",
                    "3",
                    "https://www.youtube.com/watch?v=abc123",
                ]
            );
        }
        _ => panic!("expected the download run"),
    }
}

#[test]
fn failed_probe_uses_placeholder_title() {
    let (o, _a) = {
        let (mut o, _probe) = started("v=abc", "out");
        let a = o.step(Event::TitleProbed {
            exit_ok: false,
            stdout: String::new(),
        });
        (o, a)
    };
    assert_eq!(o.title, "Unknown Title");
    assert_eq!(o.primary_path, "out/Unknown Title.mp3");
}

#[test]
fn forbidden_failure_short_circuits_without_polling() {
    let (mut o, _run) = probed("v=abc", "out", "Title");
    let a = o.step(Event::DownloadFinished {
        exit_ok: false,
        stdout: String::new(),
        stderr: String::from("HTTP Error 403: Forbidden"),
    });
    match a {
        Action::Finish { result } => {
            assert!(!result.success);
            assert!(result.path.is_none());
            let e = result.error.expect("an error message");
            assert!(e.contains("403 Forbidden"));
            assert!(e.contains("Wait a few minutes and try again"));
        }
        _ => panic!("a terminal failure must not reach polling"),
    }
    assert_eq!(o.poller.attempts, 0);
}

#[test]
fn missing_converter_defers_to_polling_and_finds_fallback_file() {
    let (mut o, _run) = probed("v=abc", "out", "My Song: Live/Remix");
    let a = o.step(Event::DownloadFinished {
        exit_ok: false,
        stdout: String::new(),
        stderr: String::from("ERROR: ffmpeg not found"),
    });
    assert!(matches!(a, Action::ObserveDirectory { sleep_millis: 500 }));
    let obs = PollObservation {
        primary_exists: false,
        fallback_exists: true,
        entries: Vec::new(),
        now_secs: 1_000,
    };
    match o.step(Event::DirectoryObserved { obs }) {
        Action::Finish { result } => {
            assert!(result.success);
            assert_eq!(result.title.as_deref(), Some("My Song: Live/Remix"));
            assert_eq!(result.path.as_deref(), Some("out/My Song_ Live_Remix.mp4"));
            assert!(result.error.is_none());
        }
        _ => panic!("expected the fallback file to be found"),
    }
}

#[test]
fn soft_success_polls_and_accepts_fresh_candidate() {
    let (mut o, _run) = probed("v=abc", "out", "Title");
    let a = o.step(Event::DownloadFinished {
        exit_ok: false,
        stdout: String::from("[download] 100% of 2MiB"),
        stderr: String::from("exit status lied"),
    });
    assert!(matches!(a, Action::ObserveDirectory { .. }));
    let obs = PollObservation {
        primary_exists: false,
        fallback_exists: false,
        entries: vec![CandidateFile {
            path: String::from("out/Actually Written.m4a"),
            modified_secs: 998,
        }],
        now_secs: 1_000,
    };
    match o.step(Event::DirectoryObserved { obs }) {
        Action::Finish { result } => {
            assert!(result.success);
            assert_eq!(result.path.as_deref(), Some("out/Actually Written.m4a"));
        }
        _ => panic!("expected the fresh candidate"),
    }
}

#[test]
fn timeout_reports_both_expected_paths() {
    let (mut o, _run) = probed("v=abc", "out", "Title");
    let mut a = o.step(Event::DownloadFinished {
        exit_ok: true,
        stdout: String::new(),
        stderr: String::new(),
    });
    let mut finishes: u32 = 0;
    for _ in 0..20 {
        assert!(matches!(a, Action::ObserveDirectory { .. }));
        let obs = PollObservation {
            primary_exists: false,
            fallback_exists: false,
            entries: Vec::new(),
            now_secs: 0,
        };
        match o.step(Event::DirectoryObserved { obs }) {
            Action::Finish { result } => {
                assert_eq!(o.poller.attempts, 20, "timed out only at the bound");
                assert!(!result.success);
                assert_eq!(result.title.as_deref(), Some("Title"));
                let e = result.error.expect("an error message");
                assert_eq!(
                    e,
                    "Downloaded file not found after waiting. Expected: out/Title.mp3 or out/Title.mp4"
                );
                finishes += 1;
                break;
            }
            next => {
                a = next;
            }
        }
    }
    assert_eq!(finishes, 1, "the poller must time out after the bound");
}
