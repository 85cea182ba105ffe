use audio_fetch::poll::{
    has_allowed_extension, CandidateFile, PollObservation, PollStep, Poller,
};

fn empty_obs(now_secs: u64) -> PollObservation {
    PollObservation {
        primary_exists: false,
        fallback_exists: false,
        entries: Vec::new(),
        now_secs,
    }
}

#[test]
fn primary_path_found_on_first_tick() {
    let mut p = Poller::new();
    let obs = PollObservation {
        primary_exists: true,
        fallback_exists: false,
        entries: Vec::new(),
        now_secs: 1_000,
    };
    let step = p.tick("out/Song.mp3", "out/Song.mp4", &obs);
    match step {
        PollStep::Found(path) => assert_eq!(path, "out/Song.mp3"),
        _ => panic!("expected the primary path on the first tick"),
    }
    assert_eq!(p.attempts, 1);
}

#[test]
fn fallback_path_preferred_only_when_primary_missing() {
    let mut p = Poller::new();
    let obs = PollObservation {
        primary_exists: true,
        fallback_exists: true,
        entries: Vec::new(),
        now_secs: 1_000,
    };
    match p.tick("out/a.mp3", "out/a.mp4", &obs) {
        PollStep::Found(path) => assert_eq!(path, "out/a.mp3"),
        _ => panic!("expected a find"),
    }
    let mut q = Poller::new();
    let obs2 = PollObservation {
        primary_exists: false,
        fallback_exists: true,
        entries: Vec::new(),
        now_secs: 1_000,
    };
    match q.tick("out/a.mp3", "out/a.mp4", &obs2) {
        PollStep::Found(path) => assert_eq!(path, "out/a.mp4"),
        _ => panic!("expected the fallback path"),
    }
}

#[test]
fn times_out_after_exactly_twenty_empty_ticks() {
    let mut p = Poller::new();
    for tick_no in 1u32..=19 {
        let step = p.tick("a.mp3", "a.mp4", &empty_obs(5));
        assert!(matches!(step, PollStep::Waiting), "tick {tick_no} should wait");
        assert_eq!(p.attempts, tick_no);
    }
    let last = p.tick("a.mp3", "a.mp4", &empty_obs(5));
    assert!(matches!(last, PollStep::TimedOut));
    assert_eq!(p.attempts, 20);
}

#[test]
fn fresh_candidate_is_accepted() {
    let mut p = Poller::new();
    let obs = PollObservation {
        primary_exists: false,
        fallback_exists: false,
        entries: vec![CandidateFile {
            path: String::from("out/Other Name.m4a"),
            modified_secs: 990,
        }],
        now_secs: 1_000,
    };
    match p.tick("out/a.mp3", "out/a.mp4", &obs) {
        PollStep::Found(path) => assert_eq!(path, "out/Other Name.m4a"),
        _ => panic!("expected the fresh candidate"),
    }
}

#[test]
fn stale_candidate_keeps_waiting() {
    let mut p = Poller::new();
    let obs = PollObservation {
        primary_exists: false,
        fallback_exists: false,
        entries: vec![CandidateFile {
            path: String::from("out/old.mp3"),
            modified_secs: 900,
        }],
        now_secs: 1_000,
    };
    assert!(matches!(p.tick("a.mp3", "a.mp4", &obs), PollStep::Waiting));
}

#[test]
fn unreadable_age_accepted_only_after_enough_attempts() {
    let mut p = Poller::new();
    // The clock reads earlier than the file's timestamp: age unknown.
    let obs = PollObservation {
        primary_exists: false,
        fallback_exists: false,
        entries: vec![CandidateFile {
            path: String::from("out/new.webm"),
            modified_secs: 2_000,
        }],
        now_secs: 1_000,
    };
    for _ in 0..5 {
        assert!(matches!(p.tick("a.mp3", "a.mp4", &obs), PollStep::Waiting));
    }
    match p.tick("a.mp3", "a.mp4", &obs) {
        PollStep::Found(path) => assert_eq!(path, "out/new.webm"),
        _ => panic!("expected the best-effort candidate on the sixth attempt"),
    }
    assert_eq!(p.attempts, 6);
}

#[test]
fn newest_allowed_candidate_wins() {
    let mut p = Poller::new();
    let obs = PollObservation {
        primary_exists: false,
        fallback_exists: false,
        entries: vec![
            CandidateFile { path: String::from("out/older.mp3"), modified_secs: 995 },
            CandidateFile { path: String::from("out/ignored.txt"), modified_secs: 999 },
            CandidateFile { path: String::from("out/newest.opus"), modified_secs: 998 },
        ],
        now_secs: 1_000,
    };
    match p.tick("a.mp3", "a.mp4", &obs) {
        PollStep::Found(path) => assert_eq!(path, "out/newest.opus"),
        _ => panic!("expected the newest allowed candidate"),
    }
}

#[test]
fn extension_allow_list_is_case_insensitive() {
    assert!(has_allowed_extension("dir/Song.MP3"));
    assert!(has_allowed_extension("dir/Song.Mp4"));
    assert!(has_allowed_extension("clip.WebM"));
    assert!(has_allowed_extension("clip.opus"));
    assert!(!has_allowed_extension("notes.txt"));
    assert!(!has_allowed_extension("no_extension"));
    assert!(!has_allowed_extension("dir.mp3/hidden"));
    assert!(!has_allowed_extension(".mp3"));
}
