//! Download orchestration as an explicit state machine: the driver performs
//! one outside action at a time (spawn the tool, sleep, observe the
//! directory) and reports the outcome as an event; every decision between
//! two actions is made — and verified — here.

use vstd::prelude::*;
use crate::url::{canonical_url, canonicalize_url};
use crate::sanitize::{sanitized, sanitize_filename, lemma_sanitized_fixed_point};
use crate::invoke::{
    normalized_separators,
    normalize_separators_str,
    chosen_title,
    choose_title,
    probe_args,
    build_probe_args,
    download_args,
    build_download_args,
    joined,
    expected_paths,
};
use crate::classify::{
    Classification,
    classify_output,
    completion_evidence,
    forbidden_diagnostic,
    update_diagnostic,
    converter_diagnostic,
    forbidden_message,
    update_message,
    generic_message,
};
use crate::poll::{
    Poller,
    PollStep,
    PollObservation,
    tick_found,
    MAX_POLL_ATTEMPTS,
    POLL_INTERVAL_MILLIS,
};
use crate::assemble::{
    DownloadResult,
    coherent,
    tool_missing_message,
    timeout_message,
    tool_missing_result,
    terminal_failure_result,
    timeout_result,
    success_result,
};

verus! {

/// Where the orchestration stands.
pub enum Phase {
    /// Waiting to learn whether the external tool is available at all.
    CheckingTool,
    /// Waiting for the outcome of the title probe.
    ProbingTitle,
    /// Waiting for the download run to finish.
    Downloading,
    /// Waiting for observations of the output directory.
    Polling,
    /// A final result has been handed out.
    Done,
}

/// What the driver reports back: the outcome of the action it was asked to
/// perform, reduced to plain values.
pub enum Event {
    /// Whether the tool could be executed at all with its version flag.
    ToolChecked { available: bool },
    /// The title probe finished (a failure to spawn counts as `exit_ok`
    /// false).
    TitleProbed { exit_ok: bool, stdout: String },
    /// The download run finished, with its captured streams.
    DownloadFinished { exit_ok: bool, stdout: String, stderr: String },
    /// One observation of the output directory, after the polling sleep.
    DirectoryObserved { obs: PollObservation },
}

/// What the orchestrator asks the driver to do next.
pub enum Action {
    /// Invoke the tool with the version-query flag.
    CheckTool,
    /// Invoke the tool with these arguments and capture its output.
    ProbeTitle { args: Vec<String> },
    /// Invoke the tool with these arguments and capture both streams.
    RunDownload { args: Vec<String> },
    /// Sleep for the given interval, then gather one directory observation.
    ObserveDirectory { sleep_millis: u64 },
    /// The operation is over; hand this result to the caller.
    Finish { result: DownloadResult },
}

/// Which events a phase can consume.
pub open spec fn accepts(phase: Phase, event: Event) -> bool {
    match phase {
        Phase::CheckingTool => event is ToolChecked,
        Phase::ProbingTitle => event is TitleProbed,
        Phase::Downloading => event is DownloadFinished,
        Phase::Polling => event is DirectoryObserved,
        Phase::Done => false,
    }
}

/// The orchestrator for one download operation.
pub struct Orchestrator {
    /// The canonical request URL.
    pub clean_url: String,
    /// The normalized output directory.
    pub output_dir: String,
    /// The chosen title, once probed.
    pub title: String,
    /// The expected path of the transcoded output, once the title is known.
    pub primary_path: String,
    /// The expected path of the unconverted output, once the title is known.
    pub fallback_path: String,
    /// The file-resolution poller.
    pub poller: Poller,
    /// Where the orchestration stands.
    pub phase: Phase,
}

impl Orchestrator {
    /// Well-formedness: the poller has ticked only during the polling phase,
    /// and never past its bound while it is still asked to tick.
    pub open spec fn wf(self) -> bool {
        &&& (!(self.phase is Done) && !(self.phase is Polling) ==> self.poller.attempts == 0)
        &&& (self.phase is Polling ==> self.poller.attempts < MAX_POLL_ATTEMPTS)
    }

    /// Start one operation: canonicalize the URL, normalize the directory,
    /// and wait for the availability check (the driver's first action is
    /// `Action::CheckTool`).
    pub fn new(url: &str, output_dir: &str, backslash_separators: bool) -> (o: Orchestrator)
        ensures
            o.phase is CheckingTool,
            o.clean_url@ == canonical_url(url@),
            o.output_dir@ == normalized_separators(output_dir@, backslash_separators),
            o.poller.attempts == 0,
            o.wf(),
    {
        Orchestrator {
            clean_url: canonicalize_url(url),
            output_dir: normalize_separators_str(output_dir, backslash_separators),
            title: String::new(),
            primary_path: String::new(),
            fallback_path: String::new(),
            poller: Poller::new(),
            phase: Phase::CheckingTool,
        }
    }

    /// Consume one event and decide the next action.
    ///
    /// A missing tool, a terminal classified failure and a timeout all end in
    /// `Finish` with a coherent failure result; completion evidence on a
    /// failing exit, and the deferred missing-converter cause, go on to
    /// polling; a found file ends in `Finish` with the successful result.
    pub fn step(&mut self, event: Event) -> (a: Action)
        requires
            old(self).wf(),
            accepts(old(self).phase, event),
        ensures
            final(self).wf(),
            final(self).clean_url@ == old(self).clean_url@,
            final(self).output_dir@ == old(self).output_dir@,
            (event matches Event::ToolChecked { available } ==> {
                &&& (available ==> (a matches Action::ProbeTitle { args } && args.deep_view()
                    == probe_args(old(self).clean_url@) && final(self).phase is ProbingTitle))
                &&& (!available ==> (a matches Action::Finish { result } && !result.success
                    && result.title is None && (result.error matches Some(e) && e@
                    == tool_missing_message()) && coherent(result) && final(self).phase is Done))
            }),
            (event matches Event::TitleProbed { exit_ok, stdout } ==> ({
                let t = chosen_title(exit_ok, stdout@);
                &&& final(self).title@ == t
                &&& final(self).primary_path@ == joined(old(self).output_dir@, sanitized(t)
                    + ".mp3"@)
                &&& final(self).fallback_path@ == joined(old(self).output_dir@, sanitized(t)
                    + ".mp4"@)
                &&& a matches Action::RunDownload { args } && args.deep_view() == download_args(
                    old(self).clean_url@,
                    old(self).output_dir@,
                )
                &&& final(self).phase is Downloading
            })),
            (event matches Event::DownloadFinished { exit_ok, stdout, stderr } ==> {
                &&& final(self).title@ == old(self).title@
                &&& final(self).primary_path@ == old(self).primary_path@
                &&& final(self).fallback_path@ == old(self).fallback_path@
                &&& ((exit_ok || completion_evidence(stdout@) || (!forbidden_diagnostic(stderr@)
                    && !update_diagnostic(stderr@) && converter_diagnostic(stderr@))) ==> (
                a matches Action::ObserveDirectory { sleep_millis } && sleep_millis
                    == POLL_INTERVAL_MILLIS && final(self).phase is Polling
                    && final(self).poller.attempts == 0))
                &&& (!exit_ok && !completion_evidence(stdout@) && forbidden_diagnostic(stderr@)
                    ==> (a matches Action::Finish { result } && !result.success && (
                result.error matches Some(e) && e@ == forbidden_message(stderr@)) && coherent(
                    result,
                ) && final(self).phase is Done))
                &&& (!exit_ok && !completion_evidence(stdout@) && !forbidden_diagnostic(stderr@)
                    && update_diagnostic(stderr@) ==> (a matches Action::Finish { result }
                    && !result.success && (result.error matches Some(e) && e@ == update_message(
                    stderr@,
                )) && coherent(result) && final(self).phase is Done))
                &&& (!exit_ok && !completion_evidence(stdout@) && !forbidden_diagnostic(stderr@)
                    && !update_diagnostic(stderr@) && !converter_diagnostic(stderr@) ==> (
                a matches Action::Finish { result } && !result.success && (
                result.error matches Some(e) && e@ == generic_message(stderr@)) && coherent(result)
                    && final(self).phase is Done))
            }),
            (event matches Event::DirectoryObserved { obs } ==> ({
                let found = tick_found(
                    obs,
                    old(self).primary_path@,
                    old(self).fallback_path@,
                    old(self).poller.attempts + 1,
                );
                &&& final(self).poller.attempts == old(self).poller.attempts + 1
                &&& final(self).title@ == old(self).title@
                &&& final(self).primary_path@ == old(self).primary_path@
                &&& final(self).fallback_path@ == old(self).fallback_path@
                &&& (found matches Some(p) ==> (a matches Action::Finish { result }
                    && result.success && (result.path matches Some(q) && q@ == p) && (
                result.title matches Some(t) && t@ == old(self).title@) && coherent(result)
                    && final(self).phase is Done))
                &&& (found is None && old(self).poller.attempts + 1 < MAX_POLL_ATTEMPTS ==> (
                a matches Action::ObserveDirectory { sleep_millis } && sleep_millis
                    == POLL_INTERVAL_MILLIS && final(self).phase is Polling))
                &&& (found is None && old(self).poller.attempts + 1 >= MAX_POLL_ATTEMPTS ==> (
                a matches Action::Finish { result } && !result.success && (
                result.error matches Some(e) && e@ == timeout_message(
                    old(self).primary_path@,
                    old(self).fallback_path@,
                )) && (result.title matches Some(t) && t@ == old(self).title@) && coherent(result)
                    && final(self).phase is Done))
            })),
    {
        match event {
            Event::ToolChecked { available } => {
                if available {
                    self.phase = Phase::ProbingTitle;
                    Action::ProbeTitle { args: build_probe_args(self.clean_url.as_str()) }
                } else {
                    self.phase = Phase::Done;
                    Action::Finish { result: tool_missing_result() }
                }
            },
            Event::TitleProbed { exit_ok, stdout } => {
                let t = choose_title(exit_ok, stdout.as_str());
                let safe = sanitize_filename(t.as_str());
                proof {
                    lemma_sanitized_fixed_point(t@);
                }
                let paths = expected_paths(self.output_dir.as_str(), safe.as_str());
                self.title = t;
                self.primary_path = paths.0;
                self.fallback_path = paths.1;
                self.phase = Phase::Downloading;
                Action::RunDownload {
                    args: build_download_args(self.clean_url.as_str(), self.output_dir.as_str()),
                }
            },
            Event::DownloadFinished { exit_ok, stdout, stderr } => {
                let c = classify_output(exit_ok, stdout.as_str(), stderr.as_str());
                match c {
                    Classification::Terminal(m) => {
                        self.phase = Phase::Done;
                        Action::Finish { result: terminal_failure_result(m) }
                    },
                    Classification::Proceed => {
                        self.phase = Phase::Polling;
                        Action::ObserveDirectory { sleep_millis: POLL_INTERVAL_MILLIS }
                    },
                    Classification::Deferred => {
                        self.phase = Phase::Polling;
                        Action::ObserveDirectory { sleep_millis: POLL_INTERVAL_MILLIS }
                    },
                }
            },
            Event::DirectoryObserved { obs } => {
                let step = self.poller.tick(
                    self.primary_path.as_str(),
                    self.fallback_path.as_str(),
                    &obs,
                );
                match step {
                    PollStep::Found(p) => {
                        self.phase = Phase::Done;
                        Action::Finish { result: success_result(self.title.clone(), p) }
                    },
                    PollStep::Waiting => {
                        Action::ObserveDirectory { sleep_millis: POLL_INTERVAL_MILLIS }
                    },
                    PollStep::TimedOut => {
                        self.phase = Phase::Done;
                        Action::Finish {
                            result: timeout_result(
                                self.title.clone(),
                                self.primary_path.as_str(),
                                self.fallback_path.as_str(),
                            ),
                        }
                    },
                }
            },
        }
    }
}

} // verus!
