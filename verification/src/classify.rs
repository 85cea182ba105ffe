//! Output classification: decide from the download run's exit status and
//! captured streams whether the operation really succeeded, and bucket
//! failures into actionable causes by substring markers in the diagnostics.

use vstd::prelude::*;
use crate::text::{contains_seq, contains_str};

verus! {

/// Evidence in the captured standard output that the transfer completed:
/// a completion marker or a destination-announcement line.  When present,
/// a failing exit code is overridden (a soft success).
pub open spec fn completion_evidence(stdout: Seq<char>) -> bool {
    contains_seq(stdout, "100%"@) || contains_seq(stdout, "Destination:"@)
}

/// Markers of an access-forbidden (rate-limiting) failure.
pub open spec fn forbidden_diagnostic(stderr: Seq<char>) -> bool {
    contains_seq(stderr, "403"@) || contains_seq(stderr, "Forbidden"@)
}

/// Markers of an extraction failure that an update of the tool fixes.
pub open spec fn update_diagnostic(stderr: Seq<char>) -> bool {
    contains_seq(stderr, "Failed to extract"@) || contains_seq(stderr, "player response"@)
        || contains_seq(stderr, "yt-dlp -U"@)
}

/// Markers of a missing post-processor (audio transcoder).  This cause is
/// non-fatal: the raw, unconverted file may still have been written.
pub open spec fn converter_diagnostic(stderr: Seq<char>) -> bool {
    contains_seq(stderr, "ffmpeg"@) || contains_seq(stderr, "ffprobe"@)
}

/// The user-facing message for an access-forbidden failure.
pub open spec fn forbidden_message(stderr: Seq<char>) -> Seq<char> {
    "YouTube is blocking the download (403 Forbidden). Try:\n1. Update yt-dlp: winget upgrade yt-dlp\n2. Wait a few minutes and try again\n3. Try a different video\n\nError: "@
        + stderr
}

/// The user-facing message for an extraction failure.
pub open spec fn update_message(stderr: Seq<char>) -> Seq<char> {
    "yt-dlp needs to be updated. Run this command in PowerShell:\n\nwinget upgrade yt-dlp\n\nOr if you installed it via pip:\n\npip install --upgrade yt-dlp\n\nAfter updating, try again.\n\nError: "@
        + stderr
}

/// The user-facing message for any other tool failure.
pub open spec fn generic_message(stderr: Seq<char>) -> Seq<char> {
    "yt-dlp error: "@ + stderr + "\n\nTry updating yt-dlp: winget upgrade yt-dlp"@
}

/// The classifier's verdict on a finished download run.
pub enum Classification {
    /// The exit code succeeded, or the output shows the transfer completed
    /// despite it: go on to file resolution.
    Proceed,
    /// The post-processor is missing; the verdict is deferred to file
    /// resolution, since an unconverted file may exist.
    Deferred,
    /// A terminal failure with its user-facing message; no polling follows.
    Terminal(String),
}

/// Classify the outcome of the download run.
///
/// A reported exit failure with completion evidence on standard output is
/// never terminal: it proceeds to file resolution regardless of the exit
/// code.  Otherwise the diagnostics are bucketed in a fixed precedence
/// order: access forbidden, then extraction failure, then the deferred
/// missing-converter cause, then a generic failure.
pub fn classify_output(exit_ok: bool, stdout: &str, stderr: &str) -> (c: Classification)
    ensures
        (exit_ok || completion_evidence(stdout@)) ==> (c is Proceed),
        !exit_ok && !completion_evidence(stdout@) && forbidden_diagnostic(stderr@) ==> (c matches
            Classification::Terminal(m) && m@ == forbidden_message(stderr@)),
        !exit_ok && !completion_evidence(stdout@) && !forbidden_diagnostic(stderr@)
            && update_diagnostic(stderr@) ==> (c matches Classification::Terminal(m) && m@
            == update_message(stderr@)),
        !exit_ok && !completion_evidence(stdout@) && !forbidden_diagnostic(stderr@)
            && !update_diagnostic(stderr@) && converter_diagnostic(stderr@) ==> (c is Deferred),
        !exit_ok && !completion_evidence(stdout@) && !forbidden_diagnostic(stderr@)
            && !update_diagnostic(stderr@) && !converter_diagnostic(stderr@) ==> (c matches
            Classification::Terminal(m) && m@ == generic_message(stderr@)),
{
    if exit_ok || contains_str(stdout, "100%") || contains_str(stdout, "Destination:") {
        return Classification::Proceed;
    }
    if contains_str(stderr, "403") || contains_str(stderr, "Forbidden") {
        let mut m = String::from_str(
            "YouTube is blocking the download (403 Forbidden). Try:\n1. Update yt-dlp: winget upgrade yt-dlp\n2. Wait a few minutes and try again\n3. Try a different video\n\nError: ",
        );
        m.append(stderr);
        return Classification::Terminal(m);
    }
    if contains_str(stderr, "Failed to extract") || contains_str(stderr, "player response")
        || contains_str(stderr, "yt-dlp -U") {
        let mut m = String::from_str(
            "yt-dlp needs to be updated. Run this command in PowerShell:\n\nwinget upgrade yt-dlp\n\nOr if you installed it via pip:\n\npip install --upgrade yt-dlp\n\nAfter updating, try again.\n\nError: ",
        );
        m.append(stderr);
        return Classification::Terminal(m);
    }
    if contains_str(stderr, "ffmpeg") || contains_str(stderr, "ffprobe") {
        return Classification::Deferred;
    }
    let mut m = String::from_str("yt-dlp error: ");
    m.append(stderr);
    m.append("\n\nTry updating yt-dlp: winget upgrade yt-dlp");
    Classification::Terminal(m)
}

} // verus!
