//! Result assembly: the final typed outcome handed back to the caller, and
//! the constructors that build it for each way the operation can end.

use vstd::prelude::*;
use crate::text::{contains_seq, occurs_at};

verus! {

/// The outcome of one download operation.  All expected failure modes are
/// returned this way; nothing is raised to the caller.
pub struct DownloadResult {
    pub success: bool,
    pub title: Option<String>,
    pub path: Option<String>,
    pub error: Option<String>,
}

/// A coherent result: success carries a resolved path and no error; a
/// definitive failure carries an error and no path.
pub open spec fn coherent(r: DownloadResult) -> bool {
    &&& (r.success ==> r.path is Some && r.error is None)
    &&& (!r.success ==> r.error is Some && r.path is None)
}

/// The message reported when the external tool cannot be found at all.
pub open spec fn tool_missing_message() -> Seq<char> {
    "yt-dlp not found. Please install yt-dlp first:\nWindows: winget install yt-dlp\nMac: brew install yt-dlp\nLinux: sudo apt install yt-dlp"@
}

/// The message reported when no file appeared before the timeout; it names
/// both expected paths.
pub open spec fn timeout_message(primary: Seq<char>, fallback: Seq<char>) -> Seq<char> {
    "Downloaded file not found after waiting. Expected: "@ + primary + " or "@ + fallback
}

/// The successful outcome: the title and the resolved path.
pub fn success_result(title: String, path: String) -> (r: DownloadResult)
    ensures
        r.success,
        r.title matches Some(t) && t@ == title@,
        r.path matches Some(p) && p@ == path@,
        r.error is None,
        coherent(r),
{
    DownloadResult { success: true, title: Some(title), path: Some(path), error: None }
}

/// The outcome when the external tool is not available.
pub fn tool_missing_result() -> (r: DownloadResult)
    ensures
        !r.success,
        r.title is None,
        r.path is None,
        r.error matches Some(e) && e@ == tool_missing_message(),
        coherent(r),
{
    let e = String::from_str(
        "yt-dlp not found. Please install yt-dlp first:\nWindows: winget install yt-dlp\nMac: brew install yt-dlp\nLinux: sudo apt install yt-dlp",
    );
    DownloadResult { success: false, title: None, path: None, error: Some(e) }
}

/// The outcome of a terminal classified failure, short-circuiting before any
/// polling; it carries the classifier's message.
pub fn terminal_failure_result(message: String) -> (r: DownloadResult)
    ensures
        !r.success,
        r.title is None,
        r.path is None,
        r.error matches Some(e) && e@ == message@,
        coherent(r),
{
    DownloadResult { success: false, title: None, path: None, error: Some(message) }
}

/// The outcome when polling timed out: the title survives, the error names
/// both expected paths.
pub fn timeout_result(title: String, primary: &str, fallback: &str) -> (r: DownloadResult)
    ensures
        !r.success,
        r.title matches Some(t) && t@ == title@,
        r.path is None,
        r.error matches Some(e) && e@ == timeout_message(primary@, fallback@),
        coherent(r),
{
    let mut e = String::from_str("Downloaded file not found after waiting. Expected: ");
    e.append(primary);
    e.append(" or ");
    e.append(fallback);
    DownloadResult { success: false, title: Some(title), path: None, error: Some(e) }
}

/// The timeout message mentions both expected paths and is never empty.
pub proof fn lemma_timeout_message_mentions_paths(primary: Seq<char>, fallback: Seq<char>)
    ensures
        contains_seq(timeout_message(primary, fallback), primary),
        contains_seq(timeout_message(primary, fallback), fallback),
        timeout_message(primary, fallback).len() > 0,
{
    reveal_strlit("Downloaded file not found after waiting. Expected: ");
    reveal_strlit(" or ");
    let pre = "Downloaded file not found after waiting. Expected: "@;
    let mid = " or "@;
    let m = timeout_message(primary, fallback);
    assert(m.subrange(pre.len() as int, (pre.len() + primary.len()) as int) =~= primary);
    assert(occurs_at(m, primary, pre.len() as int));
    assert(m.subrange(
        (pre.len() + primary.len() + mid.len()) as int,
        (pre.len() + primary.len() + mid.len() + fallback.len()) as int,
    ) =~= fallback);
    assert(occurs_at(m, fallback, (pre.len() + primary.len() + mid.len()) as int));
}

} // verus!
