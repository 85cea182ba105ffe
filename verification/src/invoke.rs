//! Tool invocation support: the exact argument lists handed to the external
//! download tool, separator normalization for the output directory, the
//! expected output paths, and the title fallback rule.

use vstd::prelude::*;
use crate::text::{push_char, trimmed, trim_str};
use crate::sanitize::sanitized;

verus! {

/// Placeholder used when the title probe fails; loss of the title is
/// non-fatal.
pub open spec fn unknown_title() -> Seq<char> {
    "Unknown Title"@
}

/// The title chosen from a probe outcome: the trimmed probe output on
/// success, the placeholder otherwise.
pub open spec fn chosen_title(exit_ok: bool, stdout: Seq<char>) -> Seq<char> {
    if exit_ok {
        trimmed(stdout)
    } else {
        unknown_title()
    }
}

/// Pick the title from the probe outcome, as `chosen_title` describes.
pub fn choose_title(exit_ok: bool, stdout: &str) -> (r: String)
    ensures
        r@ == chosen_title(exit_ok, stdout@),
{
    if exit_ok {
        let t = trim_str(stdout);
        String::from_str(t)
    } else {
        String::from_str("Unknown Title")
    }
}

/// The directory string with its separators normalized: all forward slashes
/// become backslashes when `to_backslash` holds, and the other way round
/// otherwise.
pub open spec fn normalized_separators(dir: Seq<char>, to_backslash: bool) -> Seq<char> {
    dir.map_values(
        |c: char|
            if to_backslash {
                if c == '/' {
                    '\\'
                } else {
                    c
                }
            } else {
                if c == '\\' {
                    '/'
                } else {
                    c
                }
            },
    )
}

/// Normalize path separators in a directory string, one character for one.
pub fn normalize_separators_str(dir: &str, to_backslash: bool) -> (r: String)
    ensures
        r@ == normalized_separators(dir@, to_backslash),
{
    let n = dir.unicode_len();
    let mut out = String::new();
    let mut i: usize = 0;
    while i < n
        invariant
            n == dir@.len(),
            0 <= i <= n,
            out@ == normalized_separators(dir@.subrange(0, i as int), to_backslash),
        decreases n - i,
    {
        let c = dir.get_char(i);
        let mapped = if to_backslash {
            if c == '/' {
                '\\'
            } else {
                c
            }
        } else {
            if c == '\\' {
                '/'
            } else {
                c
            }
        };
        push_char(&mut out, mapped);
        proof {
            assert(out@ =~= normalized_separators(dir@.subrange(0, i + 1), to_backslash));
        }
        i += 1;
    }
    proof {
        assert(dir@.subrange(0, n as int) =~= dir@);
    }
    out
}

/// A directory and a file name joined into one path: a separator is inserted
/// unless the directory is empty or already ends with one.
pub open spec fn joined(dir: Seq<char>, name: Seq<char>) -> Seq<char> {
    if dir.len() == 0 {
        name
    } else if dir[dir.len() - 1] == '/' || dir[dir.len() - 1] == '\\' {
        dir + name
    } else {
        dir + "/"@ + name
    }
}

/// Join a directory and a file name, as `joined` describes.
pub fn join_path(dir: &str, name: &str) -> (r: String)
    ensures
        r@ == joined(dir@, name@),
{
    let n = dir.unicode_len();
    if n == 0 {
        return String::from_str(name);
    }
    let mut out = String::from_str(dir);
    let last = dir.get_char(n - 1);
    if last == '/' || last == '\\' {
        out.append(name);
    } else {
        out.append("/");
        out.append(name);
    }
    out
}

/// The fully qualified path expected for the sanitized title under the given
/// directory with the given extension suffix (`.` included in `suffix`).
pub open spec fn expected_path(dir: Seq<char>, title: Seq<char>, suffix: Seq<char>) -> Seq<char> {
    joined(dir, sanitized(title) + suffix)
}

/// Both expected output paths for a title: the primary (transcoded) form and
/// the fallback (unconverted) form.
pub fn expected_paths(dir: &str, safe_title: &str) -> (r: (String, String))
    requires
        safe_title@ == sanitized(safe_title@),
    ensures
        r.0@ == joined(dir@, safe_title@ + ".mp3"@),
        r.1@ == joined(dir@, safe_title@ + ".mp4"@),
{
    let mut primary_name = String::from_str(safe_title);
    primary_name.append(".mp3");
    let mut fallback_name = String::from_str(safe_title);
    fallback_name.append(".mp4");
    let primary = join_path(dir, primary_name.as_str());
    let fallback = join_path(dir, fallback_name.as_str());
    (primary, fallback)
}

/// The argument list of the title probe: print only the title, no playlist
/// expansion, warnings suppressed, the compatible extraction mode.
pub open spec fn probe_args(url: Seq<char>) -> Seq<Seq<char>> {
    seq![
        "--print"@,
        "%(title)s"@,
        "--no-playlist"@,
        "--no-warnings"@,
        "--extractor-args"@,
        "youtube:player_client=android"@,
        url,
    ]
}

/// Build the title-probe argument list, as `probe_args` describes.
pub fn build_probe_args(url: &str) -> (r: Vec<String>)
    ensures
        r.deep_view() == probe_args(url@),
{
    let mut v: Vec<String> = Vec::new();
    v.push(String::from_str("--print"));
    v.push(String::from_str("%(title)s"));
    v.push(String::from_str("--no-playlist"));
    v.push(String::from_str("--no-warnings"));
    v.push(String::from_str("--extractor-args"));
    v.push(String::from_str("youtube:player_client=android"));
    v.push(String::from_str(url));
    proof {
        assert(v.deep_view() =~= probe_args(url@));
    }
    v
}

/// The output-template argument: the directory followed by the tool's own
/// title-and-extension pattern.
pub open spec fn output_template(dir: Seq<char>) -> Seq<char> {
    dir + "/%(title)s.%(ext)s"@
}

/// The argument list of the download run: extract audio, force the target
/// encoding and bitrate, write under the output template, no playlist
/// expansion, warnings suppressed, the compatible extraction mode, and a
/// bounded retry count delegated to the tool itself.
pub open spec fn download_args(url: Seq<char>, dir: Seq<char>) -> Seq<Seq<char>> {
    seq![
        "--extract-audio"@,
        "--audio-format"@,
        "mp3"@,
        "--audio-quality"@,
        "192K"@,
        "-o"@,
        output_template(dir),
        "--no-playlist"@,
        "--no-warnings"@,
        "--extractor-args"@,
        "youtube:player_client=android"@,
        "--retries"@,
        "3"@,
        "--fragment-retries"@,
        "3"@,
        "--file-access-retries"@,
        "3"@,
        url,
    ]
}

/// Build the download argument list, as `download_args` describes.
pub fn build_download_args(url: &str, dir: &str) -> (r: Vec<String>)
    ensures
        r.deep_view() == download_args(url@, dir@),
{
    let mut template = String::from_str(dir);
    template.append("/%(title)s.%(ext)s");
    let mut v: Vec<String> = Vec::new();
    v.push(String::from_str("--extract-audio"));
    v.push(String::from_str("--audio-format"));
    v.push(String::from_str("mp3"));
    v.push(String::from_str("--audio-quality"));
    v.push(String::from_str("192K"));
    v.push(String::from_str("-o"));
    v.push(template);
    v.push(String::from_str("--no-playlist"));
    v.push(String::from_str("--no-warnings"));
    v.push(String::from_str("--extractor-args"));
    v.push(String::from_str("youtube:player_client=android"));
    v.push(String::from_str("--retries"));
    v.push(String::from_str("3"));
    v.push(String::from_str("--fragment-retries"));
    v.push(String::from_str("3"));
    v.push(String::from_str("--file-access-retries"));
    v.push(String::from_str("3"));
    v.push(String::from_str(url));
    proof {
        assert(v.deep_view() =~= download_args(url@, dir@));
    }
    v
}

/// The argument list of the availability probe: the version-query flag alone.
pub open spec fn version_args() -> Seq<Seq<char>> {
    seq!["--version"@]
}

/// Build the availability-probe argument list, as `version_args` describes.
pub fn build_version_args() -> (r: Vec<String>)
    ensures
        r.deep_view() == version_args(),
{
    let mut v: Vec<String> = Vec::new();
    v.push(String::from_str("--version"));
    proof {
        assert(v.deep_view() =~= version_args());
    }
    v
}

} // verus!
