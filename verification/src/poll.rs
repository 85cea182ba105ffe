//! File-resolution polling: a bounded state machine that, fed one
//! observation of the output directory per tick, decides whether the
//! expected file (or the most plausible recently written candidate) has
//! appeared, keeps waiting, or times out.

use vstd::prelude::*;

verus! {

/// Maximum number of polling attempts before the poller times out.
pub const MAX_POLL_ATTEMPTS: u32 = 20;

/// How long the driver sleeps between polling attempts.
pub const POLL_INTERVAL_MILLIS: u64 = 500;

/// Maximum age, in seconds, for a candidate file to be trusted as the output
/// of the just-completed operation.
pub const FRESHNESS_WINDOW_SECS: u64 = 30;

/// Number of attempts after which a candidate whose age cannot be read is
/// accepted as a best effort.
pub const STALE_FALLBACK_MIN_ATTEMPTS: u32 = 5;

/// Case-insensitive equality of two characters, folding ASCII upper case
/// onto lower case.
pub open spec fn char_eq_ci(a: char, b: char) -> bool {
    a == b || (65 <= a as u32 && a as u32 <= 90 && a as u32 + 32 == b as u32)
}

/// Case-insensitive equality of two character sequences (ASCII folding).
pub open spec fn eq_ignore_case(a: Seq<char>, b: Seq<char>) -> bool {
    a.len() == b.len() && forall|i: int| 0 <= i < a.len() ==> char_eq_ci(a[i], b[i])
}

/// Case-insensitive string comparison, as `eq_ignore_case` describes.
pub fn eq_ignore_case_str(a: &str, b: &str) -> (r: bool)
    ensures
        r == eq_ignore_case(a@, b@),
{
    let an = a.unicode_len();
    let bn = b.unicode_len();
    if an != bn {
        return false;
    }
    let mut i: usize = 0;
    while i < an
        invariant
            an == a@.len(),
            an == b@.len(),
            0 <= i <= an,
            forall|k: int| 0 <= k < i ==> char_eq_ci(a@[k], b@[k]),
        decreases an - i,
    {
        let ac = a.get_char(i);
        let bc = b.get_char(i);
        let same = ac == bc || (65 <= ac as u32 && ac as u32 <= 90 && ac as u32 + 32
            == bc as u32);
        if !same {
            return false;
        }
        i += 1;
    }
    true
}

/// Index of the last `.` at or before position `j`; `-1` when there is none.
pub open spec fn last_dot_at_or_before(s: Seq<char>, j: int) -> int
    decreases j + 1 when j < s.len()
{
    if j < 0 {
        -1
    } else if s[j] == '.' {
        j
    } else {
        last_dot_at_or_before(s, j - 1)
    }
}

/// Index of the last path separator at or before position `j`; `-1` when
/// there is none.
pub open spec fn last_sep_at_or_before(s: Seq<char>, j: int) -> int
    decreases j + 1 when j < s.len()
{
    if j < 0 {
        -1
    } else if s[j] == '/' || s[j] == '\\' {
        j
    } else {
        last_sep_at_or_before(s, j - 1)
    }
}

/// The extension of a path: what follows the last dot of its file name,
/// provided that dot is not the name's first character.  `None` when the
/// name has no such dot.
pub open spec fn extension_of(p: Seq<char>) -> Option<Seq<char>> {
    let sl = last_sep_at_or_before(p, p.len() - 1);
    let d = last_dot_at_or_before(p, p.len() - 1);
    if d > sl + 1 {
        Some(p.subrange(d + 1, p.len() as int))
    } else {
        None
    }
}

/// The fixed allow-list of audio/container extensions the poller accepts.
pub open spec fn allowed_extension(e: Seq<char>) -> bool {
    eq_ignore_case(e, "mp3"@) || eq_ignore_case(e, "mp4"@) || eq_ignore_case(e, "m4a"@)
        || eq_ignore_case(e, "webm"@) || eq_ignore_case(e, "opus"@)
}

/// Whether a path names a plausible candidate: it carries an extension from
/// the allow-list.
pub open spec fn allowed_candidate(p: Seq<char>) -> bool {
    extension_of(p) matches Some(e) && allowed_extension(e)
}

/// Whether the path's extension is on the allow-list, as `allowed_candidate`
/// describes.
pub fn has_allowed_extension(path: &str) -> (r: bool)
    ensures
        r == allowed_candidate(path@),
{
    let n = path.unicode_len();
    let mut k: usize = n;
    let mut d: usize = 0;
    let mut d_found = false;
    while k > 0
        invariant_except_break
            !d_found,
            last_dot_at_or_before(path@, n - 1) == last_dot_at_or_before(path@, k as int - 1),
        invariant
            n == path@.len(),
            0 <= k <= n,
        ensures
            d_found ==> last_dot_at_or_before(path@, n - 1) == d && d < n,
            !d_found ==> last_dot_at_or_before(path@, n - 1) == -1,
        decreases k,
    {
        if path.get_char(k - 1) == '.' {
            d = k - 1;
            d_found = true;
            break;
        }
        k -= 1;
    }
    let mut k2: usize = n;
    let mut sl: usize = 0;
    let mut sl_found = false;
    while k2 > 0
        invariant_except_break
            !sl_found,
            last_sep_at_or_before(path@, n - 1) == last_sep_at_or_before(path@, k2 as int - 1),
        invariant
            n == path@.len(),
            0 <= k2 <= n,
        ensures
            sl_found ==> last_sep_at_or_before(path@, n - 1) == sl && sl < n,
            !sl_found ==> last_sep_at_or_before(path@, n - 1) == -1,
        decreases k2,
    {
        let c = path.get_char(k2 - 1);
        if c == '/' || c == '\\' {
            sl = k2 - 1;
            sl_found = true;
            break;
        }
        k2 -= 1;
    }
    if !d_found {
        return false;
    }
    let has_ext = if sl_found {
        d > sl + 1
    } else {
        d > 0
    };
    if !has_ext {
        return false;
    }
    let ext = path.substring_char(d + 1, n);
    let r = eq_ignore_case_str(ext, "mp3") || eq_ignore_case_str(ext, "mp4")
        || eq_ignore_case_str(ext, "m4a") || eq_ignore_case_str(ext, "webm")
        || eq_ignore_case_str(ext, "opus");
    r
}

/// A transient candidate produced during polling: a path and the
/// modification timestamp read for it, in seconds.
pub struct CandidateFile {
    pub path: String,
    pub modified_secs: u64,
}

/// One observation of the output directory, gathered by the driver for one
/// tick: whether each fully qualified expected path exists, every directory
/// entry whose metadata could be read, and the clock reading.
pub struct PollObservation {
    pub primary_exists: bool,
    pub fallback_exists: bool,
    pub entries: Vec<CandidateFile>,
    pub now_secs: u64,
}

/// Index of the selected candidate after scanning entries from `i` on with
/// `best` the index selected so far (`-1` for none): the first entry, in
/// directory order, with an allowed extension and the greatest modification
/// time.
pub open spec fn best_candidate_from(entries: Seq<CandidateFile>, i: int, best: int) -> int
    decreases entries.len() - i when 0 <= i
{
    if i >= entries.len() {
        best
    } else if allowed_candidate(entries[i].path@) && (best < 0 || entries[i].modified_secs
        > entries[best].modified_secs) {
        best_candidate_from(entries, i + 1, i)
    } else {
        best_candidate_from(entries, i + 1, best)
    }
}

/// Index of the candidate the poller selects from a directory listing;
/// `-1` when no entry carries an allowed extension.
pub open spec fn best_candidate(entries: Seq<CandidateFile>) -> int {
    best_candidate_from(entries, 0, -1)
}

proof fn lemma_best_candidate_bounds(entries: Seq<CandidateFile>, i: int, best: int)
    requires
        0 <= i,
        best == -1 || (0 <= best < entries.len() && allowed_candidate(entries[best].path@)),
    ensures
        best_candidate_from(entries, i, best) == -1 || (0 <= best_candidate_from(entries, i, best)
            < entries.len() && allowed_candidate(
            entries[best_candidate_from(entries, i, best)].path@,
        )),
    decreases entries.len() - i,
{
    if i >= entries.len() {
    } else if allowed_candidate(entries[i].path@) && (best < 0 || entries[i].modified_secs
        > entries[best].modified_secs) {
        lemma_best_candidate_bounds(entries, i + 1, i);
    } else {
        lemma_best_candidate_bounds(entries, i + 1, best);
    }
}

proof fn lemma_best_from_characterization(entries: Seq<CandidateFile>, i: int, best: int)
    requires
        0 <= i <= entries.len(),
        best < 0 ==> forall|k: int|
            0 <= k < i ==> !allowed_candidate(#[trigger] entries[k].path@),
        best >= 0 ==> 0 <= best < i && allowed_candidate(entries[best].path@) && (forall|k: int|
            0 <= k < i && allowed_candidate(#[trigger] entries[k].path@)
                ==> entries[k].modified_secs <= entries[best].modified_secs) && (forall|k: int|
            0 <= k < best && allowed_candidate(#[trigger] entries[k].path@)
                ==> entries[k].modified_secs < entries[best].modified_secs),
    ensures
        ({
            let b = best_candidate_from(entries, i, best);
            &&& (b < 0 ==> forall|k: int|
                0 <= k < entries.len() ==> !allowed_candidate(#[trigger] entries[k].path@))
            &&& (b >= 0 ==> 0 <= b < entries.len() && allowed_candidate(entries[b].path@) && (
            forall|k: int|
                0 <= k < entries.len() && allowed_candidate(#[trigger] entries[k].path@)
                    ==> entries[k].modified_secs <= entries[b].modified_secs) && (forall|k: int|
                0 <= k < b && allowed_candidate(#[trigger] entries[k].path@)
                    ==> entries[k].modified_secs < entries[b].modified_secs))
        }),
    decreases entries.len() - i,
{
    if i >= entries.len() {
    } else if allowed_candidate(entries[i].path@) && (best < 0 || entries[i].modified_secs
        > entries[best].modified_secs) {
        assert forall|k: int| 0 <= k < i + 1 && allowed_candidate(
            #[trigger] entries[k].path@,
        ) implies entries[k].modified_secs <= entries[i].modified_secs by {
            if k < i {
                if best < 0 {
                    assert(!allowed_candidate(entries[k].path@));
                } else {
                    assert(entries[k].modified_secs <= entries[best].modified_secs);
                }
            }
        }
        assert forall|k: int| 0 <= k < i && allowed_candidate(
            #[trigger] entries[k].path@,
        ) implies entries[k].modified_secs < entries[i].modified_secs by {
            if best < 0 {
                assert(!allowed_candidate(entries[k].path@));
            } else {
                assert(entries[k].modified_secs <= entries[best].modified_secs);
            }
        }
        lemma_best_from_characterization(entries, i + 1, i);
    } else {
        lemma_best_from_characterization(entries, i + 1, best);
    }
}

/// What the selection policy amounts to: when no entry carries an allowed
/// extension nothing is selected; otherwise the selected entry carries one,
/// no allowed entry is strictly newer, and among the newest allowed entries
/// the selected one comes first in directory order.
pub proof fn lemma_best_candidate_selects_newest(entries: Seq<CandidateFile>)
    ensures
        best_candidate(entries) == -1 ==> forall|k: int|
            0 <= k < entries.len() ==> !allowed_candidate(#[trigger] entries[k].path@),
        best_candidate(entries) >= 0 ==> ({
            let b = best_candidate(entries);
            &&& 0 <= b < entries.len()
            &&& allowed_candidate(entries[b].path@)
            &&& forall|k: int|
                0 <= k < entries.len() && allowed_candidate(#[trigger] entries[k].path@)
                    ==> entries[k].modified_secs <= entries[b].modified_secs
            &&& forall|k: int|
                0 <= k < b && allowed_candidate(#[trigger] entries[k].path@)
                    ==> entries[k].modified_secs < entries[b].modified_secs
        }),
{
    lemma_best_from_characterization(entries, 0, -1);
}

/// What one tick finds, if anything: the primary expected path first, then
/// the fallback expected path, then the freshest allowed candidate when it is
/// within the freshness window, then — once enough attempts have elapsed —
/// a candidate whose age the clock cannot report.
pub open spec fn tick_found(
    obs: PollObservation,
    primary: Seq<char>,
    fallback: Seq<char>,
    attempts_after: int,
) -> Option<Seq<char>> {
    if obs.primary_exists {
        Some(primary)
    } else if obs.fallback_exists {
        Some(fallback)
    } else {
        let b = best_candidate(obs.entries@);
        if b >= 0 {
            let e = obs.entries@[b];
            if e.modified_secs <= obs.now_secs && obs.now_secs - e.modified_secs
                < FRESHNESS_WINDOW_SECS {
                Some(e.path@)
            } else if e.modified_secs > obs.now_secs && attempts_after
                > STALE_FALLBACK_MIN_ATTEMPTS {
                Some(e.path@)
            } else {
                None
            }
        } else {
            None
        }
    }
}

/// An observation in which no matching file can be found: neither expected
/// path exists and the directory listing is empty.
pub open spec fn empty_observation(obs: PollObservation) -> bool {
    !obs.primary_exists && !obs.fallback_exists && obs.entries@.len() == 0
}

/// An empty observation never finds a file, whatever the attempt count.
/// Together with `tick`'s contract this pins the whole run down: a poller
/// that only ever sees empty observations reports Waiting on every tick
/// whose attempt count stays below the configured maximum, and TimedOut on
/// the tick that reaches it — never earlier.
pub proof fn lemma_empty_observation_finds_nothing(
    obs: PollObservation,
    primary: Seq<char>,
    fallback: Seq<char>,
    attempts_after: int,
)
    requires
        empty_observation(obs),
    ensures
        tick_found(obs, primary, fallback, attempts_after) is None,
{
    assert(best_candidate(obs.entries@) == -1);
}

/// Exactness of the timeout bound over a whole run.  A poller started fresh
/// has attempt count `i + 1` while consuming the observation numbered `i`;
/// when every observation of the run is empty, no tick finds anything, so
/// the report `tick`'s contract forces is Waiting for every observation
/// numbered below `MAX_POLL_ATTEMPTS - 1` and TimedOut for the one numbered
/// `MAX_POLL_ATTEMPTS - 1` — never an earlier or a later one.
pub proof fn lemma_empty_run_times_out_exactly(
    observations: Seq<PollObservation>,
    primary: Seq<char>,
    fallback: Seq<char>,
)
    requires
        forall|i: int|
            0 <= i < observations.len() ==> empty_observation(#[trigger] observations[i]),
    ensures
        forall|i: int|
            0 <= i < observations.len() ==> #[trigger] tick_found(
                observations[i],
                primary,
                fallback,
                i + 1,
            ) is None,
{
    assert forall|i: int| 0 <= i < observations.len() implies #[trigger] tick_found(
        observations[i],
        primary,
        fallback,
        i + 1,
    ) is None by {
        lemma_empty_observation_finds_nothing(observations[i], primary, fallback, i + 1);
    }
}

/// What one tick of the poller reports.
pub enum PollStep {
    /// The resolved file path: the poller transitions to its Found state.
    Found(String),
    /// Nothing yet and attempts remain: the driver sleeps and observes again.
    Waiting,
    /// The maximum attempt count has elapsed without a match.
    TimedOut,
}

/// The file-resolution poller: Waiting while ticks remain, Found or TimedOut
/// as reported by the final tick.
pub struct Poller {
    pub attempts: u32,
}

impl Poller {
    /// A poller that has made no attempt yet.
    pub fn new() -> (p: Poller)
        ensures
            p.attempts == 0,
    {
        Poller { attempts: 0 }
    }

    /// Consume one observation.  The attempt count advances by exactly one;
    /// the report is Found with the path `tick_found` selects when it selects
    /// one, Waiting while attempts remain, and TimedOut on the tick that
    /// reaches the configured maximum.
    pub fn tick(&mut self, primary: &str, fallback: &str, obs: &PollObservation) -> (step:
        PollStep)
        requires
            old(self).attempts < MAX_POLL_ATTEMPTS,
        ensures
            final(self).attempts == old(self).attempts + 1,
            match tick_found(*obs, primary@, fallback@, old(self).attempts + 1) {
                Some(p) => step matches PollStep::Found(q) && q@ == p,
                None => if old(self).attempts + 1 < MAX_POLL_ATTEMPTS {
                    step is Waiting
                } else {
                    step is TimedOut
                },
            },
    {
        self.attempts = self.attempts + 1;
        if obs.primary_exists {
            return PollStep::Found(String::from_str(primary));
        }
        if obs.fallback_exists {
            return PollStep::Found(String::from_str(fallback));
        }
        let n = obs.entries.len();
        let mut best: usize = 0;
        let mut have = false;
        let mut i: usize = 0;
        while i < n
            invariant
                n == obs.entries@.len(),
                0 <= i <= n,
                have ==> best < i,
                have ==> allowed_candidate(obs.entries@[best as int].path@),
                best_candidate_from(obs.entries@, i as int, (if have {
                    best as int
                } else {
                    -1
                })) == best_candidate(obs.entries@),
            decreases n - i,
        {
            let entry_ok = has_allowed_extension(obs.entries[i].path.as_str());
            if entry_ok && (!have || obs.entries[i].modified_secs
                > obs.entries[best].modified_secs) {
                best = i;
                have = true;
            }
            i += 1;
        }
        if have {
            let fresh = obs.entries[best].modified_secs <= obs.now_secs && obs.now_secs
                - obs.entries[best].modified_secs < FRESHNESS_WINDOW_SECS;
            if fresh {
                return PollStep::Found(obs.entries[best].path.clone());
            }
            let unreadable_age = obs.entries[best].modified_secs > obs.now_secs;
            if unreadable_age && self.attempts > STALE_FALLBACK_MIN_ATTEMPTS {
                return PollStep::Found(obs.entries[best].path.clone());
            }
        }
        if self.attempts < MAX_POLL_ATTEMPTS {
            PollStep::Waiting
        } else {
            PollStep::TimedOut
        }
    }
}

} // verus!
