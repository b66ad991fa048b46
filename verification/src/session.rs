//! Resolution of the audio session belonging to the focused application.
//!
//! The boundary code enumerates the sessions of the default render endpoint
//! and hands the library one snapshot per session: the owning process
//! identifier, the owner's executable name where it could be resolved, and
//! the session's current level and mute flag.  Matching is two-phase: first
//! the session whose owning process identifier equals the target's, then —
//! only when no identifier matches — the first session whose owner shares
//! the target's executable name case-insensitively.  Sessions whose owner
//! could not be resolved are skipped by the fallback, not treated as
//! errors.  When neither phase matches, the outcome is `NotFound`, a
//! legitimate state and not an error.

use vstd::prelude::*;
use crate::process::ProcessRef;
use crate::volume::FULL_SCALE;

verus! {

/// Snapshot of one audio session on the default render endpoint, taken
/// fresh on every adjustment request; no snapshot outlives one call.
pub struct AudioSession {
    /// Identifier of the process rendering into this session.
    pub pid: u32,
    /// Executable name of that process, `None` when it could not be
    /// resolved (terminated or protected process).
    pub exe_name: Option<String>,
    /// Current level, in hundredths of full scale.
    pub level: u32,
    /// Current mute flag; independent of the level.
    pub muted: bool,
}

impl AudioSession {
    /// A level read from the endpoint lies within full scale.
    pub open spec fn inv(self) -> bool {
        self.level <= FULL_SCALE
    }
}

/// What `str::to_lowercase` returns on a string with these characters.
pub uninterp spec fn lower_of(s: Seq<char>) -> Seq<char>;

/// Relies on str::to_lowercase: the lowercase equivalent of the string by
/// the Unicode `Lowercase` property; the result depends on the characters
/// alone.
#[verifier::external_body]
fn fold_case(s: &str) -> (r: String)
    ensures
        r@ == lower_of(s@),
{
    s.to_lowercase()
}

/// Case-insensitive comparison of two executable names.
pub fn names_match(a: &str, b: &str) -> (r: bool)
    ensures
        r == (lower_of(a@) == lower_of(b@)),
{
    let fa = fold_case(a);
    let fb = fold_case(b);
    fa == fb
}

/// Whether session `s` is claimed by the name-fallback phase for a target
/// named `target_name`: its owner resolved to the same name up to case.
pub open spec fn session_name_matches(s: AudioSession, target_name: Seq<char>) -> bool {
    match s.exe_name {
        Some(n) => lower_of(n@) == lower_of(target_name),
        None => false,
    }
}

/// Index of the first session at or after `i` owned by process `pid`.
pub open spec fn find_pid_from(ss: Seq<AudioSession>, pid: u32, i: int) -> Option<int>
    decreases ss.len() - i,
{
    if i < 0 || i >= ss.len() {
        None
    } else if ss[i].pid == pid {
        Some(i)
    } else {
        find_pid_from(ss, pid, i + 1)
    }
}

/// Index of the first session at or after `i` whose owner's name matches
/// `name` case-insensitively.
pub open spec fn find_name_from(ss: Seq<AudioSession>, name: Seq<char>, i: int) -> Option<int>
    decreases ss.len() - i,
{
    if i < 0 || i >= ss.len() {
        None
    } else if session_name_matches(ss[i], name) {
        Some(i)
    } else {
        find_name_from(ss, name, i + 1)
    }
}

/// The two-phase match: the exact-identifier phase decides alone whenever
/// it finds anything; the name fallback is consulted only after it found
/// nothing.
pub open spec fn spec_find_session(ss: Seq<AudioSession>, pid: u32, name: Seq<char>) -> Option<
    int,
> {
    match find_pid_from(ss, pid, 0) {
        Some(i) => Some(i),
        None => find_name_from(ss, name, 0),
    }
}

/// Outcome of session resolution: the index of the matched session in the
/// enumeration, or the legitimate no-session state.
#[derive(Clone, Copy, Debug, PartialEq, Eq, Structural)]
pub enum SessionOutcome {
    Found(usize),
    NotFound,
}

/// Find the session belonging to `target` among the enumerated sessions,
/// by exact process identifier first and by case-insensitive executable
/// name second; first match wins in enumeration order in both phases.
pub fn find_session(target: &ProcessRef, sessions: &Vec<AudioSession>) -> (r: SessionOutcome)
    ensures
        match r {
            SessionOutcome::Found(i) => i < sessions@.len() && spec_find_session(
                sessions@,
                target.process_id,
                target.exe_name@,
            ) == Some(i as int),
            SessionOutcome::NotFound => spec_find_session(
                sessions@,
                target.process_id,
                target.exe_name@,
            ) is None,
        },
{
    let n = sessions.len();
    let mut i: usize = 0;
    while i < n
        invariant
            n == sessions@.len(),
            i <= n,
            find_pid_from(sessions@, target.process_id, 0) == find_pid_from(
                sessions@,
                target.process_id,
                i as int,
            ),
        decreases n - i,
    {
        if sessions[i].pid == target.process_id {
            return SessionOutcome::Found(i);
        }
        i += 1;
    }
    let mut j: usize = 0;
    while j < n
        invariant
            n == sessions@.len(),
            j <= n,
            find_pid_from(sessions@, target.process_id, 0) is None,
            find_name_from(sessions@, target.exe_name@, 0) == find_name_from(
                sessions@,
                target.exe_name@,
                j as int,
            ),
        decreases n - j,
    {
        let matched = match &sessions[j].exe_name {
            Some(owner_name) => names_match(owner_name.as_str(), target.exe_name.as_str()),
            None => false,
        };
        if matched {
            return SessionOutcome::Found(j);
        }
        j += 1;
    }
    SessionOutcome::NotFound
}

proof fn lemma_find_pid_from_props(ss: Seq<AudioSession>, pid: u32, i: int)
    requires
        0 <= i <= ss.len(),
    ensures
        match find_pid_from(ss, pid, i) {
            Some(j) => i <= j < ss.len() && ss[j].pid == pid && (forall|k: int|
                i <= k < j ==> ss[k].pid != pid),
            None => forall|k: int| i <= k < ss.len() ==> ss[k].pid != pid,
        },
    decreases ss.len() - i,
{
    if i < ss.len() && ss[i].pid != pid {
        lemma_find_pid_from_props(ss, pid, i + 1);
    }
}

proof fn lemma_find_name_from_props(ss: Seq<AudioSession>, name: Seq<char>, i: int)
    requires
        0 <= i <= ss.len(),
    ensures
        match find_name_from(ss, name, i) {
            Some(j) => i <= j < ss.len() && session_name_matches(ss[j], name) && (forall|k: int|
                i <= k < j ==> !session_name_matches(ss[k], name)),
            None => forall|k: int| i <= k < ss.len() ==> !session_name_matches(ss[k], name),
        },
    decreases ss.len() - i,
{
    if i < ss.len() && !session_name_matches(ss[i], name) {
        lemma_find_name_from_props(ss, name, i + 1);
    }
}

/// Phase-1 short-circuit: whenever some session is owned by the target
/// process itself, resolution returns the first such session, and the
/// name-fallback phase is never consulted — the match is by identifier.
pub proof fn lemma_exact_pid_short_circuit(ss: Seq<AudioSession>, pid: u32, name: Seq<char>)
    requires
        exists|i: int| 0 <= i < ss.len() && ss[i].pid == pid,
    ensures
        match spec_find_session(ss, pid, name) {
            Some(j) => 0 <= j < ss.len() && ss[j].pid == pid && (forall|k: int|
                0 <= k < j ==> ss[k].pid != pid),
            None => false,
        },
{
    lemma_find_pid_from_props(ss, pid, 0);
}

/// Name fallback: when no session is owned by the target process but some
/// session's owner shares its executable name case-insensitively, the
/// first such session is returned.
pub proof fn lemma_name_fallback(ss: Seq<AudioSession>, pid: u32, name: Seq<char>)
    requires
        forall|i: int| 0 <= i < ss.len() ==> ss[i].pid != pid,
        exists|i: int| 0 <= i < ss.len() && session_name_matches(ss[i], name),
    ensures
        match spec_find_session(ss, pid, name) {
            Some(j) => 0 <= j < ss.len() && session_name_matches(ss[j], name) && (forall|k: int|
                0 <= k < j ==> !session_name_matches(ss[k], name)),
            None => false,
        },
{
    lemma_find_pid_from_props(ss, pid, 0);
    lemma_find_name_from_props(ss, name, 0);
}

/// No match at all: when no session is owned by the target process and no
/// session's owner shares its name, resolution returns nothing — and only
/// then.
pub proof fn lemma_no_match_not_found(ss: Seq<AudioSession>, pid: u32, name: Seq<char>)
    ensures
        spec_find_session(ss, pid, name) is None <==> (forall|i: int|
            0 <= i < ss.len() ==> ss[i].pid != pid && !session_name_matches(ss[i], name)),
{
    lemma_find_pid_from_props(ss, pid, 0);
    lemma_find_name_from_props(ss, name, 0);
    if spec_find_session(ss, pid, name) is None {
    } else {
        let j = spec_find_session(ss, pid, name).unwrap();
        assert(ss[j].pid == pid || session_name_matches(ss[j], name));
    }
}

} // verus!
