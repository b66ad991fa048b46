//! The adjustment performed once per handled chord: resolve the focused
//! application's session among the enumerated snapshots, mutate it, and
//! report the resulting state.
//!
//! When resolution finds nothing, no session is touched and the report is
//! the synthesized no-session state — the caller must surface it rather
//! than treat it as an error.

use vstd::prelude::*;
use crate::process::ProcessRef;
use crate::session::{find_session, spec_find_session, AudioSession, SessionOutcome};
use crate::volume::{apply, no_session_info, session_volume_info, spec_apply, VolumeAction,
    VolumeInfo};

verus! {

/// Adjust the volume of the focused application `target` against the
/// freshly enumerated `sessions`.  Exactly the matched session — the first
/// by process identifier, else the first by case-insensitive owner name —
/// receives `action`; with no match the enumeration is left untouched and
/// the no-session report comes back.
pub fn adjust_focused_app_volume(
    target: &ProcessRef,
    sessions: &mut Vec<AudioSession>,
    action: VolumeAction,
) -> (r: VolumeInfo)
    requires
        forall|i: int| 0 <= i < old(sessions)@.len() ==> old(sessions)@[i].inv(),
    ensures
        forall|i: int| 0 <= i < final(sessions)@.len() ==> final(sessions)@[i].inv(),
        match spec_find_session(old(sessions)@, target.process_id, target.exe_name@) {
            Some(j) => ({
                let adjusted = spec_apply(old(sessions)@[j], action);
                &&& final(sessions)@ == old(sessions)@.update(j, adjusted)
                &&& r.app_name@ == target.exe_name@
                &&& r.exe_path == target.exe_path
                &&& r.volume == adjusted.level
                &&& r.is_muted == adjusted.muted
            }),
            None => {
                &&& final(sessions)@ == old(sessions)@
                &&& r.app_name@ == target.exe_name@ + " (no audio session)"@
                &&& r.exe_path == target.exe_path
                &&& r.volume == 0
                &&& !r.is_muted
            },
        },
{
    match find_session(target, sessions) {
        SessionOutcome::Found(i) => {
            let mut matched = sessions.remove(i);
            apply(&mut matched, action);
            let level = matched.level;
            let muted = matched.muted;
            sessions.insert(i, matched);
            proof {
                let j = i as int;
                let adjusted = spec_apply(old(sessions)@[j], action);
                assert(sessions@ =~= old(sessions)@.update(j, adjusted));
            }
            session_volume_info(target, level, muted)
        },
        SessionOutcome::NotFound => no_session_info(target),
    }
}

} // verus!
