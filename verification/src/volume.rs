//! Level and mute arithmetic on a resolved audio session.
//!
//! The endpoint reports a session's level as a fraction of full scale; the
//! library holds it in hundredths, so one step of the volume keys is one
//! hundredth — the platform's one percent of full scale.  A level
//! adjustment clamps to the scale and leaves the mute flag alone; toggling
//! mute leaves the level alone, so un-muting restores the prior level.

use vstd::prelude::*;
use vstd::string::*;
use crate::process::ProcessRef;
use crate::session::AudioSession;

verus! {

/// Full scale of a session's level, in hundredths.
pub const FULL_SCALE: u32 = 100;

/// One key press moves the level by one hundredth of full scale.
pub const VOLUME_STEP: u32 = 1;

/// What a volume chord asks of the resolved session.
#[derive(Clone, Copy, Debug, PartialEq, Eq, Structural)]
pub enum VolumeAction {
    Increase,
    Decrease,
    ToggleMute,
}

/// The state the adjustment reports back for the notification surface.
pub struct VolumeInfo {
    pub app_name: String,
    pub exe_path: Option<String>,
    /// Resulting level, in hundredths of full scale.
    pub volume: u32,
    pub is_muted: bool,
}

/// The session state after `action`: a level step clamped to the scale
/// with the mute flag untouched, or the mute flag negated with the level
/// untouched.
pub open spec fn spec_apply(s: AudioSession, action: VolumeAction) -> AudioSession {
    match action {
        VolumeAction::Increase => AudioSession {
            level: if s.level + VOLUME_STEP <= FULL_SCALE {
                (s.level + VOLUME_STEP) as u32
            } else {
                FULL_SCALE
            },
            ..s
        },
        VolumeAction::Decrease => AudioSession {
            level: if s.level >= VOLUME_STEP {
                (s.level - VOLUME_STEP) as u32
            } else {
                0
            },
            ..s
        },
        VolumeAction::ToggleMute => AudioSession { muted: !s.muted, ..s },
    }
}

/// Perform `action` on the freshly resolved session state.
pub fn apply(session: &mut AudioSession, action: VolumeAction)
    requires
        old(session).inv(),
    ensures
        *final(session) == spec_apply(*old(session), action),
        final(session).inv(),
{
    match action {
        VolumeAction::Increase => {
            if session.level + VOLUME_STEP <= FULL_SCALE {
                session.level = session.level + VOLUME_STEP;
            } else {
                session.level = FULL_SCALE;
            }
        },
        VolumeAction::Decrease => {
            if session.level >= VOLUME_STEP {
                session.level = session.level - VOLUME_STEP;
            } else {
                session.level = 0;
            }
        },
        VolumeAction::ToggleMute => {
            session.muted = !session.muted;
        },
    }
}

/// Clamping law: an adjustment of a session whose level lies within full
/// scale yields a level within full scale, whatever the direction.
pub proof fn lemma_level_clamped(s: AudioSession, action: VolumeAction)
    requires
        s.inv(),
    ensures
        spec_apply(s, action).inv(),
{
}

/// Round-trip law away from the clamps: one step up then one step down —
/// or down then up — restores the level, whenever the starting level is at
/// least one step from either boundary.
pub proof fn lemma_step_round_trip(s: AudioSession)
    requires
        VOLUME_STEP <= s.level,
        s.level + VOLUME_STEP <= FULL_SCALE,
    ensures
        spec_apply(spec_apply(s, VolumeAction::Increase), VolumeAction::Decrease) == s,
        spec_apply(spec_apply(s, VolumeAction::Decrease), VolumeAction::Increase) == s,
{
}

/// ToggleMute is its own inverse: toggling twice restores the mute flag,
/// and a toggle never moves the level.
pub proof fn lemma_toggle_mute_involutive(s: AudioSession)
    ensures
        spec_apply(spec_apply(s, VolumeAction::ToggleMute), VolumeAction::ToggleMute) == s,
        spec_apply(s, VolumeAction::ToggleMute).level == s.level,
{
}

/// The report for a session that was found and adjusted: the target's
/// identity with the state the session was left in.
pub fn session_volume_info(target: &ProcessRef, level: u32, muted: bool) -> (r: VolumeInfo)
    ensures
        r.app_name@ == target.exe_name@,
        r.exe_path == target.exe_path,
        r.volume == level,
        r.is_muted == muted,
{
    VolumeInfo {
        app_name: target.exe_name.clone(),
        exe_path: clone_path(&target.exe_path),
        volume: level,
        is_muted: muted,
    }
}

/// The report when the focused application has no audio session: level
/// zero, not muted, and a display name saying why — so that "silent
/// because no session" stays distinguishable from "silent because muted".
pub fn no_session_info(target: &ProcessRef) -> (r: VolumeInfo)
    ensures
        r.app_name@ == target.exe_name@ + " (no audio session)"@,
        r.exe_path == target.exe_path,
        r.volume == 0,
        !r.is_muted,
{
    let mut app_name = target.exe_name.clone();
    app_name.append(" (no audio session)");
    VolumeInfo { app_name, exe_path: clone_path(&target.exe_path), volume: 0, is_muted: false }
}

fn clone_path(p: &Option<String>) -> (r: Option<String>)
    ensures
        r == *p,
{
    match p {
        Some(s) => Some(s.clone()),
        None => None,
    }
}

} // verus!
