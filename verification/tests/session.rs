use volime::controller::adjust_focused_app_volume;
use volime::process::ProcessRef;
use volime::session::{find_session, names_match, AudioSession, SessionOutcome};
use volime::volume::VolumeAction;

fn target(pid: u32, exe_name: &str) -> ProcessRef {
    ProcessRef { process_id: pid, exe_name: exe_name.to_string(), exe_path: None }
}

fn owned_session(pid: u32, exe_name: &str) -> AudioSession {
    AudioSession { pid, exe_name: Some(exe_name.to_string()), level: 50, muted: false }
}

fn anonymous_session(pid: u32) -> AudioSession {
    AudioSession { pid, exe_name: None, level: 50, muted: false }
}

#[test]
fn exact_pid_match_wins() {
    let sessions = vec![anonymous_session(10), anonymous_session(42), anonymous_session(77)];
    let r = find_session(&target(42, "app.exe"), &sessions);
    assert_eq!(r, SessionOutcome::Found(1));
}

#[test]
fn exact_pid_beats_earlier_name_match() {
    // A session owned by a same-named helper comes first in enumeration
    // order, but the exact-identifier phase decides alone.
    let sessions = vec![owned_session(10, "app.exe"), owned_session(42, "other.exe")];
    let r = find_session(&target(42, "app.exe"), &sessions);
    assert_eq!(r, SessionOutcome::Found(1));
}

#[test]
fn first_pid_match_wins_in_enumeration_order() {
    let sessions = vec![anonymous_session(42), anonymous_session(42)];
    let r = find_session(&target(42, "app.exe"), &sessions);
    assert_eq!(r, SessionOutcome::Found(0));
}

#[test]
fn name_fallback_finds_helper_process_session() {
    // Target {pid 4321, "chrome.exe"}; the only session belongs to pid
    // 9999 whose owner is also chrome.exe: the fallback returns it.
    let sessions = vec![owned_session(9999, "chrome.exe")];
    let r = find_session(&target(4321, "chrome.exe"), &sessions);
    assert_eq!(r, SessionOutcome::Found(0));
}

#[test]
fn name_fallback_is_case_insensitive() {
    let sessions = vec![owned_session(9999, "ChRoMe.EXE")];
    let r = find_session(&target(4321, "chrome.exe"), &sessions);
    assert_eq!(r, SessionOutcome::Found(0));
}

#[test]
fn name_fallback_skips_unresolvable_owners() {
    let sessions = vec![anonymous_session(9999), owned_session(8888, "CHROME.exe")];
    let r = find_session(&target(4321, "chrome.exe"), &sessions);
    assert_eq!(r, SessionOutcome::Found(1));
}

#[test]
fn no_match_yields_not_found() {
    let sessions = vec![owned_session(9999, "player.exe"), anonymous_session(8888)];
    let r = find_session(&target(4321, "chrome.exe"), &sessions);
    assert_eq!(r, SessionOutcome::NotFound);
}

#[test]
fn empty_enumeration_yields_not_found() {
    let sessions: Vec<AudioSession> = Vec::new();
    let r = find_session(&target(4321, "chrome.exe"), &sessions);
    assert_eq!(r, SessionOutcome::NotFound);
}

#[test]
fn not_found_leaves_sessions_untouched() {
    // The adjuster is never invoked without a match: every session keeps
    // its state and the report is the annotated no-session one.
    let mut sessions = vec![owned_session(9999, "player.exe")];
    let info =
        adjust_focused_app_volume(&target(4321, "chrome.exe"), &mut sessions, VolumeAction::Increase);
    assert_eq!(sessions[0].level, 50);
    assert!(!sessions[0].muted);
    assert_eq!(info.app_name, "chrome.exe (no audio session)");
    assert_eq!(info.volume, 0);
    assert!(!info.is_muted);
}

#[test]
fn fallback_match_adjusts_the_matched_session() {
    let mut sessions = vec![owned_session(9999, "chrome.exe")];
    let info =
        adjust_focused_app_volume(&target(4321, "chrome.exe"), &mut sessions, VolumeAction::Increase);
    assert_eq!(sessions[0].level, 51);
    assert_eq!(info.app_name, "chrome.exe");
    assert_eq!(info.volume, 51);
    assert!(!info.is_muted);
}

#[test]
fn only_the_matched_session_changes() {
    let mut sessions =
        vec![owned_session(10, "a.exe"), anonymous_session(42), owned_session(11, "b.exe")];
    adjust_focused_app_volume(&target(42, "app.exe"), &mut sessions, VolumeAction::ToggleMute);
    assert!(!sessions[0].muted);
    assert!(sessions[1].muted);
    assert!(!sessions[2].muted);
    assert_eq!(sessions[1].level, 50);
}

#[test]
fn names_match_ignores_case() {
    assert!(names_match("CHROME.exe", "chrome.EXE"));
    assert!(names_match("Spotify.exe", "spotify.exe"));
    assert!(!names_match("chrome.exe", "firefox.exe"));
}
