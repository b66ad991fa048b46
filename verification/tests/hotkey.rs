use volime::controller::adjust_focused_app_volume;
use volime::hotkey::{decide, HookDecision, VK_VOLUME_DOWN, VK_VOLUME_MUTE, VK_VOLUME_UP,
    WM_KEYDOWN};
use volime::modifier::{ModifierKey, SharedConfig, VK_CONTROL, VK_MENU, VK_SHIFT};
use volime::process::ProcessRef;
use volime::session::AudioSession;
use volime::volume::VolumeAction;

const WM_KEYUP: u32 = 0x0101;

#[test]
fn chord_with_modifier_held_is_swallowed_and_adjusts() {
    // Modifier Control, volume-up pressed with Control held: the event is
    // handled (swallowed), the level rises one step clamped to full scale,
    // and the mute flag is untouched.
    let mut config = SharedConfig::new();
    config.set_modifier(ModifierKey::Control);
    assert_eq!(config.modifier.to_vk(), VK_CONTROL);

    let control_held = true;
    let d = decide(0, WM_KEYDOWN, VK_VOLUME_UP, control_held);
    assert_eq!(d, HookDecision::Handle(VolumeAction::Increase));

    let target = ProcessRef { process_id: 42, exe_name: "app.exe".to_string(), exe_path: None };
    let mut sessions =
        vec![AudioSession { pid: 42, exe_name: None, level: 100, muted: false }];
    let action = match d {
        HookDecision::Handle(a) => a,
        HookDecision::Forward => unreachable!(),
    };
    let info = adjust_focused_app_volume(&target, &mut sessions, action);
    assert_eq!(info.volume, 100);
    assert!(!info.is_muted);
}

#[test]
fn chord_without_modifier_is_forwarded() {
    // Modifier Control, volume-up pressed with Control not held: the event
    // is forwarded unchanged and no session lookup or notification runs.
    let control_held = false;
    let d = decide(0, WM_KEYDOWN, VK_VOLUME_UP, control_held);
    assert_eq!(d, HookDecision::Forward);
}

#[test]
fn volume_keys_map_to_their_actions() {
    assert_eq!(decide(0, WM_KEYDOWN, VK_VOLUME_UP, true), HookDecision::Handle(VolumeAction::Increase));
    assert_eq!(
        decide(0, WM_KEYDOWN, VK_VOLUME_DOWN, true),
        HookDecision::Handle(VolumeAction::Decrease)
    );
    assert_eq!(
        decide(0, WM_KEYDOWN, VK_VOLUME_MUTE, true),
        HookDecision::Handle(VolumeAction::ToggleMute)
    );
}

#[test]
fn key_up_events_are_forwarded() {
    assert_eq!(decide(0, WM_KEYUP, VK_VOLUME_UP, true), HookDecision::Forward);
}

#[test]
fn non_volume_keys_are_forwarded() {
    let vk_a = 0x41;
    assert_eq!(decide(0, WM_KEYDOWN, vk_a, true), HookDecision::Forward);
}

#[test]
fn negative_hook_codes_are_forwarded() {
    assert_eq!(decide(-1, WM_KEYDOWN, VK_VOLUME_UP, true), HookDecision::Forward);
}

#[test]
fn modifier_virtual_keys() {
    assert_eq!(ModifierKey::Shift.to_vk(), VK_SHIFT);
    assert_eq!(ModifierKey::Control.to_vk(), VK_CONTROL);
    assert_eq!(ModifierKey::Alt.to_vk(), VK_MENU);
    assert_eq!(VK_SHIFT, 0x10);
    assert_eq!(VK_CONTROL, 0x11);
    assert_eq!(VK_MENU, 0x12);
}

#[test]
fn modifier_labels() {
    assert_eq!(ModifierKey::Shift.to_string(), "Shift");
    assert_eq!(ModifierKey::Control.to_string(), "Control");
    assert_eq!(ModifierKey::Alt.to_string(), "Alt");
}

#[test]
fn shared_config_defaults_and_updates() {
    let mut config = SharedConfig::new();
    assert_eq!(config.modifier, ModifierKey::Shift);
    assert!(config.running);
    config.set_modifier(ModifierKey::Alt);
    assert_eq!(config.modifier, ModifierKey::Alt);
    assert!(config.running);
    config.request_shutdown();
    assert!(!config.running);
    assert_eq!(config.modifier, ModifierKey::Alt);
}
