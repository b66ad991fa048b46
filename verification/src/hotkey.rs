//! The decision taken inside the system-wide keyboard callback.
//!
//! For every event the hook sees, the callback must answer at once: act on
//! the focused application and swallow the event, or forward it unchanged
//! so the system volume keys keep working.  The decision reads only plain
//! values — the hook code, the message kind, the event's virtual-key code
//! and whether the configured modifier is held right now — so the callback
//! stays within the platform's time budget.

use vstd::prelude::*;
use crate::volume::VolumeAction;

verus! {

/// Message identifier of a key-down event.
pub const WM_KEYDOWN: u32 = 0x0100;

/// Virtual-key code of the mute media key.
pub const VK_VOLUME_MUTE: u32 = 0xAD;
/// Virtual-key code of the volume-down media key.
pub const VK_VOLUME_DOWN: u32 = 0xAE;
/// Virtual-key code of the volume-up media key.
pub const VK_VOLUME_UP: u32 = 0xAF;

/// What the callback answers the input pipeline.
#[derive(Clone, Copy, Debug, PartialEq, Eq, Structural)]
pub enum HookDecision {
    /// The chord matched: perform the action on the focused application
    /// and swallow the event, keeping it from the system volume control.
    Handle(VolumeAction),
    /// No chord: forward the event unchanged, without touching any
    /// session.
    Forward,
}

/// The action a volume media key asks for; `None` for every other key.
pub open spec fn spec_volume_action(vk_code: u32) -> Option<VolumeAction> {
    if vk_code == VK_VOLUME_UP {
        Some(VolumeAction::Increase)
    } else if vk_code == VK_VOLUME_DOWN {
        Some(VolumeAction::Decrease)
    } else if vk_code == VK_VOLUME_MUTE {
        Some(VolumeAction::ToggleMute)
    } else {
        None
    }
}

/// The callback's whole decision: act exactly when the hook passes the
/// event on for inspection (`code >= 0`), the event is a key-down, the
/// configured modifier is held, and the key is a volume media key.
pub open spec fn spec_decide(
    code: i32,
    message: u32,
    vk_code: u32,
    modifier_held: bool,
) -> HookDecision {
    if code >= 0 && message == WM_KEYDOWN && modifier_held {
        match spec_volume_action(vk_code) {
            Some(action) => HookDecision::Handle(action),
            None => HookDecision::Forward,
        }
    } else {
        HookDecision::Forward
    }
}

/// Decide one keyboard event.  `code` and `message` come from the hook
/// invocation, `vk_code` from the event, and `modifier_held` from an
/// instantaneous key-state query of the configured modifier — not from the
/// event's own key.
pub fn decide(code: i32, message: u32, vk_code: u32, modifier_held: bool) -> (r: HookDecision)
    ensures
        r == spec_decide(code, message, vk_code, modifier_held),
        r is Handle ==> code >= 0 && message == WM_KEYDOWN && modifier_held,
{
    if code >= 0 && message == WM_KEYDOWN && modifier_held {
        if vk_code == VK_VOLUME_UP {
            HookDecision::Handle(VolumeAction::Increase)
        } else if vk_code == VK_VOLUME_DOWN {
            HookDecision::Handle(VolumeAction::Decrease)
        } else if vk_code == VK_VOLUME_MUTE {
            HookDecision::Handle(VolumeAction::ToggleMute)
        } else {
            HookDecision::Forward
        }
    } else {
        HookDecision::Forward
    }
}

} // verus!
