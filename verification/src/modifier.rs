//! The modifier key that turns a media key press into a per-application
//! chord, and the process-wide configuration that the dispatcher reads.

use vstd::prelude::*;

verus! {

/// Virtual-key code of the Shift key.
pub const VK_SHIFT: i32 = 0x10;
/// Virtual-key code of the Control key.
pub const VK_CONTROL: i32 = 0x11;
/// Virtual-key code of the Alt key (named VK_MENU by the platform).
pub const VK_MENU: i32 = 0x12;

/// The key that must be held together with a volume key for the chord to
/// target the focused application.
#[derive(Clone, Copy, Debug, PartialEq, Eq, Structural)]
pub enum ModifierKey {
    Shift,
    Control,
    Alt,
}

impl ModifierKey {
    /// The virtual-key code the keyboard hook polls for this modifier.
    pub fn to_vk(&self) -> (r: i32)
        ensures
            r == self.spec_vk(),
    {
        match self {
            ModifierKey::Shift => VK_SHIFT,
            ModifierKey::Control => VK_CONTROL,
            ModifierKey::Alt => VK_MENU,
        }
    }

    /// The virtual-key code of this modifier, for use in contracts.
    pub open spec fn spec_vk(self) -> i32 {
        match self {
            ModifierKey::Shift => VK_SHIFT,
            ModifierKey::Control => VK_CONTROL,
            ModifierKey::Alt => VK_MENU,
        }
    }

    /// The label shown in the configuration menu.
    pub fn to_string(&self) -> (r: &'static str)
        ensures
            r@ == self.spec_label(),
    {
        match self {
            ModifierKey::Shift => "Shift",
            ModifierKey::Control => "Control",
            ModifierKey::Alt => "Alt",
        }
    }

    /// The label of this modifier, for use in contracts.
    pub open spec fn spec_label(self) -> Seq<char> {
        match self {
            ModifierKey::Shift => "Shift"@,
            ModifierKey::Control => "Control"@,
            ModifierKey::Alt => "Alt"@,
        }
    }
}

/// Process-wide state shared between the keyboard hook and the
/// configuration menu: the active modifier and the running flag.
///
/// Concurrent access (a reader-writer lock around the modifier, an atomic
/// for the running flag) is the embedding program's concern; the library
/// states what each operation does to the value.
pub struct SharedConfig {
    pub modifier: ModifierKey,
    pub running: bool,
}

impl SharedConfig {
    /// A fresh configuration: the default modifier is Shift and the
    /// process counts as running.
    pub fn new() -> (r: SharedConfig)
        ensures
            r.modifier == ModifierKey::Shift,
            r.running,
    {
        SharedConfig { modifier: ModifierKey::Shift, running: true }
    }

    /// Select a new modifier key; the running flag is untouched.
    pub fn set_modifier(&mut self, m: ModifierKey)
        ensures
            final(self).modifier == m,
            final(self).running == old(self).running,
    {
        self.modifier = m;
    }

    /// Ask the message loop to stop; the modifier is untouched.
    pub fn request_shutdown(&mut self)
        ensures
            !final(self).running,
            final(self).modifier == old(self).modifier,
    {
        self.running = false;
    }
}

} // verus!
