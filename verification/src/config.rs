//! The display toggles: which optional panels are on screen.

use vstd::prelude::*;

verus! {

/// Flips a flag.
pub fn toggle(flag: bool) -> (flipped: bool)
    ensures
        flipped == !flag,
{
    !flag
}

/// The two display toggles. Each is flipped by its own key and neither
/// influences the other.
#[derive(Clone, Copy, Debug, PartialEq, Eq, Structural)]
pub struct UiConfig {
    /// Whether the side panel is shown to the right of the list.
    pub projects: bool,
    /// Whether the input box is shown below the list.
    pub typebox: bool,
}

impl UiConfig {
    /// Flips `projects` and leaves `typebox` alone.
    pub fn toggle_projects(&mut self)
        ensures
            final(self).projects == !old(self).projects,
            final(self).typebox == old(self).typebox,
    {
        self.projects = toggle(self.projects);
    }

    /// Flips `typebox` and leaves `projects` alone.
    pub fn toggle_typebox(&mut self)
        ensures
            final(self).typebox == !old(self).typebox,
            final(self).projects == old(self).projects,
    {
        self.typebox = toggle(self.typebox);
    }
}

impl Default for UiConfig {
    /// Both panels are shown at startup.
    fn default() -> (config: UiConfig)
        ensures
            config.projects,
            config.typebox,
    {
        UiConfig { projects: true, typebox: true }
    }
}

} // verus!
