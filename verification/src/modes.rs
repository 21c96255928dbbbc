//! The modes of the emulator that the pane asks for.

use vstd::prelude::*;

verus! {

/// The modes that the shell has switched on in the emulator.
#[derive(Clone, Copy, Debug, PartialEq, Eq, Structural)]
pub struct TermModes {
    /// Clicks are reported.
    pub report_click: bool,
    /// Drags are reported.
    pub drag: bool,
    /// Every motion of the pointer is reported.
    pub motion: bool,
    /// The alternate screen is shown.
    pub alt_screen: bool,
}

impl TermModes {
    /// Whether the shell has asked for mouse reports of any kind.
    pub fn mouse_reporting_enabled(&self) -> (enabled: bool)
        ensures
            enabled == (self.report_click || self.drag || self.motion),
    {
        self.report_click || self.drag || self.motion
    }

    /// Whether the alternate screen is shown.
    pub fn alt_screen_active(&self) -> (active: bool)
        ensures
            active == self.alt_screen,
    {
        self.alt_screen
    }
}

} // verus!
