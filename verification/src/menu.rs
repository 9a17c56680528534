//! State of a context-menu-style popup: a reusable affordance for attaching
//! an on-demand menu to any element, used by the button strip for its
//! position-reassignment menu.
//!
//! The hosting element keeps one [`MenuState`] per popup across frames: the
//! layout pass builds the menu exactly while the popup is open, and the
//! paint pass arms a mouse listener that opens the popup on a right click
//! inside the element's bounds.

use vstd::prelude::*;

verus! {

/// Whether a popup menu is currently open, carried across frames by the
/// hosting element.
pub struct MenuState {
    /// Whether the menu is shown.
    pub open: bool,
}

impl MenuState {
    /// A popup starts closed.
    pub fn new() -> (r: MenuState)
        ensures
            !r.open,
    {
        MenuState { open: false }
    }

    /// Whether the layout pass builds, and the paint pass paints, the menu
    /// this frame.
    pub fn menu_visible(&self) -> (r: bool)
        ensures
            r == self.open,
    {
        self.open
    }

    /// Routes a mouse-down event observed by the hosting element: a
    /// right-button press dispatched in the bubble phase inside the
    /// element's bounds opens the popup; anything else leaves it as it was.
    pub fn mouse_down(&mut self, bubble_phase: bool, right_button: bool, within_bounds: bool)
        ensures
            final(self).open == (old(self).open || (bubble_phase && right_button
                && within_bounds)),
    {
        if bubble_phase && right_button && within_bounds {
            self.open = true;
        }
    }
}

} // verus!
