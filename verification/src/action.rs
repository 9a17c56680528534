//! Commands routed through the host's central dispatcher.
//!
//! The host wires buttons and shortcuts to a small closed set of tagged
//! command values: one toggle command per dock edge, plus panel-specific
//! toggle commands identified by a host-assigned tag.

use vstd::prelude::*;

use crate::position::DockPosition;

verus! {

/// A command object dispatched by the host's command-routing layer.
///
/// `ToggleLeftDock`, `ToggleBottomDock` and `ToggleRightDock` open or close
/// the dock at the corresponding edge.  `TogglePanel` carries the tag of a
/// panel-specific command that opens and activates that panel's group.
#[derive(Clone, Copy, Debug, PartialEq, Eq, Structural)]
pub enum Command {
    ToggleLeftDock,
    ToggleBottomDock,
    ToggleRightDock,
    TogglePanel(u64),
}

/// The toggle command owned by the dock anchored at `position`.
pub open spec fn toggle_action_of(position: DockPosition) -> Command {
    match position {
        DockPosition::Left => Command::ToggleLeftDock,
        DockPosition::Bottom => Command::ToggleBottomDock,
        DockPosition::Right => Command::ToggleRightDock,
    }
}

} // verus!
