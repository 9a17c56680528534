//! Window edges a dock can be anchored to, and the layout axis each implies.

use vstd::prelude::*;

verus! {

/// Layout axis of a dock: `Left`/`Right` docks size themselves horizontally
/// (a width), the `Bottom` dock vertically (a height).
#[derive(Clone, Copy, Debug, PartialEq, Eq, Structural)]
pub enum Axis {
    Horizontal,
    Vertical,
}

/// The window edge a dock is anchored to.  Fixed per dock instance, though a
/// panel may request a move to another edge.
#[derive(Clone, Copy, Debug, PartialEq, Eq, Structural)]
pub enum DockPosition {
    Left,
    Bottom,
    Right,
}

impl DockPosition {
    /// The display label of this edge.
    pub fn to_label(&self) -> (r: &'static str)
        ensures
            *self == DockPosition::Left ==> r@ == "left"@,
            *self == DockPosition::Bottom ==> r@ == "bottom"@,
            *self == DockPosition::Right ==> r@ == "right"@,
    {
        match self {
            DockPosition::Left => "left",
            DockPosition::Bottom => "bottom",
            DockPosition::Right => "right",
        }
    }

    /// The axis along which a dock at this edge is sized.
    pub fn axis(&self) -> (r: Axis)
        ensures
            r == self.spec_axis(),
    {
        match self {
            DockPosition::Left | DockPosition::Right => Axis::Horizontal,
            DockPosition::Bottom => Axis::Vertical,
        }
    }

    /// The axis implied by each edge.
    pub open spec fn spec_axis(self) -> Axis {
        match self {
            DockPosition::Left | DockPosition::Right => Axis::Horizontal,
            DockPosition::Bottom => Axis::Vertical,
        }
    }
}

} // verus!
