//! The panel capability interface behind a type-erased handle.
//!
//! A concrete panel implementation is known to the dock only through a
//! [`PanelHandle`]: a record of everything the dock reads or writes of a
//! panel — identity, edge, size, zoom/activation flags and presentation
//! metadata.  Concrete panel types are told apart by a stored type tag, so a
//! "downcast by type" is a tag comparison that never alters state.

use vstd::prelude::*;

use crate::action::Command;
use crate::position::DockPosition;

verus! {

/// A lifecycle event a panel may emit towards the dock that holds it.
///
/// `ChangePosition`, `ZoomIn` and `ZoomOut` ask for cross-dock coordination
/// owned by the enclosing shell; the dock itself only records the intent.
/// `Focus` is reserved and must not be routed into a dock.
#[derive(Clone, Copy, Debug, PartialEq, Eq, Structural)]
pub enum PanelEvent {
    ChangePosition,
    ZoomIn,
    ZoomOut,
    Activate,
    Close,
    Focus,
}

/// The type-erased wrapper around one concrete panel instance.
///
/// The dock, the button strip and the host shell all manipulate panels
/// through this uniform record.  The dock that currently holds the handle in
/// its registry is the sole writer of the activation, zoom and size state.
pub struct PanelHandle {
    /// Runtime-unique identity; all registry lookups compare by it.
    pub id: u64,
    /// Tag standing for the concrete panel type behind the handle.
    pub type_tag: u64,
    /// Stable name used for cross-session matching.
    pub persistent_name: String,
    /// The window edge the panel is currently anchored to.
    pub position: DockPosition,
    /// Whether the panel supports being anchored to the left edge.
    pub valid_left: bool,
    /// Whether the panel supports being anchored to the bottom edge.
    pub valid_bottom: bool,
    /// Whether the panel supports being anchored to the right edge.
    pub valid_right: bool,
    /// Size along the dock's axis; `None` means "use the default".
    pub size_override: Option<u64>,
    /// The size used while no override is set.
    pub default_size: u64,
    /// Whether the panel currently claims the full window.
    pub zoomed: bool,
    /// Activation state as last mirrored to the panel by its dock.
    pub active: bool,
    /// Whether the panel's focus target currently holds input focus.
    pub has_focus: bool,
    /// Icon shown in the button strip; `None` hides the toggle button.
    pub icon: Option<u64>,
    /// Optional label rendered beside the icon.
    pub icon_label: Option<String>,
    /// The command that opens and activates this panel's group.
    pub toggle_action: Command,
}

impl PanelHandle {
    /// The size the panel is rendered at: the override when one is set,
    /// otherwise the default.
    pub open spec fn spec_size(self) -> u64 {
        match self.size_override {
            Option::Some(s) => s,
            Option::None => self.default_size,
        }
    }

    /// Whether a move to `candidate` is legal for this panel type.
    pub open spec fn spec_position_is_valid(self, candidate: DockPosition) -> bool {
        match candidate {
            DockPosition::Left => self.valid_left,
            DockPosition::Bottom => self.valid_bottom,
            DockPosition::Right => self.valid_right,
        }
    }

    /// Runtime-unique identity of the wrapped panel instance.
    pub fn id(&self) -> (r: u64)
        ensures
            r == self.id,
    {
        self.id
    }

    /// Stable per-type name used for cross-session matching.
    pub fn persistent_name(&self) -> (r: &str)
        ensures
            r@ == self.persistent_name@,
    {
        self.persistent_name.as_str()
    }

    /// Whether this handle wraps an instance of the concrete type with the
    /// given tag; succeeds or fails without altering state.
    pub fn is_type(&self, type_tag: u64) -> (r: bool)
        ensures
            r == (self.type_tag == type_tag),
    {
        self.type_tag == type_tag
    }

    /// The edge the panel is currently anchored to.
    pub fn position(&self) -> (r: DockPosition)
        ensures
            r == self.position,
    {
        self.position
    }

    /// Whether a re-anchor to `candidate` is legal for this panel type.
    pub fn position_is_valid(&self, candidate: DockPosition) -> (r: bool)
        ensures
            r == self.spec_position_is_valid(candidate),
    {
        match candidate {
            DockPosition::Left => self.valid_left,
            DockPosition::Bottom => self.valid_bottom,
            DockPosition::Right => self.valid_right,
        }
    }

    /// Re-anchors the panel and hands back the `ChangePosition` event the
    /// panel emits, for the host to route to the owning dock.
    pub fn set_position(&mut self, position: DockPosition) -> (e: PanelEvent)
        ensures
            *final(self) == (PanelHandle { position, ..*old(self) }),
            e == PanelEvent::ChangePosition,
    {
        self.position = position;
        PanelEvent::ChangePosition
    }

    /// Whether the panel currently claims the full window.
    pub fn is_zoomed(&self) -> (r: bool)
        ensures
            r == self.zoomed,
    {
        self.zoomed
    }

    /// Notification hook: the owning dock records the panel's zoom state.
    pub fn set_zoomed(&mut self, zoomed: bool)
        ensures
            *final(self) == (PanelHandle { zoomed, ..*old(self) }),
    {
        self.zoomed = zoomed;
    }

    /// Notification hook: the owning dock mirrors its activation state here
    /// whenever its active index or open flag changes.
    pub fn set_active(&mut self, active: bool)
        ensures
            *final(self) == (PanelHandle { active, ..*old(self) }),
    {
        self.active = active;
    }

    /// Current rendered size along the dock's axis.
    pub fn size(&self) -> (r: u64)
        ensures
            r == self.spec_size(),
    {
        match self.size_override {
            Option::Some(s) => s,
            Option::None => self.default_size,
        }
    }

    /// Overrides the rendered size; `None` falls back to the default.
    pub fn set_size(&mut self, size: Option<u64>)
        ensures
            *final(self) == (PanelHandle { size_override: size, ..*old(self) }),
    {
        self.size_override = size;
    }

    /// Icon for the button strip; `None` means the panel is not shown as a
    /// toggle button.
    pub fn icon(&self) -> (r: Option<u64>)
        ensures
            r == self.icon,
    {
        self.icon
    }

    /// Optional label rendered beside the icon.
    pub fn icon_label(&self) -> (r: &Option<String>)
        ensures
            r == self.icon_label,
    {
        &self.icon_label
    }

    /// The command that, when dispatched by the host, opens and activates
    /// this panel's group.
    pub fn toggle_action(&self) -> (r: Command)
        ensures
            r == self.toggle_action,
    {
        self.toggle_action
    }

    /// Whether the panel's focus target currently holds input focus.
    pub fn has_focus(&self) -> (r: bool)
        ensures
            r == self.has_focus,
    {
        self.has_focus
    }
}

} // verus!
