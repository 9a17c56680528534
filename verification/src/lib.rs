//! Dockable side-panel regions for an application window.
//!
//! A [`Dock`](dock::Dock) owns an ordered registry of panels anchored to one
//! window edge, keeps track of which single panel is active and whether the
//! dock is open, routes lifecycle events emitted by panels, and derives the
//! state of the status-bar button strip.  Panels of arbitrary concrete types
//! are manipulated uniformly through the type-erased
//! [`PanelHandle`](panel::PanelHandle) record.

mod action;
mod buttons;
mod dock;
mod menu;
mod panel;
mod position;

pub use action::Command;
pub use action::toggle_action_of;
pub use buttons::PanelButton;
pub use buttons::PanelButtons;
pub use buttons::button_matches;
pub use buttons::icon_indices;
pub use buttons::reassignment_positions;
pub use buttons::spec_close_dock_tooltip;
pub use buttons::spec_reassignment_positions;
pub use buttons::with_candidate_position;
pub use dock::Dock;
pub use dock::DockLayout;
pub use dock::PanelEntry;
pub use dock::first_index_with_id;
pub use dock::first_index_with_name;
pub use dock::first_index_with_type;
pub use dock::lemma_open_dock_has_unique_active;
pub use dock::lemma_persistent_name_resolves;
pub use dock::set_active_at;
pub use dock::with_active;
pub use dock::with_size_override;
pub use dock::with_zoom_cleared;
pub use menu::MenuState;
pub use panel::PanelEvent;
pub use panel::PanelHandle;
pub use position::Axis;
pub use position::DockPosition;
