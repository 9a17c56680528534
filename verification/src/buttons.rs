//! The status-bar button strip: one toggle button per registered panel
//! that offers an icon.
//!
//! Entries without an icon are skipped — they stay addressable through the
//! registry but are not shown as buttons.  A button is rendered in its
//! active visual state exactly when its panel is the visible one; clicking
//! the active button dispatches the dock's own close-this-edge toggle
//! command, clicking an inactive button dispatches that panel's own toggle
//! command.

use vstd::prelude::*;

use crate::action::Command;
use crate::action::toggle_action_of;
use crate::dock::Dock;
use crate::dock::PanelEntry;
use crate::panel::PanelHandle;
use crate::position::DockPosition;

verus! {

/// The derived state of one toggle button in the strip.
pub struct PanelButton {
    /// Persistent name of the panel the button toggles.
    pub name: String,
    /// The panel's icon.
    pub icon: u64,
    /// Whether the button is rendered in its active visual state.
    pub active: bool,
    /// The command dispatched when the button is clicked.
    pub action: Command,
    /// The tooltip shown over the button.
    pub tooltip: String,
}

/// The positions, in display order, of the entries of `s` that offer an
/// icon and are therefore shown as buttons.
pub open spec fn icon_indices(s: Seq<PanelEntry>) -> Seq<int>
    decreases s.len(),
{
    if s.len() == 0 {
        Seq::empty()
    } else {
        let prefix = icon_indices(s.drop_last());
        if s.last().panel.icon is Some {
            prefix.push(s.len() - 1)
        } else {
            prefix
        }
    }
}

/// The tooltip of the button of the visible panel, offering to close the
/// dock at `position`.
pub open spec fn spec_close_dock_tooltip(position: DockPosition) -> Seq<char> {
    match position {
        DockPosition::Left => "Close left dock"@,
        DockPosition::Bottom => "Close bottom dock"@,
        DockPosition::Right => "Close right dock"@,
    }
}

/// `b` is the button derived for the panel registered at position `j` of
/// `dock`: icon and name come from the panel; the visible panel's button is
/// active and dispatches the dock's own toggle command, every other button
/// is inactive and dispatches its panel's toggle command.
pub open spec fn button_matches(dock: Dock, j: int, b: PanelButton) -> bool {
    let e = dock.panel_entries@[j].panel;
    &&& e.icon == Option::Some(b.icon)
    &&& b.name@ == e.persistent_name@
    &&& b.active == (dock.is_open && j == dock.active_panel_index)
    &&& if dock.is_open && j == dock.active_panel_index {
        b.action == toggle_action_of(dock.position) && b.tooltip@ == spec_close_dock_tooltip(
            dock.position,
        )
    } else {
        b.action == e.toggle_action && b.tooltip@ == e.persistent_name@
    }
}

/// Every icon position is a position inside the registry.
proof fn lemma_icon_indices_bounds(s: Seq<PanelEntry>)
    ensures
        forall|k: int|
            0 <= k < icon_indices(s).len() ==> 0 <= #[trigger] icon_indices(s)[k] < s.len(),
    decreases s.len(),
{
    if s.len() > 0 {
        lemma_icon_indices_bounds(s.drop_last());
        let prefix = icon_indices(s.drop_last());
        assert forall|k: int| 0 <= k < icon_indices(s).len() implies 0 <= #[trigger] icon_indices(
            s,
        )[k] < s.len() by {
            if s.last().panel.icon is Some {
                assert(icon_indices(s) == prefix.push(s.len() - 1));
                if k < prefix.len() {
                    assert(icon_indices(s)[k] == prefix[k]);
                }
            } else {
                assert(icon_indices(s) == prefix);
                assert(icon_indices(s)[k] == prefix[k]);
            }
        }
    }
}

/// Appending one entry appends its position to the icon positions when it
/// offers an icon and changes nothing otherwise.
proof fn lemma_icon_indices_take_step(s: Seq<PanelEntry>, i: int)
    requires
        0 <= i < s.len(),
    ensures
        icon_indices(s.take(i + 1)) == if s[i].panel.icon is Some {
            icon_indices(s.take(i)).push(i)
        } else {
            icon_indices(s.take(i))
        },
{
    assert(s.take(i + 1).drop_last() =~= s.take(i));
    assert(s.take(i + 1).last() == s[i]);
}

/// `s` extended by `candidate` when the panel at `current` may move there:
/// a candidate edge enters the reassignment menu when it is not the current
/// edge and the panel supports it.
pub open spec fn with_candidate_position(
    s: Seq<DockPosition>,
    p: PanelHandle,
    current: DockPosition,
    candidate: DockPosition,
) -> Seq<DockPosition> {
    if candidate != current && p.spec_position_is_valid(candidate) {
        s.push(candidate)
    } else {
        s
    }
}

/// The edges offered by the position-reassignment menu of `p`'s button:
/// the non-current edges the panel supports, in the fixed candidate order
/// left, right, bottom.
pub open spec fn spec_reassignment_positions(p: PanelHandle, current: DockPosition) -> Seq<
    DockPosition,
> {
    with_candidate_position(
        with_candidate_position(
            with_candidate_position(Seq::empty(), p, current, DockPosition::Left),
            p,
            current,
            DockPosition::Right,
        ),
        p,
        current,
        DockPosition::Bottom,
    )
}

/// The entries of the secondary-click menu on a panel's button: the edges
/// the panel could be reassigned to, namely every edge other than the
/// dock's current one that the panel reports valid.
pub fn reassignment_positions(panel: &PanelHandle, current: DockPosition) -> (r: Vec<
    DockPosition,
>)
    ensures
        r@ == spec_reassignment_positions(*panel, current),
{
    let mut positions: Vec<DockPosition> = Vec::new();
    if !(current == DockPosition::Left) && panel.position_is_valid(DockPosition::Left) {
        positions.push(DockPosition::Left);
    }
    if !(current == DockPosition::Right) && panel.position_is_valid(DockPosition::Right) {
        positions.push(DockPosition::Right);
    }
    if !(current == DockPosition::Bottom) && panel.position_is_valid(DockPosition::Bottom) {
        positions.push(DockPosition::Bottom);
    }
    positions
}

/// The status-bar view holding one toggle button per icon-bearing panel of
/// one dock.
pub struct PanelButtons {
    /// The derived buttons, in the dock's display order.
    pub buttons: Vec<PanelButton>,
}

/// The tooltip of the visible panel's button: it offers to close the dock
/// at `position`.
fn close_dock_tooltip(position: DockPosition) -> (r: String)
    ensures
        r@ == spec_close_dock_tooltip(position),
{
    match position {
        DockPosition::Left => "Close left dock".to_owned(),
        DockPosition::Bottom => "Close bottom dock".to_owned(),
        DockPosition::Right => "Close right dock".to_owned(),
    }
}

impl PanelButtons {
    /// Derives the strip's buttons from the dock's current state.  The
    /// host re-derives them whenever the dock notifies a state change.
    pub fn new(dock: &Dock) -> (r: PanelButtons)
        ensures
            r.buttons@.len() == icon_indices(dock.panel_entries@).len(),
            forall|k: int|
                0 <= k < r.buttons@.len() ==> 0 <= #[trigger] icon_indices(dock.panel_entries@)[k]
                    < dock.panel_entries@.len(),
            forall|k: int|
                0 <= k < r.buttons@.len() ==> button_matches(
                    *dock,
                    icon_indices(dock.panel_entries@)[k],
                    #[trigger] r.buttons@[k],
                ),
    {
        let mut buttons: Vec<PanelButton> = Vec::new();
        let n = dock.panel_entries.len();
        let mut i: usize = 0;
        while i < n
            invariant
                n == dock.panel_entries@.len(),
                i <= n,
                buttons@.len() == icon_indices(dock.panel_entries@.take(i as int)).len(),
                forall|k: int|
                    0 <= k < buttons@.len() ==> button_matches(
                        *dock,
                        icon_indices(dock.panel_entries@.take(i as int))[k],
                        #[trigger] buttons@[k],
                    ),
            decreases n - i,
        {
            let ghost s = dock.panel_entries@;
            let ghost pre = icon_indices(s.take(i as int));
            let ghost pre_buttons = buttons@;
            proof {
                lemma_icon_indices_take_step(s, i as int);
            }
            let entry = &dock.panel_entries[i];
            if let Option::Some(icon) = entry.panel.icon {
                let is_active = dock.is_open() && i == dock.active_panel_index();
                let action = if is_active {
                    dock.toggle_action()
                } else {
                    entry.panel.toggle_action()
                };
                let tooltip = if is_active {
                    close_dock_tooltip(dock.position())
                } else {
                    entry.panel.persistent_name.clone()
                };
                let name = entry.panel.persistent_name.clone();
                buttons.push(PanelButton { name, icon, active: is_active, action, tooltip });
                proof {
                    assert(icon_indices(s.take(i as int + 1)) == pre.push(i as int));
                    assert forall|k: int| 0 <= k < buttons@.len() implies button_matches(
                        *dock,
                        icon_indices(s.take(i as int + 1))[k],
                        #[trigger] buttons@[k],
                    ) by {
                        if k < pre_buttons.len() {
                            assert(buttons@[k] == pre_buttons[k]);
                            assert(icon_indices(s.take(i as int + 1))[k] == pre[k]);
                        } else {
                            assert(icon_indices(s.take(i as int + 1))[k] == i as int);
                        }
                    }
                }
            } else {
                proof {
                    assert(icon_indices(s.take(i as int + 1)) == pre);
                }
            }
            i = i + 1;
        }
        proof {
            assert(dock.panel_entries@.take(n as int) =~= dock.panel_entries@);
            lemma_icon_indices_bounds(dock.panel_entries@);
        }
        PanelButtons { buttons }
    }
}

} // verus!
