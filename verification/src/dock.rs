//! The dock: an ordered panel registry crossed with an activation state
//! machine.
//!
//! A dock owns the panels anchored to one window edge.  At most one panel is
//! visible at a time: the one at `active_panel_index`, and only while the
//! dock is open.  Whenever the active index or the open flag changes, the
//! dock mirrors the change to the affected panels through
//! [`PanelHandle::set_active`], so panel-observed activation state matches
//! dock-observed activation state.  Observers (the button strip, the layout
//! renderer, a persistence layer) are told of every mutation through a
//! "dock state changed" notification, counted here by a ghost field.

use vstd::prelude::*;

use crate::action::Command;
use crate::panel::PanelEvent;
use crate::panel::PanelHandle;
use crate::position::Axis;
use crate::position::DockPosition;

verus! {

/// The dock's record for one registered panel.
///
/// Event delivery from the panel is the host's duty: it routes every
/// lifecycle event the panel emits into [`Dock::handle_panel_event`].
pub struct PanelEntry {
    /// The type-erased handle of the registered panel.
    pub panel: PanelHandle,
}

/// `e` with its panel's activation flag set to `active`, all else unchanged.
pub open spec fn with_active(e: PanelEntry, active: bool) -> PanelEntry {
    PanelEntry { panel: PanelHandle { active, ..e.panel } }
}

/// `s` with the activation flag of the panel at `i` set to `active`, all
/// else unchanged.
pub open spec fn set_active_at(s: Seq<PanelEntry>, i: int, active: bool) -> Seq<PanelEntry> {
    s.update(i, with_active(s[i], active))
}

/// `e` with its panel's zoom flag cleared, all else unchanged.
pub open spec fn with_zoom_cleared(e: PanelEntry) -> PanelEntry {
    PanelEntry { panel: PanelHandle { zoomed: false, ..e.panel } }
}

/// `e` with its panel's size override replaced by `size`, all else unchanged.
pub open spec fn with_size_override(e: PanelEntry, size: Option<u64>) -> PanelEntry {
    PanelEntry { panel: PanelHandle { size_override: size, ..e.panel } }
}

/// `i` is the position of the first entry of `s` whose panel has identity
/// `id`: all registry lookups resolve to the earliest match.
pub open spec fn first_index_with_id(s: Seq<PanelEntry>, id: u64, i: int) -> bool {
    &&& 0 <= i < s.len()
    &&& s[i].panel.id == id
    &&& forall|j: int| 0 <= j < i ==> (#[trigger] s[j]).panel.id != id
}

/// `i` is the position of the first entry of `s` whose panel carries the
/// concrete-type tag `type_tag`.
pub open spec fn first_index_with_type(s: Seq<PanelEntry>, type_tag: u64, i: int) -> bool {
    &&& 0 <= i < s.len()
    &&& s[i].panel.type_tag == type_tag
    &&& forall|j: int| 0 <= j < i ==> (#[trigger] s[j]).panel.type_tag != type_tag
}

/// `i` is the position of the first entry of `s` whose panel bears the
/// persistent name `name`.
pub open spec fn first_index_with_name(s: Seq<PanelEntry>, name: Seq<char>, i: int) -> bool {
    &&& 0 <= i < s.len()
    &&& s[i].panel.persistent_name@ == name
    &&& forall|j: int| 0 <= j < i ==> (#[trigger] s[j]).panel.persistent_name@ != name
}

/// A window-edge container that manages one active panel at a time plus a
/// registry of toggleable panels.
pub struct Dock {
    /// The window edge this dock is anchored to; fixed at construction.
    pub position: DockPosition,
    /// The registered panels, in insertion order = display order.
    pub panel_entries: Vec<PanelEntry>,
    /// Whether the dock currently shows its active panel.
    pub is_open: bool,
    /// Index of the single panel selected for display; meaningful whenever
    /// the registry is non-empty.
    pub active_panel_index: usize,
    /// How many "dock state changed" notifications have been emitted to
    /// observers such as the button strip or a persistence layer.
    pub notifications: Ghost<nat>,
}

/// The dock's rendered representation: its extent along the axis implied by
/// its edge (a width for `Left`/`Right`, a height for `Bottom`).
#[derive(Clone, Copy, Debug, PartialEq, Eq, Structural)]
pub struct DockLayout {
    /// The axis the dock is sized along.
    pub axis: Axis,
    /// The extent along that axis: the active panel's current size.
    pub size: u64,
}

impl Dock {
    /// Well-formedness: the active index stays inside the registry while the
    /// registry is non-empty, and rests at zero while it is empty.
    pub open spec fn wf(self) -> bool {
        if self.panel_entries@.len() == 0 {
            self.active_panel_index == 0
        } else {
            self.active_panel_index < self.panel_entries@.len()
        }
    }

    /// Panel-observed activation state agrees with dock-observed state: a
    /// panel reports active only from the active index, and while the dock
    /// is open and non-empty the active panel does report active.
    ///
    /// Every dock operation preserves this, provided panels are handed over
    /// inactive and the dock stays the sole writer of their activation flag;
    /// see the preservation clauses on the mutating operations.
    pub open spec fn active_flags_ok(self) -> bool {
        &&& forall|j: int|
            0 <= j < self.panel_entries@.len() ==> ((#[trigger] self.panel_entries@[j]).panel.active
                ==> j == self.active_panel_index)
        &&& (self.is_open && self.panel_entries@.len() > 0
            ==> self.panel_entries@[self.active_panel_index as int].panel.active)
    }

    /// A new, empty, closed dock anchored to `position`.
    pub fn new(position: DockPosition) -> (dock: Dock)
        ensures
            dock.position == position,
            dock.panel_entries@.len() == 0,
            !dock.is_open,
            dock.active_panel_index == 0,
            dock.notifications@ == 0,
            dock.wf(),
            dock.active_flags_ok(),
    {
        Dock {
            position,
            panel_entries: Vec::new(),
            is_open: false,
            active_panel_index: 0,
            notifications: Ghost(0),
        }
    }

    /// The window edge this dock is anchored to.
    pub fn position(&self) -> (r: DockPosition)
        ensures
            r == self.position,
    {
        self.position
    }

    /// Whether the dock currently shows its active panel.
    pub fn is_open(&self) -> (r: bool)
        ensures
            r == self.is_open,
    {
        self.is_open
    }

    /// Index of the panel selected for display.
    pub fn active_panel_index(&self) -> (r: usize)
        ensures
            r == self.active_panel_index,
    {
        self.active_panel_index
    }

    /// How many panels are registered.
    pub fn panels_len(&self) -> (r: usize)
        ensures
            r == self.panel_entries@.len(),
    {
        self.panel_entries.len()
    }

    /// Position of the first registered panel wrapping an instance of the
    /// concrete type tagged `type_tag`; `None` when no panel is of that type.
    pub fn panel_index_for_type(&self, type_tag: u64) -> (r: Option<usize>)
        ensures
            match r {
                Option::Some(i) => first_index_with_type(self.panel_entries@, type_tag, i as int),
                Option::None => forall|j: int|
                    0 <= j < self.panel_entries@.len() ==> (#[trigger] self.panel_entries@[j]).panel.type_tag
                        != type_tag,
            },
    {
        let n = self.panel_entries.len();
        let mut i: usize = 0;
        while i < n
            invariant
                n == self.panel_entries@.len(),
                i <= n,
                forall|j: int|
                    0 <= j < i ==> (#[trigger] self.panel_entries@[j]).panel.type_tag != type_tag,
            decreases n - i,
        {
            if self.panel_entries[i].panel.is_type(type_tag) {
                return Option::Some(i);
            }
            i = i + 1;
        }
        Option::None
    }

    /// Position of the first registered panel bearing the persistent name
    /// `ui_name`; `None` when no panel bears it.
    pub fn panel_index_for_persistent_name(&self, ui_name: &str) -> (r: Option<usize>)
        ensures
            match r {
                Option::Some(i) => first_index_with_name(self.panel_entries@, ui_name@, i as int),
                Option::None => forall|j: int|
                    0 <= j < self.panel_entries@.len() ==> (#[trigger] self.panel_entries@[j]).panel.persistent_name@
                        != ui_name@,
            },
    {
        let target: String = ui_name.to_owned();
        let n = self.panel_entries.len();
        let mut i: usize = 0;
        while i < n
            invariant
                target@ == ui_name@,
                n == self.panel_entries@.len(),
                i <= n,
                forall|j: int|
                    0 <= j < i ==> (#[trigger] self.panel_entries@[j]).panel.persistent_name@
                        != ui_name@,
            decreases n - i,
        {
            if self.panel_entries[i].panel.persistent_name == target {
                return Option::Some(i);
            }
            i = i + 1;
        }
        Option::None
    }

    /// Position of the first registered panel with identity `id`.
    fn index_of_panel_id(&self, id: u64) -> (r: Option<usize>)
        ensures
            match r {
                Option::Some(i) => first_index_with_id(self.panel_entries@, id, i as int),
                Option::None => forall|j: int|
                    0 <= j < self.panel_entries@.len() ==> (#[trigger] self.panel_entries@[j]).panel.id
                        != id,
            },
    {
        let n = self.panel_entries.len();
        let mut i: usize = 0;
        while i < n
            invariant
                n == self.panel_entries@.len(),
                i <= n,
                forall|j: int| 0 <= j < i ==> (#[trigger] self.panel_entries@[j]).panel.id != id,
            decreases n - i,
        {
            if self.panel_entries[i].panel.id == id {
                return Option::Some(i);
            }
            i = i + 1;
        }
        Option::None
    }

    /// Opens or closes the dock.  A change is mirrored to the active panel
    /// (when one exists) and notified to observers; passing the current flag
    /// is a no-op with no notification.  Toggling an empty dock just flips
    /// the flag.
    pub fn set_open(&mut self, open: bool)
        requires
            old(self).wf(),
        ensures
            final(self).wf(),
            final(self).position == old(self).position,
            final(self).active_panel_index == old(self).active_panel_index,
            final(self).is_open == open,
            open == old(self).is_open ==> *final(self) == *old(self),
            open != old(self).is_open ==> {
                &&& final(self).notifications@ == old(self).notifications@ + 1
                &&& if old(self).panel_entries@.len() > 0 {
                    final(self).panel_entries@ == old(self).panel_entries@.update(
                        old(self).active_panel_index as int,
                        with_active(
                            old(self).panel_entries@[old(self).active_panel_index as int],
                            open,
                        ),
                    )
                } else {
                    final(self).panel_entries@ == old(self).panel_entries@
                }
            },
            old(self).active_flags_ok() ==> final(self).active_flags_ok(),
    {
        if open != self.is_open {
            self.is_open = open;
            if self.active_panel_index < self.panel_entries.len() {
                let ix = self.active_panel_index;
                self.panel_entries[ix].panel.set_active(open);
            }
            self.notifications = Ghost(self.notifications@ + 1);
        }
    }

    /// Forces `is_zoomed == false` on every registered panel: a global
    /// "un-zoom everything" used when focus moves elsewhere.
    pub fn zoom_out(&mut self)
        requires
            old(self).wf(),
        ensures
            final(self).position == old(self).position,
            final(self).is_open == old(self).is_open,
            final(self).active_panel_index == old(self).active_panel_index,
            final(self).notifications@ == old(self).notifications@,
            final(self).panel_entries@.len() == old(self).panel_entries@.len(),
            forall|j: int|
                0 <= j < old(self).panel_entries@.len() ==> #[trigger] final(self).panel_entries@[j]
                    == with_zoom_cleared(old(self).panel_entries@[j]),
            final(self).wf(),
            old(self).active_flags_ok() ==> final(self).active_flags_ok(),
    {
        let n = self.panel_entries.len();
        let mut i: usize = 0;
        while i < n
            invariant
                n == self.panel_entries@.len(),
                i <= n,
                self.position == old(self).position,
                self.is_open == old(self).is_open,
                self.active_panel_index == old(self).active_panel_index,
                self.notifications@ == old(self).notifications@,
                forall|j: int|
                    0 <= j < i ==> #[trigger] self.panel_entries@[j] == with_zoom_cleared(
                        old(self).panel_entries@[j],
                    ),
                forall|j: int|
                    i <= j < n ==> #[trigger] self.panel_entries@[j]
                        == old(self).panel_entries@[j],
            decreases n - i,
        {
            if self.panel_entries[i].panel.is_zoomed() {
                self.panel_entries[i].panel.set_zoomed(false);
            }
            i = i + 1;
        }
        proof {
            if old(self).active_flags_ok() {
                assert forall|j: int|
                    0 <= j < self.panel_entries@.len() && (#[trigger] self.panel_entries@[j]).panel.active implies j
                    == self.active_panel_index by {
                    assert(self.panel_entries@[j] == with_zoom_cleared(
                        old(self).panel_entries@[j],
                    ));
                    assert(old(self).panel_entries@[j].panel.active);
                }
                if self.is_open && self.panel_entries@.len() > 0 {
                    assert(self.panel_entries@[self.active_panel_index as int]
                        == with_zoom_cleared(
                        old(self).panel_entries@[self.active_panel_index as int],
                    ));
                }
            }
        }
    }

    /// Appends a new entry for `panel` and notifies observers.  Adding the
    /// same identity twice creates two entries: de-duplication is the
    /// caller's responsibility.
    ///
    /// The activation-consistency preservation clause asks that the panel
    /// arrive inactive (the dock holding a panel is the sole writer of its
    /// activation flag) and that an open dock not be empty — opening an
    /// empty dock and then adding a panel leaves that panel unnotified, as
    /// no activation change occurred.
    pub fn add_panel(&mut self, panel: PanelHandle)
        requires
            old(self).wf(),
        ensures
            final(self).wf(),
            final(self).position == old(self).position,
            final(self).is_open == old(self).is_open,
            final(self).active_panel_index == old(self).active_panel_index,
            final(self).notifications@ == old(self).notifications@ + 1,
            final(self).panel_entries@ == old(self).panel_entries@.push(
                (PanelEntry { panel }),
            ),
            old(self).active_flags_ok() && !panel.active && (old(self).is_open
                ==> old(self).panel_entries@.len() > 0) ==> final(self).active_flags_ok(),
    {
        self.panel_entries.push(PanelEntry { panel });
        self.notifications = Ghost(self.notifications@ + 1);
    }

    /// Removes the entry for `panel` if one is present; absence is a no-op,
    /// not an error.  Removing the active panel resets the active index to
    /// zero and closes the dock (no silent promotion of another panel);
    /// removing a panel before the active one shifts the active index down
    /// so it keeps pointing at the same logical panel.
    pub fn remove_panel(&mut self, panel: &PanelHandle)
        requires
            old(self).wf(),
        ensures
            final(self).wf(),
            final(self).position == old(self).position,
            (forall|j: int|
                0 <= j < old(self).panel_entries@.len()
                    ==> (#[trigger] old(self).panel_entries@[j]).panel.id != panel.id)
                ==> *final(self) == *old(self),
            forall|ix: int|
                first_index_with_id(old(self).panel_entries@, panel.id, ix) ==> {
                    &&& (ix == old(self).active_panel_index ==> {
                        &&& final(self).active_panel_index == 0
                        &&& !final(self).is_open
                        &&& (old(self).is_open ==> final(self).panel_entries@ =~= set_active_at(
                            old(self).panel_entries@,
                            0,
                            false,
                        ).remove(ix) && final(self).notifications@ == old(self).notifications@
                            + 2)
                        &&& (!old(self).is_open ==> final(self).panel_entries@ =~= old(self).panel_entries@.remove(
                            ix,
                        ) && final(self).notifications@ == old(self).notifications@ + 1)
                    })
                    &&& (ix != old(self).active_panel_index ==> {
                        &&& final(self).panel_entries@ =~= old(self).panel_entries@.remove(ix)
                        &&& final(self).is_open == old(self).is_open
                        &&& final(self).notifications@ == old(self).notifications@ + 1
                        &&& (ix < old(self).active_panel_index ==> final(self).active_panel_index
                            == old(self).active_panel_index - 1)
                        &&& (ix > old(self).active_panel_index ==> final(self).active_panel_index
                            == old(self).active_panel_index)
                        &&& final(self).panel_entries@[final(self).active_panel_index as int]
                            == old(self).panel_entries@[old(self).active_panel_index as int]
                    })
                },
            old(self).active_flags_ok() ==> final(self).active_flags_ok(),
    {
        if let Option::Some(panel_ix) = self.index_of_panel_id(panel.id()) {
            if panel_ix == self.active_panel_index {
                self.active_panel_index = 0;
                self.set_open(false);
            } else if panel_ix < self.active_panel_index {
                self.active_panel_index = self.active_panel_index - 1;
            }
            self.panel_entries.remove(panel_ix);
            self.notifications = Ghost(self.notifications@ + 1);
        }
    }

    /// Makes the panel at `panel_ix` the active one: the old active panel is
    /// told it is no longer active, the new one that it is, and observers
    /// are notified.  Activating the already-active index is a no-op with no
    /// calls and no notification.
    pub fn activate_panel(&mut self, panel_ix: usize)
        requires
            old(self).wf(),
            panel_ix < old(self).panel_entries@.len(),
        ensures
            final(self).wf(),
            final(self).position == old(self).position,
            final(self).is_open == old(self).is_open,
            final(self).active_panel_index == panel_ix,
            panel_ix == old(self).active_panel_index ==> *final(self) == *old(self),
            panel_ix != old(self).active_panel_index ==> {
                &&& final(self).panel_entries@ == old(self).panel_entries@.update(
                    old(self).active_panel_index as int,
                    with_active(
                        old(self).panel_entries@[old(self).active_panel_index as int],
                        false,
                    ),
                ).update(
                    panel_ix as int,
                    with_active(old(self).panel_entries@[panel_ix as int], true),
                )
                &&& final(self).notifications@ == old(self).notifications@ + 1
            },
            old(self).active_flags_ok() ==> final(self).active_flags_ok(),
    {
        if panel_ix != self.active_panel_index {
            let ix = self.active_panel_index;
            self.panel_entries[ix].panel.set_active(false);
            self.active_panel_index = panel_ix;
            self.panel_entries[panel_ix].panel.set_active(true);
            self.notifications = Ghost(self.notifications@ + 1);
        }
    }

    /// The entry selected for display: the active entry, only while the
    /// dock is open.
    fn visible_entry(&self) -> (r: Option<&PanelEntry>)
        requires
            self.wf(),
        ensures
            match r {
                Option::Some(e) => {
                    &&& self.is_open
                    &&& self.panel_entries@.len() > 0
                    &&& *e == self.panel_entries@[self.active_panel_index as int]
                },
                Option::None => !(self.is_open && self.panel_entries@.len() > 0),
            },
    {
        if self.is_open && self.active_panel_index < self.panel_entries.len() {
            Option::Some(&self.panel_entries[self.active_panel_index])
        } else {
            Option::None
        }
    }

    /// The active panel's handle, but only while the dock is open.
    pub fn visible_panel(&self) -> (r: Option<&PanelHandle>)
        requires
            self.wf(),
        ensures
            match r {
                Option::Some(p) => {
                    &&& self.is_open
                    &&& self.panel_entries@.len() > 0
                    &&& *p == self.panel_entries@[self.active_panel_index as int].panel
                },
                Option::None => !(self.is_open && self.panel_entries@.len() > 0),
            },
    {
        match self.visible_entry() {
            Option::Some(entry) => Option::Some(&entry.panel),
            Option::None => Option::None,
        }
    }

    /// The active panel's handle, whether or not the dock is open; `None`
    /// only on an empty registry.
    pub fn active_panel(&self) -> (r: Option<&PanelHandle>)
        requires
            self.wf(),
        ensures
            match r {
                Option::Some(p) => {
                    &&& self.panel_entries@.len() > 0
                    &&& *p == self.panel_entries@[self.active_panel_index as int].panel
                },
                Option::None => self.panel_entries@.len() == 0,
            },
    {
        if self.active_panel_index < self.panel_entries.len() {
            Option::Some(&self.panel_entries[self.active_panel_index].panel)
        } else {
            Option::None
        }
    }

    /// The visible panel's handle, but only when that panel additionally
    /// reports itself zoomed.
    pub fn zoomed_panel(&self) -> (r: Option<&PanelHandle>)
        requires
            self.wf(),
        ensures
            match r {
                Option::Some(p) => {
                    &&& self.is_open
                    &&& self.panel_entries@.len() > 0
                    &&& self.panel_entries@[self.active_panel_index as int].panel.zoomed
                    &&& *p == self.panel_entries@[self.active_panel_index as int].panel
                },
                Option::None => !(self.is_open && self.panel_entries@.len() > 0
                    && self.panel_entries@[self.active_panel_index as int].panel.zoomed),
            },
    {
        match self.visible_entry() {
            Option::Some(entry) => {
                if entry.panel.is_zoomed() {
                    Option::Some(&entry.panel)
                } else {
                    Option::None
                }
            },
            Option::None => Option::None,
        }
    }

    /// The current size of the registered panel with `panel`'s identity;
    /// `None` when it is not registered here.
    pub fn panel_size(&self, panel: &PanelHandle) -> (r: Option<u64>)
        ensures
            match r {
                Option::Some(s) => forall|ix: int|
                    first_index_with_id(self.panel_entries@, panel.id, ix) ==> s
                        == self.panel_entries@[ix].panel.spec_size(),
                Option::None => forall|j: int|
                    0 <= j < self.panel_entries@.len() ==> (#[trigger] self.panel_entries@[j]).panel.id
                        != panel.id,
            },
            (exists|j: int|
                0 <= j < self.panel_entries@.len() && (#[trigger] self.panel_entries@[j]).panel.id
                    == panel.id) <==> r is Some,
    {
        match self.index_of_panel_id(panel.id()) {
            Option::Some(ix) => Option::Some(self.panel_entries[ix].panel.size()),
            Option::None => Option::None,
        }
    }

    /// The size the dock renders at: the active panel's size, only while the
    /// dock is open and non-empty.
    pub fn active_panel_size(&self) -> (r: Option<u64>)
        requires
            self.wf(),
        ensures
            match r {
                Option::Some(s) => {
                    &&& self.is_open
                    &&& self.panel_entries@.len() > 0
                    &&& s == self.panel_entries@[self.active_panel_index as int].panel.spec_size()
                },
                Option::None => !(self.is_open && self.panel_entries@.len() > 0),
            },
    {
        if self.is_open {
            match self.active_panel() {
                Option::Some(p) => Option::Some(p.size()),
                Option::None => Option::None,
            }
        } else {
            Option::None
        }
    }

    /// Forwards `size` to the active entry's size override and notifies
    /// observers; a no-op on an empty registry.
    pub fn resize_active_panel(&mut self, size: Option<u64>)
        requires
            old(self).wf(),
        ensures
            final(self).wf(),
            final(self).position == old(self).position,
            final(self).is_open == old(self).is_open,
            final(self).active_panel_index == old(self).active_panel_index,
            old(self).panel_entries@.len() == 0 ==> *final(self) == *old(self),
            old(self).panel_entries@.len() > 0 ==> {
                &&& final(self).panel_entries@ == old(self).panel_entries@.update(
                    old(self).active_panel_index as int,
                    with_size_override(
                        old(self).panel_entries@[old(self).active_panel_index as int],
                        size,
                    ),
                )
                &&& final(self).notifications@ == old(self).notifications@ + 1
            },
            old(self).active_flags_ok() ==> final(self).active_flags_ok(),
    {
        if self.active_panel_index < self.panel_entries.len() {
            let ix = self.active_panel_index;
            self.panel_entries[ix].panel.set_size(size);
            self.notifications = Ghost(self.notifications@ + 1);
        }
    }

    /// The host command that toggles the dock at this dock's own edge.
    pub fn toggle_action(&self) -> (r: Command)
        ensures
            r == crate::action::toggle_action_of(self.position),
    {
        match self.position {
            DockPosition::Left => Command::ToggleLeftDock,
            DockPosition::Bottom => Command::ToggleBottomDock,
            DockPosition::Right => Command::ToggleRightDock,
        }
    }

    /// The identity of the dock's focus target: its active panel.
    pub fn focus_handle(&self) -> (r: u64)
        requires
            self.wf(),
            self.panel_entries@.len() > 0,
        ensures
            r == self.panel_entries@[self.active_panel_index as int].panel.id,
    {
        self.panel_entries[self.active_panel_index].panel.id()
    }

    /// The dock's rendered representation: sized along its edge's axis to
    /// the visible panel's current size, or nothing while the dock is
    /// closed or empty.
    pub fn render(&self) -> (r: Option<DockLayout>)
        requires
            self.wf(),
        ensures
            self.is_open && self.panel_entries@.len() > 0 ==> r == Option::Some(
                (DockLayout {
                    axis: self.position.spec_axis(),
                    size: self.panel_entries@[self.active_panel_index as int].panel.spec_size(),
                }),
            ),
            !(self.is_open && self.panel_entries@.len() > 0) ==> r is None,
    {
        match self.visible_entry() {
            Option::Some(entry) => Option::Some(
                DockLayout { axis: self.position.axis(), size: entry.panel.size() },
            ),
            Option::None => Option::None,
        }
    }

    /// Routes a lifecycle event emitted by the panel with identity
    /// `panel_id` into the state machine.
    ///
    /// `Activate` forces the dock open and activates the emitter's entry
    /// when the emitter is registered here; `Close` closes the dock when
    /// the emitter is the visible panel; `ChangePosition`, `ZoomIn` and
    /// `ZoomOut` ask for cross-dock coordination that this layer delegates
    /// to its owning shell, so they leave the dock unchanged.  `Focus` is
    /// reserved and must not be routed here.
    pub fn handle_panel_event(&mut self, panel_id: u64, event: PanelEvent)
        requires
            old(self).wf(),
            event != PanelEvent::Focus,
        ensures
            final(self).wf(),
            final(self).position == old(self).position,
            (event == PanelEvent::ChangePosition || event == PanelEvent::ZoomIn || event
                == PanelEvent::ZoomOut) ==> *final(self) == *old(self),
            event == PanelEvent::Activate ==> {
                &&& ((forall|j: int|
                    0 <= j < old(self).panel_entries@.len()
                        ==> (#[trigger] old(self).panel_entries@[j]).panel.id != panel_id)
                    ==> *final(self) == *old(self))
                &&& (forall|ix: int|
                    first_index_with_id(old(self).panel_entries@, panel_id, ix) ==> {
                        &&& final(self).is_open
                        &&& final(self).active_panel_index == ix
                        &&& (old(self).is_open && ix == old(self).active_panel_index
                            ==> *final(self) == *old(self))
                        &&& (ix != old(self).active_panel_index ==> final(self).panel_entries@
                            =~= set_active_at(
                            set_active_at(
                                old(self).panel_entries@,
                                old(self).active_panel_index as int,
                                false,
                            ),
                            ix,
                            true,
                        ))
                        &&& (!old(self).is_open && ix == old(self).active_panel_index ==> final(self).panel_entries@
                            =~= set_active_at(old(self).panel_entries@, ix, true))
                        &&& (ix != old(self).active_panel_index ==> final(self).notifications@
                            == old(self).notifications@ + (if old(self).is_open {
                            1int
                        } else {
                            2int
                        }))
                        &&& (!old(self).is_open && ix == old(self).active_panel_index ==> final(self).notifications@
                            == old(self).notifications@ + 1)
                    })
            },
            event == PanelEvent::Close ==> {
                if old(self).is_open && old(self).panel_entries@.len() > 0
                    && old(self).panel_entries@[old(self).active_panel_index as int].panel.id
                    == panel_id {
                    &&& !final(self).is_open
                    &&& final(self).active_panel_index == old(self).active_panel_index
                    &&& final(self).panel_entries@ =~= set_active_at(
                        old(self).panel_entries@,
                        old(self).active_panel_index as int,
                        false,
                    )
                    &&& final(self).notifications@ == old(self).notifications@ + 1
                } else {
                    *final(self) == *old(self)
                }
            },
            old(self).active_flags_ok() ==> final(self).active_flags_ok(),
    {
        match event {
            PanelEvent::ChangePosition => {
                // Relocating the entry to a sibling dock is owned by the
                // enclosing shell; the dock itself records nothing.
            },
            PanelEvent::ZoomIn => {
                // Window-level zoom coordination is owned by the enclosing
                // shell; the dock itself records nothing.
            },
            PanelEvent::ZoomOut => {
                // Window-level zoom coordination is owned by the enclosing
                // shell; the dock itself records nothing.
            },
            PanelEvent::Activate => {
                if let Option::Some(ix) = self.index_of_panel_id(panel_id) {
                    self.set_open(true);
                    self.activate_panel(ix);
                }
            },
            PanelEvent::Close => {
                let emitter_is_visible = match self.visible_panel() {
                    Option::Some(p) => p.id == panel_id,
                    Option::None => false,
                };
                if emitter_is_visible {
                    self.set_open(false);
                }
            },
            PanelEvent::Focus => {
                proof {
                    assert(false);
                }
            },
        }
    }
}

/// Whenever a dock is open and its registry non-empty, exactly one panel
/// reports itself active — the one at `active_panel_index`, which is the
/// panel `active_panel` returns.
pub proof fn lemma_open_dock_has_unique_active(dock: Dock)
    requires
        dock.wf(),
        dock.active_flags_ok(),
        dock.is_open,
        dock.panel_entries@.len() > 0,
    ensures
        dock.panel_entries@[dock.active_panel_index as int].panel.active,
        forall|j: int|
            0 <= j < dock.panel_entries@.len() && j != dock.active_panel_index
                ==> !(#[trigger] dock.panel_entries@[j]).panel.active,
{
}

/// Every registered panel is resolved by its own persistent name, provided
/// the registered names are pairwise distinct: `panel_index_for_persistent_name`
/// on the name of the panel at `i` answers exactly `i`.
pub proof fn lemma_persistent_name_resolves(dock: Dock, i: int)
    requires
        0 <= i < dock.panel_entries@.len(),
        forall|j: int, k: int|
            0 <= j < dock.panel_entries@.len() && 0 <= k < dock.panel_entries@.len() && j != k
                ==> (#[trigger] dock.panel_entries@[j]).panel.persistent_name@ != (
            #[trigger] dock.panel_entries@[k]).panel.persistent_name@,
    ensures
        first_index_with_name(
            dock.panel_entries@,
            dock.panel_entries@[i].panel.persistent_name@,
            i,
        ),
{
}

} // verus!
