use dock::Command;
use dock::Dock;
use dock::DockPosition;
use dock::PanelEvent;
use dock::PanelHandle;

fn panel(id: u64, name: &str) -> PanelHandle {
    PanelHandle {
        id,
        type_tag: id,
        persistent_name: name.to_string(),
        position: DockPosition::Left,
        valid_left: true,
        valid_bottom: true,
        valid_right: true,
        size_override: None,
        default_size: 300,
        zoomed: false,
        active: false,
        has_focus: false,
        icon: None,
        icon_label: None,
        toggle_action: Command::TogglePanel(id),
    }
}

fn three_panel_dock() -> Dock {
    let mut d = Dock::new(DockPosition::Left);
    d.add_panel(panel(1, "project"));
    d.add_panel(panel(2, "terminal"));
    d.add_panel(panel(3, "assistant"));
    d
}

#[test]
fn new_dock_is_empty_and_closed() {
    let d = Dock::new(DockPosition::Right);
    assert_eq!(d.position(), DockPosition::Right);
    assert!(!d.is_open());
    assert_eq!(d.panels_len(), 0);
    assert_eq!(d.active_panel_index(), 0);
    assert!(d.visible_panel().is_none());
    assert!(d.active_panel().is_none());
    assert!(d.render().is_none());
}

#[test]
fn panels_len_counts_adds_and_names_resolve() {
    let mut d = Dock::new(DockPosition::Left);
    assert_eq!(d.panels_len(), 0);
    d.add_panel(panel(1, "project"));
    assert_eq!(d.panels_len(), 1);
    d.add_panel(panel(2, "terminal"));
    assert_eq!(d.panels_len(), 2);
    d.add_panel(panel(3, "assistant"));
    assert_eq!(d.panels_len(), 3);
    assert_eq!(d.panel_index_for_persistent_name("project"), Some(0));
    assert_eq!(d.panel_index_for_persistent_name("terminal"), Some(1));
    assert_eq!(d.panel_index_for_persistent_name("assistant"), Some(2));
    assert_eq!(d.panel_index_for_persistent_name("diagnostics"), None);
}

#[test]
fn adding_same_identity_twice_creates_two_entries() {
    let mut d = Dock::new(DockPosition::Left);
    d.add_panel(panel(7, "twin"));
    d.add_panel(panel(7, "twin"));
    assert_eq!(d.panels_len(), 2);
    assert_eq!(d.panel_index_for_persistent_name("twin"), Some(0));
}

#[test]
fn panel_index_for_type_finds_first_of_tag() {
    let mut d = Dock::new(DockPosition::Left);
    let mut p = panel(1, "project");
    p.type_tag = 10;
    d.add_panel(p);
    let mut q = panel(2, "terminal");
    q.type_tag = 20;
    d.add_panel(q);
    let mut r = panel(3, "terminal2");
    r.type_tag = 20;
    d.add_panel(r);
    assert_eq!(d.panel_index_for_type(10), Some(0));
    assert_eq!(d.panel_index_for_type(20), Some(1));
    assert_eq!(d.panel_index_for_type(30), None);
}

#[test]
fn open_dock_has_exactly_one_active_panel() {
    let mut d = three_panel_dock();
    d.activate_panel(1);
    d.set_open(true);
    assert!(d.is_open());
    let active: Vec<bool> = d
        .panel_entries
        .iter()
        .map(|e| e.panel.active)
        .collect();
    assert_eq!(active, vec![false, true, false]);
    assert_eq!(d.active_panel().unwrap().id, 2);
    assert_eq!(d.visible_panel().unwrap().id, 2);
}

#[test]
fn removing_active_panel_resets_index_and_closes() {
    let mut d = three_panel_dock();
    d.set_open(true);
    assert_eq!(d.active_panel_index(), 0);
    let a = panel(1, "project");
    d.remove_panel(&a);
    assert_eq!(d.active_panel_index(), 0);
    assert!(!d.is_open());
    assert_eq!(d.panels_len(), 2);
    assert_eq!(d.panel_index_for_persistent_name("terminal"), Some(0));
}

#[test]
fn removing_panel_before_active_shifts_index_down() {
    let mut d = three_panel_dock();
    d.activate_panel(1);
    let a = panel(1, "project");
    d.remove_panel(&a);
    assert_eq!(d.active_panel_index(), 0);
    assert_eq!(d.active_panel().unwrap().persistent_name, "terminal");
    assert_eq!(d.active_panel().unwrap().id, 2);
}

#[test]
fn removing_panel_after_active_keeps_index() {
    let mut d = three_panel_dock();
    d.activate_panel(1);
    let c = panel(3, "assistant");
    d.remove_panel(&c);
    assert_eq!(d.active_panel_index(), 1);
    assert_eq!(d.active_panel().unwrap().id, 2);
    assert_eq!(d.panels_len(), 2);
}

#[test]
fn removing_absent_panel_is_a_no_op() {
    let mut d = three_panel_dock();
    d.set_open(true);
    let stranger = panel(99, "stranger");
    d.remove_panel(&stranger);
    assert_eq!(d.panels_len(), 3);
    assert!(d.is_open());
    assert_eq!(d.active_panel_index(), 0);
}

#[test]
fn activate_panel_moves_activation_flags() {
    let mut d = three_panel_dock();
    d.set_open(true);
    d.activate_panel(2);
    assert_eq!(d.active_panel_index(), 2);
    let active: Vec<bool> = d
        .panel_entries
        .iter()
        .map(|e| e.panel.active)
        .collect();
    assert_eq!(active, vec![false, false, true]);
}

#[test]
fn activate_current_index_is_a_no_op() {
    let mut d = three_panel_dock();
    d.set_open(true);
    let flags_before: Vec<bool> = d.panel_entries.iter().map(|e| e.panel.active).collect();
    d.activate_panel(0);
    let flags_after: Vec<bool> = d.panel_entries.iter().map(|e| e.panel.active).collect();
    assert_eq!(flags_before, flags_after);
    assert_eq!(d.active_panel_index(), 0);
    assert!(d.is_open());
}

#[test]
fn zoom_out_clears_every_zoomed_panel() {
    let mut d = Dock::new(DockPosition::Left);
    let mut a = panel(1, "a");
    a.zoomed = true;
    let b = panel(2, "b");
    let mut c = panel(3, "c");
    c.zoomed = true;
    d.add_panel(a);
    d.add_panel(b);
    d.add_panel(c);
    d.zoom_out();
    assert!(d.panel_entries.iter().all(|e| !e.panel.zoomed));
    assert_eq!(d.panels_len(), 3);
}

#[test]
fn set_open_twice_keeps_dock_open() {
    let mut d = Dock::new(DockPosition::Bottom);
    d.set_open(true);
    assert!(d.is_open());
    d.set_open(true);
    assert!(d.is_open());
    assert_eq!(d.panels_len(), 0);
}

#[test]
fn set_open_mirrors_activation_to_active_panel() {
    let mut d = three_panel_dock();
    assert!(!d.panel_entries[0].panel.active);
    d.set_open(true);
    assert!(d.panel_entries[0].panel.active);
    d.set_open(false);
    assert!(!d.panel_entries[0].panel.active);
}

#[test]
fn activate_event_opens_dock_and_activates_emitter() {
    let mut d = three_panel_dock();
    assert!(!d.is_open());
    d.handle_panel_event(3, PanelEvent::Activate);
    assert!(d.is_open());
    assert_eq!(d.active_panel_index(), 2);
    assert!(d.panel_entries[2].panel.active);
}

#[test]
fn activate_event_from_unregistered_panel_is_a_no_op() {
    let mut d = three_panel_dock();
    d.handle_panel_event(42, PanelEvent::Activate);
    assert!(!d.is_open());
    assert_eq!(d.active_panel_index(), 0);
}

#[test]
fn close_event_from_visible_panel_closes_dock() {
    let mut d = three_panel_dock();
    d.handle_panel_event(2, PanelEvent::Activate);
    assert!(d.is_open());
    assert_eq!(d.active_panel_index(), 1);
    d.handle_panel_event(2, PanelEvent::Close);
    assert!(!d.is_open());
    assert_eq!(d.active_panel_index(), 1);
}

#[test]
fn close_event_from_hidden_panel_is_a_no_op() {
    let mut d = three_panel_dock();
    d.handle_panel_event(2, PanelEvent::Activate);
    d.handle_panel_event(3, PanelEvent::Close);
    assert!(d.is_open());
    assert_eq!(d.active_panel_index(), 1);
}

#[test]
fn reserved_events_leave_dock_unchanged() {
    let mut d = three_panel_dock();
    d.set_open(true);
    for event in [
        PanelEvent::ChangePosition,
        PanelEvent::ZoomIn,
        PanelEvent::ZoomOut,
    ] {
        d.handle_panel_event(1, event);
        assert!(d.is_open());
        assert_eq!(d.active_panel_index(), 0);
        assert_eq!(d.panels_len(), 3);
    }
}

#[test]
fn visible_panel_absent_while_closed() {
    let d = three_panel_dock();
    assert!(d.visible_panel().is_none());
    assert_eq!(d.active_panel().unwrap().id, 1);
}

#[test]
fn zoomed_panel_requires_visible_and_zoomed() {
    let mut d = three_panel_dock();
    assert!(d.zoomed_panel().is_none());
    d.set_open(true);
    assert!(d.zoomed_panel().is_none());
    d.panel_entries[0].panel.set_zoomed(true);
    assert_eq!(d.zoomed_panel().unwrap().id, 1);
    d.set_open(false);
    assert!(d.zoomed_panel().is_none());
}

#[test]
fn panel_size_reports_registered_panels_only() {
    let mut d = Dock::new(DockPosition::Left);
    let mut a = panel(1, "a");
    a.size_override = Some(420);
    d.add_panel(a);
    d.add_panel(panel(2, "b"));
    let a_again = panel(1, "a");
    let stranger = panel(9, "stranger");
    assert_eq!(d.panel_size(&a_again), Some(420));
    assert_eq!(d.panel_size(&panel(2, "b")), Some(300));
    assert_eq!(d.panel_size(&stranger), None);
}

#[test]
fn active_panel_size_follows_open_flag() {
    let mut d = three_panel_dock();
    assert_eq!(d.active_panel_size(), None);
    d.set_open(true);
    assert_eq!(d.active_panel_size(), Some(300));
    d.resize_active_panel(Some(512));
    assert_eq!(d.active_panel_size(), Some(512));
    d.resize_active_panel(None);
    assert_eq!(d.active_panel_size(), Some(300));
}

#[test]
fn resize_on_empty_dock_is_a_no_op() {
    let mut d = Dock::new(DockPosition::Left);
    d.resize_active_panel(Some(100));
    assert_eq!(d.panels_len(), 0);
}

#[test]
fn focus_handle_is_active_panels_identity() {
    let mut d = three_panel_dock();
    assert_eq!(d.focus_handle(), 1);
    d.activate_panel(2);
    assert_eq!(d.focus_handle(), 3);
}
