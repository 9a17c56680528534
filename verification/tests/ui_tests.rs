use dock::Axis;
use dock::Command;
use dock::Dock;
use dock::DockPosition;
use dock::MenuState;
use dock::PanelButtons;
use dock::PanelEvent;
use dock::PanelHandle;

fn icon_panel(id: u64, name: &str, icon: Option<u64>) -> PanelHandle {
    PanelHandle {
        id,
        type_tag: id,
        persistent_name: name.to_string(),
        position: DockPosition::Left,
        valid_left: true,
        valid_bottom: false,
        valid_right: true,
        size_override: None,
        default_size: 240,
        zoomed: false,
        active: false,
        has_focus: false,
        icon,
        icon_label: None,
        toggle_action: Command::TogglePanel(id),
    }
}

#[test]
fn axis_follows_edge() {
    assert_eq!(DockPosition::Left.axis(), Axis::Horizontal);
    assert_eq!(DockPosition::Right.axis(), Axis::Horizontal);
    assert_eq!(DockPosition::Bottom.axis(), Axis::Vertical);
}

#[test]
fn labels_name_the_edges() {
    assert_eq!(DockPosition::Left.to_label(), "left");
    assert_eq!(DockPosition::Bottom.to_label(), "bottom");
    assert_eq!(DockPosition::Right.to_label(), "right");
}

#[test]
fn toggle_action_matches_dock_edge() {
    assert_eq!(
        Dock::new(DockPosition::Left).toggle_action(),
        Command::ToggleLeftDock
    );
    assert_eq!(
        Dock::new(DockPosition::Bottom).toggle_action(),
        Command::ToggleBottomDock
    );
    assert_eq!(
        Dock::new(DockPosition::Right).toggle_action(),
        Command::ToggleRightDock
    );
}

#[test]
fn render_is_sized_along_the_axis() {
    let mut left = Dock::new(DockPosition::Left);
    left.add_panel(icon_panel(1, "project", None));
    assert!(left.render().is_none());
    left.set_open(true);
    let layout = left.render().unwrap();
    assert_eq!(layout.axis, Axis::Horizontal);
    assert_eq!(layout.size, 240);

    let mut bottom = Dock::new(DockPosition::Bottom);
    bottom.add_panel(icon_panel(2, "terminal", None));
    bottom.set_open(true);
    bottom.resize_active_panel(Some(160));
    let layout = bottom.render().unwrap();
    assert_eq!(layout.axis, Axis::Vertical);
    assert_eq!(layout.size, 160);
}

#[test]
fn panel_positions_and_validity() {
    let mut p = icon_panel(1, "project", None);
    assert_eq!(p.position(), DockPosition::Left);
    assert!(p.position_is_valid(DockPosition::Left));
    assert!(!p.position_is_valid(DockPosition::Bottom));
    assert!(p.position_is_valid(DockPosition::Right));
    let event = p.set_position(DockPosition::Right);
    assert_eq!(event, PanelEvent::ChangePosition);
    assert_eq!(p.position(), DockPosition::Right);
}

#[test]
fn panel_size_falls_back_to_default() {
    let mut p = icon_panel(1, "project", None);
    assert_eq!(p.size(), 240);
    p.set_size(Some(500));
    assert_eq!(p.size(), 500);
    p.set_size(None);
    assert_eq!(p.size(), 240);
}

#[test]
fn buttons_skip_entries_without_icons() {
    let mut d = Dock::new(DockPosition::Left);
    d.add_panel(icon_panel(1, "project", Some(11)));
    d.add_panel(icon_panel(2, "hidden", None));
    d.add_panel(icon_panel(3, "assistant", Some(33)));
    let strip = PanelButtons::new(&d);
    assert_eq!(strip.buttons.len(), 2);
    assert_eq!(strip.buttons[0].name, "project");
    assert_eq!(strip.buttons[0].icon, 11);
    assert_eq!(strip.buttons[1].name, "assistant");
    assert_eq!(strip.buttons[1].icon, 33);
}

#[test]
fn active_button_closes_the_dock() {
    let mut d = Dock::new(DockPosition::Bottom);
    d.add_panel(icon_panel(1, "project", Some(11)));
    d.add_panel(icon_panel(2, "terminal", Some(22)));
    d.set_open(true);
    d.activate_panel(1);
    let strip = PanelButtons::new(&d);
    assert!(!strip.buttons[0].active);
    assert_eq!(strip.buttons[0].action, Command::TogglePanel(1));
    assert_eq!(strip.buttons[0].tooltip, "project");
    assert!(strip.buttons[1].active);
    assert_eq!(strip.buttons[1].action, Command::ToggleBottomDock);
    assert_eq!(strip.buttons[1].tooltip, "Close bottom dock");
}

#[test]
fn no_button_is_active_while_dock_is_closed() {
    let mut d = Dock::new(DockPosition::Left);
    d.add_panel(icon_panel(1, "project", Some(11)));
    d.add_panel(icon_panel(2, "terminal", Some(22)));
    d.activate_panel(1);
    d.set_open(false);
    let strip = PanelButtons::new(&d);
    assert!(strip.buttons.iter().all(|b| !b.active));
    assert_eq!(strip.buttons[1].action, Command::TogglePanel(2));
    assert_eq!(strip.buttons[1].tooltip, "terminal");
}

#[test]
fn menu_opens_only_on_bubble_right_click_inside() {
    let mut m = MenuState::new();
    assert!(!m.menu_visible());
    m.mouse_down(false, true, true);
    assert!(!m.menu_visible());
    m.mouse_down(true, false, true);
    assert!(!m.menu_visible());
    m.mouse_down(true, true, false);
    assert!(!m.menu_visible());
    m.mouse_down(true, true, true);
    assert!(m.menu_visible());
    m.mouse_down(false, false, false);
    assert!(m.menu_visible());
}

#[test]
fn reassignment_menu_lists_valid_other_edges() {
    let p = icon_panel(1, "project", None);
    let from_left = dock::reassignment_positions(&p, DockPosition::Left);
    assert_eq!(from_left, vec![DockPosition::Right]);
    let from_right = dock::reassignment_positions(&p, DockPosition::Right);
    assert_eq!(from_right, vec![DockPosition::Left]);
    let mut q = icon_panel(2, "terminal", None);
    q.valid_bottom = true;
    let from_left_q = dock::reassignment_positions(&q, DockPosition::Left);
    assert_eq!(from_left_q, vec![DockPosition::Right, DockPosition::Bottom]);
}
