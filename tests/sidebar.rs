use sidebar_buttons::dock::{close_dock_text, dock_entry_text, DockPosition, DockState, PanelInfo};
use sidebar_buttons::sidebar::{
    build_relocate_menu, get_bottom_panel_names, get_top_panel_names, render_panel_button,
    ButtonAction, ClickEffect, MenuCorner, PanelButton, SidebarButtons, SidebarItem, SidebarSide,
};

fn panel(name: &str) -> PanelInfo {
    PanelInfo {
        name: name.to_string(),
        icon: Some(format!("{name} icon")),
        tooltip: Some(format!("{name} tooltip")),
        valid_left: true,
        valid_right: true,
        valid_bottom: true,
    }
}

fn dock(position: DockPosition, panels: Vec<PanelInfo>, active: Option<usize>, open: bool) -> DockState {
    DockState { position, is_open: open, active_panel_index: active, panels }
}

fn empty(position: DockPosition) -> DockState {
    dock(position, Vec::new(), None, false)
}

fn button(item: &SidebarItem) -> &PanelButton {
    match item {
        SidebarItem::Button(b) => b,
        SidebarItem::Extra(i) => panic!("expected a button, found extra item {i}"),
    }
}

fn labels(b: &PanelButton) -> Vec<String> {
    b.menu.entries.iter().map(|e| e.label.clone()).collect()
}

#[test]
fn left_side_with_three_docks() {
    let sidebar: SidebarButtons<&str> = SidebarButtons::new(
        SidebarSide::Left,
        dock(DockPosition::Left, vec![panel("Project Panel"), panel("Outline Panel")], Some(0), true),
        dock(DockPosition::Bottom, vec![panel("TerminalPanel")], None, false),
        dock(DockPosition::Right, vec![panel("AgentPanel")], None, false),
    );
    let layout = sidebar.render();
    assert_eq!(layout.top.len(), 2);
    let project = &layout.top[0];
    assert_eq!(project.name, "Project Panel");
    assert!(project.is_active);
    assert_eq!(project.action, ButtonAction::ToggleDock(DockPosition::Left));
    assert_eq!(project.tooltip, "Close Left Dock");
    let outline = &layout.top[1];
    assert_eq!(outline.name, "Outline Panel");
    assert!(!outline.is_active);
    assert_eq!(outline.action, ButtonAction::TogglePanel { dock: DockPosition::Left, index: 1 });
    assert_eq!(outline.tooltip, "Outline Panel tooltip");
    assert_eq!(layout.bottom.len(), 1);
    let terminal = button(&layout.bottom[0]);
    assert_eq!(terminal.name, "TerminalPanel");
    assert_eq!(terminal.dock_position, DockPosition::Bottom);
    assert!(!terminal.is_active);
    assert!(layout.top.iter().all(|b| b.name != "AgentPanel"));
    assert!(layout.divider);
}

#[test]
fn right_side_without_panels() {
    let sidebar: SidebarButtons<&str> = SidebarButtons::new(
        SidebarSide::Right,
        empty(DockPosition::Left),
        empty(DockPosition::Bottom),
        empty(DockPosition::Right),
    );
    let layout = sidebar.render();
    assert!(layout.top.is_empty());
    assert!(layout.bottom.is_empty());
    assert!(!layout.divider);
}

#[test]
fn right_side_shows_agent_panels_only() {
    let sidebar: SidebarButtons<&str> = SidebarButtons::new(
        SidebarSide::Right,
        dock(DockPosition::Left, vec![panel("Project Panel")], None, true),
        dock(DockPosition::Bottom, vec![panel("TerminalPanel"), panel("NotificationPanel")], None, true),
        dock(DockPosition::Right, vec![panel("AgentPanel"), panel("AgentsPanel")], Some(1), true),
    );
    let layout = sidebar.render();
    let names: Vec<&str> = layout.top.iter().map(|b| b.name.as_str()).collect();
    assert_eq!(names, vec!["NotificationPanel", "AgentPanel", "AgentsPanel"]);
    assert!(layout.bottom.is_empty());
    assert!(!layout.divider);
    assert!(!layout.top[1].is_active);
    assert!(layout.top[2].is_active);
    assert_eq!(layout.top[2].tooltip, "Close Right Dock");
}

#[test]
fn panel_without_icon_or_tooltip_gets_no_button() {
    let mut no_icon = panel("GitPanel");
    no_icon.icon = None;
    let mut no_tooltip = panel("CollabPanel");
    no_tooltip.tooltip = None;
    assert!(render_panel_button(SidebarSide::Left, &no_icon, 0, false, DockPosition::Left).is_none());
    assert!(render_panel_button(SidebarSide::Left, &no_tooltip, 0, false, DockPosition::Left).is_none());
    let sidebar: SidebarButtons<&str> = SidebarButtons::new(
        SidebarSide::Left,
        dock(DockPosition::Left, vec![no_icon, no_tooltip, panel("Project Panel")], None, true),
        empty(DockPosition::Bottom),
        empty(DockPosition::Right),
    );
    let layout = sidebar.render();
    assert_eq!(layout.top.len(), 1);
    assert_eq!(layout.top[0].name, "Project Panel");
    assert_eq!(layout.top[0].panel_index, 2);
}

#[test]
fn unlisted_panel_gets_no_button() {
    let sidebar: SidebarButtons<&str> = SidebarButtons::new(
        SidebarSide::Left,
        dock(DockPosition::Left, vec![panel("Some Panel"), panel("project panel")], None, true),
        empty(DockPosition::Bottom),
        empty(DockPosition::Right),
    );
    let layout = sidebar.render();
    assert!(layout.top.is_empty());
    assert!(layout.bottom.is_empty());
}

#[test]
fn bottom_panel_stands_in_bottom_group_only() {
    let sidebar: SidebarButtons<&str> = SidebarButtons::new(
        SidebarSide::Left,
        dock(DockPosition::Left, vec![panel("DebugPanel")], None, true),
        empty(DockPosition::Bottom),
        empty(DockPosition::Right),
    );
    let layout = sidebar.render();
    assert!(layout.top.is_empty());
    assert_eq!(layout.bottom.len(), 1);
    assert_eq!(button(&layout.bottom[0]).name, "DebugPanel");
    assert!(!layout.divider);
}

#[test]
fn active_panel_of_closed_dock_is_not_active() {
    let sidebar: SidebarButtons<&str> = SidebarButtons::new(
        SidebarSide::Left,
        dock(DockPosition::Left, vec![panel("GitPanel")], Some(0), false),
        empty(DockPosition::Bottom),
        empty(DockPosition::Right),
    );
    let layout = sidebar.render();
    assert!(!layout.top[0].is_active);
    assert_eq!(layout.top[0].action, ButtonAction::TogglePanel { dock: DockPosition::Left, index: 0 });
    assert_eq!(layout.top[0].tooltip, "GitPanel tooltip");
}

#[test]
fn active_button_in_bottom_dock_closes_it() {
    let b = render_panel_button(SidebarSide::Left, &panel("TerminalPanel"), 3, true, DockPosition::Bottom)
        .unwrap();
    assert!(b.is_active);
    assert_eq!(b.action, ButtonAction::ToggleDock(DockPosition::Bottom));
    assert_eq!(b.tooltip, "Close Bottom Dock");
    assert_eq!(b.icon, "TerminalPanel icon");
    assert_eq!(b.panel_index, 3);
}

#[test]
fn relocate_menu_skips_current_position() {
    let menu = build_relocate_menu(SidebarSide::Left, &panel("GitPanel"), DockPosition::Left);
    let labels: Vec<&str> = menu.entries.iter().map(|e| e.label.as_str()).collect();
    assert_eq!(labels, vec!["Dock Right", "Dock Bottom"]);
    assert_eq!(menu.entries[0].position, DockPosition::Right);
    assert_eq!(menu.entries[1].position, DockPosition::Bottom);
    assert_eq!((menu.anchor, menu.attach), (MenuCorner::TopLeft, MenuCorner::TopRight));
}

#[test]
fn relocate_menu_offers_valid_positions_only() {
    let mut p = panel("TerminalPanel");
    p.valid_right = false;
    let menu = build_relocate_menu(SidebarSide::Right, &p, DockPosition::Bottom);
    let labels: Vec<&str> = menu.entries.iter().map(|e| e.label.as_str()).collect();
    assert_eq!(labels, vec!["Dock Left"]);
    assert_eq!((menu.anchor, menu.attach), (MenuCorner::TopRight, MenuCorner::TopLeft));
    p.valid_left = false;
    let menu = build_relocate_menu(SidebarSide::Right, &p, DockPosition::Bottom);
    assert!(menu.entries.is_empty());
}

#[test]
fn button_carries_relocate_menu() {
    let b = render_panel_button(SidebarSide::Right, &panel("AgentPanel"), 0, false, DockPosition::Right)
        .unwrap();
    assert_eq!(labels(&b), vec!["Dock Left".to_string(), "Dock Bottom".to_string()]);
    assert_eq!(b.menu.anchor, MenuCorner::TopRight);
}

#[test]
fn extra_items_follow_panel_buttons() {
    let mut sidebar: SidebarButtons<&str> = SidebarButtons::new(
        SidebarSide::Left,
        empty(DockPosition::Left),
        dock(DockPosition::Bottom, vec![panel("TerminalPanel"), panel("DebugPanel")], None, true),
        empty(DockPosition::Right),
    );
    sidebar.add_bottom_item("status");
    sidebar.add_bottom_item("clock");
    assert_eq!(sidebar.bottom_items, vec!["status", "clock"]);
    let layout = sidebar.render();
    assert_eq!(layout.bottom.len(), 4);
    assert_eq!(button(&layout.bottom[0]).name, "TerminalPanel");
    assert_eq!(button(&layout.bottom[1]).name, "DebugPanel");
    assert!(matches!(layout.bottom[2], SidebarItem::Extra(0)));
    assert!(matches!(layout.bottom[3], SidebarItem::Extra(1)));
    assert!(!layout.divider);
}

#[test]
fn extra_items_alone_make_divider_with_top_group() {
    let mut sidebar: SidebarButtons<u32> = SidebarButtons::new(
        SidebarSide::Right,
        empty(DockPosition::Left),
        empty(DockPosition::Bottom),
        dock(DockPosition::Right, vec![panel("AgentPanel")], None, true),
    );
    sidebar.add_bottom_item(7);
    let layout = sidebar.render();
    assert_eq!(layout.top.len(), 1);
    assert_eq!(layout.bottom.len(), 1);
    assert!(matches!(layout.bottom[0], SidebarItem::Extra(0)));
    assert!(layout.divider);
}

#[test]
fn active_flag_follows_dock_update() {
    let panels = || vec![panel("Project Panel"), panel("GitPanel")];
    let mut sidebar: SidebarButtons<&str> = SidebarButtons::new(
        SidebarSide::Left,
        dock(DockPosition::Left, panels(), Some(0), true),
        empty(DockPosition::Bottom),
        empty(DockPosition::Right),
    );
    let before = sidebar.render();
    assert!(before.top[0].is_active);
    assert!(!before.top[1].is_active);
    sidebar.update_dock(dock(DockPosition::Left, panels(), Some(1), true));
    let after = sidebar.render();
    assert_eq!(after.top.len(), 2);
    assert_eq!(after.top[0].name, before.top[0].name);
    assert_eq!(after.top[1].name, before.top[1].name);
    assert!(!after.top[0].is_active);
    assert!(after.top[1].is_active);
    assert_eq!(after.top[1].tooltip, "Close Left Dock");
    assert_eq!(sidebar.bottom_dock.panels.len(), 0);
}

#[test]
fn click_focuses_dock_then_dispatches() {
    let b = render_panel_button(SidebarSide::Left, &panel("GitPanel"), 1, false, DockPosition::Left).unwrap();
    assert_eq!(
        b.click_effects(),
        vec![
            ClickEffect::FocusDock(DockPosition::Left),
            ClickEffect::Dispatch(ButtonAction::TogglePanel { dock: DockPosition::Left, index: 1 }),
        ]
    );
}

#[test]
fn tooltip_hidden_while_menu_open() {
    let b = render_panel_button(SidebarSide::Left, &panel("GitPanel"), 0, true, DockPosition::Left).unwrap();
    assert!(b.shows_tooltip(false));
    assert!(!b.shows_tooltip(true));
}

#[test]
fn element_id_is_name_and_active_flag() {
    let active = render_panel_button(SidebarSide::Left, &panel("GitPanel"), 0, true, DockPosition::Left).unwrap();
    let idle = render_panel_button(SidebarSide::Left, &panel("GitPanel"), 0, false, DockPosition::Left).unwrap();
    assert_eq!(active.element_id(), ("GitPanel".to_string(), true));
    assert_eq!(idle.element_id(), ("GitPanel".to_string(), false));
}

#[test]
fn panel_name_lists() {
    assert_eq!(
        get_top_panel_names(SidebarSide::Left),
        vec!["Project Panel", "GitPanel", "Outline Panel", "CollabPanel"]
    );
    assert_eq!(get_bottom_panel_names(SidebarSide::Left), vec!["TerminalPanel", "DebugPanel"]);
    assert_eq!(
        get_top_panel_names(SidebarSide::Right),
        vec!["AgentPanel", "AgentsPanel", "NotificationPanel"]
    );
    assert!(get_bottom_panel_names(SidebarSide::Right).is_empty());
}

#[test]
fn position_labels_and_texts() {
    assert_eq!(DockPosition::Left.label(), "Left");
    assert_eq!(DockPosition::Right.label(), "Right");
    assert_eq!(DockPosition::Bottom.label(), "Bottom");
    assert_eq!(dock_entry_text(DockPosition::Bottom), "Dock Bottom");
    assert_eq!(close_dock_text(DockPosition::Right), "Close Right Dock");
    let p = panel("GitPanel");
    assert!(p.position_is_valid(DockPosition::Right));
}
