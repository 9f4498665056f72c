use neon::browsers::{Browser, BrowserKind};
use neon::daemon::tray::{
    bridge_status_label, build_routes, eval_days_label, gui_entries, menu_item_id, menu_layout,
    route_item_into, snapshot_age_label, BridgeMenuState, BrowserMenuEntry, GuiEntry, MenuItemSpec,
    MenuState, TrayCommand,
};

fn fake_browser(name: &str) -> Browser {
    Browser {
        name: name.into(),
        install_path: format!("/opt/{name}-bin"),
        kind: BrowserKind::Detected,
        framework_name: None,
    }
}

fn empty_state(bridge: BridgeMenuState) -> MenuState {
    MenuState { browsers: vec![], launch_at_login: false, bridge: Some(bridge) }
}

#[test]
fn empty_browsers_skips_per_browser_block_but_keeps_actions() {
    let state = MenuState { browsers: vec![], launch_at_login: false, bridge: None };
    let layout = menu_layout(&state);
    assert_eq!(layout.len(), 6);
    assert!(matches!(&layout[0], MenuItemSpec::Action { command: TrayCommand::PatchAll, .. }));
    assert!(matches!(&layout[1], MenuItemSpec::Action { command: TrayCommand::UpdateWidevine, .. }));
    assert!(matches!(&layout[2], MenuItemSpec::Separator));
    assert!(matches!(&layout[3], MenuItemSpec::Toggle { .. }));
    assert!(matches!(&layout[4], MenuItemSpec::Separator));
    assert!(matches!(&layout[5], MenuItemSpec::Action { command: TrayCommand::Quit, .. }));
}

#[test]
fn two_browsers_produces_canonical_layout() {
    let state = MenuState {
        browsers: vec![
            BrowserMenuEntry::from_browser(&fake_browser("Helium"), true),
            BrowserMenuEntry::from_browser(&fake_browser("Thorium"), false),
        ],
        launch_at_login: true,
        bridge: None,
    };
    let layout = menu_layout(&state);
    assert_eq!(layout.len(), 9);
    assert!(matches!(
        &layout[0],
        MenuItemSpec::BrowserStatus { browser_name, patched: true } if browser_name == "Helium"
    ));
    assert!(matches!(
        &layout[1],
        MenuItemSpec::BrowserStatus { browser_name, patched: false } if browser_name == "Thorium"
    ));
    assert!(matches!(&layout[2], MenuItemSpec::Separator));
}

#[test]
fn browser_label_distinguishes_patched_status() {
    let patched = MenuItemSpec::BrowserStatus { browser_name: "Helium".into(), patched: true };
    let unpatched = MenuItemSpec::BrowserStatus { browser_name: "Thorium".into(), patched: false };
    assert_eq!(patched.label(), "✓ Helium Patched");
    assert_eq!(unpatched.label(), "✗ Thorium Not Patched");
}

#[test]
fn separator_predicates() {
    let s = MenuItemSpec::Separator;
    assert!(s.is_separator());
    assert!(!s.is_actionable());
    assert_eq!(s.label(), "");
}

#[test]
fn action_predicates() {
    let a = MenuItemSpec::Action { label: "Patch Now".into(), command: TrayCommand::PatchAll };
    assert!(!a.is_separator());
    assert!(a.is_actionable());
    assert_eq!(a.label(), "Patch Now");
}

#[test]
fn toggle_predicates() {
    let t = MenuItemSpec::Toggle {
        label: "Launch at Login".into(),
        checked: true,
        command_when_toggled: TrayCommand::ToggleLaunchAtLogin(false),
    };
    assert!(!t.is_separator());
    assert!(t.is_actionable());
    assert_eq!(t.label(), "Launch at Login");
}

#[test]
fn toggle_emits_inverse_state_on_click() {
    let state_off = MenuState { browsers: vec![], launch_at_login: false, bridge: None };
    let state_on = MenuState { browsers: vec![], launch_at_login: true, bridge: None };
    let layout_off = menu_layout(&state_off);
    let layout_on = menu_layout(&state_on);
    let toggle_off = layout_off.iter().find(|i| matches!(i, MenuItemSpec::Toggle { .. })).unwrap();
    let toggle_on = layout_on.iter().find(|i| matches!(i, MenuItemSpec::Toggle { .. })).unwrap();
    match toggle_off {
        MenuItemSpec::Toggle { command_when_toggled, checked, .. } => {
            assert!(!*checked);
            assert_eq!(*command_when_toggled, TrayCommand::ToggleLaunchAtLogin(true));
        }
        _ => panic!(),
    }
    match toggle_on {
        MenuItemSpec::Toggle { command_when_toggled, checked, .. } => {
            assert!(*checked);
            assert_eq!(*command_when_toggled, TrayCommand::ToggleLaunchAtLogin(false));
        }
        _ => panic!(),
    }
}

#[test]
fn build_routes_covers_actions_and_browsers_and_toggles() {
    let state = MenuState {
        browsers: vec![BrowserMenuEntry::from_browser(&fake_browser("Helium"), true)],
        launch_at_login: false,
        bridge: None,
    };
    let routes = build_routes(&state);
    assert_eq!(routes.len(), 5);
    let browser_entry = routes.iter().map(|(_, c)| c).find(|c| matches!(c, TrayCommand::PatchOne(_)));
    match browser_entry {
        Some(TrayCommand::PatchOne(name)) => assert_eq!(name, "Helium"),
        _ => panic!("missing PatchOne(Helium) in routes"),
    }
}

#[test]
fn menu_item_id_is_stable() {
    let item = MenuItemSpec::Action { label: "Patch Now".into(), command: TrayCommand::PatchAll };
    assert_eq!(menu_item_id(2, &item), menu_item_id(2, &item));
    assert_ne!(menu_item_id(1, &item), menu_item_id(2, &item));
}

#[test]
fn browser_menu_entry_from_browser() {
    let entry = BrowserMenuEntry::from_browser(&fake_browser("Foo"), true);
    assert_eq!(entry.name, "Foo");
    assert!(entry.patched);
}

#[test]
fn last_item_is_quit() {
    for browsers in [vec![], vec![BrowserMenuEntry::from_browser(&fake_browser("A"), false)]] {
        let state = MenuState { browsers, launch_at_login: false, bridge: None };
        let layout = menu_layout(&state);
        match layout.last().unwrap() {
            MenuItemSpec::Action { command: TrayCommand::Quit, .. } => {}
            other => panic!("expected Quit, got {other:?}"),
        }
    }
}

#[test]
fn empty_browsers_v3_layout_includes_streaming_and_bridge_submenu() {
    let state = empty_state(BridgeMenuState::default());
    let layout = menu_layout(&state);
    assert_eq!(
        layout.len(),
        13,
        "expected 13 items in V3 menu, got {} ({layout:#?})",
        layout.len()
    );
    assert!(matches!(&layout[0], MenuItemSpec::Action { command: TrayCommand::PatchAll, .. }));
    assert!(matches!(&layout[1], MenuItemSpec::Action { command: TrayCommand::UpdateWidevine, .. }));
    assert!(matches!(&layout[2], MenuItemSpec::Separator));
    for (idx, expected_url) in [(3, "netflix.com"), (4, "disneyplus.com"), (5, "max.com")] {
        match &layout[idx] {
            MenuItemSpec::Action { command: TrayCommand::StreamUrl(url), label } => {
                assert!(label.starts_with("Stream "), "label was {label:?}");
                assert!(url.contains(expected_url), "url was {url:?}");
            }
            other => panic!("idx {idx} expected stream action, got {other:?}"),
        }
    }
    match &layout[6] {
        MenuItemSpec::Action { command: TrayCommand::StreamUrl(url), .. } => assert!(url.is_empty()),
        other => panic!("idx 6 expected custom-URL stream, got {other:?}"),
    }
    assert!(matches!(&layout[7], MenuItemSpec::Separator));
    match &layout[8] {
        MenuItemSpec::Submenu { label, items } => {
            assert!(label.contains("Bridge"));
            assert_eq!(items.len(), 4, "default submenu size");
        }
        other => panic!("idx 8 expected Submenu, got {other:?}"),
    }
    assert!(matches!(&layout[9], MenuItemSpec::Separator));
    assert!(matches!(&layout[10], MenuItemSpec::Toggle { .. }));
    assert!(matches!(&layout[11], MenuItemSpec::Separator));
    assert!(matches!(&layout[12], MenuItemSpec::Action { command: TrayCommand::Quit, .. }));
}

#[test]
fn bridge_submenu_includes_eval_indicator_when_on_trial() {
    let state = empty_state(BridgeMenuState {
        ready: true,
        paused: false,
        snapshot_age_hours: None,
        eval_days_remaining: Some(82),
    });
    let layout = menu_layout(&state);
    match &layout[8] {
        MenuItemSpec::Submenu { items, .. } => {
            assert_eq!(items.len(), 5);
            let eval_label = items
                .iter()
                .find_map(|i| match i {
                    MenuItemSpec::Label { text } if text.contains("Eval") => Some(text),
                    _ => None,
                })
                .expect("eval label present");
            assert!(eval_label.contains("82"), "got {eval_label:?}");
        }
        other => panic!("expected Submenu, got {other:?}"),
    }
}

#[test]
fn bridge_submenu_eval_label_marks_expired() {
    let state = empty_state(BridgeMenuState {
        ready: true,
        paused: false,
        snapshot_age_hours: None,
        eval_days_remaining: Some(-7),
    });
    let layout = menu_layout(&state);
    if let MenuItemSpec::Submenu { items, .. } = &layout[8] {
        let eval_label = items
            .iter()
            .find_map(|i| match i {
                MenuItemSpec::Label { text } if text.contains("Eval") => Some(text),
                _ => None,
            })
            .expect("eval label present");
        assert!(eval_label.contains("expired") && eval_label.contains('7'), "got {eval_label:?}");
    }
}

#[test]
fn bridge_submenu_includes_snapshot_age() {
    let state = empty_state(BridgeMenuState {
        ready: true,
        paused: false,
        snapshot_age_hours: Some(48),
        eval_days_remaining: None,
    });
    let layout = menu_layout(&state);
    if let MenuItemSpec::Submenu { items, .. } = &layout[8] {
        let snap_label = items
            .iter()
            .find_map(|i| match i {
                MenuItemSpec::Label { text } if text.contains("Snapshot") => Some(text),
                _ => None,
            })
            .expect("snapshot label present");
        assert!(snap_label.contains("2d"), "got {snap_label:?}");
    }
}

#[test]
fn bridge_status_label_for_each_state() {
    assert!(bridge_status_label(&BridgeMenuState::default()).contains("Not provisioned"));
    assert!(bridge_status_label(&BridgeMenuState {
        ready: true,
        paused: false,
        snapshot_age_hours: None,
        eval_days_remaining: None,
    })
    .contains("Ready"));
    assert!(bridge_status_label(&BridgeMenuState {
        ready: true,
        paused: true,
        snapshot_age_hours: None,
        eval_days_remaining: None,
    })
    .contains("Paused"));
}

#[test]
fn v3_build_routes_includes_stream_and_bridge_actions() {
    let state = empty_state(BridgeMenuState::default());
    let routes = build_routes(&state);
    let mut saw_stream = false;
    let mut saw_pause = false;
    let mut saw_resume = false;
    let mut saw_repair = false;
    for (_, cmd) in &routes {
        match cmd {
            TrayCommand::StreamUrl(_) => saw_stream = true,
            TrayCommand::BridgePause => saw_pause = true,
            TrayCommand::BridgeResume => saw_resume = true,
            TrayCommand::BridgeRepair => saw_repair = true,
            _ => {}
        }
    }
    assert!(saw_stream, "StreamUrl missing in routes");
    assert!(saw_pause, "BridgePause missing in routes");
    assert!(saw_resume, "BridgeResume missing in routes");
    assert!(saw_repair, "BridgeRepair missing in routes");
}

#[test]
fn stream_urls_are_distinct() {
    let state = empty_state(BridgeMenuState::default());
    let layout = menu_layout(&state);
    let urls: Vec<String> = layout
        .iter()
        .filter_map(|i| match i {
            MenuItemSpec::Action { command: TrayCommand::StreamUrl(url), .. } => Some(url.clone()),
            _ => None,
        })
        .collect();
    assert_eq!(urls.len(), 4, "expected 4 stream URLs");
    let mut sorted = urls.clone();
    sorted.sort();
    assert!(sorted.windows(2).all(|w| w[0] != w[1]), "duplicates");
}

#[test]
fn eval_days_label_formatting() {
    assert!(eval_days_label(0).contains("0 days"));
    assert!(eval_days_label(1).contains("1 days"));
    assert!(eval_days_label(82).contains("82 days"));
    assert!(eval_days_label(-1).contains("expired"));
    assert!(eval_days_label(-1).contains("1 days"));
}

#[test]
fn snapshot_age_label_formatting() {
    assert!(snapshot_age_label(0).contains("0h"));
    assert!(snapshot_age_label(23).contains("23h"));
    assert!(snapshot_age_label(24).contains("1d"));
    assert!(snapshot_age_label(48).contains("2d"));
    assert!(snapshot_age_label(168).contains("7d"));
}

#[test]
fn submenu_label_is_non_empty() {
    let state = empty_state(BridgeMenuState::default());
    let layout = menu_layout(&state);
    if let MenuItemSpec::Submenu { label, .. } = &layout[8] {
        assert!(!label.is_empty());
        assert!(label.contains("Bridge"));
    }
}

#[test]
fn label_items_are_not_actionable() {
    let l = MenuItemSpec::Label { text: "Status: Ready".into() };
    assert!(!l.is_separator());
    assert!(!l.is_actionable());
    assert_eq!(l.label(), "Status: Ready");
}

#[test]
fn submenu_items_are_not_actionable() {
    let s = MenuItemSpec::Submenu { label: "Bridge ▶".into(), items: vec![] };
    assert!(!s.is_separator());
    assert!(!s.is_actionable());
    assert_eq!(s.label(), "Bridge ▶");
}

#[test]
fn bridge_menu_state_default_is_blank() {
    let s = BridgeMenuState::default();
    assert!(!s.ready);
    assert!(!s.paused);
    assert!(s.snapshot_age_hours.is_none());
    assert!(s.eval_days_remaining.is_none());
}

#[test]
fn route_item_into_submenu_handles_children() {
    let mut routes = Vec::new();
    let sub = MenuItemSpec::Submenu {
        label: "Bridge ▶".into(),
        items: vec![
            MenuItemSpec::Action { label: "Pause VM".into(), command: TrayCommand::BridgePause },
            MenuItemSpec::Action { label: "Resume VM".into(), command: TrayCommand::BridgeResume },
            MenuItemSpec::Label { text: "Status: Ready".into() },
        ],
    };
    route_item_into(&mut routes, 8, &sub, None);
    assert_eq!(routes.len(), 2);
    let mut cmds: Vec<TrayCommand> = routes.iter().map(|(_, c)| c.clone()).collect();
    cmds.sort_by_key(|c| format!("{c:?}"));
    assert!(cmds.contains(&TrayCommand::BridgePause));
    assert!(cmds.contains(&TrayCommand::BridgeResume));
}

#[test]
fn route_ids_are_unique_and_readable() {
    let state = MenuState {
        browsers: (0..12).map(|i| BrowserMenuEntry::from_browser(&fake_browser(&format!("B{i}")), i % 2 == 0)).collect(),
        launch_at_login: true,
        bridge: Some(BridgeMenuState { ready: true, paused: false, snapshot_age_hours: Some(5), eval_days_remaining: Some(3) }),
    };
    let routes = build_routes(&state);
    let mut ids: Vec<&String> = routes.iter().map(|(id, _)| id).collect();
    let n = ids.len();
    ids.sort();
    ids.dedup();
    assert_eq!(ids.len(), n);
    assert_eq!(routes[0].0, "neon-browser-0-B0");
    assert_eq!(routes[0].1, TrayCommand::PatchOne("B0".into()));
    assert!(routes.iter().any(|(id, c)| id == "neon-submenu-21-Bridge ▶-child-1" && *c == TrayCommand::BridgePause));
    assert!(routes.iter().any(|(id, c)| id == "neon-toggle-23-Launch at Login" && *c == TrayCommand::ToggleLaunchAtLogin(false)));
}

#[test]
fn item_ids_encode_kind_position_and_text() {
    assert_eq!(menu_item_id(0, &MenuItemSpec::Separator), "neon-sep-0");
    assert_eq!(menu_item_id(10, &MenuItemSpec::Label { text: "x".into() }), "neon-label-10-x");
    assert_eq!(
        menu_item_id(3, &MenuItemSpec::BrowserStatus { browser_name: "Helium".into(), patched: false }),
        "neon-browser-3-Helium"
    );
}

#[test]
fn layout_length_grows_with_browsers_and_bridge() {
    let with = |n: usize, bridge: bool| MenuState {
        browsers: (0..n).map(|i| BrowserMenuEntry { name: format!("b{i}"), patched: false }).collect(),
        launch_at_login: false,
        bridge: if bridge { Some(BridgeMenuState::default()) } else { None },
    };
    assert_eq!(menu_layout(&with(0, false)).len(), 6);
    assert_eq!(menu_layout(&with(3, false)).len(), 10);
    assert_eq!(menu_layout(&with(3, true)).len(), 17);
}

#[test]
fn bridge_labels_render_exactly() {
    assert_eq!(eval_days_label(82), "Eval: 82 days remaining");
    assert_eq!(eval_days_label(-7), "Eval: expired (7 days ago)");
    assert_eq!(snapshot_age_label(23), "Snapshot: 23h old");
    assert_eq!(snapshot_age_label(49), "Snapshot: 2d old");
}

#[test]
fn browser_rows_are_actionable() {
    let row = MenuItemSpec::BrowserStatus { browser_name: "Helium".into(), patched: true };
    assert!(row.is_actionable());
    assert!(!row.is_separator());
}

fn row(id: &str, text: &str, enabled: bool) -> GuiEntry {
    GuiEntry::Item { id: id.into(), text: text.into(), enabled }
}

#[test]
fn gui_rows_flatten_submenus_with_indented_children() {
    let menu = vec![
        MenuItemSpec::BrowserStatus { browser_name: "Helium".into(), patched: true },
        MenuItemSpec::Separator,
        MenuItemSpec::Toggle {
            label: "Launch at Login".into(),
            checked: true,
            command_when_toggled: TrayCommand::ToggleLaunchAtLogin(false),
        },
        MenuItemSpec::Submenu {
            label: "Bridge ▶".into(),
            items: vec![
                MenuItemSpec::Label { text: "State: Ready".into() },
                MenuItemSpec::Action { label: "Pause VM".into(), command: TrayCommand::BridgePause },
                MenuItemSpec::Toggle {
                    label: "Auto".into(),
                    checked: false,
                    command_when_toggled: TrayCommand::BridgeResume,
                },
                MenuItemSpec::Separator,
            ],
        },
        MenuItemSpec::Label { text: "Idle".into() },
        MenuItemSpec::Action { label: "Quit Neon".into(), command: TrayCommand::Quit },
    ];
    let rows = gui_entries(&menu);
    let parent = "neon-submenu-3-Bridge ▶";
    assert_eq!(
        rows,
        vec![
            row("neon-browser-0-Helium", "✓ Helium Patched", true),
            GuiEntry::Separator,
            GuiEntry::Check {
                id: "neon-toggle-2-Launch at Login".into(),
                text: "Launch at Login".into(),
                enabled: true,
                checked: true,
            },
            row(parent, "Bridge ▶", false),
            row(&format!("{parent}-child-0"), "    State: Ready", false),
            row(&format!("{parent}-child-1"), "    Pause VM", true),
            GuiEntry::Check {
                id: format!("{parent}-child-2"),
                text: "    Auto".into(),
                enabled: true,
                checked: false,
            },
            row("neon-label-4-Idle", "Idle", false),
            row("neon-action-5-Quit Neon", "Quit Neon", true),
        ]
    );
}

#[test]
fn gui_rows_of_the_default_menu() {
    let state = MenuState { browsers: vec![], launch_at_login: false, bridge: None };
    let rows = gui_entries(&menu_layout(&state));
    assert_eq!(rows.len(), 6);
    assert_eq!(rows[0], row("neon-action-0-Patch Now", "Patch Now", true));
    assert_eq!(rows[2], GuiEntry::Separator);
    assert!(gui_entries(&vec![]).is_empty());
}

#[test]
fn menu_entries_clone_equal_with_children() {
    let state = empty_state(BridgeMenuState {
        ready: true,
        paused: false,
        snapshot_age_hours: Some(3),
        eval_days_remaining: Some(5),
    });
    let layout = menu_layout(&state);
    let copy: Vec<MenuItemSpec> = layout.iter().map(|i| i.clone()).collect();
    assert_eq!(copy, layout);
}
