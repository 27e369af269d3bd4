use voidwm::command::Command;
use voidwm::command::Commands;
use voidwm::config::Config;
use voidwm::dispatch::Action;
use voidwm::dispatch::Manager;
use voidwm::event::Event;
use voidwm::keys::KeyCombo;
use voidwm::keys::ModKey;
use voidwm::x::Window;

fn manager() -> Manager {
    Manager::new(Commands::new(), 1920, 1080, 2)
}

fn ids(mgr: &Manager) -> Vec<u32> {
    mgr.windows().iter().map(|w| w.get()).collect()
}

#[test]
fn map_request_tracks_maps_and_tiles() {
    let mut mgr = manager();
    let actions = mgr.handle_event(&Event::MapRequest(Window(1)));
    assert_eq!(
        actions,
        vec![
            Action::EnableTracking { window: Window(1) },
            Action::MapWindow { window: Window(1) },
            Action::Configure { window: Window(1), x: 0, y: 0, width: 1920, height: 1080 },
        ]
    );
    let actions = mgr.handle_event(&Event::MapRequest(Window(2)));
    assert_eq!(
        actions,
        vec![
            Action::EnableTracking { window: Window(2) },
            Action::MapWindow { window: Window(2) },
            Action::Configure { window: Window(1), x: 0, y: 0, width: 1280, height: 1080 },
            Action::Configure { window: Window(2), x: 1282, y: 0, width: 638, height: 1078 },
        ]
    );
    assert_eq!(ids(&mgr), vec![1, 2]);
}

#[test]
fn unmapping_the_focused_window_unfocuses() {
    let mut mgr = manager();
    mgr.handle_event(&Event::MapRequest(Window(1)));
    mgr.handle_event(&Event::MapRequest(Window(2)));
    mgr.handle_event(&Event::EnterNotify(Window(2)));
    let actions = mgr.handle_event(&Event::UnmapNotify(Window(2)));
    assert_eq!(
        actions,
        vec![
            Action::Unfocus,
            Action::Configure { window: Window(1), x: 0, y: 0, width: 1920, height: 1080 },
        ]
    );
    assert_eq!(mgr.focused(), None);
    assert_eq!(ids(&mgr), vec![1]);
}

#[test]
fn destroying_an_unfocused_window_just_retiles() {
    let mut mgr = manager();
    mgr.handle_event(&Event::MapRequest(Window(1)));
    mgr.handle_event(&Event::MapRequest(Window(2)));
    mgr.handle_event(&Event::EnterNotify(Window(1)));
    let actions = mgr.handle_event(&Event::DestroyNotify(Window(2)));
    assert_eq!(
        actions,
        vec![Action::Configure { window: Window(1), x: 0, y: 0, width: 1920, height: 1080 }]
    );
    assert_eq!(mgr.focused(), Some(Window(1)));
}

#[test]
fn destroying_the_master_promotes_the_first_slave() {
    let mut mgr = manager();
    mgr.handle_event(&Event::MapRequest(Window(1)));
    mgr.handle_event(&Event::MapRequest(Window(2)));
    mgr.handle_event(&Event::MapRequest(Window(3)));
    mgr.handle_event(&Event::DestroyNotify(Window(1)));
    assert_eq!(ids(&mgr), vec![2, 3]);
}

#[test]
fn enter_notify_moves_the_focus() {
    let mut mgr = manager();
    mgr.handle_event(&Event::MapRequest(Window(1)));
    let actions = mgr.handle_event(&Event::EnterNotify(Window(1)));
    assert_eq!(actions, vec![Action::Focus { window: Window(1) }]);
    assert_eq!(mgr.focused(), Some(Window(1)));
}

#[test]
fn an_unbound_key_press_is_ignored() {
    let mut mgr = manager();
    mgr.handle_event(&Event::MapRequest(Window(1)));
    let actions = mgr.handle_event(&Event::KeyPress(KeyCombo { mod_mask: 64, keysym: 1 }));
    assert!(actions.is_empty());
    assert_eq!(ids(&mgr), vec![1]);
}

#[test]
fn a_bound_key_press_spawns_the_program() {
    let mut ctrl = Commands::new();
    let combo = ctrl.add(&[ModKey::Mod4], 0x21, Command::Spawn(vec!["xterm".to_string()]));
    let mut mgr = Manager::new(ctrl, 1920, 1080, 2);
    let actions = mgr.key_press(&combo);
    assert_eq!(actions, vec![Action::Spawn { args: vec!["xterm".to_string()] }]);
}

#[test]
fn focus_close_closes_the_focused_window() {
    let mut ctrl = Commands::new();
    let combo = ctrl.add(&[ModKey::Mod4], 0x63, Command::FocusClose);
    let mut mgr = Manager::new(ctrl, 1920, 1080, 2);
    assert!(mgr.key_press(&combo).is_empty());
    mgr.handle_event(&Event::MapRequest(Window(5)));
    mgr.handle_event(&Event::EnterNotify(Window(5)));
    let actions = mgr.key_press(&combo);
    assert_eq!(actions, vec![Action::Close { window: Window(5) }]);
}

#[test]
fn focus_next_cycles_through_the_stacking_order() {
    let mut ctrl = Commands::new();
    let combo = ctrl.add(&[ModKey::Mod4], 0x6a, Command::FocusNext);
    let mut mgr = Manager::new(ctrl, 1920, 1080, 2);
    mgr.handle_event(&Event::MapRequest(Window(1)));
    mgr.handle_event(&Event::MapRequest(Window(2)));
    mgr.handle_event(&Event::MapRequest(Window(3)));
    mgr.handle_event(&Event::EnterNotify(Window(1)));
    assert_eq!(mgr.key_press(&combo), vec![Action::Focus { window: Window(2) }]);
    assert_eq!(mgr.key_press(&combo), vec![Action::Focus { window: Window(3) }]);
    assert_eq!(mgr.key_press(&combo), vec![Action::Focus { window: Window(1) }]);
}

#[test]
fn focus_previous_wraps_backwards() {
    let mut ctrl = Commands::new();
    let combo = ctrl.add(&[ModKey::Mod4], 0x6b, Command::FocusPrevious);
    let mut mgr = Manager::new(ctrl, 1920, 1080, 2);
    mgr.handle_event(&Event::MapRequest(Window(1)));
    mgr.handle_event(&Event::MapRequest(Window(2)));
    mgr.handle_event(&Event::EnterNotify(Window(1)));
    assert_eq!(mgr.key_press(&combo), vec![Action::Focus { window: Window(2) }]);
    assert_eq!(mgr.key_press(&combo), vec![Action::Focus { window: Window(1) }]);
}

#[test]
fn move_next_demotes_the_focused_master_and_retiles() {
    let mut ctrl = Commands::new();
    let combo = ctrl.add(&[ModKey::Mod4, ModKey::Shift], 0x6a, Command::MoveNext);
    let mut mgr = Manager::new(ctrl, 1920, 1080, 2);
    mgr.handle_event(&Event::MapRequest(Window(1)));
    mgr.handle_event(&Event::MapRequest(Window(2)));
    mgr.handle_event(&Event::EnterNotify(Window(1)));
    let actions = mgr.key_press(&combo);
    assert_eq!(ids(&mgr), vec![2, 1]);
    assert_eq!(
        actions,
        vec![
            Action::Configure { window: Window(2), x: 0, y: 0, width: 1280, height: 1080 },
            Action::Configure { window: Window(1), x: 1282, y: 0, width: 638, height: 1078 },
        ]
    );
}

#[test]
fn move_previous_promotes_the_focused_slave() {
    let mut ctrl = Commands::new();
    let combo = ctrl.add(&[ModKey::Mod4, ModKey::Shift], 0x6b, Command::MovePrevious);
    let mut mgr = Manager::new(ctrl, 1920, 1080, 2);
    mgr.handle_event(&Event::MapRequest(Window(1)));
    mgr.handle_event(&Event::MapRequest(Window(2)));
    mgr.handle_event(&Event::MapRequest(Window(3)));
    mgr.handle_event(&Event::EnterNotify(Window(3)));
    mgr.key_press(&combo);
    assert_eq!(ids(&mgr), vec![3, 1, 2]);
}

#[test]
fn workspace_and_layout_switching_are_not_wired_yet() {
    let mut ctrl = Commands::new();
    let ws = ctrl.add(&[ModKey::Mod4], 0x31, Command::ChangeWorkspace(2));
    let lay = ctrl.add(&[ModKey::Mod4, ModKey::Shift], 0x74, Command::ChangeLayoutNext);
    let mut mgr = Manager::new(ctrl, 1920, 1080, 2);
    mgr.handle_event(&Event::MapRequest(Window(1)));
    assert!(mgr.key_press(&ws).is_empty());
    assert!(mgr.key_press(&lay).is_empty());
    assert_eq!(ids(&mgr), vec![1]);
}

#[test]
fn adopt_existing_tracks_and_tiles_once() {
    let mut mgr = manager();
    let actions = mgr.adopt_existing(&vec![Window(1), Window(2)]);
    assert_eq!(
        actions,
        vec![
            Action::EnableTracking { window: Window(1) },
            Action::EnableTracking { window: Window(2) },
            Action::Configure { window: Window(1), x: 0, y: 0, width: 1280, height: 1080 },
            Action::Configure { window: Window(2), x: 1282, y: 0, width: 638, height: 1078 },
        ]
    );
    assert_eq!(ids(&mgr), vec![1, 2]);
}

#[test]
fn an_untileable_screen_issues_no_geometry() {
    let mut mgr = Manager::new(Commands::new(), 10, 10, 9);
    let actions = mgr.handle_event(&Event::MapRequest(Window(1)));
    // one window: the master still fills the screen
    assert_eq!(actions.len(), 3);
    // a second window would need a gap wider than the free space
    let actions = mgr.handle_event(&Event::MapRequest(Window(2)));
    assert_eq!(
        actions,
        vec![
            Action::EnableTracking { window: Window(2) },
            Action::MapWindow { window: Window(2) },
        ]
    );
}

#[test]
fn the_shipped_config_binds_the_launcher() {
    let mut conf = Config::new();
    conf.wire();
    assert_eq!(conf.get_space(), 2);
    assert_eq!(conf.get_modkey(), ModKey::Mod4);
    let ctrl = conf.get_ctrl();
    let combo = KeyCombo { mod_mask: 64 | 1, keysym: 0xff0d };
    match ctrl.lookup(&combo) {
        Some(Command::Spawn(args)) => assert_eq!(args, &vec!["stc".to_string()]),
        other => panic!("expected the launcher binding, got {:?}", other),
    }
    match ctrl.lookup(&KeyCombo { mod_mask: 64, keysym: 0x70 }) {
        Some(Command::Spawn(args)) => assert_eq!(args, &vec!["dmenu".to_string()]),
        other => panic!("expected the dmenu binding, got {:?}", other),
    }
    let close = KeyCombo { mod_mask: 64 | 1, keysym: 0x63 };
    assert_eq!(ctrl.lookup(&close), Some(&Command::FocusClose));
    assert_eq!(ctrl.lookup(&KeyCombo { mod_mask: 64, keysym: 0x6a }), Some(&Command::FocusNext));
    assert_eq!(ctrl.lookup(&KeyCombo { mod_mask: 2, keysym: 0x6a }), None);
}
