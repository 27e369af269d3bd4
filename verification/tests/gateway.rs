use voidwm::x::AtomCache;
use voidwm::x::CloseAction;
use voidwm::x::GrabRequest;
use voidwm::x::Window;
use voidwm::x::grab_requests;
use voidwm::x::window_close;
use voidwm::keys::KeyCombo;

fn atoms() -> AtomCache {
    AtomCache { wm_delete_window: 7, wm_protocols: 9 }
}

#[test]
fn close_takes_the_delete_message_path_when_advertised() {
    let protocols = vec![3, 7, 11];
    match window_close(&atoms(), &Window(4), Some(&protocols)) {
        CloseAction::SendDeleteMessage { window, message_type, data } => {
            assert_eq!(window, Window(4));
            assert_eq!(message_type, 9);
            assert_eq!(data, vec![7, 0, 0, 0, 0]);
        }
        other => panic!("expected the delete message path, got {:?}", other),
    }
}

#[test]
fn close_destroys_when_delete_is_not_advertised() {
    let protocols = vec![3, 11];
    match window_close(&atoms(), &Window(4), Some(&protocols)) {
        CloseAction::DestroyWindow { window } => assert_eq!(window, Window(4)),
        other => panic!("expected a destroy, got {:?}", other),
    }
}

#[test]
fn close_destroys_when_the_protocol_query_failed() {
    match window_close(&atoms(), &Window(4), None) {
        CloseAction::DestroyWindow { window } => assert_eq!(window, Window(4)),
        other => panic!("expected a destroy, got {:?}", other),
    }
}

#[test]
fn unresolved_keysyms_are_skipped_and_reported() {
    let combos = vec![
        KeyCombo { mod_mask: 64, keysym: 0x63 },
        KeyCombo { mod_mask: 65, keysym: 0x6a },
        KeyCombo { mod_mask: 64, keysym: 0x6b },
    ];
    let keycodes = vec![Some(10), None, Some(12)];
    let (grabs, skipped) = grab_requests(&Window(1), &combos, &keycodes);
    assert_eq!(
        grabs,
        vec![
            GrabRequest { window: Window(1), mod_mask: 64, keycode: 10 },
            GrabRequest { window: Window(1), mod_mask: 64, keycode: 12 },
        ]
    );
    assert_eq!(skipped, vec![0x6a]);
}

#[test]
fn fully_resolved_bindings_are_all_grabbed() {
    let combos = vec![
        KeyCombo { mod_mask: 64, keysym: 0x63 },
        KeyCombo { mod_mask: 65, keysym: 0x6a },
    ];
    let keycodes = vec![Some(10), Some(11)];
    let (grabs, skipped) = grab_requests(&Window(2), &combos, &keycodes);
    assert_eq!(grabs.len(), 2);
    assert_eq!(grabs[1], GrabRequest { window: Window(2), mod_mask: 65, keycode: 11 });
    assert!(skipped.is_empty());
}

#[test]
fn window_get_returns_the_identifier() {
    assert_eq!(Window(42).get(), 42);
}
