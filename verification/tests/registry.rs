use voidwm::command::Command;
use voidwm::command::Commands;
use voidwm::keys::KeyCombo;
use voidwm::keys::KeyHandlers;
use voidwm::keys::ModKey;

#[test]
fn registered_combo_returns_bound_command() {
    let mut ctrl = Commands::new();
    let combo = ctrl.add(&[ModKey::Mod4], 0x70, Command::FocusNext);
    assert_eq!(combo.mod_mask, 64);
    assert_eq!(combo.keysym, 0x70);
    assert_eq!(ctrl.lookup(&combo), Some(&Command::FocusNext));
}

#[test]
fn unregistered_combo_finds_no_match() {
    let mut ctrl = Commands::new();
    ctrl.add(&[ModKey::Mod4], 0x70, Command::FocusNext);
    assert_eq!(ctrl.lookup(&KeyCombo { mod_mask: 64, keysym: 0x71 }), None);
    assert_eq!(ctrl.lookup(&KeyCombo { mod_mask: 65, keysym: 0x70 }), None);
    assert_eq!(Commands::new().lookup(&KeyCombo { mod_mask: 0, keysym: 0 }), None);
}

#[test]
fn duplicate_binding_keeps_last_command() {
    let mut ctrl = Commands::new();
    let combo = ctrl.add(&[ModKey::Mod1], 0x63, Command::FocusNext);
    ctrl.add(&[ModKey::Mod1], 0x63, Command::FocusClose);
    assert_eq!(ctrl.lookup(&combo), Some(&Command::FocusClose));
    assert_eq!(ctrl.key_combos().len(), 1);
}

#[test]
fn combo_combines_modifier_masks() {
    let shift_mod4 = KeyCombo::new(&[ModKey::Mod4, ModKey::Shift], 0x64);
    assert_eq!(shift_mod4.mod_mask, 64 | 1);
    assert_eq!(shift_mod4.keysym, 0x64);
    let bare = KeyCombo::new(&[], 0x64);
    assert_eq!(bare.mod_mask, 0);
}

#[test]
fn modifier_masks_match_protocol_values() {
    assert_eq!(ModKey::Shift.mask(), 1);
    assert_eq!(ModKey::Lock.mask(), 2);
    assert_eq!(ModKey::Control.mask(), 4);
    assert_eq!(ModKey::Mod1.mask(), 8);
    assert_eq!(ModKey::Mod2.mask(), 16);
    assert_eq!(ModKey::Mod3.mask(), 32);
    assert_eq!(ModKey::Mod4.mask(), 64);
    assert_eq!(ModKey::Mod5.mask(), 128);
    assert_eq!(ModKey::mask_all(), 255);
}

#[test]
fn key_handlers_keep_combos_in_order() {
    let mut handlers = KeyHandlers::new();
    assert!(handlers.key_combos().is_empty());
    handlers.add(KeyCombo { mod_mask: 64, keysym: 0x63 });
    handlers.add(KeyCombo { mod_mask: 65, keysym: 0x6a });
    assert_eq!(
        handlers.key_combos(),
        &vec![
            KeyCombo { mod_mask: 64, keysym: 0x63 },
            KeyCombo { mod_mask: 65, keysym: 0x6a },
        ]
    );
}

#[test]
fn registry_lists_registered_combos_for_grabbing() {
    let mut ctrl = Commands::new();
    ctrl.add(&[ModKey::Mod4], 0x63, Command::FocusClose);
    ctrl.add(&[ModKey::Mod4, ModKey::Shift], 0x6a, Command::MoveNext);
    assert_eq!(
        ctrl.key_combos(),
        &vec![
            KeyCombo { mod_mask: 64, keysym: 0x63 },
            KeyCombo { mod_mask: 65, keysym: 0x6a },
        ]
    );
}

#[test]
fn combo_codes_tell_swapped_fields_apart() {
    let a = KeyCombo { mod_mask: 1, keysym: 2 };
    let b = KeyCombo { mod_mask: 2, keysym: 1 };
    assert_ne!(a.code(), b.code());
    assert_eq!(a.code(), KeyCombo { mod_mask: 1, keysym: 2 }.code());
}
