use rebellion::keybindings::{key_label, Action, Binding, KeyBindings};
use rebellion::keycode::{KeyCode, ALL_KEYS};

fn no_pad() -> Vec<bool> {
    vec![false; 16]
}

#[test]
fn defaults_cover_every_action() {
    let b = KeyBindings::defaults();
    for action in KeyBindings::all_actions() {
        assert!(b.get(*action).is_some(), "defaults missing {:?}", action);
    }
}

#[test]
fn first_run_with_no_save_loads_defaults() {
    let b = KeyBindings::default();
    assert!(b.get(Action::MoveUp).is_some());
    assert_eq!(b.get(Action::Fire), Some(Binding::Keyboard(KeyCode::Space)));
}

#[test]
fn remapping_moveup_away_from_w_stops_w() {
    let mut b = KeyBindings::defaults();
    let prev = b.set(Action::MoveUp, Binding::Keyboard(KeyCode::KeyT));
    assert_eq!(prev, None, "MoveUp is unbound by stealing nothing");

    let mut keys = vec![KeyCode::KeyW];
    assert!(
        !b.pressed(Action::MoveUp, &keys, &no_pad()),
        "W must stop triggering MoveUp after remap"
    );

    keys.push(KeyCode::KeyT);
    assert!(b.pressed(Action::MoveUp, &keys, &no_pad()), "T must now trigger MoveUp");
}

#[test]
fn remapping_fire_away_from_space_stops_space() {
    let mut b = KeyBindings::defaults();
    b.set(Action::Fire, Binding::Keyboard(KeyCode::KeyF));
    let mut keys = vec![KeyCode::Space];
    assert!(
        !b.pressed(Action::Fire, &keys, &no_pad()),
        "Space must stop triggering Fire after remap"
    );

    keys.push(KeyCode::KeyF);
    assert!(b.pressed(Action::Fire, &keys, &no_pad()));
}

#[test]
fn remapping_away_from_key_stops_default_for_other_action_too() {
    let mut b = KeyBindings::defaults();
    let prev = b.set(Action::Confirm, Binding::Keyboard(KeyCode::Space));
    assert_eq!(prev, Some(Action::Fire));
    assert_eq!(b.get(Action::Confirm), Some(Binding::Keyboard(KeyCode::Space)));
    assert_eq!(b.get(Action::Fire), None);
}

#[test]
fn clear_required_action_is_rejected() {
    let mut b = KeyBindings::defaults();
    for action in KeyBindings::required_actions() {
        assert!(!b.clear(*action), "{:?} is required; clear() must reject", action);
        assert!(
            b.get(*action).is_some(),
            "{:?} must remain bound after a rejected clear",
            action
        );
    }
}

#[test]
fn clear_non_required_action_succeeds() {
    let mut b = KeyBindings::defaults();
    assert!(b.clear(Action::AimUp));
    assert_eq!(b.get(Action::AimUp), None);
}

#[test]
fn reset_to_defaults_restores_layout() {
    let mut b = KeyBindings::defaults();
    b.set(Action::Fire, Binding::Keyboard(KeyCode::KeyF));
    b.clear(Action::AimUp);
    b.reset_to_defaults();
    assert_eq!(b.get(Action::Fire), Some(Binding::Keyboard(KeyCode::Space)));
    assert_eq!(b.get(Action::AimUp), Some(Binding::Keyboard(KeyCode::KeyI)));
}

#[test]
fn unbound_action_returns_false_even_when_key_held() {
    let mut b = KeyBindings::defaults();
    b.clear(Action::AimUp);
    let keys = vec![KeyCode::KeyI];
    assert!(!b.pressed(Action::AimUp, &keys, &no_pad()));
}

#[test]
fn gamepad_binding_resolves() {
    let mut b = KeyBindings::defaults();
    b.set(Action::Fire, Binding::GamepadButton(0));
    let mut pad = no_pad();
    pad[0] = true;
    assert!(b.pressed(Action::Fire, &[], &pad));
    pad[0] = false;
    assert!(!b.pressed(Action::Fire, &[], &pad));
}

#[test]
fn no_legacy_keycode_fallback_in_resource_api() {
    let b = KeyBindings::defaults();
    let _ = b.get(Action::MoveUp);
}

#[test]
fn set_same_binding_again_changes_nothing() {
    let mut b = KeyBindings::defaults();
    assert_eq!(b.set(Action::Fire, Binding::Keyboard(KeyCode::KeyF)), None);
    let before = b;
    assert_eq!(b.set(Action::Fire, Binding::Keyboard(KeyCode::KeyF)), None);
    for action in KeyBindings::all_actions() {
        assert_eq!(b.get(*action), before.get(*action));
    }
}

#[test]
fn set_leaves_the_binding_with_one_action() {
    let mut b = KeyBindings::defaults();
    b.set(Action::MenuUp, Binding::Keyboard(KeyCode::KeyW));
    let holders = KeyBindings::all_actions()
        .iter()
        .filter(|a| b.get(**a) == Some(Binding::Keyboard(KeyCode::KeyW)))
        .count();
    assert_eq!(holders, 1);
    assert_eq!(b.get(Action::MoveUp), None);
    assert_eq!(b.action_for(Binding::Keyboard(KeyCode::KeyW)), Some(Action::MenuUp));
}

#[test]
fn action_for_finds_first_holder_in_declaration_order() {
    let b = KeyBindings::defaults();
    // Escape is bound to both Pause and Cancel; Pause comes first.
    assert_eq!(b.action_for(Binding::Keyboard(KeyCode::Escape)), Some(Action::Pause));
    assert_eq!(b.action_for(Binding::Keyboard(KeyCode::KeyZ)), None);
    assert_eq!(b.action_for(Binding::GamepadButton(7)), Some(Action::ActivateAbility));
}

#[test]
fn clear_of_unbound_optional_action_reports_false() {
    let mut b = KeyBindings::defaults();
    assert!(b.clear(Action::SelectAmmo3));
    assert!(!b.clear(Action::SelectAmmo3));
    assert_eq!(b.get(Action::SelectAmmo3), None);
}

#[test]
fn empty_bindings_are_empty_and_defaults_are_not() {
    assert!(KeyBindings::empty().is_empty());
    assert!(!KeyBindings::defaults().is_empty());
}

#[test]
fn just_pressed_reads_only_this_frames_presses() {
    let b = KeyBindings::defaults();
    assert!(b.just_pressed(Action::Fire, &[KeyCode::Space], &no_pad()));
    assert!(!b.just_pressed(Action::Fire, &[KeyCode::KeyF], &no_pad()));
    let mut pad = no_pad();
    pad[7] = true;
    assert!(b.just_pressed(Action::ActivateAbility, &[], &pad));
    assert!(!b.just_pressed(Action::ActivateAbility, &[], &pad[..4]));
}

#[test]
fn mouse_bindings_never_read_as_pressed() {
    let mut b = KeyBindings::defaults();
    b.set(Action::Fire, Binding::MouseButton(0));
    let pad = vec![true; 16];
    assert!(!b.pressed(Action::Fire, &[KeyCode::Space], &pad));
}

#[test]
fn assign_overwrites_one_slot_only() {
    let mut b = KeyBindings::defaults();
    b.assign(Action::Pause, Some(Binding::Keyboard(KeyCode::KeyP)));
    assert_eq!(b.get(Action::Pause), Some(Binding::Keyboard(KeyCode::KeyP)));
    assert_eq!(b.get(Action::Cancel), Some(Binding::Keyboard(KeyCode::Escape)));
    b.assign(Action::Pause, None);
    assert_eq!(b.get(Action::Pause), None);
}

#[test]
fn action_indices_follow_declaration_order() {
    for (i, a) in KeyBindings::all_actions().iter().enumerate() {
        assert_eq!(a.index(), i);
    }
    assert_eq!(KeyBindings::all_actions().len(), 24);
    assert_eq!(KeyBindings::required_actions().len(), 7);
}

#[test]
fn key_labels_strip_prefixes_and_use_glyphs() {
    assert_eq!(key_label(KeyCode::KeyW), "W");
    assert_eq!(key_label(KeyCode::Digit1), "1");
    assert_eq!(key_label(KeyCode::ArrowUp), "\u{2191}");
    assert_eq!(key_label(KeyCode::ArrowDown), "\u{2193}");
    assert_eq!(key_label(KeyCode::ArrowLeft), "\u{2190}");
    assert_eq!(key_label(KeyCode::ArrowRight), "\u{2192}");
    assert_eq!(key_label(KeyCode::Escape), "Esc");
    assert_eq!(key_label(KeyCode::Space), "Space");
    assert_eq!(key_label(KeyCode::Enter), "Enter");
    assert_eq!(key_label(KeyCode::F5), "F5");
}

#[test]
fn binding_labels() {
    assert_eq!(Binding::Keyboard(KeyCode::KeyQ).label(), "Q");
    assert_eq!(Binding::GamepadButton(0).label(), "A");
    assert_eq!(Binding::GamepadButton(1).label(), "B");
    assert_eq!(Binding::GamepadButton(7).label(), "Pad7");
    assert_eq!(Binding::GamepadButton(12).label(), "Pad12");
    assert_eq!(Binding::MouseButton(0).label(), "LMB");
    assert_eq!(Binding::MouseButton(2).label(), "M2");
    assert_eq!(Binding::MouseButton(255).label(), "M255");
}

#[test]
fn key_names_match_their_variants() {
    assert_eq!(KeyCode::KeyA.name(), "KeyA");
    assert_eq!(KeyCode::Digit0.name(), "Digit0");
    assert_eq!(KeyCode::ShiftLeft.name(), "ShiftLeft");
    assert_eq!(KeyCode::NumpadEnter.name(), "NumpadEnter");
}

#[test]
fn key_names_parse_back() {
    for k in ALL_KEYS {
        assert_eq!(KeyCode::from_name(k.name()), Some(k));
    }
    assert_eq!(ALL_KEYS.len(), 194);
    assert_eq!(KeyCode::from_name("KeyW"), Some(KeyCode::KeyW));
    assert_eq!(KeyCode::from_name("keyw"), None);
    assert_eq!(KeyCode::from_name(""), None);
}

#[test]
fn empty_table_migrates_to_defaults() {
    let migrated = KeyBindings::empty().migrate();
    assert!(migrated.get(Action::MoveUp).is_some());
    assert_eq!(migrated.get(Action::Fire), Some(Binding::Keyboard(KeyCode::Space)));
    let mut custom = KeyBindings::empty();
    custom.assign(Action::Fire, Some(Binding::Keyboard(KeyCode::KeyF)));
    let kept = custom.migrate();
    assert_eq!(kept.get(Action::Fire), Some(Binding::Keyboard(KeyCode::KeyF)));
    assert_eq!(kept.get(Action::MoveUp), None);
}
