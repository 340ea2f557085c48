use cornix_prospector_rmk::held_keys::{HeldKeysProcessor, KeyPos};

fn key(row: u8, col: u8) -> Option<KeyPos> {
    Some(KeyPos { row, col })
}

#[test]
fn press_then_disconnect_releases_the_key() {
    let mut keys = HeldKeysProcessor::new();
    keys.on_keyboard_event(key(1, 3), true);
    let released = keys.on_peripheral_connected_event(0, false);
    assert_eq!(released, vec![KeyPos { row: 1, col: 3 }]);
}

#[test]
fn released_key_is_not_released_again() {
    let mut keys = HeldKeysProcessor::new();
    keys.on_keyboard_event(key(2, 0), true);
    keys.on_keyboard_event(key(2, 0), false);
    assert!(keys.on_peripheral_connected_event(0, false).is_empty());
}

#[test]
fn disconnect_releases_only_its_own_half() {
    let mut keys = HeldKeysProcessor::new();
    keys.on_keyboard_event(key(0, 0), true);
    keys.on_keyboard_event(key(5, 6), true);
    assert_eq!(keys.on_peripheral_connected_event(1, false), vec![KeyPos { row: 5, col: 6 }]);
    assert_eq!(keys.on_peripheral_connected_event(0, false), vec![KeyPos { row: 0, col: 0 }]);
}

#[test]
fn second_disconnect_releases_nothing() {
    let mut keys = HeldKeysProcessor::new();
    keys.on_keyboard_event(key(3, 2), true);
    assert_eq!(keys.on_peripheral_connected_event(0, false).len(), 1);
    assert!(keys.on_peripheral_connected_event(0, false).is_empty());
}

#[test]
fn releases_come_from_the_top_row_down_and_from_the_left() {
    let mut keys = HeldKeysProcessor::new();
    keys.on_keyboard_event(key(7, 4), true);
    keys.on_keyboard_event(key(4, 6), true);
    keys.on_keyboard_event(key(4, 1), true);
    keys.on_keyboard_event(key(6, 0), true);
    assert_eq!(
        keys.on_peripheral_connected_event(1, false),
        vec![
            KeyPos { row: 4, col: 1 },
            KeyPos { row: 4, col: 6 },
            KeyPos { row: 6, col: 0 },
            KeyPos { row: 7, col: 4 },
        ]
    );
}

#[test]
fn positions_outside_the_matrix_are_ignored() {
    let mut keys = HeldKeysProcessor::new();
    keys.on_keyboard_event(None, true);
    keys.on_keyboard_event(key(8, 0), true);
    keys.on_keyboard_event(key(0, 7), true);
    assert!(keys.on_peripheral_connected_event(0, false).is_empty());
    assert!(keys.on_peripheral_connected_event(1, false).is_empty());
}

#[test]
fn connect_and_unknown_half_change_nothing() {
    let mut keys = HeldKeysProcessor::new();
    keys.on_keyboard_event(key(1, 1), true);
    assert!(keys.on_peripheral_connected_event(0, true).is_empty());
    assert!(keys.on_peripheral_connected_event(2, false).is_empty());
    assert_eq!(keys.on_peripheral_connected_event(0, false), vec![KeyPos { row: 1, col: 1 }]);
}
