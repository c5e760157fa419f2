use cathedral::player::{movement_axes, MovementInput};

#[test]
fn keys_map_to_movement_axes() {
    assert_eq!(movement_axes(true, false, false, false), MovementInput { forward: 1, right: 0 });
    assert_eq!(movement_axes(false, true, false, false), MovementInput { forward: -1, right: 0 });
    assert_eq!(movement_axes(false, false, true, false), MovementInput { forward: 0, right: 1 });
    assert_eq!(movement_axes(false, false, false, true), MovementInput { forward: 0, right: -1 });
    assert_eq!(movement_axes(true, false, true, false), MovementInput { forward: 1, right: 1 });
}

#[test]
fn opposite_keys_cancel() {
    let all = movement_axes(true, true, true, true);
    assert_eq!(all, MovementInput { forward: 0, right: 0 });
    assert!(!all.is_moving());
    assert!(movement_axes(true, true, true, false).is_moving());
    assert!(!movement_axes(false, false, false, false).is_moving());
}
