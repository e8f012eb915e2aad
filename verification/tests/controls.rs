use smol_world::controls::{movement_input, MoveInput, MovementKeys};

fn none() -> MovementKeys {
    MovementKeys {
        key_w: false,
        key_s: false,
        key_a: false,
        key_d: false,
        arrow_up: false,
        arrow_down: false,
        arrow_left: false,
        arrow_right: false,
    }
}

#[test]
fn no_keys_means_idle() {
    let input = movement_input(&none());
    assert_eq!(input, MoveInput { x: 0, y: 0 });
    assert!(input.is_idle());
}

#[test]
fn letter_keys_give_directions() {
    assert_eq!(movement_input(&MovementKeys { key_w: true, ..none() }), MoveInput { x: 0, y: 1 });
    assert_eq!(movement_input(&MovementKeys { key_s: true, ..none() }), MoveInput { x: 0, y: -1 });
    assert_eq!(movement_input(&MovementKeys { key_a: true, ..none() }), MoveInput { x: -1, y: 0 });
    assert_eq!(movement_input(&MovementKeys { key_d: true, ..none() }), MoveInput { x: 1, y: 0 });
}

#[test]
fn arrows_match_letters() {
    assert_eq!(movement_input(&MovementKeys { arrow_up: true, ..none() }), MoveInput { x: 0, y: 1 });
    assert_eq!(movement_input(&MovementKeys { arrow_down: true, ..none() }), MoveInput { x: 0, y: -1 });
    assert_eq!(movement_input(&MovementKeys { arrow_left: true, ..none() }), MoveInput { x: -1, y: 0 });
    assert_eq!(movement_input(&MovementKeys { arrow_right: true, ..none() }), MoveInput { x: 1, y: 0 });
    // a letter and its arrow together count once
    assert_eq!(
        movement_input(&MovementKeys { key_w: true, arrow_up: true, ..none() }),
        MoveInput { x: 0, y: 1 }
    );
}

#[test]
fn diagonal_combines_axes() {
    let input = movement_input(&MovementKeys { key_w: true, key_d: true, ..none() });
    assert_eq!(input, MoveInput { x: 1, y: 1 });
    assert!(!input.is_idle());
    let input = movement_input(&MovementKeys { arrow_down: true, key_a: true, ..none() });
    assert_eq!(input, MoveInput { x: -1, y: -1 });
}

#[test]
fn opposite_keys_cancel() {
    let input = movement_input(&MovementKeys { key_w: true, arrow_down: true, ..none() });
    assert_eq!(input, MoveInput { x: 0, y: 0 });
    assert!(input.is_idle());
    let input = movement_input(&MovementKeys { key_a: true, key_d: true, key_w: true, ..none() });
    assert_eq!(input, MoveInput { x: 0, y: 1 });
    assert!(!input.is_idle());
    let all = MovementKeys {
        key_w: true,
        key_s: true,
        key_a: true,
        key_d: true,
        arrow_up: true,
        arrow_down: true,
        arrow_left: true,
        arrow_right: true,
    };
    assert!(movement_input(&all).is_idle());
}

#[test]
fn idle_only_for_zero_input() {
    assert!(MoveInput { x: 0, y: 0 }.is_idle());
    assert!(!MoveInput { x: 1, y: 0 }.is_idle());
    assert!(!MoveInput { x: 0, y: -1 }.is_idle());
}
