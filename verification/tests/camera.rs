use learn_opengl::camera::{Axis, CameraMovement};
use learn_opengl::common::{process_input, KeyStates};

const NONE: KeyStates = KeyStates { escape: false, w: false, s: false, a: false, d: false };

#[test]
fn forward_and_backward_run_along_the_front_axis() {
    assert_eq!(CameraMovement::FORWARD.axis(), Axis::Front);
    assert_eq!(CameraMovement::BACKWARD.axis(), Axis::Front);
}

#[test]
fn left_and_right_run_along_the_right_axis() {
    assert_eq!(CameraMovement::LEFT.axis(), Axis::Right);
    assert_eq!(CameraMovement::RIGHT.axis(), Axis::Right);
}

#[test]
fn backward_and_left_flip_the_sign() {
    assert_eq!(CameraMovement::FORWARD.sign(), 1);
    assert_eq!(CameraMovement::RIGHT.sign(), 1);
    assert_eq!(CameraMovement::BACKWARD.sign(), -1);
    assert_eq!(CameraMovement::LEFT.sign(), -1);
}

#[test]
fn no_key_asks_for_nothing() {
    let actions = process_input(NONE);
    assert!(!actions.close);
    assert_eq!(actions.movements, Vec::<CameraMovement>::new());
}

#[test]
fn escape_closes_the_window() {
    let actions = process_input(KeyStates { escape: true, ..NONE });
    assert!(actions.close);
    assert_eq!(actions.movements, Vec::<CameraMovement>::new());
}

#[test]
fn each_key_asks_for_its_movement() {
    assert_eq!(process_input(KeyStates { w: true, ..NONE }).movements, vec![CameraMovement::FORWARD]);
    assert_eq!(process_input(KeyStates { s: true, ..NONE }).movements, vec![CameraMovement::BACKWARD]);
    assert_eq!(process_input(KeyStates { a: true, ..NONE }).movements, vec![CameraMovement::LEFT]);
    assert_eq!(process_input(KeyStates { d: true, ..NONE }).movements, vec![CameraMovement::RIGHT]);
}

#[test]
fn held_keys_are_served_forward_backward_left_right() {
    let all = KeyStates { escape: true, w: true, s: true, a: true, d: true };
    let actions = process_input(all);
    assert!(actions.close);
    assert_eq!(
        actions.movements,
        vec![
            CameraMovement::FORWARD,
            CameraMovement::BACKWARD,
            CameraMovement::LEFT,
            CameraMovement::RIGHT
        ]
    );
    let some = KeyStates { s: true, d: true, ..NONE };
    assert_eq!(
        process_input(some).movements,
        vec![CameraMovement::BACKWARD, CameraMovement::RIGHT]
    );
}

/// The position after one movement: the axis that the movement names, from
/// the two that the camera offers, scaled by sign, speed and elapsed time.
fn moved(
    position: [f32; 3],
    front: [f32; 3],
    right: [f32; 3],
    direction: CameraMovement,
    speed: f32,
    delta_time: f32,
) -> [f32; 3] {
    let axis = match direction.axis() {
        Axis::Front => front,
        Axis::Right => right,
    };
    let step = f32::from(direction.sign()) * speed * delta_time;
    [
        position[0] + step * axis[0],
        position[1] + step * axis[1],
        position[2] + step * axis[2],
    ]
}

const START: [f32; 3] = [0.0, 0.0, 3.0];
const FRONT: [f32; 3] = [0.0, 0.0, -1.0];
const RIGHT: [f32; 3] = [1.0, 0.0, 0.0];

#[test]
fn forward_for_one_second_covers_the_speed_along_front() {
    assert_eq!(moved(START, FRONT, RIGHT, CameraMovement::FORWARD, 2.5, 1.0), [0.0, 0.0, 0.5]);
}

#[test]
fn each_direction_moves_its_own_way() {
    assert_eq!(moved(START, FRONT, RIGHT, CameraMovement::BACKWARD, 2.5, 1.0), [0.0, 0.0, 5.5]);
    assert_eq!(moved(START, FRONT, RIGHT, CameraMovement::LEFT, 2.5, 1.0), [-2.5, 0.0, 3.0]);
    assert_eq!(moved(START, FRONT, RIGHT, CameraMovement::RIGHT, 2.5, 1.0), [2.5, 0.0, 3.0]);
}

#[test]
fn no_elapsed_time_moves_nothing() {
    for direction in [
        CameraMovement::FORWARD,
        CameraMovement::BACKWARD,
        CameraMovement::LEFT,
        CameraMovement::RIGHT,
    ] {
        assert_eq!(moved(START, FRONT, RIGHT, direction, 2.5, 0.0), START);
    }
}
