use lumina::camera::{Camera, STEP};
use lumina::game::Game;
use lumina::input::{
    action_for, Action, Input, ARROW_DOWN, ARROW_LEFT, ARROW_RIGHT, ARROW_UP, CROUCH, JUMP,
    MOVE_BACKWARD, MOVE_FORWARD, MOVE_LEFT, MOVE_RIGHT,
};

fn fields(c: &Camera) -> [i64; 5] {
    [c.x, c.y, c.z, c.pitch, c.yaw]
}

#[test]
fn camera_starts_at_origin() {
    let c = Camera::new();
    assert_eq!(fields(&c), [0, 0, 0, 0, 0]);
}

#[test]
fn camera_adds_each_field() {
    let mut c = Camera::new();
    c.add_x(5);
    c.add_y(-7);
    c.add_z(11);
    c.add_pitch(13);
    c.add_yaw(-17);
    assert_eq!(fields(&c), [5, -7, 11, 13, -17]);
    c.add_x(0);
    c.add_yaw(0);
    assert_eq!(fields(&c), [5, -7, 11, 13, -17]);
}

#[test]
fn forward_key_moves_minus_z() {
    let mut g = Game::new();
    assert_eq!(g.handle_keyboard(MOVE_FORWARD), Some(Action::MoveForward));
    assert_eq!(fields(&g.camera), [0, 0, -100, 0, 0]);
    g.handle_keyboard(MOVE_FORWARD);
    assert_eq!(fields(&g.camera), [0, 0, -200, 0, 0]);
}

#[test]
fn every_bound_key_moves_one_field_by_one_step() {
    let table: [(u32, usize, i64); 10] = [
        (MOVE_FORWARD, 2, -1),
        (MOVE_LEFT, 0, 1),
        (MOVE_BACKWARD, 2, 1),
        (MOVE_RIGHT, 0, -1),
        (JUMP, 1, 1),
        (CROUCH, 1, -1),
        (ARROW_UP, 3, 1),
        (ARROW_DOWN, 3, -1),
        (ARROW_LEFT, 4, -1),
        (ARROW_RIGHT, 4, 1),
    ];
    for (code, field, sign) in table {
        let mut g = Game::new();
        g.camera = Camera { x: 10, y: 20, z: 30, pitch: 40, yaw: 50 };
        let before = fields(&g.camera);
        assert!(g.handle_keyboard(code).is_some());
        let after = fields(&g.camera);
        for i in 0..5 {
            let expected = if i == field { before[i] + sign * STEP } else { before[i] };
            assert_eq!(after[i], expected, "scancode {} field {}", code, i);
        }
    }
}

#[test]
fn scancodes_match_the_key_table() {
    assert_eq!(
        [MOVE_FORWARD, MOVE_LEFT, MOVE_BACKWARD, MOVE_RIGHT, JUMP, CROUCH],
        [13, 0, 1, 2, 49, 56]
    );
    assert_eq!([ARROW_UP, ARROW_DOWN, ARROW_LEFT, ARROW_RIGHT], [126, 125, 123, 124]);
    assert_eq!(action_for(124), Some(Action::TurnRight));
    assert_eq!(action_for(56), Some(Action::Crouch));
}

#[test]
fn unbound_key_changes_nothing() {
    let mut g = Game::new();
    g.camera = Camera { x: 1, y: 2, z: 3, pitch: 4, yaw: 5 };
    let before = g;
    assert_eq!(g.handle_keyboard(999), None);
    assert_eq!(g, before);
    assert_eq!(action_for(3), None);
}

#[test]
fn opposite_keys_cancel() {
    let mut g = Game::new();
    g.camera = Camera { x: -3, y: 8, z: 42, pitch: -9, yaw: 77 };
    let start = g.camera;
    g.handle_keyboard(MOVE_FORWARD);
    g.handle_keyboard(MOVE_BACKWARD);
    assert_eq!(g.camera.z, start.z);
    g.handle_keyboard(ARROW_LEFT);
    assert_ne!(g.camera.yaw, start.yaw);
    g.handle_keyboard(ARROW_RIGHT);
    assert_eq!(g.camera.yaw, start.yaw);
    for (a, b) in [(MOVE_LEFT, MOVE_RIGHT), (JUMP, CROUCH), (ARROW_UP, ARROW_DOWN)] {
        g.handle_keyboard(a);
        g.handle_keyboard(b);
    }
    assert_eq!(g.camera, start);
}

#[test]
fn key_at_the_edge_of_range() {
    let mut g = Game::new();
    g.camera.z = i64::MIN + STEP;
    g.handle_keyboard(MOVE_FORWARD);
    assert_eq!(g.camera.z, i64::MIN);
}

#[test]
fn can_handle_key_checks_the_moved_field() {
    let mut c = Camera::new();
    assert!(c.can_handle_key(MOVE_FORWARD));
    assert!(c.can_handle_key(999));
    c.z = i64::MIN + STEP - 1;
    assert!(!c.can_handle_key(MOVE_FORWARD));
    assert!(c.can_handle_key(MOVE_BACKWARD));
    assert!(c.can_handle_key(ARROW_LEFT));
    c.yaw = i64::MAX;
    assert!(!c.can_handle_key(ARROW_RIGHT));
    assert!(c.can_handle_key(999));
    let mut g = Game::new();
    g.camera = c;
    assert!(!g.can_handle(lumina::game::Event::KeyPressed(ARROW_RIGHT)));
    assert!(g.can_handle(lumina::game::Event::Close));
}
