//! Controller-level behavior: speed selection with its tie-break, movement
//! composition, the orbit and follow steps, the random camera reset, and the
//! mouse accumulator.

use cube_sim::input::{InputFrame, Interaction, MouseAccumulator};
use cube_sim::math::Vec3;
use cube_sim::scene::ObjectKind;
use cube_sim::world::World;

fn zero() -> Vec3 {
    Vec3 { x: 0, y: 0, z: 0 }
}

fn playing_world() -> World {
    let mut w = World::new();
    let mut f = InputFrame::idle();
    f.play_button = Some(Interaction::Pressed);
    w.frame(&f, zero(), false);
    w
}

fn speed_of(w: &World) -> i64 {
    match w.scene.objects[w.cube.unwrap()].kind {
        ObjectKind::Cube { speed } => speed,
        _ => panic!("the cube is missing"),
    }
}

fn cube_pos(w: &World) -> Vec3 {
    w.scene.objects[w.cube.unwrap()].pos
}

fn camera_pos(w: &World) -> Vec3 {
    w.scene.objects[w.camera.unwrap()].pos
}

fn camera_look(w: &World) -> Vec3 {
    match w.scene.objects[w.camera.unwrap()].kind {
        ObjectKind::OrbitCamera { look } => look,
        _ => panic!("the chase camera is missing"),
    }
}

fn frame_with(w: &mut World, f: &InputFrame) {
    w.frame(f, zero(), false);
}

#[test]
fn each_digit_selects_its_speed() {
    let expected: [(usize, i64); 10] = [
        (1, 100),
        (2, 200),
        (3, 300),
        (4, 400),
        (5, 500),
        (6, 600),
        (7, 700),
        (8, 800),
        (9, 900),
        (0, 10000),
    ];
    for (digit, speed) in expected {
        let mut w = playing_world();
        let mut f = InputFrame::idle();
        match digit {
            1 => f.digit1 = true,
            2 => f.digit2 = true,
            3 => f.digit3 = true,
            4 => f.digit4 = true,
            5 => f.digit5 = true,
            6 => f.digit6 = true,
            7 => f.digit7 = true,
            8 => f.digit8 = true,
            9 => f.digit9 = true,
            _ => f.digit0 = true,
        }
        frame_with(&mut w, &f);
        assert_eq!(speed_of(&w), speed, "digit {digit}");
    }
}

#[test]
fn no_digit_leaves_the_speed_alone() {
    let mut w = playing_world();
    let mut f = InputFrame::idle();
    f.digit7 = true;
    frame_with(&mut w, &f);
    assert_eq!(speed_of(&w), 700);
    frame_with(&mut w, &InputFrame::idle());
    assert_eq!(speed_of(&w), 700);
}

#[test]
fn simultaneous_digits_pick_the_lowest_nonzero_first() {
    let mut w = playing_world();
    let mut f = InputFrame::idle();
    f.digit3 = true;
    f.digit7 = true;
    frame_with(&mut w, &f);
    assert_eq!(speed_of(&w), 300);

    let mut w = playing_world();
    let mut f = InputFrame::idle();
    f.digit0 = true;
    f.digit4 = true;
    frame_with(&mut w, &f);
    assert_eq!(speed_of(&w), 400);
}

#[test]
fn each_movement_key_translates_along_its_axis() {
    let cases: [(bool, bool, bool, bool, i64, i64); 4] = [
        (true, false, false, false, 0, -100),
        (false, true, false, false, 0, 100),
        (false, false, true, false, -100, 0),
        (false, false, false, true, 100, 0),
    ];
    for (forward, back, left, right, dx, dz) in cases {
        let mut w = playing_world();
        let mut f = InputFrame::idle();
        f.forward = forward;
        f.back = back;
        f.left = left;
        f.right = right;
        frame_with(&mut w, &f);
        let p = cube_pos(&w);
        assert_eq!((p.x, p.y, p.z), (dx, 0, dz));
    }
}

#[test]
fn forward_and_left_compose_unnormalized() {
    let mut w = playing_world();
    let mut f = InputFrame::idle();
    f.forward = true;
    f.left = true;
    frame_with(&mut w, &f);
    let p = cube_pos(&w);
    assert_eq!((p.x, p.y, p.z), (-100, 0, -100));
}

#[test]
fn opposite_keys_cancel_out() {
    let mut w = playing_world();
    let mut f = InputFrame::idle();
    f.forward = true;
    f.back = true;
    frame_with(&mut w, &f);
    assert_eq!(cube_pos(&w), Vec3 { x: 0, y: 0, z: 0 });
}

#[test]
fn mouse_motion_moves_the_camera_to_the_rotated_offset() {
    let mut w = playing_world();
    let mut f = InputFrame::idle();
    f.mouse_dx = 25;
    // A quarter-turn of the spawn offset around the vertical axis keeps its
    // length; the frame trusts its caller for the revolved offset itself.
    let before_sq = {
        let (p, c) = (camera_pos(&w), cube_pos(&w));
        (p.x - c.x).pow(2) + (p.y - c.y).pow(2) + (p.z - c.z).pow(2)
    };
    let rotated = Vec3 { x: 5000, y: 2500, z: 2000 };
    w.frame(&f, rotated, false);
    assert_eq!(camera_pos(&w), Vec3 { x: 5000, y: 2500, z: 2000 });
    // The follow step re-aims at the cube either way.
    assert_eq!(camera_look(&w), cube_pos(&w));
    // The offset above is a true revolution of the spawn offset, so the
    // camera's squared distance from the cube is exactly preserved.
    let after_sq = {
        let (p, c) = (camera_pos(&w), cube_pos(&w));
        (p.x - c.x).pow(2) + (p.y - c.y).pow(2) + (p.z - c.z).pow(2)
    };
    assert_eq!(before_sq, after_sq);
}

#[test]
fn without_mouse_motion_the_camera_stays_and_keeps_watching() {
    let mut w = playing_world();
    let before = camera_pos(&w);
    let mut f = InputFrame::idle();
    f.forward = true;
    // Whatever offset the caller computes is ignored on a motionless frame.
    w.frame(&f, Vec3 { x: 77, y: 88, z: 99 }, false);
    assert_eq!(camera_pos(&w), before);
    assert_eq!(cube_pos(&w), Vec3 { x: 0, y: 0, z: -100 });
    assert_eq!(camera_look(&w), Vec3 { x: 0, y: 0, z: -100 });
}

#[test]
fn reset_key_teleports_the_camera_beside_the_cube() {
    let mut w = playing_world();
    let mut f = InputFrame::idle();
    f.reset = true;
    // The vertical sign is drawn from the random generator inside.
    w.frame_sampled(&f, zero());
    let p = camera_pos(&w);
    let c = cube_pos(&w);
    assert_eq!(p.x - c.x, 1500);
    assert_eq!(p.z - c.z, 4200);
    assert!(p.y - c.y == 500 || p.y - c.y == -500);
}

#[test]
fn reset_with_explicit_coin_lands_on_each_side() {
    for up in [true, false] {
        let mut w = playing_world();
        let mut f = InputFrame::idle();
        f.reset = true;
        w.frame(&f, zero(), up);
        let dy = camera_pos(&w).y - cube_pos(&w).y;
        assert_eq!(dy, if up { 500 } else { -500 });
    }
}

#[test]
fn mouse_accumulator_sums_and_clears() {
    let mut m = MouseAccumulator::new();
    m.accumulate(3, -2);
    m.accumulate(-1, 10);
    assert_eq!((m.dx, m.dy), (2, 8));
    let (dx, dy) = m.take();
    assert_eq!((dx, dy), (2, 8));
    assert_eq!((m.dx, m.dy), (0, 0));
}

#[test]
fn bounded_check_survives_play() {
    let mut w = playing_world();
    let mut f = InputFrame::idle();
    f.digit0 = true;
    f.back = true;
    f.right = true;
    for _ in 0..100 {
        assert!(w.check_bounded());
        frame_with(&mut w, &f);
    }
    let p = cube_pos(&w);
    assert_eq!((p.x, p.z), (100 * 10000, 100 * 10000));
}
