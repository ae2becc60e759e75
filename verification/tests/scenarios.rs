//! End-to-end scenarios: screen swaps, the spawned cohorts, cursor policy,
//! and the exit request.

use cube_sim::input::{ButtonAction, InputFrame, Interaction};
use cube_sim::math::Vec3;
use cube_sim::scene::{GameState, ObjectKind};
use cube_sim::world::World;

fn zero() -> Vec3 {
    Vec3 { x: 0, y: 0, z: 0 }
}

fn press_play(w: &mut World) {
    let mut f = InputFrame::idle();
    f.play_button = Some(Interaction::Pressed);
    w.frame(&f, zero(), false);
}

#[test]
fn fresh_world_is_menu_with_full_menu_set() {
    let w = World::new();
    assert_eq!(w.state, GameState::Menu);
    assert!(w.pending.is_none());
    assert!(!w.exit_requested);
    assert!(w.cursor.visible);
    assert!(!w.cursor.locked);
    assert_eq!(w.scene.objects.len(), 7);
    assert!(matches!(w.scene.objects[0].kind, ObjectKind::UiCamera));
    assert!(matches!(w.scene.objects[1].kind, ObjectKind::UiRoot));
    assert!(matches!(w.scene.objects[2].kind, ObjectKind::Title));
    assert!(matches!(
        w.scene.objects[3].kind,
        ObjectKind::Button { action: ButtonAction::PlayGame, .. }
    ));
    assert!(matches!(w.scene.objects[4].kind, ObjectKind::Label));
    assert!(matches!(
        w.scene.objects[5].kind,
        ObjectKind::Button { action: ButtonAction::Dismiss, .. }
    ));
    assert!(matches!(w.scene.objects[6].kind, ObjectKind::Label));
    assert_eq!(w.cube, None);
    assert_eq!(w.camera, Some(0));
    assert_eq!(w.play_button, Some(3));
    assert_eq!(w.dismiss_button, Some(5));
    for o in &w.scene.objects {
        assert_eq!(o.tag, GameState::Menu);
    }
    assert!(w.check_bounded());
}

#[test]
fn pressing_play_spawns_exactly_the_playing_set() {
    let mut w = World::new();
    press_play(&mut w);
    assert_eq!(w.state, GameState::Playing);
    assert_eq!(w.scene.objects.len(), 6);
    for o in &w.scene.objects {
        assert_eq!(o.tag, GameState::Playing);
    }
    // The cube spawns at the origin with a tenth of a unit per frame.
    assert!(matches!(w.scene.objects[0].kind, ObjectKind::Cube { speed: 100 }));
    assert_eq!(w.scene.objects[0].pos, Vec3 { x: 0, y: 0, z: 0 });
    // Two lights ride on the cube, two ground planes, one chase camera.
    assert!(matches!(w.scene.objects[1].kind, ObjectKind::Light));
    assert_eq!(w.scene.objects[1].parent, Some(0));
    assert!(matches!(w.scene.objects[2].kind, ObjectKind::Light));
    assert_eq!(w.scene.objects[2].parent, Some(0));
    assert!(matches!(w.scene.objects[3].kind, ObjectKind::Ground { downward: false }));
    assert!(matches!(w.scene.objects[4].kind, ObjectKind::Ground { downward: true }));
    assert!(matches!(w.scene.objects[5].kind, ObjectKind::OrbitCamera { .. }));
    assert_eq!(w.scene.objects[5].pos, Vec3 { x: -2000, y: 2500, z: 5000 });
    // Exactly one cube and one active camera.
    let cubes = w
        .scene
        .objects
        .iter()
        .filter(|o| matches!(o.kind, ObjectKind::Cube { .. }))
        .count();
    let cams = w
        .scene
        .objects
        .iter()
        .filter(|o| matches!(o.kind, ObjectKind::OrbitCamera { .. }))
        .count();
    assert_eq!(cubes, 1);
    assert_eq!(cams, 1);
    // Cursor is captured while playing.
    assert!(!w.cursor.visible);
    assert!(w.cursor.locked);
    assert_eq!(w.cube, Some(0));
    assert_eq!(w.camera, Some(5));
}

#[test]
fn cancel_returns_to_menu_and_swaps_the_whole_set() {
    let mut w = World::new();
    press_play(&mut w);
    let mut f = InputFrame::idle();
    f.cancel = true;
    w.frame(&f, zero(), false);
    // Next frame the state is the menu again.
    assert_eq!(w.state, GameState::Menu);
    assert!(w.pending.is_none());
    // Every play-tagged object is gone; the menu cohort is back, whole.
    assert_eq!(w.scene.objects.len(), 7);
    for o in &w.scene.objects {
        assert_eq!(o.tag, GameState::Menu);
    }
    let cams = w
        .scene
        .objects
        .iter()
        .filter(|o| matches!(o.kind, ObjectKind::UiCamera))
        .count();
    let titles = w
        .scene
        .objects
        .iter()
        .filter(|o| matches!(o.kind, ObjectKind::Title))
        .count();
    let buttons = w
        .scene
        .objects
        .iter()
        .filter(|o| matches!(o.kind, ObjectKind::Button { .. }))
        .count();
    assert_eq!(cams, 1);
    assert_eq!(titles, 1);
    assert_eq!(buttons, 2);
    // Cursor is released again.
    assert!(w.cursor.visible);
    assert!(!w.cursor.locked);
}

#[test]
fn digit_five_then_forward_moves_half_a_unit() {
    let mut w = World::new();
    press_play(&mut w);
    let mut f = InputFrame::idle();
    f.digit5 = true;
    w.frame(&f, zero(), false);
    let mut f = InputFrame::idle();
    f.forward = true;
    w.frame(&f, zero(), false);
    let cube = w.scene.objects[w.cube.unwrap()];
    assert_eq!(cube.pos.z, -500);
    assert_eq!(cube.pos.x, 0);
    assert_eq!(cube.pos.y, 0);
}

#[test]
fn dismiss_press_requests_exit_and_stays_on_menu() {
    let mut w = World::new();
    let mut f = InputFrame::idle();
    f.dismiss_button = Some(Interaction::Pressed);
    w.frame(&f, zero(), false);
    assert!(w.exit_requested);
    assert_eq!(w.state, GameState::Menu);
    assert_eq!(w.scene.objects.len(), 7);
}

#[test]
fn hovering_recolors_a_button_and_idle_restores_it() {
    let mut w = World::new();
    let mut f = InputFrame::idle();
    f.play_button = Some(Interaction::Hovered);
    w.frame(&f, zero(), false);
    assert!(matches!(
        w.scene.objects[3].kind,
        ObjectKind::Button { visual: cube_sim::scene::ButtonVisual::Hovered, .. }
    ));
    let mut f = InputFrame::idle();
    f.play_button = Some(Interaction::Idle);
    w.frame(&f, zero(), false);
    assert!(matches!(
        w.scene.objects[3].kind,
        ObjectKind::Button { visual: cube_sim::scene::ButtonVisual::Base, .. }
    ));
}

#[test]
fn idle_menu_frame_changes_nothing() {
    let mut w = World::new();
    let f = InputFrame::idle();
    w.frame(&f, zero(), false);
    assert_eq!(w.state, GameState::Menu);
    assert_eq!(w.scene.objects.len(), 7);
    assert!(!w.exit_requested);
    assert!(w.pending.is_none());
}
