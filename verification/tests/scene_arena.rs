//! Arena-level behavior: tag-based bulk destruction is exhaustive for the
//! named tag and leaves every other object untouched, in order.

use cube_sim::math::Vec3;
use cube_sim::scene::{GameState, Object, ObjectKind, Scene};

fn obj(tag: GameState, kind: ObjectKind, x: i64) -> Object {
    Object { tag, kind, parent: None, pos: Vec3 { x, y: 0, z: 0 } }
}

#[test]
fn despawn_removes_exactly_the_tagged_cohort() {
    let mut s = Scene::new();
    s.spawn(obj(GameState::Menu, ObjectKind::UiCamera, 1));
    s.spawn(obj(GameState::Playing, ObjectKind::Light, 2));
    s.spawn(obj(GameState::Menu, ObjectKind::Title, 3));
    s.spawn(obj(GameState::Playing, ObjectKind::Ground { downward: false }, 4));
    s.spawn(obj(GameState::Menu, ObjectKind::Label, 5));
    s.despawn_tagged(GameState::Menu);
    assert_eq!(s.objects.len(), 2);
    for o in &s.objects {
        assert_eq!(o.tag, GameState::Playing);
    }
    // Survivors keep their order and their contents.
    assert!(matches!(s.objects[0].kind, ObjectKind::Light));
    assert_eq!(s.objects[0].pos.x, 2);
    assert!(matches!(s.objects[1].kind, ObjectKind::Ground { downward: false }));
    assert_eq!(s.objects[1].pos.x, 4);
}

#[test]
fn despawn_of_an_absent_tag_changes_nothing() {
    let mut s = Scene::new();
    s.spawn(obj(GameState::Playing, ObjectKind::Light, 7));
    s.despawn_tagged(GameState::Menu);
    assert_eq!(s.objects.len(), 1);
    assert_eq!(s.objects[0].pos.x, 7);
}

#[test]
fn despawn_on_the_empty_arena_is_a_no_op() {
    let mut s = Scene::new();
    s.despawn_tagged(GameState::Playing);
    assert_eq!(s.objects.len(), 0);
}
