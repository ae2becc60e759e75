//! The per-frame controllers: cube movement and speed selection, the orbit
//! and follow steps of the chase camera, and the menu's button handling.

use vstd::prelude::*;
use crate::input::{digit_pressed, no_digit_pressed, ButtonAction, InputFrame, Interaction};
use crate::math::{dist_sq, in_bounds, norm_sq, spec_add, vec_add, Vec3, COORD_LIMIT};
use crate::scene::{ButtonVisual, GameState, Object, ObjectKind};
use crate::world::{
    camera_pos, cube_pos, is_cube_with_sane_speed, wf, World, WorldView, MAX_SPEED,
};

verus! {

/// The speed stored in a cube record; zero for anything else.
pub open spec fn speed_of(k: ObjectKind) -> i64 {
    match k {
        ObjectKind::Cube { speed } => speed,
        _ => 0,
    }
}

/// Speed selection: the first just-pressed key among the digits 1 through 9
/// and then 0 wins; `n` picks `n/10` of a unit, 0 picks ten units, and with
/// no digit pressed the speed stands.
pub open spec fn spec_select_speed(current: i64, f: InputFrame) -> i64 {
    if f.digit1 {
        100
    } else if f.digit2 {
        200
    } else if f.digit3 {
        300
    } else if f.digit4 {
        400
    } else if f.digit5 {
        500
    } else if f.digit6 {
        600
    } else if f.digit7 {
        700
    } else if f.digit8 {
        800
    } else if f.digit9 {
        900
    } else if f.digit0 {
        MAX_SPEED
    } else {
        current
    }
}

/// The frame's translation: each held movement key contributes `speed` along
/// its axis, additively and unnormalized, so diagonals move farther by design.
pub open spec fn spec_move_delta(speed: i64, f: InputFrame) -> Vec3 {
    Vec3 {
        x: ((if f.right {
            speed as int
        } else {
            0int
        }) - (if f.left {
            speed as int
        } else {
            0int
        })) as i64,
        y: 0,
        z: ((if f.back {
            speed as int
        } else {
            0int
        }) - (if f.forward {
            speed as int
        } else {
            0int
        })) as i64,
    }
}

/// Where the camera jumps, relative to the cube, when the reset key is
/// pressed; the vertical half-unit's sign is drawn at random.
pub open spec fn spec_reset_offset(up: bool) -> Vec3 {
    Vec3 { x: 1500, y: if up {
        500i64
    } else {
        -500i64
    }, z: 4200 }
}

/// The cube controller's effect on the world: select the speed, teleport the
/// camera beside the cube if the reset key was pressed, translate the cube by
/// the held movement keys, and request the menu if cancel is held.
pub open spec fn spec_cube_control(v: WorldView, f: InputFrame, reset_up: bool) -> WorldView {
    match (v.cube, v.camera) {
        (Some(cu), Some(cam)) => if 0 <= cu < v.objects.len() && 0 <= cam < v.objects.len() {
            let speed = spec_select_speed(speed_of(v.objects[cu].kind), f);
            let o1 = v.objects.update(
                cu,
                Object { kind: ObjectKind::Cube { speed }, ..v.objects[cu] },
            );
            let o2 = if f.reset {
                o1.update(
                    cam,
                    Object { pos: spec_add(o1[cu].pos, spec_reset_offset(reset_up)), ..o1[cam] },
                )
            } else {
                o1
            };
            let o3 = o2.update(
                cu,
                Object { pos: spec_add(o2[cu].pos, spec_move_delta(speed, f)), ..o2[cu] },
            );
            WorldView {
                objects: o3,
                pending: if f.cancel {
                    Some(GameState::Menu)
                } else {
                    v.pending
                },
                ..v
            }
        } else {
            v
        },
        _ => v,
    }
}

/// The orbit step: a frame with mouse motion moves the camera to the spot
/// `rotated` away from the cube — the caller computes `rotated` by revolving
/// the old offset — and a frame without motion leaves the camera in place.
pub open spec fn spec_orbit(v: WorldView, dx: i64, dy: i64, rotated: Vec3) -> WorldView {
    match (v.cube, v.camera) {
        (Some(cu), Some(cam)) => if 0 <= cu < v.objects.len() && 0 <= cam < v.objects.len() {
            if dx == 0 && dy == 0 {
                v
            } else {
                WorldView {
                    objects: v.objects.update(
                        cam,
                        Object { pos: spec_add(v.objects[cu].pos, rotated), ..v.objects[cam] },
                    ),
                    ..v
                }
            }
        } else {
            v
        },
        _ => v,
    }
}

/// The follow step: re-aim the camera at the cube's current position,
/// touching nothing else.
pub open spec fn spec_follow(v: WorldView) -> WorldView {
    match (v.cube, v.camera) {
        (Some(cu), Some(cam)) => if 0 <= cu < v.objects.len() && 0 <= cam < v.objects.len() {
            match v.objects[cam].kind {
                ObjectKind::OrbitCamera { .. } => WorldView {
                    objects: v.objects.update(
                        cam,
                        Object {
                            kind: ObjectKind::OrbitCamera { look: v.objects[cu].pos },
                            ..v.objects[cam]
                        },
                    ),
                    ..v
                },
                _ => v,
            }
        } else {
            v
        },
        _ => v,
    }
}

/// One button's report for the frame: a press performs the button's action
/// (play requests the play screen, dismiss requests leaving the game), a
/// hover or an idle report only recolors the button.
pub open spec fn spec_button_event(
    v: WorldView,
    handle: Option<int>,
    report: Option<Interaction>,
) -> WorldView {
    match (handle, report) {
        (Some(b), Some(it)) => if 0 <= b < v.objects.len() {
            match v.objects[b].kind {
                ObjectKind::Button { action, visual } => match it {
                    Interaction::Pressed => match action {
                        ButtonAction::PlayGame => WorldView {
                            pending: Some(GameState::Playing),
                            ..v
                        },
                        ButtonAction::Dismiss => WorldView { exit_requested: true, ..v },
                    },
                    Interaction::Hovered => WorldView {
                        objects: v.objects.update(
                            b,
                            Object {
                                kind: ObjectKind::Button { action, visual: ButtonVisual::Hovered },
                                ..v.objects[b]
                            },
                        ),
                        ..v
                    },
                    Interaction::Idle => WorldView {
                        objects: v.objects.update(
                            b,
                            Object {
                                kind: ObjectKind::Button { action, visual: ButtonVisual::Base },
                                ..v.objects[b]
                            },
                        ),
                        ..v
                    },
                },
                _ => v,
            }
        } else {
            v
        },
        _ => v,
    }
}

/// The menu controller's effect: handle the play button's report, then the
/// dismiss button's.
pub open spec fn spec_menu_buttons(v: WorldView, f: InputFrame) -> WorldView {
    let v1 = spec_button_event(v, v.play_button, f.play_button);
    spec_button_event(v1, v1.dismiss_button, f.dismiss_button)
}

/// The cube controller preserves well-formedness, leaves the handles and the
/// screen alone, and moves the cube by exactly the frame's translation.
pub proof fn lemma_cube_control_wf(v: WorldView, f: InputFrame, reset_up: bool)
    requires
        wf(v),
        v.state is Playing,
    ensures
        wf(spec_cube_control(v, f, reset_up)),
        spec_cube_control(v, f, reset_up).state == v.state,
        spec_cube_control(v, f, reset_up).cube == v.cube,
        spec_cube_control(v, f, reset_up).camera == v.camera,
        spec_cube_control(v, f, reset_up).objects.len() == v.objects.len(),
        cube_pos(spec_cube_control(v, f, reset_up)) == spec_add(
            cube_pos(v),
            spec_move_delta(spec_select_speed(crate::world::cube_speed(v), f), f),
        ),
{
    let w = spec_cube_control(v, f, reset_up);
    match (v.cube, v.camera) {
        (Some(cu), Some(cam)) => {
            assert(is_cube_with_sane_speed(v.objects[cu].kind));
            assert(v.objects[cam].kind is OrbitCamera);
            assert(cu != cam);
            let speed = spec_select_speed(speed_of(v.objects[cu].kind), f);
            assert(0 < speed <= MAX_SPEED);
            assert(wf(w));
        },
        _ => {},
    }
}

/// The orbit step preserves well-formedness and touches only the camera's
/// position.
pub proof fn lemma_orbit_wf(v: WorldView, dx: i64, dy: i64, rotated: Vec3)
    requires
        wf(v),
        v.state is Playing,
    ensures
        wf(spec_orbit(v, dx, dy, rotated)),
        spec_orbit(v, dx, dy, rotated).state == v.state,
        spec_orbit(v, dx, dy, rotated).cube == v.cube,
        spec_orbit(v, dx, dy, rotated).camera == v.camera,
        cube_pos(spec_orbit(v, dx, dy, rotated)) == cube_pos(v),
{
    let w = spec_orbit(v, dx, dy, rotated);
    match (v.cube, v.camera) {
        (Some(cu), Some(cam)) => {
            assert(is_cube_with_sane_speed(v.objects[cu].kind));
            assert(v.objects[cam].kind is OrbitCamera);
            assert(cu != cam);
            assert(wf(w));
        },
        _ => {},
    }
}

/// The follow step preserves well-formedness and touches only the camera's
/// aim point.
pub proof fn lemma_follow_wf(v: WorldView)
    requires
        wf(v),
        v.state is Playing,
    ensures
        wf(spec_follow(v)),
        spec_follow(v).state == v.state,
        spec_follow(v).cube == v.cube,
        spec_follow(v).camera == v.camera,
        cube_pos(spec_follow(v)) == cube_pos(v),
        camera_pos(spec_follow(v)) == camera_pos(v),
{
    let w = spec_follow(v);
    match (v.cube, v.camera) {
        (Some(cu), Some(cam)) => {
            assert(is_cube_with_sane_speed(v.objects[cu].kind));
            assert(v.objects[cam].kind is OrbitCamera);
            assert(cu != cam);
            assert(wf(w));
        },
        _ => {},
    }
}

/// A single button report preserves well-formedness on the menu screen and
/// never touches the arena's layout, only one button's visual.
pub proof fn lemma_button_event_wf(v: WorldView, handle: Option<int>, report: Option<Interaction>)
    requires
        wf(v),
        v.state is Menu,
        handle == v.play_button || handle == v.dismiss_button,
    ensures
        wf(spec_button_event(v, handle, report)),
        spec_button_event(v, handle, report).state == v.state,
        spec_button_event(v, handle, report).play_button == v.play_button,
        spec_button_event(v, handle, report).dismiss_button == v.dismiss_button,
        spec_button_event(v, handle, report).camera == v.camera,
        spec_button_event(v, handle, report).cube == v.cube,
        spec_button_event(v, handle, report).objects.len() == v.objects.len(),
{
    let w = spec_button_event(v, handle, report);
    assert(wf(w));
}


/// Speed selection is idempotent per frame: a frame without any just-pressed
/// digit key leaves the speed exactly as it was.
pub proof fn lemma_speed_idempotent(current: i64, f: InputFrame)
    requires
        no_digit_pressed(f),
    ensures
        spec_select_speed(current, f) == current,
{
    assert(!digit_pressed(f, 0));
    assert(!digit_pressed(f, 1));
    assert(!digit_pressed(f, 2));
    assert(!digit_pressed(f, 3));
    assert(!digit_pressed(f, 4));
    assert(!digit_pressed(f, 5));
    assert(!digit_pressed(f, 6));
    assert(!digit_pressed(f, 7));
    assert(!digit_pressed(f, 8));
    assert(!digit_pressed(f, 9));
}

/// Pressing exactly the digit `n` (1 through 9) sets the speed to `n/10` of
/// a unit — `100 * n` milliunits — and pressing exactly 0 sets ten units.
pub proof fn lemma_speed_digit(current: i64, f: InputFrame, n: int)
    requires
        0 <= n <= 9,
        digit_pressed(f, n),
        forall|m: int| m != n ==> !digit_pressed(f, m),
    ensures
        spec_select_speed(current, f) == if n == 0 {
            MAX_SPEED as int
        } else {
            100 * n
        },
{
    if n != 0 {
        assert(!digit_pressed(f, 0));
    }
    if n != 1 {
        assert(!digit_pressed(f, 1));
    }
    if n != 2 {
        assert(!digit_pressed(f, 2));
    }
    if n != 3 {
        assert(!digit_pressed(f, 3));
    }
    if n != 4 {
        assert(!digit_pressed(f, 4));
    }
    if n != 5 {
        assert(!digit_pressed(f, 5));
    }
    if n != 6 {
        assert(!digit_pressed(f, 6));
    }
    if n != 7 {
        assert(!digit_pressed(f, 7));
    }
    if n != 8 {
        assert(!digit_pressed(f, 8));
    }
    if n != 9 {
        assert(!digit_pressed(f, 9));
    }
}

/// Translation composition: holding forward and left together for one frame
/// moves the cube by exactly `(-speed, 0, -speed)` — the two axes add and the
/// diagonal is not normalized, by design.
pub proof fn lemma_translation_composition(speed: i64, f: InputFrame)
    requires
        0 <= speed,
        f.forward,
        f.left,
        !f.back,
        !f.right,
    ensures
        spec_move_delta(speed, f).x == -(speed as int),
        spec_move_delta(speed, f).y == 0,
        spec_move_delta(speed, f).z == -(speed as int),
{
}

/// Orbit invariant: whatever mouse motion a frame brings, the orbit step
/// preserves the camera's squared distance from the cube. Without motion
/// nothing moves; with motion the camera lands `rotated` away from the cube,
/// and `rotated` — the old offset revolved — has the offset's squared length,
/// which is exactly what any true rotation guarantees.
pub proof fn lemma_orbit_preserves_distance(v: WorldView, dx: i64, dy: i64, rotated: Vec3)
    requires
        wf(v),
        v.state is Playing,
        in_bounds(cube_pos(v), COORD_LIMIT as int),
        in_bounds(rotated, 2 * COORD_LIMIT as int),
        (dx != 0 || dy != 0) ==> norm_sq(rotated) == dist_sq(camera_pos(v), cube_pos(v)),
    ensures
        dist_sq(
            camera_pos(spec_orbit(v, dx, dy, rotated)),
            cube_pos(spec_orbit(v, dx, dy, rotated)),
        ) == dist_sq(camera_pos(v), cube_pos(v)),
{
    let w = spec_orbit(v, dx, dy, rotated);
    if !(dx == 0 && dy == 0) {
        match (v.cube, v.camera) {
            (Some(cu), Some(cam)) => {
                assert(is_cube_with_sane_speed(v.objects[cu].kind));
                assert(v.objects[cam].kind is OrbitCamera);
                assert(cu != cam);
                let c = cube_pos(v);
                let p = spec_add(c, rotated);
                assert(p.x == c.x + rotated.x);
                assert(p.y == c.y + rotated.y);
                assert(p.z == c.z + rotated.z);
                assert(camera_pos(w) == p);
                assert(cube_pos(w) == c);
                assert(dist_sq(p, c) == norm_sq(rotated));
            },
            _ => {},
        }
    }
}

/// Speed selection, executable form.
pub fn select_speed(current: i64, f: &InputFrame) -> (s: i64)
    ensures
        s == spec_select_speed(current, *f),
{
    if f.digit1 {
        100
    } else if f.digit2 {
        200
    } else if f.digit3 {
        300
    } else if f.digit4 {
        400
    } else if f.digit5 {
        500
    } else if f.digit6 {
        600
    } else if f.digit7 {
        700
    } else if f.digit8 {
        800
    } else if f.digit9 {
        900
    } else if f.digit0 {
        MAX_SPEED
    } else {
        current
    }
}

/// The frame's translation, executable form.
pub fn move_delta(speed: i64, f: &InputFrame) -> (d: Vec3)
    requires
        0 <= speed <= MAX_SPEED,
    ensures
        d == spec_move_delta(speed, *f),
        in_bounds(d, MAX_SPEED as int),
{
    let x: i64 = (if f.right {
        speed
    } else {
        0
    }) - (if f.left {
        speed
    } else {
        0
    });
    let z: i64 = (if f.back {
        speed
    } else {
        0
    }) - (if f.forward {
        speed
    } else {
        0
    });
    Vec3 { x, y: 0, z }
}

/// The camera's reset jump, executable form.
pub fn reset_offset(up: bool) -> (r: Vec3)
    ensures
        r == spec_reset_offset(up),
        in_bounds(r, COORD_LIMIT as int),
{
    Vec3 { x: 1500, y: if up {
        500
    } else {
        -500
    }, z: 4200 }
}

impl World {
    /// The cube controller. Runs only on the play screen; the absence of the
    /// cube there would break the lifecycle contract, and well-formedness
    /// rules it out.
    pub fn cube_control(&mut self, f: &InputFrame, reset_up: bool)
        requires
            wf(old(self)@),
            old(self)@.state is Playing,
            in_bounds(cube_pos(old(self)@), COORD_LIMIT as int),
        ensures
            final(self)@ == spec_cube_control(old(self)@, *f, reset_up),
            wf(final(self)@),
    {
        let cu = match self.cube {
            Some(c) => c,
            None => {
                proof {
                    assert(false);
                }
                0
            },
        };
        let cam = match self.camera {
            Some(c) => c,
            None => {
                proof {
                    assert(false);
                }
                0
            },
        };
        let obj = self.scene.objects[cu];
        let speed0 = match obj.kind {
            ObjectKind::Cube { speed } => speed,
            _ => {
                proof {
                    assert(false);
                }
                0
            },
        };
        let speed = select_speed(speed0, f);
        self.scene.objects[cu] = Object { kind: ObjectKind::Cube { speed }, ..obj };
        if f.reset {
            let base = self.scene.objects[cu].pos;
            let camo = self.scene.objects[cam];
            self.scene.objects[cam] = Object { pos: vec_add(base, reset_offset(reset_up)), ..camo };
        }
        let obj2 = self.scene.objects[cu];
        let delta = move_delta(speed, f);
        self.scene.objects[cu] = Object { pos: vec_add(obj2.pos, delta), ..obj2 };
        if f.cancel {
            self.pending = Some(GameState::Menu);
        }
        proof {
            assert(self@ =~= spec_cube_control(old(self)@, *f, reset_up));
            lemma_cube_control_wf(old(self)@, *f, reset_up);
        }
    }

    /// The orbit step of the camera controller. `rotated` is the cube-to-
    /// camera offset revolved by the frame's mouse motion; with no motion
    /// the camera stays exactly where it was.
    pub fn mouse_orbit(&mut self, dx: i64, dy: i64, rotated: Vec3)
        requires
            wf(old(self)@),
            old(self)@.state is Playing,
            in_bounds(cube_pos(old(self)@), 2 * COORD_LIMIT as int),
            in_bounds(rotated, 2 * COORD_LIMIT as int),
        ensures
            final(self)@ == spec_orbit(old(self)@, dx, dy, rotated),
            wf(final(self)@),
    {
        proof {
            lemma_orbit_wf(old(self)@, dx, dy, rotated);
        }
        if dx == 0 && dy == 0 {
            return;
        }
        let cu = match self.cube {
            Some(c) => c,
            None => {
                proof {
                    assert(false);
                }
                0
            },
        };
        let cam = match self.camera {
            Some(c) => c,
            None => {
                proof {
                    assert(false);
                }
                0
            },
        };
        let base = self.scene.objects[cu].pos;
        let camo = self.scene.objects[cam];
        self.scene.objects[cam] = Object { pos: vec_add(base, rotated), ..camo };
        proof {
            assert(self@ =~= spec_orbit(old(self)@, dx, dy, rotated));
        }
    }

    /// The follow step: re-aim the camera at the cube, every frame, whether
    /// or not the mouse moved.
    pub fn camera_follow(&mut self)
        requires
            wf(old(self)@),
            old(self)@.state is Playing,
        ensures
            final(self)@ == spec_follow(old(self)@),
            wf(final(self)@),
    {
        let cu = match self.cube {
            Some(c) => c,
            None => {
                proof {
                    assert(false);
                }
                0
            },
        };
        let cam = match self.camera {
            Some(c) => c,
            None => {
                proof {
                    assert(false);
                }
                0
            },
        };
        let target = self.scene.objects[cu].pos;
        let camo = self.scene.objects[cam];
        match camo.kind {
            ObjectKind::OrbitCamera { .. } => {
                self.scene.objects[cam] = Object {
                    kind: ObjectKind::OrbitCamera { look: target },
                    ..camo
                };
            },
            _ => {
                proof {
                    assert(false);
                }
            },
        }
        proof {
            assert(self@ =~= spec_follow(old(self)@));
            lemma_follow_wf(old(self)@);
        }
    }

    /// The menu controller: reacts to the two buttons' interaction reports.
    pub fn menu_buttons(&mut self, f: &InputFrame)
        requires
            wf(old(self)@),
            old(self)@.state is Menu,
        ensures
            final(self)@ == spec_menu_buttons(old(self)@, *f),
            wf(final(self)@),
    {
        let ghost v1 = spec_button_event(old(self)@, old(self)@.play_button, f.play_button);
        proof {
            lemma_button_event_wf(old(self)@, old(self)@.play_button, f.play_button);
        }
        if let Some(report) = f.play_button {
            let b = match self.play_button {
                Some(b) => b,
                None => {
                    proof {
                        assert(false);
                    }
                    0
                },
            };
            let obj = self.scene.objects[b];
            match obj.kind {
                ObjectKind::Button { action, visual: _ } => {
                    match report {
                        Interaction::Pressed => {
                            match action {
                                ButtonAction::PlayGame => {
                                    self.pending = Some(GameState::Playing);
                                },
                                ButtonAction::Dismiss => {
                                    self.exit_requested = true;
                                },
                            }
                        },
                        Interaction::Hovered => {
                            self.scene.objects[b] = Object {
                                kind: ObjectKind::Button {
                                    action,
                                    visual: ButtonVisual::Hovered,
                                },
                                ..obj
                            };
                        },
                        Interaction::Idle => {
                            self.scene.objects[b] = Object {
                                kind: ObjectKind::Button { action, visual: ButtonVisual::Base },
                                ..obj
                            };
                        },
                    }
                },
                _ => {
                    proof {
                        assert(false);
                    }
                },
            }
        }
        proof {
            assert(self@ =~= v1);
            lemma_button_event_wf(v1, v1.dismiss_button, f.dismiss_button);
        }
        if let Some(report) = f.dismiss_button {
            let b = match self.dismiss_button {
                Some(b) => b,
                None => {
                    proof {
                        assert(false);
                    }
                    0
                },
            };
            let obj = self.scene.objects[b];
            match obj.kind {
                ObjectKind::Button { action, visual: _ } => {
                    match report {
                        Interaction::Pressed => {
                            match action {
                                ButtonAction::PlayGame => {
                                    self.pending = Some(GameState::Playing);
                                },
                                ButtonAction::Dismiss => {
                                    self.exit_requested = true;
                                },
                            }
                        },
                        Interaction::Hovered => {
                            self.scene.objects[b] = Object {
                                kind: ObjectKind::Button {
                                    action,
                                    visual: ButtonVisual::Hovered,
                                },
                                ..obj
                            };
                        },
                        Interaction::Idle => {
                            self.scene.objects[b] = Object {
                                kind: ObjectKind::Button { action, visual: ButtonVisual::Base },
                                ..obj
                            };
                        },
                    }
                },
                _ => {
                    proof {
                        assert(false);
                    }
                },
            }
        }
        proof {
            assert(self@ =~= spec_menu_buttons(old(self)@, *f));
        }
    }
}

} // verus!
