//! One logical frame: input sampling feeds the cube controller, then the
//! camera orbit and follow steps, and last the state-transition scheduling
//! point. On the menu screen the button controller runs instead.
//!
//! The revolved camera offset is float work and is computed by the caller;
//! the frame takes the result as a plain value and is verified for every
//! value of it.

use vstd::prelude::*;
use crate::control::{
    spec_cube_control, spec_follow, spec_menu_buttons, spec_move_delta, spec_orbit,
    spec_select_speed,
};
use crate::input::InputFrame;
use crate::math::{in_bounds, spec_add, Vec3, COORD_LIMIT};
use crate::scene::GameState;
use crate::world::{
    camera_look, camera_pos, cube_pos, cube_speed, scene_bounded, spec_apply_pending, wf, World,
    WorldView,
};

verus! {

/// Everything one frame does to the world. `rotated` is the cube-to-camera
/// offset revolved by the frame's mouse motion; `reset_up` is the coin drawn
/// for a camera reset. Both are ignored on frames that do not use them.
pub open spec fn spec_frame(v: WorldView, f: InputFrame, rotated: Vec3, reset_up: bool) -> WorldView {
    let stepped = match v.state {
        GameState::Playing => spec_follow(
            spec_orbit(spec_cube_control(v, f, reset_up), f.mouse_dx, f.mouse_dy, rotated),
        ),
        GameState::Menu => spec_menu_buttons(v, f),
    };
    spec_apply_pending(stepped)
}

/// Relies on fastrand::bool: a coin flip from the crate's thread-local
/// generator. Nothing is promised of the result.
#[verifier::external_body]
fn random_sign() -> bool {
    fastrand::bool()
}

impl World {
    /// Runs one frame, deterministically: the caller supplies the revolved
    /// camera offset and the reset coin.
    pub fn frame(&mut self, f: &InputFrame, rotated: Vec3, reset_up: bool)
        requires
            wf(old(self)@),
            scene_bounded(old(self)@, COORD_LIMIT as int),
            in_bounds(rotated, COORD_LIMIT as int),
        ensures
            final(self)@ == spec_frame(old(self)@, *f, rotated, reset_up),
            wf(final(self)@),
    {
        match self.state {
            GameState::Playing => {
                proof {
                    assert(in_bounds(cube_pos(old(self)@), COORD_LIMIT as int));
                }
                self.cube_control(f, reset_up);
                proof {
                    crate::control::lemma_cube_control_wf(old(self)@, *f, reset_up);
                    assert(in_bounds(cube_pos(self@), 2 * COORD_LIMIT as int));
                }
                self.mouse_orbit(f.mouse_dx, f.mouse_dy, rotated);
                self.camera_follow();
                self.apply_pending();
            },
            GameState::Menu => {
                self.menu_buttons(f);
                self.apply_pending();
            },
        }
    }

    /// Runs one frame, drawing the reset coin itself when the reset key was
    /// pressed. Whichever way the coin fell, the result is one frame's worth
    /// of work on the world.
    pub fn frame_sampled(&mut self, f: &InputFrame, rotated: Vec3)
        requires
            wf(old(self)@),
            scene_bounded(old(self)@, COORD_LIMIT as int),
            in_bounds(rotated, COORD_LIMIT as int),
        ensures
            exists|up: bool| final(self)@ == spec_frame(old(self)@, *f, rotated, up),
            wf(final(self)@),
    {
        let up = if f.reset {
            random_sign()
        } else {
            false
        };
        self.frame(f, rotated, up);
        proof {
            assert(self@ == spec_frame(old(self)@, *f, rotated, up));
        }
    }
}

/// Passive tracking: on a play frame with zero mouse motion and no reset or
/// cancel, translating the cube leaves the camera's position untouched and
/// lands its aim point exactly on the cube's new position.
pub proof fn lemma_passive_tracking(v: WorldView, f: InputFrame, rotated: Vec3, reset_up: bool)
    requires
        wf(v),
        v.state is Playing,
        v.pending is None,
        f.mouse_dx == 0,
        f.mouse_dy == 0,
        !f.reset,
        !f.cancel,
    ensures
        camera_pos(spec_frame(v, f, rotated, reset_up)) == camera_pos(v),
        camera_look(spec_frame(v, f, rotated, reset_up)) == cube_pos(
            spec_frame(v, f, rotated, reset_up),
        ),
        cube_pos(spec_frame(v, f, rotated, reset_up)) == spec_add(
            cube_pos(v),
            spec_move_delta(spec_select_speed(cube_speed(v), f), f),
        ),
{
    let v1 = spec_cube_control(v, f, reset_up);
    crate::control::lemma_cube_control_wf(v, f, reset_up);
    match (v.cube, v.camera) {
        (Some(cu), Some(cam)) => {
            assert(crate::world::is_cube_with_sane_speed(v.objects[cu].kind));
            assert(v.objects[cam].kind is OrbitCamera);
            assert(cu != cam);
            assert(camera_pos(v1) == camera_pos(v));
            assert(v1.pending is None);
        },
        _ => {},
    }
    let v2 = spec_orbit(v1, 0, 0, rotated);
    assert(v2 == v1);
    let v3 = spec_follow(v2);
    crate::control::lemma_follow_wf(v2);
    match (v2.cube, v2.camera) {
        (Some(cu), Some(cam)) => {
            assert(cu != cam);
            assert(camera_pos(v3) == camera_pos(v2));
            assert(camera_look(v3) == cube_pos(v2));
            assert(cube_pos(v3) == cube_pos(v2));
            assert(v3.pending is None);
        },
        _ => {},
    }
    assert(spec_apply_pending(v3) == v3);
}

} // verus!
