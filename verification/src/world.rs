//! The world: current screen, pending transition, cursor policy, the scene
//! arena, and the singleton handles the controllers work through.
//!
//! A transition request only records a pending target; the exit hook of the
//! old screen, the state change, and the enter hook of the new screen run
//! back to back at one point per frame.

use vstd::prelude::*;
use crate::input::ButtonAction;
use crate::math::{in_bounds, Vec3, COORD_LIMIT};
use crate::scene::{
    count_active_cameras, count_cubes, despawn_spec, is_active_camera, ButtonVisual, GameState,
    Object, ObjectKind, Scene,
};

verus! {

/// Movement per frame, in milliunits, right after the cube spawns.
pub const INITIAL_SPEED: i64 = 100;

/// Movement per frame selected by the 0 key, and the largest speed the
/// controllers ever set.
pub const MAX_SPEED: i64 = 10000;

/// Arena index of the cube within a freshly spawned play scene.
pub const PLAYING_CUBE_SLOT: usize = 0;

/// Arena index of the chase camera within a freshly spawned play scene.
pub const PLAYING_CAMERA_SLOT: usize = 5;

/// Arena index of the 2D camera within a freshly spawned menu scene.
pub const MENU_CAMERA_SLOT: usize = 0;

/// Arena index of the play button within a freshly spawned menu scene.
pub const MENU_PLAY_SLOT: usize = 3;

/// Arena index of the dismiss button within a freshly spawned menu scene.
pub const MENU_DISMISS_SLOT: usize = 5;

/// What the window is told to do with the cursor.
#[derive(Clone, Copy, PartialEq, Eq, Structural, Debug)]
pub struct Cursor {
    pub visible: bool,
    pub locked: bool,
}

/// The whole game core.
#[derive(Debug)]
pub struct World {
    pub state: GameState,
    pub pending: Option<GameState>,
    pub exit_requested: bool,
    pub cursor: Cursor,
    pub scene: Scene,
    pub cube: Option<usize>,
    pub camera: Option<usize>,
    pub play_button: Option<usize>,
    pub dismiss_button: Option<usize>,
}

/// The mathematical image of a `World`.
#[verifier::ext_equal]
pub ghost struct WorldView {
    pub state: GameState,
    pub pending: Option<GameState>,
    pub exit_requested: bool,
    pub cursor: Cursor,
    pub objects: Seq<Object>,
    pub cube: Option<int>,
    pub camera: Option<int>,
    pub play_button: Option<int>,
    pub dismiss_button: Option<int>,
}

/// A handle, widened to mathematical integers.
pub open spec fn handle_view(h: Option<usize>) -> Option<int> {
    match h {
        Some(i) => Some(i as int),
        None => None,
    }
}

impl View for World {
    type V = WorldView;

    open spec fn view(&self) -> WorldView {
        WorldView {
            state: self.state,
            pending: self.pending,
            exit_requested: self.exit_requested,
            cursor: self.cursor,
            objects: self.scene@,
            cube: handle_view(self.cube),
            camera: handle_view(self.camera),
            play_button: handle_view(self.play_button),
            dismiss_button: handle_view(self.dismiss_button),
        }
    }
}

/// Cursor policy: playing hides and locks the cursor, the menu releases it.
pub open spec fn cursor_for(target: GameState) -> Cursor {
    match target {
        GameState::Menu => Cursor { visible: true, locked: false },
        GameState::Playing => Cursor { visible: false, locked: true },
    }
}

/// The objects the play screen's enter hook spawns: the cube with two lights
/// attached, two ground planes, and the chase camera aimed at the cube.
pub open spec fn playing_objects() -> Seq<Object> {
    seq![
        Object {
            tag: GameState::Playing,
            kind: ObjectKind::Cube { speed: INITIAL_SPEED },
            parent: None,
            pos: (Vec3 { x: 0, y: 0, z: 0 }),
        },
        Object {
            tag: GameState::Playing,
            kind: ObjectKind::Light,
            parent: Some(0),
            pos: (Vec3 { x: 2000, y: 4000, z: 2000 }),
        },
        Object {
            tag: GameState::Playing,
            kind: ObjectKind::Light,
            parent: Some(0),
            pos: (Vec3 { x: 2000, y: -4000i64, z: 2000 }),
        },
        Object {
            tag: GameState::Playing,
            kind: ObjectKind::Ground { downward: false },
            parent: None,
            pos: (Vec3 { x: 0, y: 0, z: 0 }),
        },
        Object {
            tag: GameState::Playing,
            kind: ObjectKind::Ground { downward: true },
            parent: None,
            pos: (Vec3 { x: 0, y: 0, z: 0 }),
        },
        Object {
            tag: GameState::Playing,
            kind: (ObjectKind::OrbitCamera { look: Vec3 { x: 0, y: 0, z: 0 } }),
            parent: None,
            pos: (Vec3 { x: -2000i64, y: 2500, z: 5000 }),
        },
    ]
}

/// The objects the menu's enter hook spawns: a 2D camera, the layout root,
/// the title, and two buttons with their labels.
pub open spec fn menu_objects() -> Seq<Object> {
    seq![
        Object {
            tag: GameState::Menu,
            kind: ObjectKind::UiCamera,
            parent: None,
            pos: (Vec3 { x: 0, y: 0, z: 0 }),
        },
        Object {
            tag: GameState::Menu,
            kind: ObjectKind::UiRoot,
            parent: None,
            pos: (Vec3 { x: 0, y: 0, z: 0 }),
        },
        Object {
            tag: GameState::Menu,
            kind: ObjectKind::Title,
            parent: Some(1),
            pos: (Vec3 { x: 0, y: 0, z: 0 }),
        },
        Object {
            tag: GameState::Menu,
            kind: (ObjectKind::Button {
                action: ButtonAction::PlayGame,
                visual: ButtonVisual::Base,
            }),
            parent: Some(1),
            pos: (Vec3 { x: 0, y: 0, z: 0 }),
        },
        Object {
            tag: GameState::Menu,
            kind: ObjectKind::Label,
            parent: Some(3),
            pos: (Vec3 { x: 0, y: 0, z: 0 }),
        },
        Object {
            tag: GameState::Menu,
            kind: (ObjectKind::Button {
                action: ButtonAction::Dismiss,
                visual: ButtonVisual::Base,
            }),
            parent: Some(1),
            pos: (Vec3 { x: 0, y: 0, z: 0 }),
        },
        Object {
            tag: GameState::Menu,
            kind: ObjectKind::Label,
            parent: Some(5),
            pos: (Vec3 { x: 0, y: 0, z: 0 }),
        },
    ]
}

/// The scene a screen's enter hook builds.
pub open spec fn scene_for(target: GameState) -> Seq<Object> {
    match target {
        GameState::Menu => menu_objects(),
        GameState::Playing => playing_objects(),
    }
}

/// Whether `k` is a button performing `a`.
pub open spec fn is_button(k: ObjectKind, a: ButtonAction) -> bool {
    match k {
        ObjectKind::Button { action, .. } => action == a,
        _ => false,
    }
}

/// Whether `k` is the cube with a speed in the range the controllers keep.
pub open spec fn is_cube_with_sane_speed(k: ObjectKind) -> bool {
    match k {
        ObjectKind::Cube { speed } => 0 < speed <= MAX_SPEED,
        _ => false,
    }
}

/// Well-formedness: all live objects carry the current screen's tag, parents
/// point backwards at same-tagged objects, the singleton handles are placed
/// and unique, and the cursor obeys the policy of the current screen.
pub open spec fn wf(v: WorldView) -> bool {
    &&& forall|i: int|
        0 <= i < v.objects.len() ==> (#[trigger] v.objects[i]).tag == v.state
    &&& forall|i: int|
        0 <= i < v.objects.len() ==> match (#[trigger] v.objects[i]).parent {
            Some(p) => 0 <= p < i,
            None => true,
        }
    &&& v.cursor == cursor_for(v.state)
    &&& match v.state {
        GameState::Menu => {
            &&& v.cube is None
            &&& v.camera matches Some(c) && 0 <= c < v.objects.len() && v.objects[c].kind
                is UiCamera && (forall|i: int|
                0 <= i < v.objects.len() && i != c ==> !is_active_camera(
                    (#[trigger] v.objects[i]).kind,
                    GameState::Menu,
                ))
            &&& v.play_button matches Some(b) && 0 <= b < v.objects.len() && is_button(
                v.objects[b].kind,
                ButtonAction::PlayGame,
            )
            &&& v.dismiss_button matches Some(b) && 0 <= b < v.objects.len() && is_button(
                v.objects[b].kind,
                ButtonAction::Dismiss,
            )
            &&& forall|i: int|
                0 <= i < v.objects.len() ==> !((#[trigger] v.objects[i]).kind is Cube)
        }
        GameState::Playing => {
            &&& v.cube matches Some(cu) && 0 <= cu < v.objects.len() && is_cube_with_sane_speed(
                v.objects[cu].kind,
            ) && (forall|i: int|
                0 <= i < v.objects.len() && i != cu ==> !((#[trigger] v.objects[i]).kind
                    is Cube))
            &&& v.camera matches Some(c) && 0 <= c < v.objects.len() && v.objects[c].kind
                is OrbitCamera && (forall|i: int|
                0 <= i < v.objects.len() && i != c ==> !is_active_camera(
                    (#[trigger] v.objects[i]).kind,
                    GameState::Playing,
                ))
            &&& v.play_button is None
            &&& v.dismiss_button is None
        }
    }
}

/// The cube's position; meaningful while the cube handle is placed.
pub open spec fn cube_pos(v: WorldView) -> Vec3 {
    match v.cube {
        Some(cu) => v.objects[cu].pos,
        None => Vec3 { x: 0, y: 0, z: 0 },
    }
}

/// The cube's speed; meaningful while the cube handle is placed.
pub open spec fn cube_speed(v: WorldView) -> i64 {
    match v.cube {
        Some(cu) => match v.objects[cu].kind {
            ObjectKind::Cube { speed } => speed,
            _ => 0,
        },
        None => 0,
    }
}

/// The active camera's position; meaningful while the handle is placed.
pub open spec fn camera_pos(v: WorldView) -> Vec3 {
    match v.camera {
        Some(c) => v.objects[c].pos,
        None => Vec3 { x: 0, y: 0, z: 0 },
    }
}

/// The chase camera's aim point; meaningful while playing.
pub open spec fn camera_look(v: WorldView) -> Vec3 {
    match v.camera {
        Some(c) => match v.objects[c].kind {
            ObjectKind::OrbitCamera { look } => look,
            _ => Vec3 { x: 0, y: 0, z: 0 },
        },
        None => Vec3 { x: 0, y: 0, z: 0 },
    }
}

/// Every live object's position fits within `b` on each axis.
pub open spec fn scene_bounded(v: WorldView, b: int) -> bool {
    forall|i: int|
        0 <= i < v.objects.len() ==> in_bounds((#[trigger] v.objects[i]).pos, b)
}

/// The world as it stands when the game starts: in the menu, with the menu
/// scene already spawned and the cursor free.
pub open spec fn initial_world() -> WorldView {
    WorldView {
        state: GameState::Menu,
        pending: None,
        exit_requested: false,
        cursor: cursor_for(GameState::Menu),
        objects: menu_objects(),
        cube: None,
        camera: Some(MENU_CAMERA_SLOT as int),
        play_button: Some(MENU_PLAY_SLOT as int),
        dismiss_button: Some(MENU_DISMISS_SLOT as int),
    }
}

/// The exit hook: destroy every object tagged with the current screen and
/// clear the singleton handles.
pub open spec fn spec_exit(v: WorldView) -> WorldView {
    WorldView {
        objects: despawn_spec(v.objects, v.state),
        cube: None,
        camera: None,
        play_button: None,
        dismiss_button: None,
        ..v
    }
}

/// The enter hook: spawn the target screen's objects at the end of the arena,
/// place the singleton handles, and apply the cursor policy.
pub open spec fn spec_enter(v: WorldView, target: GameState) -> WorldView {
    let base = v.objects.len() as int;
    WorldView {
        state: target,
        cursor: cursor_for(target),
        objects: v.objects + scene_for(target),
        cube: match target {
            GameState::Playing => Some(base + PLAYING_CUBE_SLOT as int),
            GameState::Menu => None,
        },
        camera: match target {
            GameState::Playing => Some(base + PLAYING_CAMERA_SLOT as int),
            GameState::Menu => Some(base + MENU_CAMERA_SLOT as int),
        },
        play_button: match target {
            GameState::Playing => None,
            GameState::Menu => Some(base + MENU_PLAY_SLOT as int),
        },
        dismiss_button: match target {
            GameState::Playing => None,
            GameState::Menu => Some(base + MENU_DISMISS_SLOT as int),
        },
        ..v
    }
}

/// The per-frame scheduling point: if a transition is pending toward the
/// other screen, run the old screen's exit hook, change state, and run the
/// new screen's enter hook, in that order. A pending request is consumed
/// either way.
pub open spec fn spec_apply_pending(v: WorldView) -> WorldView {
    match v.pending {
        None => v,
        Some(target) => if target == v.state {
            WorldView { pending: None, ..v }
        } else {
            WorldView { pending: None, ..spec_enter(spec_exit(v), target) }
        },
    }
}

/// When every object carries `tag`, despawning `tag` empties the arena.
proof fn lemma_despawn_all(s: Seq<Object>, tag: GameState)
    requires
        forall|i: int| 0 <= i < s.len() ==> (#[trigger] s[i]).tag == tag,
    ensures
        despawn_spec(s, tag) == Seq::<Object>::empty(),
    decreases s.len(),
{
    if s.len() > 0 {
        assert forall|i: int| 0 <= i < s.drop_last().len() implies (#[trigger] s.drop_last()[i]).tag
            == tag by {
            assert(s.drop_last()[i] == s[i]);
        }
        lemma_despawn_all(s.drop_last(), tag);
        assert(s.last() == s[s.len() - 1]);
    }
}

/// Element facts about the play scene, in the shape `wf` asks for.
proof fn lemma_playing_scene_facts()
    ensures
        playing_objects().len() == 6,
        forall|i: int|
            0 <= i < 6 ==> (#[trigger] playing_objects()[i]).tag == GameState::Playing,
        forall|i: int|
            0 <= i < 6 ==> match (#[trigger] playing_objects()[i]).parent {
                Some(p) => 0 <= p < i,
                None => true,
            },
        is_cube_with_sane_speed(playing_objects()[PLAYING_CUBE_SLOT as int].kind),
        playing_objects()[PLAYING_CAMERA_SLOT as int].kind is OrbitCamera,
        forall|i: int|
            0 <= i < 6 && i != PLAYING_CUBE_SLOT ==> !((#[trigger] playing_objects()[i]).kind
                is Cube),
        forall|i: int|
            0 <= i < 6 && i != PLAYING_CAMERA_SLOT ==> !is_active_camera(
                (#[trigger] playing_objects()[i]).kind,
                GameState::Playing,
            ),
        forall|i: int| 0 <= i < 6 ==> in_bounds((#[trigger] playing_objects()[i]).pos, 5000),
{
    let s = playing_objects();
    assert(s[0].kind == ObjectKind::Cube { speed: INITIAL_SPEED });
    assert(s[1].kind == ObjectKind::Light);
    assert(s[2].kind == ObjectKind::Light);
    assert(s[3].kind == (ObjectKind::Ground { downward: false }));
    assert(s[4].kind == (ObjectKind::Ground { downward: true }));
    assert(s[5].kind == (ObjectKind::OrbitCamera { look: Vec3 { x: 0, y: 0, z: 0 } }));
}

/// Element facts about the menu scene, in the shape `wf` asks for.
proof fn lemma_menu_scene_facts()
    ensures
        menu_objects().len() == 7,
        forall|i: int| 0 <= i < 7 ==> (#[trigger] menu_objects()[i]).tag == GameState::Menu,
        forall|i: int|
            0 <= i < 7 ==> match (#[trigger] menu_objects()[i]).parent {
                Some(p) => 0 <= p < i,
                None => true,
            },
        menu_objects()[MENU_CAMERA_SLOT as int].kind is UiCamera,
        is_button(menu_objects()[MENU_PLAY_SLOT as int].kind, ButtonAction::PlayGame),
        is_button(menu_objects()[MENU_DISMISS_SLOT as int].kind, ButtonAction::Dismiss),
        forall|i: int| 0 <= i < 7 ==> !((#[trigger] menu_objects()[i]).kind is Cube),
        forall|i: int|
            0 <= i < 7 && i != MENU_CAMERA_SLOT ==> !is_active_camera(
                (#[trigger] menu_objects()[i]).kind,
                GameState::Menu,
            ),
        forall|i: int| 0 <= i < 7 ==> in_bounds((#[trigger] menu_objects()[i]).pos, 5000),
{
    let s = menu_objects();
    assert(s[0].kind == ObjectKind::UiCamera);
    assert(s[1].kind == ObjectKind::UiRoot);
    assert(s[2].kind == ObjectKind::Title);
    assert(s[3].kind == (ObjectKind::Button {
        action: ButtonAction::PlayGame,
        visual: ButtonVisual::Base,
    }));
    assert(s[4].kind == ObjectKind::Label);
    assert(s[5].kind == (ObjectKind::Button {
        action: ButtonAction::Dismiss,
        visual: ButtonVisual::Base,
    }));
    assert(s[6].kind == ObjectKind::Label);
}

/// Entering a screen over an emptied arena yields a well-formed world.
proof fn lemma_enter_wf(v: WorldView, target: GameState)
    requires
        v.objects.len() == 0,
    ensures
        wf(spec_enter(v, target)),
{
    let w = spec_enter(v, target);
    assert(w.objects =~= scene_for(target));
    match target {
        GameState::Playing => lemma_playing_scene_facts(),
        GameState::Menu => lemma_menu_scene_facts(),
    }
}

/// The scheduling point preserves well-formedness.
pub proof fn lemma_apply_pending_wf(v: WorldView)
    requires
        wf(v),
    ensures
        wf(spec_apply_pending(v)),
{
    match v.pending {
        None => {},
        Some(target) => {
            if target != v.state {
                lemma_despawn_all(v.objects, v.state);
                lemma_enter_wf(spec_exit(v), target);
            }
        },
    }
}

/// One unfolding step for the counting functions, on a prefix of `s`.
proof fn lemma_count_step(s: Seq<Object>, state: GameState, i: int)
    requires
        0 <= i < s.len(),
    ensures
        count_cubes(s.take(i + 1)) == count_cubes(s.take(i)) + if s[i].kind is Cube {
            1int
        } else {
            0int
        },
        count_active_cameras(s.take(i + 1), state) == count_active_cameras(s.take(i), state)
            + if is_active_camera(s[i].kind, state) {
            1int
        } else {
            0int
        },
{
    assert(s.take(i + 1).drop_last() =~= s.take(i));
    assert(s.take(i + 1).last() == s[i]);
}

/// After any enter hook completes, the spawned cohort holds exactly one
/// active camera for the new screen, and exactly one cube when the new
/// screen is the play screen (none for the menu).
pub proof fn lemma_enter_singletons(target: GameState)
    ensures
        count_active_cameras(scene_for(target), target) == 1,
        count_cubes(scene_for(target)) == match target {
            GameState::Playing => 1int,
            GameState::Menu => 0int,
        },
{
    let s = scene_for(target);
    match target {
        GameState::Playing => lemma_playing_scene_facts(),
        GameState::Menu => lemma_menu_scene_facts(),
    }
    assert(s.take(0) =~= Seq::<Object>::empty());
    lemma_count_step(s, target, 0);
    lemma_count_step(s, target, 1);
    lemma_count_step(s, target, 2);
    lemma_count_step(s, target, 3);
    lemma_count_step(s, target, 4);
    lemma_count_step(s, target, 5);
    if s.len() == 7 {
        lemma_count_step(s, target, 6);
    }
    assert(s.take(s.len() as int) =~= s);
}

/// After a transition's enter hook completes, the live arena itself holds
/// exactly one active camera for the new screen, and exactly one cube when
/// that screen is the play screen — none when it is the menu.
pub proof fn lemma_transition_singletons(v: WorldView, target: GameState)
    requires
        wf(v),
        v.pending == Some(target),
        target != v.state,
    ensures
        count_active_cameras(spec_apply_pending(v).objects, spec_apply_pending(v).state) == 1,
        count_cubes(spec_apply_pending(v).objects) == match target {
            GameState::Playing => 1int,
            GameState::Menu => 0int,
        },
{
    lemma_despawn_all(v.objects, v.state);
    let w = spec_apply_pending(v);
    assert(w.objects =~= scene_for(target));
    lemma_enter_singletons(target);
}

/// The cursor command for a screen, as a value the window layer can apply.
pub fn cursor_policy(target: GameState) -> (c: Cursor)
    ensures
        c == cursor_for(target),
{
    match target {
        GameState::Menu => Cursor { visible: true, locked: false },
        GameState::Playing => Cursor { visible: false, locked: true },
    }
}

impl World {
    /// Starts the game: the menu screen, its scene spawned, cursor free.
    pub fn new() -> (w: World)
        ensures
            w@ == initial_world(),
            wf(w@),
    {
        let mut scene = Scene::new();
        scene.spawn(
            Object {
                tag: GameState::Menu,
                kind: ObjectKind::UiCamera,
                parent: None,
                pos: Vec3::zero(),
            },
        );
        scene.spawn(
            Object { tag: GameState::Menu, kind: ObjectKind::UiRoot, parent: None, pos: Vec3::zero() },
        );
        scene.spawn(
            Object {
                tag: GameState::Menu,
                kind: ObjectKind::Title,
                parent: Some(1),
                pos: Vec3::zero(),
            },
        );
        scene.spawn(
            Object {
                tag: GameState::Menu,
                kind: ObjectKind::Button {
                    action: ButtonAction::PlayGame,
                    visual: ButtonVisual::Base,
                },
                parent: Some(1),
                pos: Vec3::zero(),
            },
        );
        scene.spawn(
            Object {
                tag: GameState::Menu,
                kind: ObjectKind::Label,
                parent: Some(3),
                pos: Vec3::zero(),
            },
        );
        scene.spawn(
            Object {
                tag: GameState::Menu,
                kind: ObjectKind::Button {
                    action: ButtonAction::Dismiss,
                    visual: ButtonVisual::Base,
                },
                parent: Some(1),
                pos: Vec3::zero(),
            },
        );
        scene.spawn(
            Object {
                tag: GameState::Menu,
                kind: ObjectKind::Label,
                parent: Some(5),
                pos: Vec3::zero(),
            },
        );
        let w = World {
            state: GameState::Menu,
            pending: None,
            exit_requested: false,
            cursor: cursor_policy(GameState::Menu),
            scene,
            cube: None,
            camera: Some(MENU_CAMERA_SLOT),
            play_button: Some(MENU_PLAY_SLOT),
            dismiss_button: Some(MENU_DISMISS_SLOT),
        };
        proof {
            assert(w@.objects =~= menu_objects());
            assert(w@ =~= initial_world());
            lemma_menu_scene_facts();
        }
        w
    }

    /// Whether every object's position is within the bound the frame
    /// functions accept. The unverified shell checks this before each frame
    /// and treats a violation as fatal.
    pub fn check_bounded(&self) -> (b: bool)
        ensures
            b == scene_bounded(self@, COORD_LIMIT as int),
    {
        let mut i: usize = 0;
        while i < self.scene.objects.len()
            invariant
                i <= self.scene.objects@.len(),
                forall|j: int|
                    0 <= j < i ==> in_bounds((#[trigger] self.scene.objects@[j]).pos, COORD_LIMIT as int),
            decreases self.scene.objects@.len() - i,
        {
            let p = self.scene.objects[i].pos;
            if p.x < -COORD_LIMIT || p.x > COORD_LIMIT || p.y < -COORD_LIMIT || p.y > COORD_LIMIT
                || p.z < -COORD_LIMIT || p.z > COORD_LIMIT {
                return false;
            }
            i = i + 1;
        }
        true
    }

    /// The per-frame scheduling point: consumes a pending request and, when
    /// it names the other screen, runs exit hook, state change and enter hook
    /// back to back.
    pub fn apply_pending(&mut self)
        requires
            wf(old(self)@),
        ensures
            final(self)@ == spec_apply_pending(old(self)@),
            wf(final(self)@),
    {
        let target = match self.pending {
            None => {
                return;
            },
            Some(t) => t,
        };
        self.pending = None;
        if target == self.state {
            proof {
                assert(self@ =~= spec_apply_pending(old(self)@));
            }
            return;
        }
        // Exit hook of the old screen: destroy its cohort, drop the handles.
        self.scene.despawn_tagged(self.state);
        self.cube = None;
        self.camera = None;
        self.play_button = None;
        self.dismiss_button = None;
        proof {
            lemma_despawn_all(old(self)@.objects, old(self)@.state);
        }
        // State change, then the enter hook of the new screen.
        self.state = target;
        self.cursor = cursor_policy(target);
        match target {
            GameState::Playing => {
                self.scene.spawn(
                    Object {
                        tag: GameState::Playing,
                        kind: ObjectKind::Cube { speed: INITIAL_SPEED },
                        parent: None,
                        pos: Vec3::zero(),
                    },
                );
                self.scene.spawn(
                    Object {
                        tag: GameState::Playing,
                        kind: ObjectKind::Light,
                        parent: Some(0),
                        pos: Vec3 { x: 2000, y: 4000, z: 2000 },
                    },
                );
                self.scene.spawn(
                    Object {
                        tag: GameState::Playing,
                        kind: ObjectKind::Light,
                        parent: Some(0),
                        pos: Vec3 { x: 2000, y: -4000, z: 2000 },
                    },
                );
                self.scene.spawn(
                    Object {
                        tag: GameState::Playing,
                        kind: ObjectKind::Ground { downward: false },
                        parent: None,
                        pos: Vec3::zero(),
                    },
                );
                self.scene.spawn(
                    Object {
                        tag: GameState::Playing,
                        kind: ObjectKind::Ground { downward: true },
                        parent: None,
                        pos: Vec3::zero(),
                    },
                );
                self.scene.spawn(
                    Object {
                        tag: GameState::Playing,
                        kind: ObjectKind::OrbitCamera { look: Vec3 { x: 0, y: 0, z: 0 } },
                        parent: None,
                        pos: Vec3 { x: -2000, y: 2500, z: 5000 },
                    },
                );
                self.cube = Some(PLAYING_CUBE_SLOT);
                self.camera = Some(PLAYING_CAMERA_SLOT);
            },
            GameState::Menu => {
                self.scene.spawn(
                    Object {
                        tag: GameState::Menu,
                        kind: ObjectKind::UiCamera,
                        parent: None,
                        pos: Vec3::zero(),
                    },
                );
                self.scene.spawn(
                    Object {
                        tag: GameState::Menu,
                        kind: ObjectKind::UiRoot,
                        parent: None,
                        pos: Vec3::zero(),
                    },
                );
                self.scene.spawn(
                    Object {
                        tag: GameState::Menu,
                        kind: ObjectKind::Title,
                        parent: Some(1),
                        pos: Vec3::zero(),
                    },
                );
                self.scene.spawn(
                    Object {
                        tag: GameState::Menu,
                        kind: ObjectKind::Button {
                            action: ButtonAction::PlayGame,
                            visual: ButtonVisual::Base,
                        },
                        parent: Some(1),
                        pos: Vec3::zero(),
                    },
                );
                self.scene.spawn(
                    Object {
                        tag: GameState::Menu,
                        kind: ObjectKind::Label,
                        parent: Some(3),
                        pos: Vec3::zero(),
                    },
                );
                self.scene.spawn(
                    Object {
                        tag: GameState::Menu,
                        kind: ObjectKind::Button {
                            action: ButtonAction::Dismiss,
                            visual: ButtonVisual::Base,
                        },
                        parent: Some(1),
                        pos: Vec3::zero(),
                    },
                );
                self.scene.spawn(
                    Object {
                        tag: GameState::Menu,
                        kind: ObjectKind::Label,
                        parent: Some(5),
                        pos: Vec3::zero(),
                    },
                );
                self.camera = Some(MENU_CAMERA_SLOT);
                self.play_button = Some(MENU_PLAY_SLOT);
                self.dismiss_button = Some(MENU_DISMISS_SLOT);
            },
        }
        proof {
            let prev = old(self)@;
            let entered = spec_enter(spec_exit(prev), target);
            assert(self@.objects =~= entered.objects);
            assert(self@ =~= spec_apply_pending(prev));
            lemma_apply_pending_wf(prev);
        }
    }
}

} // verus!
