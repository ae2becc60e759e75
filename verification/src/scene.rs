//! The tagged scene arena.
//!
//! Every renderable object a screen spawns is a record in one arena, carrying
//! the tag of the screen that owns it. A screen's exit hook destroys the
//! objects by tag, in bulk; children are spawned with their owner's tag, so a
//! bulk despawn takes them along.

use vstd::prelude::*;
use crate::input::ButtonAction;
use crate::math::Vec3;

verus! {

/// The two screens of the game. Exactly one is current at any time.
#[derive(Clone, Copy, PartialEq, Eq, Structural, Debug)]
pub enum GameState {
    Menu,
    Playing,
}

/// How a menu button is currently drawn.
#[derive(Clone, Copy, PartialEq, Eq, Structural, Debug)]
pub enum ButtonVisual {
    Base,
    Hovered,
}

/// What a scene object is. Meshes, materials and widget styling are the
/// renderer's business; the core keeps only what its controllers read.
#[derive(Clone, Copy, PartialEq, Eq, Structural, Debug)]
pub enum ObjectKind {
    /// The player-driven cube; `speed` is movement per frame in milliunits.
    Cube { speed: i64 },
    /// The 3D chase camera; `look` is the point it is aimed at.
    OrbitCamera { look: Vec3 },
    /// The 2D camera the menu is drawn with.
    UiCamera,
    /// A ground plane; `downward` distinguishes the ceiling-facing one.
    Ground { downward: bool },
    /// A point light, parented to the cube so it moves along.
    Light,
    /// The full-screen layout node the menu widgets hang from.
    UiRoot,
    /// The title text.
    Title,
    /// A clickable menu button.
    Button { action: ButtonAction, visual: ButtonVisual },
    /// The text label inside a button.
    Label,
}

/// One object in the arena. `parent` is the arena index of the object it is
/// attached to (`pos` is then relative to the parent), spawned earlier, with
/// the same tag.
#[derive(Clone, Copy, PartialEq, Eq, Debug)]
pub struct Object {
    pub tag: GameState,
    pub kind: ObjectKind,
    pub parent: Option<usize>,
    pub pos: Vec3,
}

/// The arena of live scene objects.
#[derive(Debug)]
pub struct Scene {
    pub objects: Vec<Object>,
}

impl View for Scene {
    type V = Seq<Object>;

    open spec fn view(&self) -> Seq<Object> {
        self.objects@
    }
}

/// What a bulk despawn leaves behind: the objects whose tag differs from
/// `tag`, in their original order.
pub open spec fn despawn_spec(s: Seq<Object>, tag: GameState) -> Seq<Object>
    decreases s.len(),
{
    if s.len() == 0 {
        Seq::empty()
    } else {
        let rest = despawn_spec(s.drop_last(), tag);
        if s.last().tag != tag {
            rest.push(s.last())
        } else {
            rest
        }
    }
}

/// The subsequence of `s` carrying exactly `tag`, in order.
pub open spec fn tagged(s: Seq<Object>, tag: GameState) -> Seq<Object>
    decreases s.len(),
{
    if s.len() == 0 {
        Seq::empty()
    } else {
        let rest = tagged(s.drop_last(), tag);
        if s.last().tag == tag {
            rest.push(s.last())
        } else {
            rest
        }
    }
}

/// How many objects of `s` are the cube.
pub open spec fn count_cubes(s: Seq<Object>) -> int
    decreases s.len(),
{
    if s.len() == 0 {
        0
    } else {
        count_cubes(s.drop_last()) + if s.last().kind is Cube {
            1int
        } else {
            0int
        }
    }
}

/// Whether `k` is the camera that renders screen `state`.
pub open spec fn is_active_camera(k: ObjectKind, state: GameState) -> bool {
    match state {
        GameState::Menu => k is UiCamera,
        GameState::Playing => k is OrbitCamera,
    }
}

/// How many objects of `s` are the active camera for `state`.
pub open spec fn count_active_cameras(s: Seq<Object>, state: GameState) -> int
    decreases s.len(),
{
    if s.len() == 0 {
        0
    } else {
        count_active_cameras(s.drop_last(), state) + if is_active_camera(s.last().kind, state) {
            1int
        } else {
            0int
        }
    }
}

impl Scene {
    /// An empty arena.
    pub fn new() -> (s: Scene)
        ensures
            s@ == Seq::<Object>::empty(),
    {
        Scene { objects: Vec::new() }
    }

    /// Adds one object at the end of the arena.
    pub fn spawn(&mut self, obj: Object)
        ensures
            final(self)@ == old(self)@.push(obj),
    {
        self.objects.push(obj);
    }

    /// Destroys every object tagged `tag` and nothing else, keeping the
    /// survivors in order.
    pub fn despawn_tagged(&mut self, tag: GameState)
        ensures
            final(self)@ == despawn_spec(old(self)@, tag),
    {
        let ghost orig: Seq<Object> = self@;
        let mut kept: Vec<Object> = Vec::new();
        let mut i: usize = 0;
        while i < self.objects.len()
            invariant
                i <= self.objects.len(),
                self.objects@ == orig,
                kept@ == despawn_spec(orig.take(i as int), tag),
            decreases self.objects.len() - i,
        {
            let obj = self.objects[i];
            proof {
                assert(orig.take(i + 1).drop_last() =~= orig.take(i as int));
                assert(orig.take(i + 1).last() == orig[i as int]);
            }
            if obj.tag != tag {
                kept.push(obj);
            }
            i = i + 1;
        }
        proof {
            assert(orig.take(orig.len() as int) =~= orig);
        }
        self.objects = kept;
    }
}


/// A bulk despawn is exhaustive and exclusive: no object tagged `tag`
/// survives, and for every other tag the tagged subsequence — each object,
/// in order — is exactly what it was.
pub proof fn lemma_despawn_exhaustive_exclusive(s: Seq<Object>, tag: GameState)
    ensures
        tagged(despawn_spec(s, tag), tag) == Seq::<Object>::empty(),
        forall|other: GameState|
            other != tag ==> tagged(despawn_spec(s, tag), other) == tagged(s, other),
    decreases s.len(),
{
    if s.len() == 0 {
    } else {
        lemma_despawn_exhaustive_exclusive(s.drop_last(), tag);
        let rest = despawn_spec(s.drop_last(), tag);
        if s.last().tag != tag {
            assert(rest.push(s.last()).drop_last() =~= rest);
            assert(rest.push(s.last()).last() == s.last());
        }
        assert forall|other: GameState| other != tag implies tagged(
            despawn_spec(s, tag),
            other,
        ) == tagged(s, other) by {
            if s.last().tag != tag {
                let d = rest.push(s.last());
                assert(despawn_spec(s, tag) == d);
                if s.last().tag == other {
                    assert(tagged(d, other) == tagged(rest, other).push(s.last()));
                    assert(tagged(s, other) == tagged(s.drop_last(), other).push(s.last()));
                    assert(tagged(rest, other) == tagged(s.drop_last(), other));
                } else {
                    assert(tagged(d, other) == tagged(rest, other));
                    assert(tagged(s, other) == tagged(s.drop_last(), other));
                }
            } else {
                assert(despawn_spec(s, tag) == rest);
                assert(tagged(s, other) == tagged(s.drop_last(), other));
                assert(tagged(rest, other) == tagged(s.drop_last(), other));
            }
        }
    }
}

} // verus!
