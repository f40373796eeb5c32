use vstd::prelude::*;

use crate::building::SQUASH;
use crate::geom::overlaps_spec;
use crate::monster::{MonsterState, FACING_LEFT, FACING_RIGHT, STEP};
use crate::world::{attacks_spec, frames_spec, reach_spec, step_spec, Input, WorldView};

verus! {

/// Whether `i` holds no button and no key.
pub open spec fn is_rest_spec(i: Input) -> bool {
    !i.mouse_down && !i.right && !i.left && !i.space
}

/// While a mouse button is held the keyboard is ignored: the frame comes out as
/// it would with no key held at all.
pub proof fn lemma_mouse_before_keys(w: WorldView, i: Input)
    requires
        i.mouse_down,
    ensures
        step_spec(w, i) == step_spec(w, Input { right: false, left: false, space: false, ..i }),
{
}

/// A frame in which the monster does not walk leaves its facing as it was.
pub proof fn lemma_facing_kept(w: WorldView, i: Input)
    ensures
        step_spec(w, i).monster.state != MonsterState::Walking ==> step_spec(w, i).monster.facing
            == w.monster.facing,
{
}

/// The facing stays a sign: a monster drawn either as is or mirrored is still
/// drawn one of those two ways after any frame.
pub proof fn lemma_facing_is_sign(w: WorldView, i: Input)
    requires
        w.monster.facing == FACING_LEFT || w.monster.facing == FACING_RIGHT,
    ensures
        step_spec(w, i).monster.facing == FACING_LEFT || step_spec(w, i).monster.facing
            == FACING_RIGHT,
{
}

/// After a frame of the Right key, or of the Left key, the monster keeps the
/// facing of that walk once all input is released: mirrored after Right, as
/// drawn after Left, and idle.
pub proof fn lemma_rest_keeps_walk_facing(w: WorldView, walk: Input, rest: Input)
    requires
        !walk.mouse_down,
        walk.right || walk.left,
        is_rest_spec(rest),
    ensures
        step_spec(step_spec(w, walk), rest).monster.state == MonsterState::Idle,
        walk.right ==> step_spec(step_spec(w, walk), rest).monster.facing == FACING_RIGHT as int,
        !walk.right ==> step_spec(step_spec(w, walk), rest).monster.facing == FACING_LEFT as int,
{
}

/// Walking is never clamped: after `n` frames of the Right key the monster
/// stands exactly `n` steps further right, and nothing else has moved.
pub proof fn lemma_walk_unbounded(w: WorldView, i: Input, n: nat)
    requires
        !i.mouse_down,
        i.right,
    ensures
        frames_spec(w, i, n).monster.position.x == w.monster.position.x + STEP * n,
        frames_spec(w, i, n).monster.position.y == w.monster.position.y,
        frames_spec(w, i, n).buildings == w.buildings,
    decreases n,
{
    if n > 0 {
        lemma_walk_unbounded(w, i, (n - 1) as nat);
    }
}

/// Squashing accumulates without bound: after `n` frames of attack, each
/// building whose splash area the monster's reach overlaps has sunk by exactly
/// `n` squashes, and every other building has not moved. The monster stays
/// where it was, and no building's rest position or splash area changes.
pub proof fn lemma_squash_accumulates(w: WorldView, i: Input, n: nat)
    requires
        attacks_spec(w, i),
    ensures
        frames_spec(w, i, n).monster.position == w.monster.position,
        frames_spec(w, i, n).buildings.len() == w.buildings.len(),
        forall|k: int|
            0 <= k < w.buildings.len() ==> {
                let b = #[trigger] frames_spec(w, i, n).buildings[k];
                let a = w.buildings[k];
                &&& b.start_position == a.start_position
                &&& b.splash_area == a.splash_area
                &&& b.position.x == a.position.x
                &&& b.position.y == a.position.y + if overlaps_spec(
                    a.splash_area,
                    reach_spec(w.monster.position),
                ) {
                    SQUASH * n
                } else {
                    0
                }
            },
    decreases n,
{
    if n > 0 {
        let m = (n - 1) as nat;
        lemma_squash_accumulates(w, i, m);
        let prev = frames_spec(w, i, m);
        assert(attacks_spec(prev, i));
        assert forall|k: int| 0 <= k < w.buildings.len() implies {
            let b = #[trigger] frames_spec(w, i, n).buildings[k];
            let a = w.buildings[k];
            &&& b.start_position == a.start_position
            &&& b.splash_area == a.splash_area
            &&& b.position.x == a.position.x
            &&& b.position.y == a.position.y + if overlaps_spec(
                a.splash_area,
                reach_spec(w.monster.position),
            ) {
                SQUASH * n
            } else {
                0
            }
        } by {
            assert(prev.buildings[k].splash_area == w.buildings[k].splash_area);
        }
    }
}

} // verus!
