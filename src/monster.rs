use vstd::prelude::*;

use crate::geom::{in_range, Point, Vector};

verus! {

/// Horizontal distance, either side of the monster, within which the pointer
/// asks for no movement (ten pixels).
pub const DEAD_ZONE: i64 = 100;

/// Horizontal displacement of one frame of walking (two and a half pixels).
pub const STEP: i64 = 25;

/// Facing of a monster drawn as its sprites are: looking left.
pub const FACING_LEFT: i32 = 1;

/// Facing of a monster drawn mirrored: looking right.
pub const FACING_RIGHT: i32 = -1;

/// What the monster is doing, which decides the animation shown.
#[derive(Clone, Copy, PartialEq, Eq, Structural, Debug)]
pub enum MonsterState {
    Walking,
    Idle,
    Attack,
}

/// The monster as the game rules see it.
///
/// `facing` is the horizontal scale its sprite is drawn with: `1` as drawn,
/// `-1` mirrored.
#[derive(Clone, Copy, PartialEq, Eq, Structural, Debug)]
pub struct Monster {
    pub state: MonsterState,
    pub position: Vector,
    pub facing: i32,
}

/// The monster as mathematical values.
pub struct MonsterView {
    pub state: MonsterState,
    pub position: Point,
    pub facing: int,
}

impl View for Monster {
    type V = MonsterView;

    open spec fn view(&self) -> MonsterView {
        MonsterView { state: self.state, position: self.position@, facing: self.facing as int }
    }
}

/// Which way the pointer at `pointer_x` asks a monster at `monster_x` to go:
/// `1` right, `-1` left, `0` when it lies within the dead zone.
pub open spec fn mouse_direction_spec(monster_x: int, pointer_x: int) -> int {
    if pointer_x > monster_x + DEAD_ZONE {
        1
    } else if pointer_x < monster_x - DEAD_ZONE {
        -1
    } else {
        0
    }
}

/// One frame of walking right: one step right, mirrored, walking.
pub open spec fn walk_right_spec(m: MonsterView) -> MonsterView {
    MonsterView {
        state: MonsterState::Walking,
        position: Point { x: m.position.x + STEP, y: m.position.y },
        facing: FACING_RIGHT as int,
    }
}

/// One frame of walking left: one step left, drawn as is, walking.
pub open spec fn walk_left_spec(m: MonsterView) -> MonsterView {
    MonsterView {
        state: MonsterState::Walking,
        position: Point { x: m.position.x - STEP, y: m.position.y },
        facing: FACING_LEFT as int,
    }
}

/// The monster with another state, and nothing else changed.
pub open spec fn with_state_spec(m: MonsterView, s: MonsterState) -> MonsterView {
    MonsterView { state: s, ..m }
}

impl Monster {
    /// A monster standing idle at `position`, drawn as its sprites are.
    pub fn new(position: Vector) -> (r: Monster)
        ensures
            r@ == (MonsterView { state: MonsterState::Idle, position: position@, facing: 1 }),
    {
        Monster { state: MonsterState::Idle, position, facing: FACING_LEFT }
    }

    /// Which way the pointer at `pos` asks the monster to go.
    pub fn mouse_direction(&self, pos: Vector) -> (r: i32)
        ensures
            r as int == mouse_direction_spec(self.position.x as int, pos.x as int),
    {
        let x = self.position.x as i128;
        let dead_zone = DEAD_ZONE as i128;
        if pos.x as i128 > x + dead_zone {
            return 1;
        }
        if (pos.x as i128) < x - dead_zone {
            return -1;
        }
        0
    }

    /// Takes one step right.
    pub fn walk_right(&mut self)
        requires
            in_range(old(self).position.x as int),
        ensures
            final(self)@ == walk_right_spec(old(self)@),
    {
        self.position.x = self.position.x + STEP;
        self.facing = FACING_RIGHT;
        self.state = MonsterState::Walking;
    }

    /// Takes one step left.
    pub fn walk_left(&mut self)
        requires
            in_range(old(self).position.x as int),
        ensures
            final(self)@ == walk_left_spec(old(self)@),
    {
        self.position.x = self.position.x - STEP;
        self.facing = FACING_LEFT;
        self.state = MonsterState::Walking;
    }
}

} // verus!
