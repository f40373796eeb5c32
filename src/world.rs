use vstd::prelude::*;

use crate::building::{fresh_building_spec, struck_spec, Building, BuildingView};
use crate::geom::{centered_spec, in_range, Point, Rect, Rectangle, Vector, COORD_LIMIT};
use crate::monster::{
    mouse_direction_spec, walk_left_spec, walk_right_spec, with_state_spec, Monster,
    MonsterState, MonsterView,
};

verus! {

/// Width of the monster's reach when it attacks: one sprite tile (249 pixels).
pub const REACH_WIDTH: i64 = 2490;

/// Height of that reach (200 pixels).
pub const REACH_HEIGHT: i64 = 2000;

/// What the player is doing during one frame.
#[derive(Clone, Copy, PartialEq, Eq, Structural, Debug)]
pub struct Input {
    /// A mouse button is held.
    pub mouse_down: bool,
    /// Where the pointer is.
    pub pointer: Vector,
    /// The Right key is held.
    pub right: bool,
    /// The Left key is held.
    pub left: bool,
    /// The Space key is held.
    pub space: bool,
}

/// The state of a game: the monster and the skyline it walks along.
pub struct World {
    pub monster: Monster,
    pub buildings: Vec<Building>,
}

/// A game as mathematical values.
pub struct WorldView {
    pub monster: MonsterView,
    pub buildings: Seq<BuildingView>,
}

impl View for World {
    type V = WorldView;

    open spec fn view(&self) -> WorldView {
        WorldView {
            monster: self.monster@,
            buildings: self.buildings@.map_values(|b: Building| b@),
        }
    }
}

/// What a monster standing at `p` reaches when it attacks: a box one tile in
/// size centred on it.
pub open spec fn reach_spec(p: Point) -> Rect {
    centered_spec(p, REACH_WIDTH as int, REACH_HEIGHT as int)
}

/// One frame of attack: the monster shows its attack, and every building
/// whose splash area its reach overlaps sinks by one squash.
pub open spec fn attack_spec(w: WorldView) -> WorldView {
    WorldView {
        monster: with_state_spec(w.monster, MonsterState::Attack),
        buildings: w.buildings.map_values(
            |b: BuildingView| struck_spec(b, reach_spec(w.monster.position)),
        ),
    }
}

/// Whether `i` makes the monster attack in a game in state `w`: a held button
/// with the pointer within the dead zone, or else Space with no arrow key.
pub open spec fn attacks_spec(w: WorldView, i: Input) -> bool {
    if i.mouse_down {
        mouse_direction_spec(w.monster.position.x, i.pointer.x as int) == 0
    } else {
        !i.right && !i.left && i.space
    }
}

/// The game after one frame of input `i`.
///
/// A held mouse button decides alone: the monster walks towards the pointer,
/// or attacks where the pointer lies within the dead zone. Without it the
/// Right key, then the Left key, then Space decide, in that order; with none of
/// them the monster stands idle. Only walking changes the facing.
pub open spec fn step_spec(w: WorldView, i: Input) -> WorldView {
    if i.mouse_down {
        let d = mouse_direction_spec(w.monster.position.x, i.pointer.x as int);
        if d == 1 {
            WorldView { monster: walk_right_spec(w.monster), ..w }
        } else if d == -1 {
            WorldView { monster: walk_left_spec(w.monster), ..w }
        } else {
            attack_spec(w)
        }
    } else if i.right {
        WorldView { monster: walk_right_spec(w.monster), ..w }
    } else if i.left {
        WorldView { monster: walk_left_spec(w.monster), ..w }
    } else if i.space {
        attack_spec(w)
    } else {
        WorldView { monster: with_state_spec(w.monster, MonsterState::Idle), ..w }
    }
}

/// The game after `n` frames of the same input.
pub open spec fn frames_spec(w: WorldView, i: Input, n: nat) -> WorldView
    decreases n,
{
    if n == 0 {
        w
    } else {
        step_spec(frames_spec(w, i, (n - 1) as nat), i)
    }
}

/// Whether the coordinates that a frame moves lie in the range the game keeps
/// them in, so that one more frame can be computed.
pub open spec fn fits_spec(w: WorldView) -> bool {
    &&& in_range(w.monster.position.x)
    &&& in_range(w.monster.position.y)
    &&& forall|k: int| 0 <= k < w.buildings.len() ==> in_range(#[trigger] w.buildings[k].position.y)
}

/// Where the skyline's buildings stand when a game starts.
pub open spec fn sites_spec() -> Seq<Point> {
    seq![
        Point { x: 2000, y: 4500 },
        Point { x: 2800, y: 5250 },
        Point { x: 3600, y: 5000 },
        Point { x: 4400, y: 5100 },
        Point { x: 5200, y: 5500 },
        Point { x: 6000, y: 5700 },
        Point { x: 6800, y: 5500 },
        Point { x: 7600, y: 5600 },
        Point { x: 8400, y: 5000 },
    ]
}

/// A game as it starts: the monster idle at (50, 520) pixels, drawn as its
/// sprites are, and the skyline untouched.
pub open spec fn initial_spec() -> WorldView {
    WorldView {
        monster: MonsterView {
            state: MonsterState::Idle,
            position: Point { x: 500, y: 5200 },
            facing: 1,
        },
        buildings: sites_spec().map_values(|p: Point| fresh_building_spec(p)),
    }
}

impl World {
    /// A game as it starts.
    pub fn new() -> (r: World)
        ensures
            r@ == initial_spec(),
    {
        let sites: [(i64, i64); 9] = [
            (2000, 4500),
            (2800, 5250),
            (3600, 5000),
            (4400, 5100),
            (5200, 5500),
            (6000, 5700),
            (6800, 5500),
            (7600, 5600),
            (8400, 5000),
        ];
        let ghost goal = initial_spec().buildings;
        let mut buildings: Vec<Building> = Vec::new();
        let mut k: usize = 0;
        while k < 9
            invariant
                k <= 9,
                sites@.len() == 9,
                forall|j: int|
                    0 <= j < 9 ==> (Point { x: sites@[j].0 as int, y: sites@[j].1 as int })
                        == sites_spec()[j],
                goal == sites_spec().map_values(|p: Point| fresh_building_spec(p)),
                buildings@.len() == k,
                forall|j: int| 0 <= j < k ==> #[trigger] buildings@[j]@ == goal[j],
            decreases 9 - k,
        {
            let (x, y) = sites[k];
            buildings.push(Building::new(Vector::new(x, y)));
            k = k + 1;
        }
        let r = World { monster: Monster::new(Vector::new(500, 5200)), buildings };
        assert(r@.buildings =~= goal);
        r
    }

    /// Whether one more frame can be computed from this state.
    pub fn fits(&self) -> (r: bool)
        ensures
            r == fits_spec(self@),
    {
        if !(-COORD_LIMIT <= self.monster.position.x
            && self.monster.position.x <= COORD_LIMIT
            && -COORD_LIMIT <= self.monster.position.y
            && self.monster.position.y <= COORD_LIMIT) {
            return false;
        }
        let mut k: usize = 0;
        while k < self.buildings.len()
            invariant
                k <= self.buildings@.len(),
                forall|j: int| 0 <= j < k ==> in_range(#[trigger] self.buildings@[j].position.y as int),
            decreases self.buildings@.len() - k,
        {
            let y = self.buildings[k].position.y;
            if !(-COORD_LIMIT <= y && y <= COORD_LIMIT) {
                assert(self@.buildings[k as int].position.y == y);
                return false;
            }
            k = k + 1;
        }
        assert forall|j: int| 0 <= j < self@.buildings.len() implies in_range(
            #[trigger] self@.buildings[j].position.y,
        ) by {
            assert(self@.buildings[j] == self.buildings@[j]@);
        }
        true
    }

    /// One frame of attack.
    fn attack(&mut self)
        requires
            fits_spec(old(self)@),
        ensures
            final(self)@ == attack_spec(old(self)@),
    {
        let reach = Rectangle::with_center(
            Vector::new(REACH_WIDTH, REACH_HEIGHT),
            self.monster.position,
        );
        let ghost before = old(self)@;
        let mut k: usize = 0;
        while k < self.buildings.len()
            invariant
                self.monster == old(self).monster,
                reach@ == reach_spec(before.monster.position),
                before == old(self)@,
                fits_spec(before),
                k <= self.buildings@.len(),
                self.buildings@.len() == old(self).buildings@.len(),
                forall|j: int| 0 <= j < k ==> #[trigger] self.buildings@[j]@ == struck_spec(
                    before.buildings[j],
                    reach@,
                ),
                forall|j: int|
                    k <= j < self.buildings@.len() ==> #[trigger] self.buildings@[j] == old(
                        self,
                    ).buildings@[j],
            decreases self.buildings@.len() - k,
        {
            let mut b = self.buildings[k];
            assert(before.buildings[k as int] == b@);
            assert(in_range(before.buildings[k as int].position.y));
            b.strike(&reach);
            self.buildings.set(k, b);
            k = k + 1;
        }
        self.monster.state = MonsterState::Attack;
        assert(self@.buildings =~= attack_spec(before).buildings);
    }

    /// Plays one frame of input `input`.
    pub fn update(&mut self, input: &Input)
        requires
            fits_spec(old(self)@),
        ensures
            final(self)@ == step_spec(old(self)@, *input),
    {
        if input.mouse_down {
            let direction = self.monster.mouse_direction(input.pointer);
            if direction == 1 {
                self.monster.walk_right();
            } else if direction == -1 {
                self.monster.walk_left();
            } else {
                self.attack();
            }
        } else if input.right {
            self.monster.walk_right();
        } else if input.left {
            self.monster.walk_left();
        } else if input.space {
            self.attack();
        } else {
            self.monster.state = MonsterState::Idle;
        }
    }
}

} // verus!
