use vstd::prelude::*;

use crate::geom::{centered_spec, in_range, overlaps_spec, Point, Rect, Rectangle, Vector};

verus! {

/// Width of the zone, centred on a building's rest position, in which the
/// building can be hit (five pixels).
pub const SPLASH_WIDTH: i64 = 500;

/// Height of that zone (thirty pixels).
pub const SPLASH_HEIGHT: i64 = 3000;

/// How far a building sinks in one frame of being hit (one and a half pixels).
pub const SQUASH: i64 = 15;

/// A building of the skyline.
///
/// `position` is where it is drawn; `start_position` is where it stood at the
/// start and never changes; `splash_area` is anchored there and never moves.
#[derive(Clone, Copy, PartialEq, Eq, Structural, Debug)]
pub struct Building {
    pub position: Vector,
    pub start_position: Vector,
    pub splash_area: Rectangle,
}

/// A building as mathematical values.
pub struct BuildingView {
    pub position: Point,
    pub start_position: Point,
    pub splash_area: Rect,
}

impl View for Building {
    type V = BuildingView;

    open spec fn view(&self) -> BuildingView {
        BuildingView {
            position: self.position@,
            start_position: self.start_position@,
            splash_area: self.splash_area@,
        }
    }
}

/// The zone in which a building standing at `p` can be hit.
pub open spec fn splash_spec(p: Point) -> Rect {
    centered_spec(p, SPLASH_WIDTH as int, SPLASH_HEIGHT as int)
}

/// A building as it stands before anything has hit it.
pub open spec fn fresh_building_spec(p: Point) -> BuildingView {
    BuildingView { position: p, start_position: p, splash_area: splash_spec(p) }
}

/// The building after one frame of an attack whose reach is `hit`: it sinks by
/// one squash where the reach overlaps its splash area, and stays put elsewhere.
pub open spec fn struck_spec(b: BuildingView, hit: Rect) -> BuildingView {
    if overlaps_spec(b.splash_area, hit) {
        BuildingView { position: Point { x: b.position.x, y: b.position.y + SQUASH }, ..b }
    } else {
        b
    }
}

impl Building {
    /// A building standing at `position`, not yet hit.
    pub fn new(position: Vector) -> (r: Building)
        requires
            in_range(position.x as int),
            in_range(position.y as int),
        ensures
            r@ == fresh_building_spec(position@),
    {
        Building {
            position,
            start_position: position,
            splash_area: Rectangle::with_center(Vector::new(SPLASH_WIDTH, SPLASH_HEIGHT), position),
        }
    }

    /// How far the building has sunk below where it started; the wobble it is
    /// drawn with is a function of this.
    pub fn displacement(&self) -> (r: i128)
        ensures
            r == self.position.y - self.start_position.y,
    {
        self.position.y as i128 - self.start_position.y as i128
    }

    /// Applies one frame of an attack whose reach is `hit`.
    pub fn strike(&mut self, hit: &Rectangle)
        requires
            in_range(old(self).position.y as int),
        ensures
            final(self)@ == struck_spec(old(self)@, hit@),
    {
        if self.splash_area.overlaps(hit) {
            self.position.y = self.position.y + SQUASH;
        }
    }
}

} // verus!
