use vstd::prelude::*;

verus! {

/// Tenths of a pixel in one pixel.
pub const PIXEL: i64 = 10;

/// Coordinates are kept within this magnitude, so that a few frames of
/// movement, or the corner of a box centred on a point, still fit in an `i64`.
pub const COORD_LIMIT: i64 = 4_000_000_000_000_000_000;

/// Whether a coordinate lies within the range the game keeps them in.
pub open spec fn in_range(v: int) -> bool {
    -COORD_LIMIT <= v <= COORD_LIMIT
}

/// A point of the plane, as mathematical integers.
pub struct Point {
    pub x: int,
    pub y: int,
}

/// An axis-aligned rectangle: its top-left corner and its size.
pub struct Rect {
    pub x: int,
    pub y: int,
    pub w: int,
    pub h: int,
}

/// Whether two rectangles share some area; touching edges do not count.
pub open spec fn overlaps_spec(a: Rect, b: Rect) -> bool {
    &&& a.x < b.x + b.w
    &&& a.x + a.w > b.x
    &&& a.y < b.y + b.h
    &&& a.y + a.h > b.y
}

/// The rectangle of the given size whose centre is `c`.
pub open spec fn centered_spec(c: Point, w: int, h: int) -> Rect {
    Rect { x: c.x - w / 2, y: c.y - h / 2, w, h }
}

/// A position or a displacement.
#[derive(Clone, Copy, PartialEq, Eq, Structural, Debug)]
pub struct Vector {
    pub x: i64,
    pub y: i64,
}

impl View for Vector {
    type V = Point;

    open spec fn view(&self) -> Point {
        Point { x: self.x as int, y: self.y as int }
    }
}

impl Vector {
    pub fn new(x: i64, y: i64) -> (r: Vector)
        ensures
            r.x == x,
            r.y == y,
    {
        Vector { x, y }
    }
}

/// An axis-aligned rectangle, given by its top-left corner and its size.
#[derive(Clone, Copy, PartialEq, Eq, Structural, Debug)]
pub struct Rectangle {
    pub pos: Vector,
    pub size: Vector,
}

impl View for Rectangle {
    type V = Rect;

    open spec fn view(&self) -> Rect {
        Rect {
            x: self.pos.x as int,
            y: self.pos.y as int,
            w: self.size.x as int,
            h: self.size.y as int,
        }
    }
}

impl Rectangle {
    pub fn new(pos: Vector, size: Vector) -> (r: Rectangle)
        ensures
            r.pos == pos,
            r.size == size,
    {
        Rectangle { pos, size }
    }

    /// The rectangle of the given size centred on `center`.
    pub fn with_center(size: Vector, center: Vector) -> (r: Rectangle)
        requires
            0 <= size.x,
            0 <= size.y,
            in_range(center.x as int),
            in_range(center.y as int),
        ensures
            r@ == centered_spec(center@, size.x as int, size.y as int),
    {
        Rectangle {
            pos: Vector { x: center.x - size.x / 2, y: center.y - size.y / 2 },
            size,
        }
    }

    /// Whether the two rectangles share some area.
    pub fn overlaps(&self, other: &Rectangle) -> (r: bool)
        ensures
            r == overlaps_spec(self@, other@),
    {
        let (ax, ay, aw, ah) = (
            self.pos.x as i128,
            self.pos.y as i128,
            self.size.x as i128,
            self.size.y as i128,
        );
        let (bx, by, bw, bh) = (
            other.pos.x as i128,
            other.pos.y as i128,
            other.size.x as i128,
            other.size.y as i128,
        );
        ax < bx + bw && ax + aw > bx && ay < by + bh && ay + ah > by
    }
}

} // verus!
