use vstd::prelude::*;

verus! {

/// How close, in world units, the player must be to an object to act on it.
/// An object at exactly this distance is out of reach.
pub const MAX_DISTANCE: u32 = 60;

/// Magnification from the frame in which selection rectangles are authored
/// to world units.
pub const SELECT_SCALE: i64 = 8;

/// A position in the plane, in whole world units.
#[derive(Clone, Copy, Debug, PartialEq, Eq, Structural)]
pub struct Point {
    pub x: i32,
    pub y: i32,
}

/// An axis-aligned rectangle given by two corners, as offsets from the
/// position of the entity that carries it.
#[derive(Clone, Copy, Debug, PartialEq, Eq, Structural)]
pub struct Rect {
    pub min: Point,
    pub max: Point,
}

impl Point {
    pub fn new(x: i32, y: i32) -> (p: Point)
        ensures
            p.x == x,
            p.y == y,
    {
        Point { x, y }
    }

    /// The square of the Euclidean distance between two points.
    pub open spec fn distance_squared(self, other: Point) -> int {
        (self.x - other.x) * (self.x - other.x) + (self.y - other.y) * (self.y - other.y)
    }

    /// Whether `other` lies closer to `self` than `MAX_DISTANCE`.
    /// Distances are compared by their squares, which is exact.
    pub open spec fn within_reach(self, other: Point) -> bool {
        self.distance_squared(other) < MAX_DISTANCE * MAX_DISTANCE
    }

    /// Computes the square of the Euclidean distance to `other`.
    pub fn squared_distance_to(&self, other: &Point) -> (d: u128)
        ensures
            d == self.distance_squared(*other),
    {
        let dx: i128 = self.x as i128 - other.x as i128;
        let dy: i128 = self.y as i128 - other.y as i128;
        assert(0 <= dx * dx <= 0x1_0000_0000 * 0x1_0000_0000) by (nonlinear_arith)
            requires
                -0x1_0000_0000 <= dx <= 0x1_0000_0000,
        ;
        assert(0 <= dy * dy <= 0x1_0000_0000 * 0x1_0000_0000) by (nonlinear_arith)
            requires
                -0x1_0000_0000 <= dy <= 0x1_0000_0000,
        ;
        (dx * dx + dy * dy) as u128
    }
}

impl Rect {
    pub fn new(min: Point, max: Point) -> (r: Rect)
        ensures
            r.min == min,
            r.max == max,
    {
        Rect { min, max }
    }

    /// The extent of the rectangle along x.
    pub open spec fn spec_width(self) -> int {
        self.max.x - self.min.x
    }

    /// The extent of the rectangle along y.
    pub open spec fn spec_height(self) -> int {
        self.max.y - self.min.y
    }

    /// Whether the rectangle has an interior: both extents are positive.
    pub open spec fn has_interior(self) -> bool {
        self.min.x < self.max.x && self.min.y < self.max.y
    }

    /// Whether a pointer at `offset` from the rectangle's origin is inside the
    /// magnified rectangle. The edges themselves are outside.
    pub open spec fn contains_scaled(self, x: int, y: int) -> bool {
        &&& self.min.x * SELECT_SCALE < x < self.max.x * SELECT_SCALE
        &&& self.min.y * SELECT_SCALE < y < self.max.y * SELECT_SCALE
    }

    pub fn width(&self) -> (w: i64)
        ensures
            w == self.spec_width(),
    {
        self.max.x as i64 - self.min.x as i64
    }

    pub fn height(&self) -> (h: i64)
        ensures
            h == self.spec_height(),
    {
        self.max.y as i64 - self.min.y as i64
    }
}

/// Whether a pointer at `world` hovers a rectangle carried by an entity at
/// `origin`.
pub open spec fn pointer_hits(world: Point, origin: Point, rect: Rect) -> bool {
    rect.contains_scaled(world.x - origin.x, world.y - origin.y)
}

/// Decides `pointer_hits`.
pub fn hit_test(world: &Point, origin: &Point, rect: &Rect) -> (hit: bool)
    ensures
        hit == pointer_hits(*world, *origin, *rect),
{
    let x: i64 = world.x as i64 - origin.x as i64;
    let y: i64 = world.y as i64 - origin.y as i64;
    x > rect.min.x as i64 * SELECT_SCALE && x < rect.max.x as i64 * SELECT_SCALE
        && y > rect.min.y as i64 * SELECT_SCALE && y < rect.max.y as i64 * SELECT_SCALE
}

} // verus!
