//! Coordinates, sizes and the four cardinal directions.

use vstd::prelude::*;

verus! {

/// A signed grid coordinate. `y` grows downwards.
#[derive(Clone, Copy, Debug, PartialEq, Eq, Structural)]
pub struct Coord {
    pub x: i32,
    pub y: i32,
}

/// The dimensions of a grid.
#[derive(Clone, Copy, Debug, PartialEq, Eq, Structural)]
pub struct Size {
    pub width: u32,
    pub height: u32,
}

/// The largest width or height a [`Size`] may have. It leaves room for a
/// step of two cells beyond any cell of the map to stay a coordinate.
pub const MAX_DIMENSION: u32 = 0x4000_0000;

/// The largest number of cells a grid may have.
pub const MAX_CELLS: u32 = 0xffff_ffff;

#[derive(Clone, Copy, Debug, PartialEq, Eq, Structural)]
pub enum CardinalDirection {
    North,
    East,
    South,
    West,
}

impl Coord {
    pub fn new(x: i32, y: i32) -> (c: Coord)
        ensures
            c.x == x,
            c.y == y,
    {
        Coord { x, y }
    }
}

impl Size {
    /// A size is valid when neither dimension exceeds [`MAX_DIMENSION`] and
    /// the cell count fits 32 bits.
    pub open spec fn wf(self) -> bool {
        &&& self.width <= MAX_DIMENSION
        &&& self.height <= MAX_DIMENSION
        &&& self.width * self.height <= MAX_CELLS
    }

    pub open spec fn count(self) -> nat {
        (self.width * self.height) as nat
    }

    pub open spec fn contains(self, c: Coord) -> bool {
        0 <= c.x < self.width && 0 <= c.y < self.height
    }

    /// Row-major index of an in-bounds coordinate.
    pub open spec fn index_of(self, c: Coord) -> int {
        c.y * self.width + c.x
    }

    /// Builds a size, or `None` when it is not valid.
    pub fn new(width: u32, height: u32) -> (r: Option<Size>)
        ensures
            r == if (Size { width, height }).wf() {
                Some(Size { width, height })
            } else {
                None::<Size>
            },
    {
        if width > MAX_DIMENSION || height > MAX_DIMENSION {
            return None;
        }
        match width.checked_mul(height) {
            Some(_) => Some(Size { width, height }),
            None => None,
        }
    }

    pub fn is_valid(&self, c: Coord) -> (b: bool)
        ensures
            b == self.contains(c),
    {
        c.x >= 0 && c.y >= 0 && (c.x as u32) < self.width && (c.y as u32) < self.height
    }
}

/// Every in-bounds coordinate has its own row-major index below the cell
/// count.
pub proof fn lemma_index_in_range(size: Size, c: Coord)
    requires
        size.contains(c),
    ensures
        0 <= size.index_of(c) < size.count(),
{
    assert(c.y * size.width + c.x < size.width * size.height) by (nonlinear_arith)
        requires
            0 <= c.x < size.width,
            0 <= c.y < size.height,
    ;
    assert(0 <= c.y * size.width) by (nonlinear_arith)
        requires
            0 <= c.y,
            0 <= size.width,
    ;
}

/// Distinct in-bounds coordinates have distinct row-major indices.
pub proof fn lemma_index_injective(size: Size, a: Coord, b: Coord)
    requires
        size.contains(a),
        size.contains(b),
        size.index_of(a) == size.index_of(b),
    ensures
        a == b,
{
    let w = size.width as int;
    assert(a.y == b.y) by (nonlinear_arith)
        requires
            0 <= a.x < w,
            0 <= b.x < w,
            a.y * w + a.x == b.y * w + b.x,
    ;
}

impl CardinalDirection {
    /// The unit step of a direction: north is up, towards smaller `y`.
    pub open spec fn offset(self) -> Coord {
        match self {
            CardinalDirection::North => Coord { x: 0, y: -1i32 },
            CardinalDirection::East => Coord { x: 1, y: 0 },
            CardinalDirection::South => Coord { x: 0, y: 1 },
            CardinalDirection::West => Coord { x: -1i32, y: 0 },
        }
    }

    /// The four directions in the order in which multi-directional effects
    /// are emitted.
    pub open spec fn all_spec() -> Seq<CardinalDirection> {
        seq![
            CardinalDirection::North,
            CardinalDirection::East,
            CardinalDirection::South,
            CardinalDirection::West,
        ]
    }

    /// The unit step of this direction.
    pub fn coord(self) -> (c: Coord)
        ensures
            c == self.offset(),
    {
        unit_step(self)
    }

    /// All four directions, north first, clockwise.
    pub fn all() -> (v: Vec<CardinalDirection>)
        ensures
            v@ == Self::all_spec(),
    {
        every_cardinal_direction()
    }
}

/// Calls `direction::CardinalDirection::coord`, which maps north to
/// `(0, -1)`, east to `(1, 0)`, south to `(0, 1)` and west to `(-1, 0)`.
#[verifier::external_body]
fn unit_step(d: CardinalDirection) -> (c: Coord)
    ensures
        c == d.offset(),
{
    let outside = match d {
        CardinalDirection::North => direction::CardinalDirection::North,
        CardinalDirection::East => direction::CardinalDirection::East,
        CardinalDirection::South => direction::CardinalDirection::South,
        CardinalDirection::West => direction::CardinalDirection::West,
    };
    let step = outside.coord();
    Coord { x: step.x, y: step.y }
}

/// Walks `direction::CardinalDirections`, which yields north, east, south
/// and west, in that order.
#[verifier::external_body]
fn every_cardinal_direction() -> (v: Vec<CardinalDirection>)
    ensures
        v@ == CardinalDirection::all_spec(),
{
    let mut v = Vec::new();
    for d in direction::CardinalDirections {
        v.push(match d {
            direction::CardinalDirection::North => CardinalDirection::North,
            direction::CardinalDirection::East => CardinalDirection::East,
            direction::CardinalDirection::South => CardinalDirection::South,
            direction::CardinalDirection::West => CardinalDirection::West,
        });
    }
    v
}

} // verus!
