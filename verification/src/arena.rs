//! The arena: four thin walls along the edges of the playing field.

use vstd::prelude::*;
use crate::measure::Vector2;

verus! {

/// The edges of the playing field: `left` and `right` are `x` coordinates,
/// `bottom` and `top` are `y` coordinates.
#[derive(Clone, Copy, Debug, PartialEq, Eq, Structural)]
pub struct Arena {
    pub left: i32,
    pub right: i32,
    pub bottom: i32,
    pub top: i32,
}

/// A wall: a rectangle given by its centre and its size. `half_extents` is
/// half the size along each axis, rounded down, as a box collider wants it.
#[derive(Clone, Copy, Debug, PartialEq, Eq, Structural)]
pub struct Wall {
    pub centre: Vector2,
    pub size: Vector2,
    pub half_extents: Vector2,
}

/// The distance of `coordinate` from the origin.
pub open spec fn magnitude(coordinate: int) -> int {
    if coordinate < 0 {
        -coordinate
    } else {
        coordinate
    }
}

/// The wall with the given centre and size.
pub open spec fn wall_at(x: int, y: int, width: int, height: int) -> Wall {
    Wall {
        centre: Vector2 { x: x as i64, y: y as i64 },
        size: Vector2 { x: width as i64, y: height as i64 },
        half_extents: Vector2 { x: (width / 2) as i64, y: (height / 2) as i64 },
    }
}

impl Arena {
    /// The length of the floor and of the ceiling: the distances of the left
    /// and of the right edge from the origin, added up.
    pub open spec fn span_x(self) -> int {
        magnitude(self.left as int) + magnitude(self.right as int)
    }

    /// The height of the side walls: the distances of the bottom and of the
    /// top edge from the origin, added up.
    pub open spec fn span_y(self) -> int {
        magnitude(self.bottom as int) + magnitude(self.top as int)
    }

    /// The four walls: floor, ceiling, left wall, right wall. The floor and
    /// the ceiling are centred on the `y` axis at the height of their edge,
    /// the side walls on the `x` axis at the position of theirs.
    pub open spec fn wall_layout(self, thickness: u32) -> Seq<Wall> {
        seq![
            wall_at(0, self.bottom as int, self.span_x(), thickness as int),
            wall_at(0, self.top as int, self.span_x(), thickness as int),
            wall_at(self.left as int, 0, thickness as int, self.span_y()),
            wall_at(self.right as int, 0, thickness as int, self.span_y()),
        ]
    }

    /// The four walls of the arena, each `thickness` thick, in the order
    /// floor, ceiling, left wall, right wall.
    pub fn walls(&self, thickness: u32) -> (walls: Vec<Wall>)
        ensures
            walls@ == self.wall_layout(thickness),
    {
        let span_x: i64 = distance_from_origin(self.left) + distance_from_origin(self.right);
        let span_y: i64 = distance_from_origin(self.bottom) + distance_from_origin(self.top);
        let thick: i64 = thickness as i64;
        let mut walls: Vec<Wall> = Vec::new();
        walls.push(make_wall(0, self.bottom as i64, span_x, thick));
        walls.push(make_wall(0, self.top as i64, span_x, thick));
        walls.push(make_wall(self.left as i64, 0, thick, span_y));
        walls.push(make_wall(self.right as i64, 0, thick, span_y));
        assert(walls@ =~= self.wall_layout(thickness));
        walls
    }
}

/// The distance of `coordinate` from the origin.
fn distance_from_origin(coordinate: i32) -> (d: i64)
    ensures
        d == magnitude(coordinate as int),
        0 <= d <= 0x8000_0000,
{
    let wide: i64 = coordinate as i64;
    if wide < 0 {
        -wide
    } else {
        wide
    }
}

/// The wall with the given centre and size.
fn make_wall(x: i64, y: i64, width: i64, height: i64) -> (wall: Wall)
    requires
        width >= 0,
        height >= 0,
    ensures
        wall == wall_at(x as int, y as int, width as int, height as int),
{
    Wall {
        centre: Vector2 { x, y },
        size: Vector2 { x: width, y: height },
        half_extents: Vector2 { x: width / 2, y: height / 2 },
    }
}

} // verus!
