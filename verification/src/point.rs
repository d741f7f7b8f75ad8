//! Vertices of the board grid.

use vstd::prelude::*;

verus! {

/// A vertex of the board: a pair of unsigned coordinates. Two points are equal
/// exactly when both coordinates agree.
#[derive(Clone, Copy, Debug, PartialEq, Eq, Structural)]
pub struct Point {
    pub x: u8,
    pub y: u8,
}

impl Point {
    /// The sum of the two coordinates, by which the endpoints of an edge are
    /// ordered first.
    pub open spec fn coordinate_sum(self) -> int {
        self.x + self.y
    }

    /// The order in which the endpoints of an edge are arranged: by coordinate
    /// sum, and among vertices of equal sum by `x`. Of two different vertices
    /// exactly one comes before the other.
    pub open spec fn comes_before(self, other: Point) -> bool {
        ||| self.coordinate_sum() < other.coordinate_sum()
        ||| (self.coordinate_sum() == other.coordinate_sum() && self.x < other.x)
    }

    /// Builds the vertex at `(x, y)`.
    pub fn new(x: u8, y: u8) -> (p: Point)
        ensures
            p == (Point { x, y }),
    {
        Point { x, y }
    }
}

/// The vertex order is a strict total order: no vertex comes before itself,
/// of two different vertices exactly one comes before the other, and the order
/// is transitive.
pub proof fn lemma_vertex_order_is_total(a: Point, b: Point, c: Point)
    ensures
        !a.comes_before(a),
        a != b ==> (a.comes_before(b) <==> !b.comes_before(a)),
        a.comes_before(b) && b.comes_before(c) ==> a.comes_before(c),
{
}

} // verus!
