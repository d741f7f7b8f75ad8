//! Edges between vertices: their canonical form, their orientation, and the
//! three edges that close a unit box on one side of an edge.

use crate::point::Point;
use vstd::prelude::*;

verus! {

/// How an edge lies on the board. The names follow the coordinate that the two
/// endpoints share.
#[derive(Clone, Copy, Debug, PartialEq, Eq, Structural)]
pub enum Orientation {
    /// Both endpoints have the same `x`.
    Vertical,
    /// The endpoints differ in `x` and have the same `y`.
    Horizontal,
    /// The endpoints differ in both coordinates. Such an edge is recognised,
    /// but it borders no box and addresses no storage.
    Diagonal,
}

/// Which of the two boxes next to an edge is meant: the one towards larger
/// coordinates or the one towards smaller coordinates.
#[derive(Clone, Copy, Debug, PartialEq, Eq, Structural)]
pub enum BoxSide {
    Positive,
    Negative,
}

/// A segment between two vertices.
///
/// The fields are compared position by position by `==`; use [`Edge::equal`]
/// to compare two edges as undirected segments.
#[derive(Clone, Copy, Debug, PartialEq, Eq, Structural)]
pub struct Edge {
    pub start: Point,
    pub end: Point,
}

impl Edge {
    /// The edge between `a` and `b` with its endpoints in canonical order: the
    /// endpoint that comes first in the vertex order is `start`.
    pub open spec fn canonical(a: Point, b: Point) -> Edge {
        if a.comes_before(b) {
            Edge { start: a, end: b }
        } else {
            Edge { start: b, end: a }
        }
    }

    /// The orientation of the edge, derived from the coordinates that its
    /// endpoints share. An edge whose endpoints coincide counts as vertical.
    pub open spec fn orientation(self) -> Orientation {
        if self.start.x == self.end.x {
            Orientation::Vertical
        } else if self.start.y == self.end.y {
            Orientation::Horizontal
        } else {
            Orientation::Diagonal
        }
    }

    /// Whether `self` and `other` join the same two vertices, in either
    /// direction.
    pub open spec fn same_segment(self, other: Edge) -> bool {
        ||| (other.start == self.start && other.end == self.end)
        ||| (other.end == self.start && other.start == self.end)
    }

    /// The smaller of the two `x` coordinates.
    pub open spec fn x_left(self) -> u8 {
        if self.start.x <= self.end.x {
            self.start.x
        } else {
            self.end.x
        }
    }

    /// The larger of the two `x` coordinates.
    pub open spec fn x_right(self) -> u8 {
        if self.start.x <= self.end.x {
            self.end.x
        } else {
            self.start.x
        }
    }

    /// The smaller of the two `y` coordinates.
    pub open spec fn y_bot(self) -> u8 {
        if self.start.y <= self.end.y {
            self.start.y
        } else {
            self.end.y
        }
    }

    /// The larger of the two `y` coordinates.
    pub open spec fn y_top(self) -> u8 {
        if self.start.y <= self.end.y {
            self.end.y
        } else {
            self.start.y
        }
    }

    /// Whether the box on `side` of the edge has coordinates that a vertex can
    /// hold. A horizontal edge has its boxes above (`Positive`) and below
    /// (`Negative`), a vertical edge to the right (`Positive`) and to the left
    /// (`Negative`); a diagonal edge has none.
    pub open spec fn spec_has_box(&self, side: BoxSide) -> bool {
        match self.orientation() {
            Orientation::Horizontal => match side {
                BoxSide::Positive => self.start.y < u8::MAX,
                BoxSide::Negative => self.start.y > 0,
            },
            Orientation::Vertical => match side {
                BoxSide::Positive => self.start.x < u8::MAX,
                BoxSide::Negative => self.start.x > 0,
            },
            Orientation::Diagonal => false,
        }
    }

    /// The three edges that, together with a horizontal edge at height `y`
    /// spanning `x_left..x_right`, bound the box whose far side lies at
    /// height `far`: the left edge, the right edge, and the far edge.
    pub open spec fn box_of_horizontal(x_left: u8, x_right: u8, y: u8, far: u8) -> Seq<Edge> {
        seq![
            Edge { start: Point { x: x_left, y: far }, end: Point { x: x_left, y: y } },
            Edge { start: Point { x: x_right, y: far }, end: Point { x: x_right, y: y } },
            Edge { start: Point { x: x_left, y: far }, end: Point { x: x_right, y: far } },
        ]
    }

    /// The three edges that, together with a vertical edge at `x` spanning
    /// `y_bot..y_top`, bound the box to its left, whose far side lies at
    /// `far`: the top edge, the far edge, and the bottom edge.
    pub open spec fn box_left_of_vertical(x: u8, y_bot: u8, y_top: u8, far: u8) -> Seq<Edge> {
        seq![
            Edge { start: Point { x: far, y: y_top }, end: Point { x: x, y: y_top } },
            Edge { start: Point { x: far, y: y_top }, end: Point { x: far, y: y_bot } },
            Edge { start: Point { x: far, y: y_bot }, end: Point { x: x, y: y_bot } },
        ]
    }

    /// The three edges that, together with a vertical edge at `x` spanning
    /// `y_bot..y_top`, bound the box to its right, whose far side lies at
    /// `far`: the top edge, the far edge, and the bottom edge.
    pub open spec fn box_right_of_vertical(x: u8, y_bot: u8, y_top: u8, far: u8) -> Seq<Edge> {
        seq![
            Edge { start: Point { x: far, y: y_top }, end: Point { x: x, y: y_top } },
            Edge { start: Point { x: far, y: y_top }, end: Point { x: far, y: y_bot } },
            Edge { start: Point { x: x, y: y_bot }, end: Point { x: far, y: y_bot } },
        ]
    }

    /// The three edges that close the box on `side` of this edge, in the order
    /// in which [`Edge::get_participating_edges`] returns them. Meaningful
    /// where [`Edge::has_box`] holds.
    pub open spec fn participating_edges(self, side: BoxSide) -> Seq<Edge> {
        match self.orientation() {
            Orientation::Horizontal => match side {
                BoxSide::Positive => Self::box_of_horizontal(
                    self.x_left(),
                    self.x_right(),
                    self.start.y,
                    (self.start.y + 1) as u8,
                ),
                BoxSide::Negative => Self::box_of_horizontal(
                    self.x_left(),
                    self.x_right(),
                    self.start.y,
                    (self.start.y - 1) as u8,
                ),
            },
            Orientation::Vertical => match side {
                BoxSide::Positive => Self::box_right_of_vertical(
                    self.start.x,
                    self.y_bot(),
                    self.y_top(),
                    (self.start.x + 1) as u8,
                ),
                BoxSide::Negative => Self::box_left_of_vertical(
                    self.start.x,
                    self.y_bot(),
                    self.y_top(),
                    (self.start.x - 1) as u8,
                ),
            },
            Orientation::Diagonal => Seq::empty(),
        }
    }

    /// Whether the edge joins two neighbouring vertices: the endpoints agree
    /// in one coordinate and differ by one in the other.
    pub open spec fn is_unit(self) -> bool {
        ||| (self.start.x == self.end.x && self.y_top() - self.y_bot() == 1)
        ||| (self.start.y == self.end.y && self.x_right() - self.x_left() == 1)
    }

    /// The lower left vertex of the box on `side` of the edge. Meaningful
    /// where [`Edge::has_box`] holds.
    pub open spec fn box_corner(self, side: BoxSide) -> Point {
        match self.orientation() {
            Orientation::Horizontal => match side {
                BoxSide::Positive => Point { x: self.x_left(), y: self.start.y },
                BoxSide::Negative => Point { x: self.x_left(), y: (self.start.y - 1) as u8 },
            },
            _ => match side {
                BoxSide::Positive => Point { x: self.start.x, y: self.y_bot() },
                BoxSide::Negative => Point { x: (self.start.x - 1) as u8, y: self.y_bot() },
            },
        }
    }

    /// The bottom side of the unit box whose lower left vertex is `corner`.
    pub open spec fn bottom_side(corner: Point) -> Edge {
        Edge { start: corner, end: Point { x: (corner.x + 1) as u8, y: corner.y } }
    }

    /// The top side of the unit box whose lower left vertex is `corner`.
    pub open spec fn top_side(corner: Point) -> Edge {
        Edge {
            start: Point { x: corner.x, y: (corner.y + 1) as u8 },
            end: Point { x: (corner.x + 1) as u8, y: (corner.y + 1) as u8 },
        }
    }

    /// The left side of the unit box whose lower left vertex is `corner`.
    pub open spec fn left_side(corner: Point) -> Edge {
        Edge { start: corner, end: Point { x: corner.x, y: (corner.y + 1) as u8 } }
    }

    /// The right side of the unit box whose lower left vertex is `corner`.
    pub open spec fn right_side(corner: Point) -> Edge {
        Edge {
            start: Point { x: (corner.x + 1) as u8, y: corner.y },
            end: Point { x: (corner.x + 1) as u8, y: (corner.y + 1) as u8 },
        }
    }

    /// Builds the edge between `(x, y)` and `(x2, y2)` in canonical form, so
    /// that the order in which the two endpoints are given does not matter.
    ///
    /// The endpoint with the smaller coordinate sum becomes `start`. Where the
    /// sums are equal, the endpoint with the smaller `x` becomes `start`.
    pub fn new(x: u8, y: u8, x2: u8, y2: u8) -> (edge: Edge)
        ensures
            edge == Edge::canonical(Point { x: x, y: y }, Point { x: x2, y: y2 }),
    {
        let first = Point { x: x, y: y };
        let second = Point { x: x2, y: y2 };

        let pair1_sum: u16 = x as u16 + y as u16;
        let pair2_sum: u16 = x2 as u16 + y2 as u16;

        if pair1_sum < pair2_sum || (pair1_sum == pair2_sum && x < x2) {
            Edge { start: first, end: second }
        } else {
            Edge { start: second, end: first }
        }
    }

    /// Compares two edges as undirected segments: true when they join the same
    /// two vertices, whichever of the two is `start`.
    pub fn equal(&self, other: &Edge) -> (same: bool)
        ensures
            same == self.same_segment(*other),
    {
        (other.start == self.start && other.end == self.end) || (other.end == self.start
            && other.start == self.end)
    }

    /// Classifies the edge by the coordinate that its endpoints share.
    pub fn get_orientation(&self) -> (orientation: Orientation)
        ensures
            orientation == self.orientation(),
    {
        if self.start.x == self.end.x {
            Orientation::Vertical
        } else if self.start.y == self.end.y {
            Orientation::Horizontal
        } else {
            Orientation::Diagonal
        }
    }

    /// Tells whether [`Edge::get_participating_edges`] may be asked for the box
    /// on `side`: the edge is not diagonal, and the box does not reach past the
    /// smallest or the largest coordinate.
    #[verifier::when_used_as_spec(spec_has_box)]
    pub fn has_box(&self, side: BoxSide) -> (present: bool)
        ensures
            present == self.has_box(side),
    {
        match self.get_orientation() {
            Orientation::Horizontal => match side {
                BoxSide::Positive => self.start.y < u8::MAX,
                BoxSide::Negative => self.start.y > 0,
            },
            Orientation::Vertical => match side {
                BoxSide::Positive => self.start.x < u8::MAX,
                BoxSide::Negative => self.start.x > 0,
            },
            Orientation::Diagonal => false,
        }
    }

    /// Returns the three edges that, together with this edge, bound the unit
    /// box on `side` of it.
    ///
    /// For a horizontal edge they are the left edge, the right edge and the
    /// edge opposite; for a vertical edge the top edge, the edge opposite and
    /// the bottom edge. The length of the edge is not examined: the box is
    /// laid out from its two extreme coordinates. The edges come as
    /// [`Edge::participating_edges`] lists them, not in canonical form:
    /// compare them with [`Edge::equal`].
    ///
    /// A diagonal edge borders no box, and neither does an edge whose box
    /// would need a coordinate below zero or above the largest one.
    pub fn get_participating_edges(&self, side: BoxSide) -> (edges: Vec<Edge>)
        requires
            self.has_box(side),
        ensures
            edges@ == self.participating_edges(side),
            edges@.len() == 3,
    {
        let orientation = self.get_orientation();

        match orientation {
            Orientation::Vertical => self.get_edges_vertical(side),
            Orientation::Horizontal => self.get_edges_horizontal(side),
            Orientation::Diagonal => unreached(),
        }
    }

    fn get_edges_vertical(&self, side: BoxSide) -> (edges: Vec<Edge>)
        requires
            self.orientation() == Orientation::Vertical,
            self.has_box(side),
        ensures
            edges@ == self.participating_edges(side),
    {
        match side {
            BoxSide::Positive => self.get_positive_edges_vertical(),
            BoxSide::Negative => self.get_negative_edges_vertical(),
        }
    }

    fn get_edges_horizontal(&self, side: BoxSide) -> (edges: Vec<Edge>)
        requires
            self.orientation() == Orientation::Horizontal,
            self.has_box(side),
        ensures
            edges@ == self.participating_edges(side),
    {
        match side {
            BoxSide::Positive => self.get_positive_edges_horizontal(),
            BoxSide::Negative => self.get_negative_edges_horizontal(),
        }
    }

    fn get_positive_edges_horizontal(&self) -> (edges: Vec<Edge>)
        requires
            self.orientation() == Orientation::Horizontal,
            self.has_box(BoxSide::Positive),
        ensures
            edges@ == self.participating_edges(BoxSide::Positive),
    {
        let y: u8 = self.start.y;
        let x_right: u8 = if self.start.x <= self.end.x { self.end.x } else { self.start.x };
        let x_left: u8 = if self.start.x <= self.end.x { self.start.x } else { self.end.x };

        // left vertical edge
        let edge1 = Edge { start: Point { x: x_left, y: y + 1 }, end: Point { x: x_left, y: y } };
        // right vertical edge
        let edge2 = Edge { start: Point { x: x_right, y: y + 1 }, end: Point { x: x_right, y: y } };
        // top horizontal edge
        let edge3 = Edge {
            start: Point { x: x_left, y: y + 1 },
            end: Point { x: x_right, y: y + 1 },
        };

        let mut edges: Vec<Edge> = Vec::with_capacity(3);
        edges.push(edge1);
        edges.push(edge2);
        edges.push(edge3);
        edges
    }

    fn get_negative_edges_horizontal(&self) -> (edges: Vec<Edge>)
        requires
            self.orientation() == Orientation::Horizontal,
            self.has_box(BoxSide::Negative),
        ensures
            edges@ == self.participating_edges(BoxSide::Negative),
    {
        let y: u8 = self.start.y;
        let x_right: u8 = if self.start.x <= self.end.x { self.end.x } else { self.start.x };
        let x_left: u8 = if self.start.x <= self.end.x { self.start.x } else { self.end.x };

        // left vertical edge
        let edge1 = Edge { start: Point { x: x_left, y: y - 1 }, end: Point { x: x_left, y: y } };
        // right vertical edge
        let edge2 = Edge { start: Point { x: x_right, y: y - 1 }, end: Point { x: x_right, y: y } };
        // bottom horizontal edge
        let edge3 = Edge {
            start: Point { x: x_left, y: y - 1 },
            end: Point { x: x_right, y: y - 1 },
        };

        let mut edges: Vec<Edge> = Vec::with_capacity(3);
        edges.push(edge1);
        edges.push(edge2);
        edges.push(edge3);
        edges
    }

    fn get_negative_edges_vertical(&self) -> (edges: Vec<Edge>)
        requires
            self.orientation() == Orientation::Vertical,
            self.has_box(BoxSide::Negative),
        ensures
            edges@ == self.participating_edges(BoxSide::Negative),
    {
        let x: u8 = self.start.x;
        let y_top: u8 = if self.start.y <= self.end.y { self.end.y } else { self.start.y };
        let y_bot: u8 = if self.start.y <= self.end.y { self.start.y } else { self.end.y };

        // top edge
        let edge1 = Edge { start: Point { x: x - 1, y: y_top }, end: Point { x: x, y: y_top } };
        // left edge
        let edge2 = Edge { start: Point { x: x - 1, y: y_top }, end: Point { x: x - 1, y: y_bot } };
        // bottom edge
        let edge3 = Edge { start: Point { x: x - 1, y: y_bot }, end: Point { x: x, y: y_bot } };

        let mut edges: Vec<Edge> = Vec::with_capacity(3);
        edges.push(edge1);
        edges.push(edge2);
        edges.push(edge3);
        edges
    }

    fn get_positive_edges_vertical(&self) -> (edges: Vec<Edge>)
        requires
            self.orientation() == Orientation::Vertical,
            self.has_box(BoxSide::Positive),
        ensures
            edges@ == self.participating_edges(BoxSide::Positive),
    {
        let x: u8 = self.start.x;
        let y_top: u8 = if self.start.y <= self.end.y { self.end.y } else { self.start.y };
        let y_bot: u8 = if self.start.y <= self.end.y { self.start.y } else { self.end.y };

        // top edge
        let edge1 = Edge { start: Point { x: x + 1, y: y_top }, end: Point { x: x, y: y_top } };
        // right edge
        let edge2 = Edge { start: Point { x: x + 1, y: y_top }, end: Point { x: x + 1, y: y_bot } };
        // bottom edge
        let edge3 = Edge { start: Point { x: x, y: y_bot }, end: Point { x: x + 1, y: y_bot } };

        let mut edges: Vec<Edge> = Vec::with_capacity(3);
        edges.push(edge1);
        edges.push(edge2);
        edges.push(edge3);
        edges
    }
}

/// Building an edge from its two endpoints gives the same edge whichever
/// endpoint is named first.
pub proof fn lemma_canonical_ignores_order(a: Point, b: Point)
    ensures
        Edge::canonical(a, b) == Edge::canonical(b, a),
{
}

/// A canonical edge joins the two vertices it was built from, and building it
/// again from its own endpoints changes nothing.
pub proof fn lemma_canonical_is_stable(a: Point, b: Point)
    ensures
        Edge::canonical(a, b).same_segment(Edge { start: a, end: b }),
        Edge::canonical(Edge::canonical(a, b).start, Edge::canonical(a, b).end) == Edge::canonical(
            a,
            b,
        ),
{
}

/// Two edges are the same segment exactly when their canonical forms are
/// equal field by field.
pub proof fn lemma_same_segment_iff_same_canonical(e: Edge, f: Edge)
    ensures
        e.same_segment(f) <==> Edge::canonical(e.start, e.end) == Edge::canonical(f.start, f.end),
{
}

/// Comparing edges as segments is an equivalence: every edge is the same
/// segment as itself and as its reverse, and the comparison is symmetric and
/// transitive.
pub proof fn lemma_same_segment_is_equivalence(e: Edge, f: Edge, g: Edge)
    ensures
        e.same_segment(e),
        e.same_segment(Edge { start: e.end, end: e.start }),
        e.same_segment(f) ==> f.same_segment(e),
        e.same_segment(f) && f.same_segment(g) ==> e.same_segment(g),
{
}

/// A diagonal edge borders no box: on neither side may its participating
/// edges be asked for.
pub proof fn lemma_diagonal_has_no_box(edge: Edge, side: BoxSide)
    requires
        edge.orientation() == Orientation::Diagonal,
    ensures
        !edge.has_box(side),
{
}

/// The participating edges of an edge are three, none of them diagonal, and
/// they depend on the edge only as a segment: reversing it changes nothing.
pub proof fn lemma_participating_edges_shape(edge: Edge, side: BoxSide)
    requires
        edge.has_box(side),
    ensures
        edge.participating_edges(side).len() == 3,
        forall|i: int|
            0 <= i < 3 ==> (#[trigger] edge.participating_edges(side)[i]).orientation()
                != Orientation::Diagonal,
        (Edge { start: edge.end, end: edge.start }).has_box(side),
        (Edge { start: edge.end, end: edge.start }).participating_edges(side)
            == edge.participating_edges(side),
{
}

/// For an edge between neighbouring vertices, the edge and its three
/// participating edges are the four sides of one unit box: the box whose lower
/// left vertex is `edge.box_corner(side)`.
///
/// A horizontal edge is the bottom of the box above it and the top of the box
/// below it; its participating edges are the left side, the right side and
/// the side opposite. A vertical edge is the left side of the box to its right
/// and the right side of the box to its left; its participating edges are the
/// top, the side opposite and the bottom.
pub proof fn lemma_participating_edges_close_box(edge: Edge, side: BoxSide)
    requires
        edge.is_unit(),
        edge.has_box(side),
    ensures
        ({
            let corner = edge.box_corner(side);
            let others = edge.participating_edges(side);
            match (edge.orientation(), side) {
                (Orientation::Horizontal, BoxSide::Positive) => {
                    &&& edge.same_segment(Edge::bottom_side(corner))
                    &&& others[0].same_segment(Edge::left_side(corner))
                    &&& others[1].same_segment(Edge::right_side(corner))
                    &&& others[2].same_segment(Edge::top_side(corner))
                },
                (Orientation::Horizontal, BoxSide::Negative) => {
                    &&& edge.same_segment(Edge::top_side(corner))
                    &&& others[0].same_segment(Edge::left_side(corner))
                    &&& others[1].same_segment(Edge::right_side(corner))
                    &&& others[2].same_segment(Edge::bottom_side(corner))
                },
                (_, BoxSide::Positive) => {
                    &&& edge.same_segment(Edge::left_side(corner))
                    &&& others[0].same_segment(Edge::top_side(corner))
                    &&& others[1].same_segment(Edge::right_side(corner))
                    &&& others[2].same_segment(Edge::bottom_side(corner))
                },
                (_, BoxSide::Negative) => {
                    &&& edge.same_segment(Edge::right_side(corner))
                    &&& others[0].same_segment(Edge::top_side(corner))
                    &&& others[1].same_segment(Edge::left_side(corner))
                    &&& others[2].same_segment(Edge::bottom_side(corner))
                },
            }
        }),
{
}

} // verus!
