//! Dense storage for the occupancy of every edge of a grid of vertices.

use crate::edge::{Edge, Orientation};
use crate::point::Point;
use vstd::arithmetic::div_mod::{
    lemma_fundamental_div_mod, lemma_fundamental_div_mod_converse, lemma_mod_pos_bound,
    lemma_multiply_divide_lt,
};
use vstd::prelude::*;
use vstd::relations::injective_on;
use vstd::set_lib::{lemma_int_range, lemma_map_size, lemma_set_disjoint_lens, set_int_range};

verus! {

/// What is recorded for one edge: nothing yet, or the player who claimed it.
#[derive(Debug, Clone, Copy, PartialEq, Eq, Structural)]
pub enum EdgeState {
    Empty,
    Occupied { player_index: u32 },
}

/// The storage cell that an edge addresses: which of the two arrays (chosen by
/// the orientation) and which vertex the edge starts at.
pub struct Slot {
    pub orientation: Orientation,
    pub at: Point,
}

impl Slot {
    /// The cell that `edge` addresses. Only the orientation and the start of
    /// the edge take part: edges that agree in both share a cell.
    pub open spec fn of(edge: Edge) -> Slot {
        Slot { orientation: edge.orientation(), at: edge.start }
    }

    /// Whether a grid of `width` by `height` vertices has this cell.
    ///
    /// Vertical edges are kept in `width - 1` columns of `height` cells each,
    /// horizontal edges in `height - 1` rows of `width` cells each. No cell
    /// belongs to a diagonal edge.
    pub open spec fn within(self, width: u8, height: u8) -> bool {
        match self.orientation {
            Orientation::Vertical => self.at.x < width - 1 && self.at.y < height,
            Orientation::Horizontal => self.at.y < height - 1 && self.at.x < width,
            Orientation::Diagonal => false,
        }
    }
}

/// The occupancy of every edge of a grid of `width` by `height` vertices.
///
/// Seen from outside, a grid is a map from each of its cells to the state of
/// the edge stored there.
#[derive(Debug)]
pub struct BoxGrid {
    width: u8,
    height: u8,
    columns: Vec<Vec<EdgeState>>,
    rows: Vec<Vec<EdgeState>>,
}

impl View for BoxGrid {
    type V = Map<Slot, EdgeState>;

    closed spec fn view(&self) -> Map<Slot, EdgeState> {
        Map::new(
            |slot: Slot| slot.within(self.width, self.height),
            |slot: Slot|
                match slot.orientation {
                    Orientation::Vertical => self.columns@[slot.at.x as int]@[slot.at.y as int],
                    _ => self.rows@[slot.at.y as int]@[slot.at.x as int],
                },
        )
    }
}

impl BoxGrid {
    /// Whether the two arrays have the extent that the width and the height
    /// call for. Every grid that [`BoxGrid::new`] builds is well formed, and
    /// every operation keeps it so.
    pub closed spec fn wf(&self) -> bool {
        &&& self.width >= 1
        &&& self.height >= 1
        &&& self.columns@.len() == self.width - 1
        &&& forall|x: int|
            0 <= x < self.columns@.len() ==> (#[trigger] self.columns@[x])@.len() == self.height
        &&& self.rows@.len() == self.height - 1
        &&& forall|y: int|
            0 <= y < self.rows@.len() ==> (#[trigger] self.rows@[y])@.len() == self.width
    }

    /// The number of vertices in a row of the grid.
    pub closed spec fn spec_width(&self) -> u8 {
        self.width
    }

    /// The number of vertices in a column of the grid.
    pub closed spec fn spec_height(&self) -> u8 {
        self.height
    }

    /// The grid of `width` by `height` vertices on which no edge is claimed.
    pub open spec fn fresh(width: u8, height: u8) -> Map<Slot, EdgeState> {
        Map::new(|slot: Slot| slot.within(width, height), |slot: Slot| EdgeState::Empty)
    }

    /// The cells of a grid after the player `player_index` has claimed `edge`:
    /// the cell of the edge holds the claim, every other cell is as in `cells`.
    pub open spec fn claimed(cells: Map<Slot, EdgeState>, edge: Edge, player_index: u32) -> Map<
        Slot,
        EdgeState,
    > {
        cells.insert(Slot::of(edge), EdgeState::Occupied { player_index: player_index })
    }

    /// The number of cells of a grid of `width` by `height` vertices.
    pub open spec fn edge_count(width: u8, height: u8) -> int {
        (width - 1) * height + (height - 1) * width
    }

    /// Builds the grid of `width` by `height` vertices with every edge
    /// unclaimed. A grid has at least one vertex in each direction.
    pub fn new(width: u8, height: u8) -> (grid: BoxGrid)
        requires
            width >= 1,
            height >= 1,
        ensures
            grid.wf(),
            grid.width() == width,
            grid.height() == height,
            grid@ == BoxGrid::fresh(width, height),
    {
        BoxGrid {
            width: width,
            height: height,
            rows: vec![vec![EdgeState::Empty; width as usize]; (height - 1) as usize],
            columns: vec![vec![EdgeState::Empty; height as usize]; (width - 1) as usize],
        }
    }

    /// The number of vertices in a row of the grid.
    #[verifier::when_used_as_spec(spec_width)]
    pub fn width(&self) -> (width: u8)
        ensures
            width == self.width(),
    {
        self.width
    }

    /// The number of vertices in a column of the grid.
    #[verifier::when_used_as_spec(spec_height)]
    pub fn height(&self) -> (height: u8)
        ensures
            height == self.height(),
    {
        self.height
    }

    /// The number of columns that hold vertical edges: one less than the width.
    pub fn column_count(&self) -> (count: usize)
        requires
            self.wf(),
        ensures
            count == self.width() - 1,
    {
        self.columns.len()
    }

    /// The number of rows that hold horizontal edges: one less than the height.
    pub fn row_count(&self) -> (count: usize)
        requires
            self.wf(),
        ensures
            count == self.height() - 1,
    {
        self.rows.len()
    }

    /// The total number of edges that the grid stores: the number of its
    /// cells, over both arrays.
    pub fn max_edges(&self) -> (count: u32)
        requires
            self.wf(),
        ensures
            count == BoxGrid::edge_count(self.width(), self.height()),
            count == self@.dom().len(),
    {
        proof {
            lemma_max_edges_counts_cells(*self);
            assert((self.width - 1) * self.height <= 254 * 255) by (nonlinear_arith)
                requires
                    1 <= self.width <= 255,
                    self.height <= 255,
            ;
            assert((self.height - 1) * self.width <= 254 * 255) by (nonlinear_arith)
                requires
                    1 <= self.height <= 255,
                    self.width <= 255,
            ;
        }
        ((self.width - 1) as u32 * self.height as u32) + ((self.height - 1) as u32
            * self.width as u32)
    }

    /// Tells whether the grid has a cell for `edge`, that is, whether
    /// [`BoxGrid::is_occupied`] and [`BoxGrid::set_occupied`] may be called
    /// with it. A diagonal edge has no cell in any grid.
    pub fn contains(&self, edge: &Edge) -> (present: bool)
        requires
            self.wf(),
        ensures
            present == self@.contains_key(Slot::of(*edge)),
            present == Slot::of(*edge).within(self.width(), self.height()),
    {
        match edge.get_orientation() {
            Orientation::Vertical => edge.start.x < self.width - 1 && edge.start.y
                < self.height,
            Orientation::Horizontal => edge.start.y < self.height - 1 && edge.start.x
                < self.width,
            Orientation::Diagonal => false,
        }
    }

    /// Looks up the state recorded for `edge`.
    ///
    /// The edge must address a cell of this grid: it is vertical and starts
    /// left of the last column, or horizontal and starts below the last row.
    pub fn is_occupied(&self, edge: &Edge) -> (state: &EdgeState)
        requires
            self.wf(),
            self@.contains_key(Slot::of(*edge)),
        ensures
            *state == self@[Slot::of(*edge)],
    {
        let orientation = edge.get_orientation();
        match orientation {
            Orientation::Vertical => self.find_vertical_occupancy(edge),
            Orientation::Horizontal => self.find_horizontal_occupancy(edge),
            Orientation::Diagonal => unreached(),
        }
    }

    /// Records that the player `player_index` has claimed `edge`. The cell of
    /// the edge changes and no other.
    ///
    /// The edge must address a cell of this grid, as for
    /// [`BoxGrid::is_occupied`].
    pub fn set_occupied(&mut self, edge: &Edge, player_index: u32)
        requires
            old(self).wf(),
            old(self)@.contains_key(Slot::of(*edge)),
        ensures
            final(self).wf(),
            final(self)@ == BoxGrid::claimed(old(self)@, *edge, player_index),
            final(self).width() == old(self).width(),
            final(self).height() == old(self).height(),
    {
        match edge.get_orientation() {
            Orientation::Vertical => self.set_occupied_vertical(edge, player_index),
            Orientation::Horizontal => self.set_occupied_horizontal(edge, player_index),
            Orientation::Diagonal => unreached(),
        }
    }

    fn set_occupied_vertical(&mut self, edge: &Edge, player_index: u32)
        requires
            old(self).wf(),
            edge.orientation() == Orientation::Vertical,
            old(self)@.contains_key(Slot::of(*edge)),
        ensures
            final(self).wf(),
            final(self)@ == BoxGrid::claimed(old(self)@, *edge, player_index),
            final(self).width() == old(self).width(),
            final(self).height() == old(self).height(),
    {
        self.columns[edge.start.x as usize][edge.start.y as usize] = EdgeState::Occupied {
            player_index: player_index,
        };
    }

    fn set_occupied_horizontal(&mut self, edge: &Edge, player_index: u32)
        requires
            old(self).wf(),
            edge.orientation() == Orientation::Horizontal,
            old(self)@.contains_key(Slot::of(*edge)),
        ensures
            final(self).wf(),
            final(self)@ == BoxGrid::claimed(old(self)@, *edge, player_index),
            final(self).width() == old(self).width(),
            final(self).height() == old(self).height(),
    {
        self.rows[edge.start.y as usize][edge.start.x as usize] = EdgeState::Occupied {
            player_index: player_index,
        };
    }

    fn find_vertical_occupancy(&self, edge: &Edge) -> (state: &EdgeState)
        requires
            self.wf(),
            edge.orientation() == Orientation::Vertical,
            self@.contains_key(Slot::of(*edge)),
        ensures
            *state == self@[Slot::of(*edge)],
    {
        // vertical edges are stored by column: first the start's x, then its y
        let column = &self.columns[edge.start.x as usize];
        &column[edge.start.y as usize]
    }

    fn find_horizontal_occupancy(&self, edge: &Edge) -> (state: &EdgeState)
        requires
            self.wf(),
            edge.orientation() == Orientation::Horizontal,
            self@.contains_key(Slot::of(*edge)),
        ensures
            *state == self@[Slot::of(*edge)],
    {
        // horizontal edges are stored by row: first the start's y, then its x
        let row = &self.rows[edge.start.y as usize];
        &row[edge.start.x as usize]
    }
}

/// The cells of a grid are those that its width and height call for.
pub proof fn lemma_cells_of_grid(grid: BoxGrid, slot: Slot)
    ensures
        grid@.contains_key(slot) <==> slot.within(grid.width(), grid.height()),
{
}

/// On a grid on which nothing has been claimed, every edge that has a cell is
/// recorded as empty.
pub proof fn lemma_fresh_grid_is_empty(width: u8, height: u8, edge: Edge)
    requires
        Slot::of(edge).within(width, height),
    ensures
        BoxGrid::fresh(width, height).contains_key(Slot::of(edge)),
        BoxGrid::fresh(width, height)[Slot::of(edge)] == EdgeState::Empty,
{
}

/// After an edge has been claimed, a query of that edge gives the claim, and
/// a query of an edge with another cell gives what it gave before. The grid
/// keeps its cells.
pub proof fn lemma_claim_is_seen_by_query(
    cells: Map<Slot, EdgeState>,
    edge: Edge,
    player_index: u32,
    other: Edge,
)
    requires
        cells.contains_key(Slot::of(edge)),
    ensures
        BoxGrid::claimed(cells, edge, player_index)[Slot::of(edge)] == (EdgeState::Occupied {
            player_index: player_index,
        }),
        Slot::of(other) != Slot::of(edge) ==> BoxGrid::claimed(cells, edge, player_index)[Slot::of(
            other,
        )] == cells[Slot::of(other)],
        BoxGrid::claimed(cells, edge, player_index).dom() == cells.dom(),
{
    assert(cells.insert(
        Slot::of(edge),
        EdgeState::Occupied { player_index: player_index },
    ).dom() =~= cells.dom());
}

/// A claim never frees a cell: what was occupied before an edge is claimed is
/// occupied afterwards.
pub proof fn lemma_claim_frees_nothing(
    cells: Map<Slot, EdgeState>,
    edge: Edge,
    player_index: u32,
    slot: Slot,
)
    requires
        cells.contains_key(slot),
        cells[slot] is Occupied,
    ensures
        BoxGrid::claimed(cells, edge, player_index)[slot] is Occupied,
{
}

/// A diagonal edge has no cell, in a grid of any size.
pub proof fn lemma_diagonal_has_no_cell(grid: BoxGrid, edge: Edge)
    requires
        edge.orientation() == Orientation::Diagonal,
    ensures
        !Slot::of(edge).within(grid.width(), grid.height()),
        !grid@.contains_key(Slot::of(edge)),
{
}

/// The cells that a grid of `width` by `height` vertices keeps for edges of
/// one orientation.
pub open spec fn cells_of(orientation: Orientation, width: u8, height: u8) -> Set<Slot> {
    Set::new(|slot: Slot| slot.orientation == orientation && slot.within(width, height))
}

/// A set of cells laid out as `lines` lines of `len` cells each, with no cell
/// placed twice, has `lines * len` members.
proof fn lemma_band_size(cells: Set<Slot>, lines: int, len: int, place: spec_fn(int, int) -> Slot)
    requires
        0 <= lines,
        0 < len,
        forall|i: int, j: int|
            0 <= i < lines && 0 <= j < len ==> cells.contains(#[trigger] place(i, j)),
        forall|slot: Slot|
            cells.contains(slot) ==> exists|i: int, j: int|
                0 <= i < lines && 0 <= j < len && #[trigger] place(i, j) == slot,
        forall|i: int, j: int, k: int, l: int|
            0 <= i < lines && 0 <= j < len && 0 <= k < lines && 0 <= l < len && #[trigger] place(
                i,
                j,
            ) == #[trigger] place(k, l) ==> i == k && j == l,
    ensures
        cells.finite(),
        cells.len() == lines * len,
{
    let numbers = set_int_range(0, lines * len);
    let nth = |n: int| place(n / len, n % len);
    assert(0 <= lines * len) by (nonlinear_arith)
        requires
            0 <= lines,
            0 < len,
    ;
    lemma_int_range(0, lines * len);
    assert forall|n: int| numbers.contains(n) implies 0 <= n / len < lines && 0 <= n % len < len
        && n == len * (n / len) + n % len by {
        lemma_fundamental_div_mod(n, len);
        lemma_mod_pos_bound(n, len);
        assert(n < len * lines) by (nonlinear_arith)
            requires
                n < lines * len,
        ;
        lemma_multiply_divide_lt(n, len, lines);
        assert(0 <= n / len) by (nonlinear_arith)
            requires
                0 <= n,
                0 < len,
                n == len * (n / len) + n % len,
                n % len < len,
        ;
    }
    assert(injective_on(nth, numbers)) by {
        assert forall|m: int, n: int|
            numbers.contains(m) && numbers.contains(n) && #[trigger] nth(m) == #[trigger] nth(
                n,
            ) implies m == n by {
            assert(place(m / len, m % len) == place(n / len, n % len));
        }
    }
    assert(numbers.map(nth) =~= cells) by {
        assert forall|slot: Slot| cells.contains(slot) implies numbers.map(nth).contains(
            slot,
        ) by {
            let (i, j) = choose|i: int, j: int|
                0 <= i < lines && 0 <= j < len && #[trigger] place(i, j) == slot;
            let n = i * len + j;
            assert(0 <= n < lines * len) by (nonlinear_arith)
                requires
                    0 <= i < lines,
                    0 <= j < len,
                    n == i * len + j,
            ;
            lemma_fundamental_div_mod_converse(n, len, i, j);
            assert(numbers.contains(n) && nth(n) == slot);
        }
        assert forall|slot: Slot| numbers.map(nth).contains(slot) implies cells.contains(
            slot,
        ) by {
            let n = choose|n: int| numbers.contains(n) && slot == nth(n);
            assert(cells.contains(place(n / len, n % len)));
        }
    }
    lemma_map_size(numbers, cells, nth);
}

/// A grid of `width` by `height` vertices has `(width - 1) * height` cells for
/// vertical edges and `(height - 1) * width` cells for horizontal edges, and
/// no others.
pub proof fn lemma_cell_count(width: u8, height: u8)
    requires
        width >= 1,
        height >= 1,
    ensures
        BoxGrid::fresh(width, height).dom().finite(),
        BoxGrid::fresh(width, height).dom().len() == BoxGrid::edge_count(width, height),
        cells_of(Orientation::Vertical, width, height).len() == (width - 1) * height,
        cells_of(Orientation::Horizontal, width, height).len() == (height - 1) * width,
        cells_of(Orientation::Diagonal, width, height).len() == 0,
{
    let vertical = cells_of(Orientation::Vertical, width, height);
    let horizontal = cells_of(Orientation::Horizontal, width, height);
    let in_column = |x: int, y: int|
        Slot { orientation: Orientation::Vertical, at: Point { x: x as u8, y: y as u8 } };
    let in_row = |y: int, x: int|
        Slot { orientation: Orientation::Horizontal, at: Point { x: x as u8, y: y as u8 } };
    assert forall|slot: Slot| vertical.contains(slot) implies exists|x: int, y: int|
        0 <= x < width - 1 && 0 <= y < height && #[trigger] in_column(x, y) == slot by {
        assert(in_column(slot.at.x as int, slot.at.y as int) == slot);
    }
    assert forall|slot: Slot| horizontal.contains(slot) implies exists|y: int, x: int|
        0 <= y < height - 1 && 0 <= x < width && #[trigger] in_row(y, x) == slot by {
        assert(in_row(slot.at.y as int, slot.at.x as int) == slot);
    }
    lemma_band_size(vertical, width - 1, height as int, in_column);
    lemma_band_size(horizontal, height - 1, width as int, in_row);
    assert(cells_of(Orientation::Diagonal, width, height) =~= Set::empty());
    assert(vertical.disjoint(horizontal));
    lemma_set_disjoint_lens(vertical, horizontal);
    assert(BoxGrid::fresh(width, height).dom() =~= vertical + horizontal);
}

/// The cells of a grid are as many as its width and height call for.
pub proof fn lemma_max_edges_counts_cells(grid: BoxGrid)
    requires
        grid.wf(),
    ensures
        grid@.dom().finite(),
        grid@.dom().len() == BoxGrid::edge_count(grid.width(), grid.height()),
{
    lemma_cell_count(grid.width, grid.height);
    assert(grid@.dom() =~= BoxGrid::fresh(grid.width, grid.height).dom());
}

} // verus!
