//! Index and position types of a row-major grid, and the conversions
//! between them.

use vstd::arithmetic::div_mod::lemma_fundamental_div_mod;
use vstd::arithmetic::div_mod::lemma_fundamental_div_mod_converse;
use vstd::prelude::*;

verus! {

/// Linear grid index, in row-major order. Starts from 0.
pub type Index = u32;

/// 2D grid position. Starts from `(0, 0)`.
#[derive(Clone, Copy, Debug, PartialEq, Eq, Structural)]
pub struct Pos {
    pub row: u32,
    pub col: u32,
}

impl Pos {
    /// Builds the position at `row`, `col`.
    pub fn new(row: u32, col: u32) -> (r: Pos)
        ensures
            r.row == row,
            r.col == col,
    {
        Pos { row, col }
    }
}

/// The row of `index` in a grid of `width` columns.
pub open spec fn row_of(index: int, width: int) -> int {
    index / width
}

/// The column of `index` in a grid of `width` columns.
pub open spec fn col_of(index: int, width: int) -> int {
    index % width
}

/// The index of the cell at `row`, `col` in a grid of `width` columns.
pub open spec fn index_at(row: int, col: int, width: int) -> int {
    row * width + col
}

/// Types that can be converted to [`Pos`].
pub trait ToPos: Sized {
    /// Whether `self` can be converted in a grid of `width` columns.
    spec fn to_pos_ok(&self, width: u32) -> bool;

    /// The position that `self` stands for in a grid of `width` columns.
    spec fn spec_to_pos(&self, width: u32) -> Pos;

    /// Converts self to [`Pos`].
    fn to_pos(self, width: u32) -> (r: Pos)
        requires
            self.to_pos_ok(width),
        ensures
            r == self.spec_to_pos(width),
    ;
}

impl ToPos for Index {
    /// An index has a position only in a grid with at least one column.
    open spec fn to_pos_ok(&self, width: u32) -> bool {
        width > 0
    }

    open spec fn spec_to_pos(&self, width: u32) -> Pos {
        Pos {
            row: row_of(*self as int, width as int) as u32,
            col: col_of(*self as int, width as int) as u32,
        }
    }

    /// Converts [`Index`] to [`Pos`]: the row is the quotient of the index
    /// by the width, the column the remainder.
    fn to_pos(self, width: u32) -> (r: Pos)
        ensures
            r.row == self / width,
            r.col == self % width,
    {
        Pos { row: self / width, col: self % width }
    }
}

impl ToPos for Pos {
    /// A position is already a position, in a grid of any width.
    open spec fn to_pos_ok(&self, width: u32) -> bool {
        true
    }

    open spec fn spec_to_pos(&self, width: u32) -> Pos {
        *self
    }

    /// No-op.
    fn to_pos(self, _width: u32) -> (r: Pos)
        ensures
            r == self,
    {
        self
    }
}

/// Types that can be converted to [`Index`].
pub trait ToIndex: Sized {
    /// Whether `self` can be converted in a grid of `width` columns without
    /// leaving the range of [`Index`].
    spec fn to_index_ok(&self, width: u32) -> bool;

    /// The index that `self` stands for in a grid of `width` columns.
    spec fn spec_to_index(&self, width: u32) -> Index;

    /// Converts self to [`Index`].
    fn to_index(self, width: u32) -> (r: Index)
        requires
            self.to_index_ok(width),
        ensures
            r == self.spec_to_index(width),
    ;
}

impl ToIndex for Pos {
    /// The caller keeps `row * width + col` within the range of [`Index`].
    open spec fn to_index_ok(&self, width: u32) -> bool {
        index_at(self.row as int, self.col as int, width as int) <= Index::MAX
    }

    open spec fn spec_to_index(&self, width: u32) -> Index {
        index_at(self.row as int, self.col as int, width as int) as Index
    }

    /// Converts [`Pos`] to [`Index`]: `row * width + col`.
    fn to_index(self, width: u32) -> (r: Index)
        ensures
            r == self.row * width + self.col,
    {
        proof {
            assert(0 <= self.row * width <= self.row * width + self.col) by (nonlinear_arith);
        }
        self.row * width + self.col
    }
}

impl ToIndex for Index {
    /// An index is already an index, in a grid of any width.
    open spec fn to_index_ok(&self, width: u32) -> bool {
        true
    }

    open spec fn spec_to_index(&self, width: u32) -> Index {
        *self
    }

    /// No-op.
    fn to_index(self, _width: u32) -> (r: Index)
        ensures
            r == self,
    {
        self
    }
}

/// Converting a position whose column lies inside the grid to an index and
/// back gives the same position.
pub proof fn lemma_pos_round_trip(p: Pos, width: u32)
    requires
        width > 0,
        p.col < width,
        p.to_index_ok(width),
    ensures
        p.spec_to_index(width).spec_to_pos(width) == p,
{
    let i = index_at(p.row as int, p.col as int, width as int);
    lemma_fundamental_div_mod_converse(i, width as int, p.row as int, p.col as int);
}

/// Converting an index to a position and back gives the same index, and the
/// way back never leaves the range of [`Index`].
pub proof fn lemma_index_round_trip(i: Index, width: u32)
    requires
        width > 0,
    ensures
        i.spec_to_pos(width).to_index_ok(width),
        i.spec_to_pos(width).spec_to_index(width) == i,
{
    let (x, w) = (i as int, width as int);
    lemma_fundamental_div_mod(x, w);
    assert(0 <= x / w <= x) by (nonlinear_arith)
        requires
            0 <= x,
            w > 0,
    ;
    assert((x / w) * w == w * (x / w)) by (nonlinear_arith);
}

/// Converting a value to its own representation, in a grid of any width,
/// is always possible and gives the value unchanged.
pub proof fn lemma_identity(p: Pos, i: Index, width: u32)
    ensures
        p.to_pos_ok(width),
        p.spec_to_pos(width) == p,
        i.to_index_ok(width),
        i.spec_to_index(width) == i,
{
}

/// Index 0 is the position `(0, 0)` in a grid of any positive width.
pub proof fn lemma_origin(width: u32)
    requires
        width > 0,
    ensures
        (0 as Index).spec_to_pos(width) == (Pos { row: 0, col: 0 }),
{
}

/// No index can be converted to a position in a grid without columns.
pub proof fn lemma_zero_width_refused(i: Index)
    ensures
        !i.to_pos_ok(0),
{
}

} // verus!
