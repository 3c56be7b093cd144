use vstd::prelude::*;

verus! {

/// A point of the terminal grid: a line (negative inside scrollback history)
/// and a column.
#[derive(Clone, Copy, Debug, PartialEq, Eq, Structural)]
pub struct GridPoint {
    pub line: i64,
    pub column: i64,
}

/// Integer division rounding toward zero.
pub open spec fn trunc_div(a: int, b: int) -> int {
    if a >= 0 {
        a / b
    } else {
        -((-a) / b)
    }
}

/// Remainder of `trunc_div`: it carries the sign of `a`.
pub open spec fn trunc_rem(a: int, b: int) -> int {
    if a >= 0 {
        a % b
    } else {
        -((-a) % b)
    }
}

/// The grid point under a pixel offset from the grid's top-left corner.
pub open spec fn spec_grid_point(x: int, y: int, cell_width: int, cell_height: int, offset: int) -> GridPoint {
    GridPoint {
        line: (trunc_div(y, cell_height) + offset) as i64,
        column: trunc_div(x, cell_width) as i64,
    }
}

/// `a` comes before `b` in reading order, or equals it.
pub open spec fn point_le(a: GridPoint, b: GridPoint) -> bool {
    a.line < b.line || (a.line == b.line && a.column <= b.column)
}

/// Truncating division never grows the magnitude.
pub proof fn lemma_trunc_div_bound(a: int, b: int)
    requires
        b >= 1,
    ensures
        a >= 0 ==> 0 <= trunc_div(a, b) <= a,
        a < 0 ==> a <= trunc_div(a, b) <= 0,
{
    if a >= 0 {
        assert(0 <= a / b <= a) by (nonlinear_arith)
            requires
                a >= 0,
                b >= 1,
        ;
    } else {
        assert(0 <= (-a) / b <= -a) by (nonlinear_arith)
            requires
                -a >= 0,
                b >= 1,
        ;
    }
}

/// Truncating division of a signed pixel offset by a positive cell size.
pub fn div_toward_zero(a: i64, b: u32) -> (r: i64)
    requires
        b > 0,
        a > i64::MIN,
    ensures
        r == trunc_div(a as int, b as int),
{
    if a >= 0 {
        a / (b as i64)
    } else {
        let m: i64 = -a;
        -(m / (b as i64))
    }
}

/// Maps a pixel offset from the grid's top-left corner to a grid point: each
/// coordinate is divided by the cell size, and the scrollback display offset
/// is added to the line.
pub fn to_grid_point(x: i64, y: i64, cell_width: u32, cell_height: u32, display_offset: u32) -> (r: GridPoint)
    requires
        cell_width > 0,
        cell_height > 0,
        x > i64::MIN,
        y > i64::MIN,
        y + display_offset <= i64::MAX,
    ensures
        r == spec_grid_point(x as int, y as int, cell_width as int, cell_height as int, display_offset as int),
{
    let column = div_toward_zero(x, cell_width);
    let row = div_toward_zero(y, cell_height);
    proof {
        lemma_trunc_div_bound(y as int, cell_height as int);
    }
    GridPoint { line: row + display_offset as i64, column }
}

/// A text selection between two points, both included. A block selection
/// covers the same columns on every line; otherwise inner lines are covered
/// whole.
#[derive(Clone, Copy, Debug, PartialEq, Eq, Structural)]
pub struct SelectionRange {
    pub start: GridPoint,
    pub end: GridPoint,
    pub is_block: bool,
}

impl SelectionRange {
    pub open spec fn spec_contains(&self, p: GridPoint) -> bool {
        self.start.line <= p.line && self.end.line >= p.line && (self.start.column <= p.column || (
        self.start.line != p.line && !self.is_block)) && (self.end.column >= p.column || (
        self.end.line != p.line && !self.is_block))
    }

    /// Whether the selection covers `p`.
    pub fn contains(&self, p: GridPoint) -> (r: bool)
        ensures
            r == self.spec_contains(p),
    {
        self.start.line <= p.line && self.end.line >= p.line && (self.start.column <= p.column || (
        self.start.line != p.line && !self.is_block)) && (self.end.column >= p.column || (
        self.end.line != p.line && !self.is_block))
    }
}

/// The span of grid points between two points in reading order, both
/// included: the extent of a hyperlink.
#[derive(Clone, Copy, Debug, PartialEq, Eq, Structural)]
pub struct PointRange {
    pub start: GridPoint,
    pub end: GridPoint,
}

impl PointRange {
    pub open spec fn spec_contains(&self, p: GridPoint) -> bool {
        point_le(self.start, p) && point_le(p, self.end)
    }

    /// Whether `p` lies between the two ends.
    pub fn contains(&self, p: GridPoint) -> (r: bool)
        ensures
            r == self.spec_contains(p),
    {
        let after_start = self.start.line < p.line || (self.start.line == p.line
            && self.start.column <= p.column);
        let before_end = p.line < self.end.line || (p.line == self.end.line && p.column
            <= self.end.column);
        after_start && before_end
    }
}

} // verus!
