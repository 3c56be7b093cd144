use vstd::prelude::*;
use crate::grid::{GridPoint, PointRange, SelectionRange};

verus! {

/// Lengths in a render plan are in hundredths of a pixel.
pub const SUBPIXELS: i64 = 100;

/// A colour with red, green, blue and alpha channels.
#[derive(Clone, Copy, Debug, PartialEq, Eq, Structural)]
pub struct Rgba {
    pub r: u8,
    pub g: u8,
    pub b: u8,
    pub a: u8,
}

/// The highlight of a search match.
pub open spec fn search_highlight() -> Rgba {
    Rgba { r: 255, g: 165, b: 0, a: 255 }
}

/// The highlight of the focused search match.
pub open spec fn focused_search_highlight() -> Rgba {
    Rgba { r: 255, g: 140, b: 0, a: 255 }
}

/// One visible cell of the terminal grid, its colours already resolved
/// through the theme.
#[derive(Clone, Copy, Debug, PartialEq, Eq, Structural)]
pub struct RenderCell {
    pub point: GridPoint,
    pub c: char,
    /// The foreground, already dimmed where the cell is dim.
    pub fg: Rgba,
    pub bg: Rgba,
    /// The cell holds a double-width character.
    pub wide_char: bool,
    /// The cell continues the double-width character to its left.
    pub wide_char_spacer: bool,
    /// Foreground and background are swapped.
    pub inverse: bool,
    /// The cell lies in a match of the search.
    pub search_match: bool,
    /// The cell lies in the focused match of the search.
    pub focused_search_match: bool,
}

/// Everything that one frame's drawing reads.
#[derive(Debug)]
pub struct RenderSnapshot {
    /// The visible cells, top to bottom and left to right.
    pub cells: Vec<RenderCell>,
    /// The widget's top-left corner and size, in hundredths of a pixel.
    pub origin_x: i32,
    pub origin_y: i32,
    pub width: u32,
    pub height: u32,
    /// The cell size, in hundredths of a pixel.
    pub cell_width: u16,
    pub cell_height: u16,
    pub display_offset: u32,
    pub background: Rgba,
    pub cursor_color: Rgba,
    pub cursor: GridPoint,
    pub selection: Option<SelectionRange>,
    pub hovered_link: Option<PointRange>,
    /// The grid point under the pointer.
    pub pointer: GridPoint,
    pub search_active: bool,
    /// Cursor keys send application sequences.
    pub app_cursor: bool,
}

/// A draw primitive. Coordinates are in hundredths of a pixel.
#[derive(Clone, Copy, Debug, PartialEq, Eq, Structural)]
pub enum Shape {
    /// A filled rectangle from (`x`, `y`) with size (`w`, `h`).
    Fill { x: i64, y: i64, w: i64, h: i64, color: Rgba },
    /// A hyperlink underline from (`x0`, `y`) to (`x1`, `y`) under a cell of
    /// height `cell_height`, whose thickness follows that height.
    Underline { x0: i64, x1: i64, y: i64, cell_height: i64, color: Rgba },
    /// A glyph whose top edge is centred on (`x`, `y`).
    Glyph { x: i64, y: i64, c: char, color: Rgba },
}

/// A cell coordinate that the renderer can place without overflow.
pub open spec fn cell_in_range(cell: RenderCell) -> bool {
    -0x8000_0000 <= cell.point.line <= 0x7fff_ffff && 0 <= cell.point.column <= 0xffff_ffff
}

impl RenderSnapshot {
    pub open spec fn wf(&self) -> bool {
        forall|i: int| 0 <= i < self.cells@.len() ==> cell_in_range(#[trigger] self.cells@[i])
    }
}

/// Whether the cell is selected.
pub open spec fn is_selected(snap: RenderSnapshot, p: GridPoint) -> bool {
    match snap.selection {
        Some(r) => r.spec_contains(p),
        None => false,
    }
}

/// Whether the cell lies in the hovered hyperlink, and the pointer does too.
pub open spec fn is_hovered_link(snap: RenderSnapshot, p: GridPoint) -> bool {
    match snap.hovered_link {
        Some(r) => r.spec_contains(p) && r.spec_contains(snap.pointer),
        None => false,
    }
}

/// The left edge of a cell.
pub open spec fn cell_x(snap: RenderSnapshot, cell: RenderCell) -> int {
    snap.origin_x + snap.cell_width * cell.point.column
}

/// The top edge of a cell: its line counted from the top of the view.
pub open spec fn cell_y(snap: RenderSnapshot, cell: RenderCell) -> int {
    snap.origin_y + snap.cell_height * (cell.point.line + snap.display_offset)
}

/// The width of a cell: two cells for a double-width character.
pub open spec fn cell_w(snap: RenderSnapshot, cell: RenderCell) -> int {
    if cell.wide_char {
        2 * snap.cell_width
    } else {
        snap.cell_width as int
    }
}

/// The colours swap for inverse and for selected cells.
pub open spec fn swapped(snap: RenderSnapshot, cell: RenderCell) -> bool {
    cell.inverse || is_selected(snap, cell.point)
}

pub open spec fn cell_fg(snap: RenderSnapshot, cell: RenderCell) -> Rgba {
    if swapped(snap, cell) { cell.bg } else { cell.fg }
}

pub open spec fn cell_bg(snap: RenderSnapshot, cell: RenderCell) -> Rgba {
    if swapped(snap, cell) { cell.fg } else { cell.bg }
}

/// The cell's own background, one pixel larger than the cell to close the
/// seams, where it differs from the widget's background.
pub open spec fn back_shapes(snap: RenderSnapshot, cell: RenderCell) -> Seq<Shape> {
    if cell_bg(snap, cell) != snap.background {
        seq![Shape::Fill {
            x: cell_x(snap, cell) as i64,
            y: cell_y(snap, cell) as i64,
            w: (cell_w(snap, cell) + SUBPIXELS) as i64,
            h: (snap.cell_height + SUBPIXELS) as i64,
            color: cell_bg(snap, cell),
        }]
    } else {
        Seq::empty()
    }
}

/// The search highlight of a cell in a match of an active search.
pub open spec fn highlight_shapes(snap: RenderSnapshot, cell: RenderCell) -> Seq<Shape> {
    if snap.search_active && cell.search_match {
        seq![Shape::Fill {
            x: cell_x(snap, cell) as i64,
            y: cell_y(snap, cell) as i64,
            w: (cell_w(snap, cell) + SUBPIXELS) as i64,
            h: (snap.cell_height + SUBPIXELS) as i64,
            color: if cell.focused_search_match { focused_search_highlight() } else { search_highlight() },
        }]
    } else {
        Seq::empty()
    }
}

/// The underline of a cell of the hovered hyperlink, along its bottom edge.
pub open spec fn underline_shapes(snap: RenderSnapshot, cell: RenderCell) -> Seq<Shape> {
    if is_hovered_link(snap, cell.point) {
        seq![Shape::Underline {
            x0: cell_x(snap, cell) as i64,
            x1: (cell_x(snap, cell) + cell_w(snap, cell)) as i64,
            y: (cell_y(snap, cell) + snap.cell_height) as i64,
            cell_height: snap.cell_height as i64,
            color: cell_fg(snap, cell),
        }]
    } else {
        Seq::empty()
    }
}

/// The cursor box over the cursor cell.
pub open spec fn cursor_shapes(snap: RenderSnapshot, cell: RenderCell) -> Seq<Shape> {
    if snap.cursor == cell.point {
        seq![Shape::Fill {
            x: cell_x(snap, cell) as i64,
            y: cell_y(snap, cell) as i64,
            w: cell_w(snap, cell) as i64,
            h: snap.cell_height as i64,
            color: snap.cursor_color,
        }]
    } else {
        Seq::empty()
    }
}

/// The glyph of a cell that holds neither a space nor a tab, centred on the
/// cell; on the cursor cell in application-cursor mode it takes the
/// background colour.
pub open spec fn glyph_shapes(snap: RenderSnapshot, cell: RenderCell) -> Seq<Shape> {
    if cell.c != ' ' && cell.c != '\t' {
        seq![Shape::Glyph {
            x: (cell_x(snap, cell) + cell_w(snap, cell) / 2) as i64,
            y: cell_y(snap, cell) as i64,
            c: cell.c,
            color: if snap.cursor == cell.point && snap.app_cursor { cell_bg(snap, cell) } else { cell_fg(snap, cell) },
        }]
    } else {
        Seq::empty()
    }
}

/// The shapes of one cell, in drawing order: its background, the search
/// highlight, the hyperlink underline, the cursor, and the glyph. A
/// continuation cell of a wide character draws nothing.
pub open spec fn cell_shapes(snap: RenderSnapshot, cell: RenderCell) -> Seq<Shape> {
    if cell.wide_char_spacer {
        Seq::empty()
    } else {
        back_shapes(snap, cell) + highlight_shapes(snap, cell) + underline_shapes(snap, cell)
            + cursor_shapes(snap, cell) + glyph_shapes(snap, cell)
    }
}

/// The shapes of a run of cells, in order.
pub open spec fn cells_shapes(snap: RenderSnapshot, cells: Seq<RenderCell>) -> Seq<Shape>
    decreases cells.len(),
{
    if cells.len() == 0 {
        Seq::empty()
    } else {
        cells_shapes(snap, cells.drop_last()) + cell_shapes(snap, cells.last())
    }
}

/// The whole frame: the widget's background, then every cell in order.
pub open spec fn spec_render(snap: RenderSnapshot) -> Seq<Shape> {
    seq![Shape::Fill { x: snap.origin_x as i64, y: snap.origin_y as i64, w: snap.width as i64, h: snap.height as i64, color: snap.background }]
        + cells_shapes(snap, snap.cells@)
}

/// The left edge, top edge and width of a cell.
fn cell_box(snap: &RenderSnapshot, cell: &RenderCell) -> (r: (i64, i64, i64))
    requires
        cell_in_range(*cell),
    ensures
        r.0 == cell_x(*snap, *cell),
        r.1 == cell_y(*snap, *cell),
        r.2 == cell_w(*snap, *cell),
        0 <= r.2 <= 0x2_0000,
        -0x2_0000_0000_0000 <= r.0 <= 0x2_0000_0000_0000,
        -0x3_0000_0000_0000 <= r.1 <= 0x3_0000_0000_0000,
{
    let cw = snap.cell_width as i64;
    let ch = snap.cell_height as i64;
    let col = cell.point.column;
    let line = cell.point.line + snap.display_offset as i64;
    proof {
        assert(0 <= cw * col <= 0x1_0000 * 0x1_0000_0000) by (nonlinear_arith)
            requires
                0 <= cw <= 0xffff,
                0 <= col <= 0xffff_ffff,
        ;
        assert(-0x1_0000 * 0x8000_0000 <= ch * line <= 0x1_0000 * 0x1_8000_0000) by (nonlinear_arith)
            requires
                0 <= ch <= 0xffff,
                -0x8000_0000 <= line <= 0x1_8000_0000,
        ;
    }
    let x: i64 = snap.origin_x as i64 + cw * col;
    let y: i64 = snap.origin_y as i64 + ch * line;
    let w: i64 = if cell.wide_char {
        2 * cw
    } else {
        cw
    };
    (x, y, w)
}

/// The foreground and background of a cell after the swaps for inverse and
/// selected cells.
fn cell_colors(snap: &RenderSnapshot, cell: &RenderCell) -> (r: (Rgba, Rgba))
    ensures
        r.0 == cell_fg(*snap, *cell),
        r.1 == cell_bg(*snap, *cell),
{
    let selected = match &snap.selection {
        Some(r) => r.contains(cell.point),
        None => false,
    };
    if cell.inverse || selected {
        (cell.bg, cell.fg)
    } else {
        (cell.fg, cell.bg)
    }
}

/// Appends the background and search highlight of a cell.
fn push_fills(snap: &RenderSnapshot, cell: &RenderCell, bx: (i64, i64, i64), bg: Rgba, out: &mut Vec<Shape>)
    requires
        bx.0 == cell_x(*snap, *cell),
        bx.1 == cell_y(*snap, *cell),
        bx.2 == cell_w(*snap, *cell),
        0 <= bx.2 <= 0x2_0000,
        bg == cell_bg(*snap, *cell),
    ensures
        final(out)@ == old(out)@ + back_shapes(*snap, *cell) + highlight_shapes(*snap, *cell),
{
    let (x, y, w) = bx;
    let ch = snap.cell_height as i64;
    if bg != snap.background {
        out.push(Shape::Fill { x, y, w: w + SUBPIXELS, h: ch + SUBPIXELS, color: bg });
    }
    if snap.search_active && cell.search_match {
        let color = if cell.focused_search_match {
            Rgba { r: 255, g: 140, b: 0, a: 255 }
        } else {
            Rgba { r: 255, g: 165, b: 0, a: 255 }
        };
        out.push(Shape::Fill { x, y, w: w + SUBPIXELS, h: ch + SUBPIXELS, color });
    }
    assert(final(out)@ =~= old(out)@ + back_shapes(*snap, *cell) + highlight_shapes(*snap, *cell));
}

/// Appends the hyperlink underline and the cursor box of a cell.
fn push_overlays(snap: &RenderSnapshot, cell: &RenderCell, bx: (i64, i64, i64), fg: Rgba, out: &mut Vec<Shape>)
    requires
        bx.0 == cell_x(*snap, *cell),
        bx.1 == cell_y(*snap, *cell),
        bx.2 == cell_w(*snap, *cell),
        0 <= bx.2 <= 0x2_0000,
        -0x2_0000_0000_0000 <= bx.0 <= 0x2_0000_0000_0000,
        -0x3_0000_0000_0000 <= bx.1 <= 0x3_0000_0000_0000,
        fg == cell_fg(*snap, *cell),
    ensures
        final(out)@ == old(out)@ + underline_shapes(*snap, *cell) + cursor_shapes(*snap, *cell),
{
    let (x, y, w) = bx;
    let ch = snap.cell_height as i64;
    let hovered = match &snap.hovered_link {
        Some(r) => r.contains(cell.point) && r.contains(snap.pointer),
        None => false,
    };
    if hovered {
        out.push(Shape::Underline { x0: x, x1: x + w, y: y + ch, cell_height: ch, color: fg });
    }
    if snap.cursor == cell.point {
        out.push(Shape::Fill { x, y, w, h: ch, color: snap.cursor_color });
    }
    assert(final(out)@ =~= old(out)@ + underline_shapes(*snap, *cell) + cursor_shapes(*snap, *cell));
}

/// Appends the glyph of a cell.
fn push_glyph(snap: &RenderSnapshot, cell: &RenderCell, bx: (i64, i64, i64), fg: Rgba, bg: Rgba, out: &mut Vec<Shape>)
    requires
        bx.0 == cell_x(*snap, *cell),
        bx.1 == cell_y(*snap, *cell),
        bx.2 == cell_w(*snap, *cell),
        0 <= bx.2 <= 0x2_0000,
        -0x2_0000_0000_0000 <= bx.0 <= 0x2_0000_0000_0000,
        fg == cell_fg(*snap, *cell),
        bg == cell_bg(*snap, *cell),
    ensures
        final(out)@ == old(out)@ + glyph_shapes(*snap, *cell),
{
    let (x, y, w) = bx;
    if cell.c != ' ' && cell.c != '\t' {
        let color = if snap.cursor == cell.point && snap.app_cursor {
            bg
        } else {
            fg
        };
        out.push(Shape::Glyph { x: x + w / 2, y, c: cell.c, color });
    }
    assert(final(out)@ =~= old(out)@ + glyph_shapes(*snap, *cell));
}

/// Appends the shapes of one cell to `out`.
fn push_cell_shapes(snap: &RenderSnapshot, cell: &RenderCell, out: &mut Vec<Shape>)
    requires
        cell_in_range(*cell),
    ensures
        final(out)@ == old(out)@ + cell_shapes(*snap, *cell),
{
    if cell.wide_char_spacer {
        assert(old(out)@ + cell_shapes(*snap, *cell) =~= old(out)@);
        return;
    }
    let bx = cell_box(snap, cell);
    let (fg, bg) = cell_colors(snap, cell);
    let ghost start = out@;
    push_fills(snap, cell, bx, bg, out);
    push_overlays(snap, cell, bx, fg, out);
    push_glyph(snap, cell, bx, fg, bg, out);
    assert(out@ =~= start + cell_shapes(*snap, *cell));
}

/// Draws one frame: the primitives in the order in which they are painted.
pub fn render(snap: &RenderSnapshot) -> (r: Vec<Shape>)
    requires
        snap.wf(),
    ensures
        r@ == spec_render(*snap),
{
    let mut out: Vec<Shape> = Vec::new();
    out.push(
        Shape::Fill {
            x: snap.origin_x as i64,
            y: snap.origin_y as i64,
            w: snap.width as i64,
            h: snap.height as i64,
            color: snap.background,
        },
    );
    let ghost first = out@;
    let mut i: usize = 0;
    assert(snap.cells@.take(0) =~= Seq::<RenderCell>::empty());
    while i < snap.cells.len()
        invariant
            snap.wf(),
            i <= snap.cells@.len(),
            out@ == first + cells_shapes(*snap, snap.cells@.take(i as int)),
            first == seq![Shape::Fill { x: snap.origin_x as i64, y: snap.origin_y as i64, w: snap.width as i64, h: snap.height as i64, color: snap.background }],
        decreases snap.cells@.len() - i,
    {
        let cell = &snap.cells[i];
        assert(cell_in_range(snap.cells@[i as int]));
        push_cell_shapes(snap, cell, &mut out);
        assert(snap.cells@.take(i + 1).drop_last() =~= snap.cells@.take(i as int));
        assert(snap.cells@.take(i + 1).last() == *cell);
        i = i + 1;
        assert(out@ =~= first + cells_shapes(*snap, snap.cells@.take(i as int)));
    }
    assert(snap.cells@.take(i as int) =~= snap.cells@);
    out
}

} // verus!
