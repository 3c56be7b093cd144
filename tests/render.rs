use egui_term::render::{RenderCell, RenderSnapshot, Rgba, Shape};
use egui_term::{render, GridPoint, PointRange, SelectionRange};

const BLACK: Rgba = Rgba { r: 0, g: 0, b: 0, a: 255 };
const WHITE: Rgba = Rgba { r: 255, g: 255, b: 255, a: 255 };
const RED: Rgba = Rgba { r: 255, g: 0, b: 0, a: 255 };
const GREEN: Rgba = Rgba { r: 0, g: 255, b: 0, a: 255 };

fn cell(line: i64, column: i64, c: char) -> RenderCell {
    RenderCell {
        point: GridPoint { line, column },
        c,
        fg: WHITE,
        bg: BLACK,
        wide_char: false,
        wide_char_spacer: false,
        inverse: false,
        search_match: false,
        focused_search_match: false,
    }
}

fn snapshot(cells: Vec<RenderCell>) -> RenderSnapshot {
    RenderSnapshot {
        cells,
        origin_x: 1000,
        origin_y: 2000,
        width: 50000,
        height: 40000,
        cell_width: 800,
        cell_height: 1600,
        display_offset: 0,
        background: BLACK,
        cursor_color: GREEN,
        cursor: GridPoint { line: 9, column: 9 },
        selection: None,
        hovered_link: None,
        pointer: GridPoint { line: 0, column: 0 },
        search_active: false,
        app_cursor: false,
    }
}

fn background() -> Shape {
    Shape::Fill { x: 1000, y: 2000, w: 50000, h: 40000, color: BLACK }
}

#[test]
fn render_plain_cell_draws_only_glyph() {
    let shapes = render(&snapshot(vec![cell(1, 2, 'a'), cell(1, 3, ' ')]));
    assert_eq!(
        shapes,
        vec![background(), Shape::Glyph { x: 1000 + 1600 + 400, y: 2000 + 1600, c: 'a', color: WHITE }]
    );
}

#[test]
fn render_skips_wide_spacer_and_doubles_wide_cell() {
    let mut wide = cell(0, 0, 'x');
    wide.wide_char = true;
    wide.bg = RED;
    let mut spacer = cell(0, 1, ' ');
    spacer.wide_char_spacer = true;
    spacer.bg = RED;
    let shapes = render(&snapshot(vec![wide, spacer]));
    assert_eq!(
        shapes,
        vec![
            background(),
            Shape::Fill { x: 1000, y: 2000, w: 1700, h: 1700, color: RED },
            Shape::Glyph { x: 1800, y: 2000, c: 'x', color: WHITE },
        ]
    );
}

#[test]
fn render_selection_swaps_and_overlays_in_order() {
    let mut snap = snapshot(vec![cell(2, 1, 'q')]);
    snap.display_offset = 1;
    snap.selection = Some(SelectionRange {
        start: GridPoint { line: 2, column: 0 },
        end: GridPoint { line: 2, column: 4 },
        is_block: false,
    });
    snap.search_active = true;
    snap.cells[0].search_match = true;
    snap.cells[0].focused_search_match = true;
    snap.hovered_link = Some(PointRange { start: GridPoint { line: 2, column: 0 }, end: GridPoint { line: 2, column: 3 } });
    snap.pointer = GridPoint { line: 2, column: 2 };
    snap.cursor = GridPoint { line: 2, column: 1 };
    snap.app_cursor = true;
    let (x, y) = (1000 + 800, 2000 + 1600 * 3);
    let shapes = render(&snap);
    assert_eq!(
        shapes,
        vec![
            background(),
            Shape::Fill { x, y, w: 900, h: 1700, color: WHITE },
            Shape::Fill { x, y, w: 900, h: 1700, color: Rgba { r: 255, g: 140, b: 0, a: 255 } },
            Shape::Underline { x0: x, x1: x + 800, y: y + 1600, cell_height: 1600, color: BLACK },
            Shape::Fill { x, y, w: 800, h: 1600, color: GREEN },
            Shape::Glyph { x: x + 400, y, c: 'q', color: WHITE },
        ]
    );
}

#[test]
fn render_search_match_unfocused_and_tab() {
    let mut snap = snapshot(vec![cell(0, 0, '\t')]);
    snap.search_active = true;
    snap.cells[0].search_match = true;
    let shapes = render(&snap);
    assert_eq!(
        shapes,
        vec![background(), Shape::Fill { x: 1000, y: 2000, w: 900, h: 1700, color: Rgba { r: 255, g: 165, b: 0, a: 255 } }]
    );
}
