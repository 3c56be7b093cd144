use vstd::prelude::*;
use crate::bindings::{action_for, BindingsLayout, InputKind, InputView, PointerButton};
use crate::command::{
    write_action, ActionView, BackendCommand, CommandView, InputAction, LinkAction, MouseButton,
    SelectionType,
};
use crate::encode::ESC;
use crate::event::WheelUnit;
use crate::grid::{spec_grid_point, to_grid_point, trunc_div, trunc_rem, GridPoint};
use crate::mode::{Modifiers, TerminalMode};
use crate::state::{carry_bound, TerminalViewState, ViewModel};

verus! {

/// Where the widget sits and how the toolkit counted the current click.
#[derive(Clone, Copy, Debug, PartialEq, Eq, Structural)]
pub struct WidgetLayout {
    /// The widget's top-left corner, in toolkit pixels.
    pub origin_x: i32,
    pub origin_y: i32,
    /// The current click is the second of a double click.
    pub double_clicked: bool,
    /// The current click is the third of a triple click.
    pub triple_clicked: bool,
}

/// The cell size in pixels and how far the view is scrolled into history.
#[derive(Clone, Copy, Debug, PartialEq, Eq, Structural)]
pub struct GridMetrics {
    pub cell_width: u32,
    pub cell_height: u32,
    pub display_offset: u32,
}

impl GridMetrics {
    pub open spec fn wf(&self) -> bool {
        self.cell_width > 0 && self.cell_height > 0
    }
}

/// Hundredths of a line per line of a line-unit wheel delta.
pub const LINE_DELTA_SCALE: i64 = 100;

/// Whole lines of a line-unit wheel delta: the magnitude rounded up, the
/// sign kept.
pub open spec fn line_steps(d: int) -> int {
    if d > 0 {
        (d + 99) / 100
    } else if d < 0 {
        -((-d + 99) / 100)
    } else {
        0
    }
}

/// One pixel-unit wheel event: the delta, sign inverted, joins the carried
/// pixels; the whole rows are the lines (rounded toward zero) and the rest is
/// carried on. Returns the lines and the new carry.
pub open spec fn wheel_step(carry: int, delta: int, font_size: int) -> (int, int) {
    (trunc_div(carry - delta, font_size), trunc_rem(carry - delta, font_size))
}

/// The lines of a wheel event and the carry after it.
pub open spec fn spec_wheel_lines(carry: int, font_size: int, unit: WheelUnit, delta: int) -> (int, int) {
    match unit {
        WheelUnit::Line => (line_steps(delta), carry),
        WheelUnit::Point => wheel_step(carry, delta, font_size),
        WheelUnit::Page => (0, carry),
    }
}

/// `n` cursor-key sequences `ESC O dir`, one after another.
pub open spec fn arrow_keys(dir: u8, n: nat) -> Seq<u8>
    decreases n,
{
    if n == 0 {
        Seq::empty()
    } else {
        arrow_keys(dir, (n - 1) as nat) + seq![ESC, 0x4f, dir]
    }
}

pub open spec fn abs(n: int) -> nat {
    if n < 0 {
        (-n) as nat
    } else {
        n as nat
    }
}

/// What `lines` of wheel motion do, in priority order: a mouse report where
/// the program takes mouse reports (one per event, direction only); cursor
/// keys on the alternate screen with alternate scroll; else scrollback.
pub open spec fn spec_scroll_action(lines: int, mode: TerminalMode, pointer: GridPoint) -> ActionView {
    if lines == 0 {
        ActionView::Ignore
    } else if mode.spec_mouse_mode() {
        ActionView::BackendCall(
            CommandView::MouseReport(
                if lines > 0 {
                    MouseButton::ScrollDown
                } else {
                    MouseButton::ScrollUp
                },
                Modifiers { alt: false, ctrl: false, shift: false, mac_cmd: false, command: false },
                pointer,
                true,
            ),
        )
    } else if mode.spec_alt_scroll() {
        write_action(
            arrow_keys(
                if lines > 0 {
                    0x42u8
                } else {
                    0x41u8
                },
                abs(lines),
            ),
        )
    } else {
        ActionView::BackendCall(CommandView::Scroll(lines as i64))
    }
}

/// Turns a wheel event into whole lines, carrying the pixels of a partial
/// row in `state` to the next event.
pub fn wheel_lines(state: &mut TerminalViewState, font_size: u32, unit: WheelUnit, delta_y: i32) -> (r: i64)
    requires
        old(state)@.wf(),
        font_size > 0,
    ensures
        final(state)@.wf(),
        (r as int, final(state).scroll_pixels as int) == spec_wheel_lines(
            old(state).scroll_pixels as int,
            font_size as int,
            unit,
            delta_y as int,
        ),
        final(state)@ == (ViewModel { scroll_pixels: final(state).scroll_pixels as int, ..old(state)@ }),
{
    match unit {
        WheelUnit::Line => {
            let d = delta_y as i64;
            if d > 0 {
                (d + 99) / LINE_DELTA_SCALE
            } else if d < 0 {
                -((-d + 99) / LINE_DELTA_SCALE)
            } else {
                0
            }
        },
        WheelUnit::Point => {
            let a: i64 = state.scroll_pixels - delta_y as i64;
            let f = font_size as i64;
            let (lines, rest) = if a >= 0 {
                (a / f, a % f)
            } else {
                let m: i64 = -a;
                (-(m / f), -(m % f))
            };
            proof {
                assert(-(f as int) < rest < f) by (nonlinear_arith)
                    requires
                        rest == trunc_rem(a as int, f as int),
                        f >= 1,
                ;
            }
            state.scroll_pixels = rest;
            lines
        },
        WheelUnit::Page => 0,
    }
}

/// The `n` cursor-key sequences `ESC O dir`.
pub fn arrow_key_bytes(dir: u8, n: i64) -> (r: Vec<u8>)
    requires
        n >= 0,
    ensures
        r@ == arrow_keys(dir, n as nat),
{
    let mut out: Vec<u8> = Vec::new();
    let mut i: i64 = 0;
    while i < n
        invariant
            0 <= i <= n,
            out@ == arrow_keys(dir, i as nat),
        decreases n - i,
    {
        out.push(ESC);
        out.push(0x4f);
        out.push(dir);
        i = i + 1;
        assert(out@ =~= arrow_keys(dir, i as nat));
    }
    out
}

/// What `lines` of wheel motion do in terminal mode `mode`, with the pointer
/// over `pointer`.
pub fn scroll_action(lines: i64, mode: &TerminalMode, pointer: GridPoint) -> (r: InputAction)
    requires
        lines > i64::MIN,
    ensures
        r@ == spec_scroll_action(lines as int, *mode, pointer),
        lines != 0 && mode.spec_mouse_mode() ==> (r@ matches ActionView::BackendCall(
            CommandView::MouseReport(_, _, _, _),
        )),
{
    if lines == 0 {
        InputAction::Ignore
    } else if mode.mouse_mode() {
        let button = if lines > 0 {
            MouseButton::ScrollDown
        } else {
            MouseButton::ScrollUp
        };
        InputAction::BackendCall(
            BackendCommand::MouseReport(button, Modifiers::none(), pointer, true),
        )
    } else if mode.alt_scroll() {
        let dir: u8 = if lines > 0 {
            0x42
        } else {
            0x41
        };
        let n: i64 = if lines < 0 {
            -lines
        } else {
            lines
        };
        InputAction::BackendCall(BackendCommand::Write(arrow_key_bytes(dir, n)))
    } else {
        InputAction::BackendCall(BackendCommand::Scroll(lines))
    }
}

/// A wheel event: whole lines are taken out of the motion (pixels carry over
/// in `state`) and turned into a mouse report, cursor keys or scrollback.
pub fn process_mouse_wheel(
    state: &mut TerminalViewState,
    font_size: u32,
    unit: WheelUnit,
    delta_y: i32,
    mode: &TerminalMode,
) -> (r: InputAction)
    requires
        old(state)@.wf(),
        font_size > 0,
    ensures
        final(state)@.wf(),
        final(state)@ == (ViewModel {
            scroll_pixels: spec_wheel_lines(
                old(state).scroll_pixels as int,
                font_size as int,
                unit,
                delta_y as int,
            ).1,
            ..old(state)@
        }),
        r@ == spec_scroll_action(
            spec_wheel_lines(old(state).scroll_pixels as int, font_size as int, unit, delta_y as int).0,
            *mode,
            old(state).current_mouse_position_on_grid,
        ),
        mode.spec_mouse_mode() ==> (r@ matches ActionView::Ignore) || (r@ matches ActionView::BackendCall(
            CommandView::MouseReport(_, _, _, _),
        )),
{
    let lines = wheel_lines(state, font_size, unit, delta_y);
    proof {
        let a = old(state).scroll_pixels as int - delta_y as int;
        crate::grid::lemma_trunc_div_bound(a, font_size as int);
    }
    scroll_action(lines, mode, state.current_mouse_position_on_grid)
}

/// The sum of a sequence of wheel deltas.
pub open spec fn sum_deltas(ds: Seq<i32>) -> int
    decreases ds.len(),
{
    if ds.len() == 0 {
        0
    } else {
        sum_deltas(ds.drop_last()) + ds.last()
    }
}

/// The total lines of a run of pixel-unit wheel events, and the carry after
/// them, starting from `carry`.
pub open spec fn wheel_run(carry: int, ds: Seq<i32>, font_size: int) -> (int, int)
    decreases ds.len(),
{
    if ds.len() == 0 {
        (0, carry)
    } else {
        let prev = wheel_run(carry, ds.drop_last(), font_size);
        let step = wheel_step(prev.1, ds.last() as int, font_size);
        (prev.0 + step.0, step.1)
    }
}

/// Truncating division and its remainder recombine, and the remainder is
/// below the divisor in magnitude.
pub proof fn lemma_trunc_div_rem(a: int, f: int)
    requires
        f >= 1,
    ensures
        a == trunc_div(a, f) * f + trunc_rem(a, f),
        -f < trunc_rem(a, f) < f,
{
    if a >= 0 {
        assert(a == (a / f) * f + a % f && 0 <= a % f < f) by (nonlinear_arith)
            requires
                a >= 0,
                f >= 1,
        ;
    } else {
        let m = -a;
        assert(m == (m / f) * f + m % f && 0 <= m % f < f) by (nonlinear_arith)
            requires
                m >= 0,
                f >= 1,
        ;
        assert(-(m / f) * f == -((m / f) * f)) by (nonlinear_arith);
    }
}

/// Over any run, the pixels put in equal the lines taken out (in rows) plus
/// what is still carried, and after at least one event the carry is below one
/// row.
pub proof fn lemma_wheel_run_balance(carry: int, ds: Seq<i32>, font_size: int)
    requires
        font_size >= 1,
    ensures
        carry - sum_deltas(ds) == wheel_run(carry, ds, font_size).0 * font_size + wheel_run(
            carry,
            ds,
            font_size,
        ).1,
        ds.len() > 0 ==> -font_size < wheel_run(carry, ds, font_size).1 < font_size,
    decreases ds.len(),
{
    if ds.len() > 0 {
        lemma_wheel_run_balance(carry, ds.drop_last(), font_size);
        let prev = wheel_run(carry, ds.drop_last(), font_size);
        let a = prev.1 - ds.last() as int;
        lemma_trunc_div_rem(a, font_size);
        assert((prev.0 + trunc_div(a, font_size)) * font_size == prev.0 * font_size + trunc_div(
            a,
            font_size,
        ) * font_size) by (nonlinear_arith);
    }
}

/// Pixel-unit wheel events whose deltas add up to `k` rows of the font, cut
/// into events in any way and starting with nothing carried, scroll by
/// exactly `k` lines against the motion and leave nothing carried.
pub proof fn lemma_wheel_chunking(ds: Seq<i32>, font_size: int, k: int)
    requires
        font_size >= 1,
        sum_deltas(ds) == k * font_size,
    ensures
        wheel_run(0, ds, font_size).0 == -k,
        wheel_run(0, ds, font_size).1 == 0,
{
    lemma_wheel_run_balance(0, ds, font_size);
    let lines = wheel_run(0, ds, font_size).0;
    let rest = wheel_run(0, ds, font_size).1;
    if ds.len() == 0 {
        assert(k * font_size == 0);
        assert(k == 0) by (nonlinear_arith)
            requires
                k * font_size == 0,
                font_size >= 1,
        ;
    } else {
        assert(rest == -(k + lines) * font_size) by (nonlinear_arith)
            requires
                0 - k * font_size == lines * font_size + rest,
        ;
        assert(k + lines == 0) by (nonlinear_arith)
            requires
                rest == -(k + lines) * font_size,
                -font_size < rest < font_size,
                font_size >= 1,
        ;
        assert(rest == 0) by (nonlinear_arith)
            requires
                rest == -(k + lines) * font_size,
                k + lines == 0,
        ;
    }
}

/// The granularity that a click selects: words on a double click, lines on a
/// triple click, cells otherwise.
pub open spec fn selection_kind(double_clicked: bool, triple_clicked: bool) -> SelectionType {
    if double_clicked {
        SelectionType::Semantic
    } else if triple_clicked {
        SelectionType::Lines
    } else {
        SelectionType::Simple
    }
}

/// A selection start at the click, relative to the widget's top-left corner.
pub open spec fn spec_select_start(layout: WidgetLayout, x: int, y: int) -> CommandView {
    CommandView::SelectStart(
        selection_kind(layout.double_clicked, layout.triple_clicked),
        (x - layout.origin_x) as i64,
        (y - layout.origin_y) as i64,
    )
}

/// The action of a primary-button event and whether a drag is under way
/// after it. Where the program takes mouse reports the event is reported
/// and the drag state is kept. Otherwise a press starts a selection and a
/// drag; a release ends the drag, and starts a new selection where it
/// completes a double or triple click, or opens the hyperlink under the
/// pointer where the primary button is bound to that.
pub open spec fn spec_left_button(
    m: ViewModel,
    table: Seq<(crate::bindings::Binding, crate::bindings::BindingAction)>,
    mode: TerminalMode,
    layout: WidgetLayout,
    x: int,
    y: int,
    mods: Modifiers,
    pressed: bool,
) -> (ActionView, bool) {
    if mode.spec_mouse_mode() {
        (
            ActionView::BackendCall(
                CommandView::MouseReport(MouseButton::LeftButton, mods, m.pointer, pressed),
            ),
            m.is_dragged,
        )
    } else if pressed {
        (ActionView::BackendCall(spec_select_start(layout, x, y)), true)
    } else if layout.double_clicked || layout.triple_clicked {
        (ActionView::BackendCall(spec_select_start(layout, x, y)), false)
    } else if action_for(table, InputView::Mouse(PointerButton::Primary), mods, mode) is LinkOpen {
        (ActionView::BackendCall(CommandView::ProcessLink(LinkAction::Open, m.pointer)), false)
    } else {
        (ActionView::Ignore, false)
    }
}

/// The selection start for a click at toolkit pixel (`x`, `y`).
pub fn build_start_select_command(layout: &WidgetLayout, x: i32, y: i32) -> (r: BackendCommand)
    ensures
        r@ == spec_select_start(*layout, x as int, y as int),
{
    let kind = if layout.double_clicked {
        SelectionType::Semantic
    } else if layout.triple_clicked {
        SelectionType::Lines
    } else {
        SelectionType::Simple
    };
    BackendCommand::SelectStart(
        kind,
        x as i64 - layout.origin_x as i64,
        y as i64 - layout.origin_y as i64,
    )
}

/// A primary-button press outside mouse-report mode: a drag begins.
pub fn process_left_button_pressed(state: &mut TerminalViewState, layout: &WidgetLayout, x: i32, y: i32) -> (r: InputAction)
    ensures
        final(state)@ == (ViewModel { is_dragged: true, ..old(state)@ }),
        r@ == ActionView::BackendCall(spec_select_start(*layout, x as int, y as int)),
{
    state.is_dragged = true;
    InputAction::BackendCall(build_start_select_command(layout, x, y))
}

/// A primary-button release outside mouse-report mode: the drag ends.
pub fn process_left_button_released(
    state: &mut TerminalViewState,
    layout: &WidgetLayout,
    bindings: &BindingsLayout,
    mode: &TerminalMode,
    x: i32,
    y: i32,
    mods: &Modifiers,
) -> (r: InputAction)
    requires
        !mode.spec_mouse_mode(),
    ensures
        final(state)@ == (ViewModel { is_dragged: false, ..old(state)@ }),
        r@ == spec_left_button(old(state)@, bindings.layout@, *mode, *layout, x as int, y as int, *mods, false).0,
{
    state.is_dragged = false;
    if layout.double_clicked || layout.triple_clicked {
        InputAction::BackendCall(build_start_select_command(layout, x, y))
    } else {
        let action = bindings.get_action(&InputKind::Mouse(PointerButton::Primary), mods, mode);
        if action.is_link_open() {
            InputAction::BackendCall(
                BackendCommand::ProcessLink(LinkAction::Open, state.current_mouse_position_on_grid),
            )
        } else {
            InputAction::Ignore
        }
    }
}

/// A primary-button event.
pub fn process_left_button(
    state: &mut TerminalViewState,
    layout: &WidgetLayout,
    bindings: &BindingsLayout,
    mode: &TerminalMode,
    x: i32,
    y: i32,
    mods: &Modifiers,
    pressed: bool,
) -> (r: InputAction)
    ensures
        final(state)@ == (ViewModel {
            is_dragged: spec_left_button(old(state)@, bindings.layout@, *mode, *layout, x as int, y as int, *mods, pressed).1,
            ..old(state)@
        }),
        r@ == spec_left_button(old(state)@, bindings.layout@, *mode, *layout, x as int, y as int, *mods, pressed).0,
{
    if mode.mouse_mode() {
        InputAction::BackendCall(
            BackendCommand::MouseReport(
                MouseButton::LeftButton,
                *mods,
                state.current_mouse_position_on_grid,
                pressed,
            ),
        )
    } else if pressed {
        process_left_button_pressed(state, layout, x, y)
    } else {
        process_left_button_released(state, layout, bindings, mode, x, y, mods)
    }
}

/// A pointer-button event: the primary button drives selection and links;
/// other buttons do nothing.
pub fn process_button_click(
    state: &mut TerminalViewState,
    layout: &WidgetLayout,
    bindings: &BindingsLayout,
    mode: &TerminalMode,
    button: PointerButton,
    x: i32,
    y: i32,
    mods: &Modifiers,
    pressed: bool,
) -> (r: InputAction)
    ensures
        button == PointerButton::Primary ==> final(state)@ == (ViewModel {
            is_dragged: spec_left_button(old(state)@, bindings.layout@, *mode, *layout, x as int, y as int, *mods, pressed).1,
            ..old(state)@
        }),
        button == PointerButton::Primary ==> r@ == spec_left_button(old(state)@, bindings.layout@, *mode, *layout, x as int, y as int, *mods, pressed).0,
        button != PointerButton::Primary ==> final(state)@ == old(state)@ && r@ == ActionView::Ignore,
{
    match button {
        PointerButton::Primary => process_left_button(state, layout, bindings, mode, x, y, mods, pressed),
        _ => InputAction::Ignore,
    }
}

/// Outside mouse-report mode, a press starts a selection whose kind follows
/// the click count (cells for a single click, words for a double click,
/// lines for a triple click), and so does a release that completes a double
/// or triple click.
pub proof fn lemma_click_selection_kind(
    m: ViewModel,
    table: Seq<(crate::bindings::Binding, crate::bindings::BindingAction)>,
    mode: TerminalMode,
    layout: WidgetLayout,
    x: int,
    y: int,
    mods: Modifiers,
    pressed: bool,
)
    requires
        !mode.spec_mouse_mode(),
        pressed || layout.double_clicked || layout.triple_clicked,
    ensures
        spec_left_button(m, table, mode, layout, x, y, mods, pressed).0 == ActionView::BackendCall(
            CommandView::SelectStart(
                selection_kind(layout.double_clicked, layout.triple_clicked),
                (x - layout.origin_x) as i64,
                (y - layout.origin_y) as i64,
            ),
        ),
        !layout.double_clicked && !layout.triple_clicked ==> selection_kind(
            layout.double_clicked,
            layout.triple_clicked,
        ) == SelectionType::Simple,
        layout.double_clicked ==> selection_kind(layout.double_clicked, layout.triple_clicked)
            == SelectionType::Semantic,
        !layout.double_clicked && layout.triple_clicked ==> selection_kind(
            layout.double_clicked,
            layout.triple_clicked,
        ) == SelectionType::Lines,
{
}

/// The grid point under toolkit pixel (`x`, `y`) and the actions of a
/// pointer move. While dragging, the move is reported where the program
/// takes motion reports and no modifier is held, and extends the selection
/// otherwise; with the command key alone held, the hyperlink under the
/// pointer is hovered.
pub open spec fn spec_mouse_move(
    m: ViewModel,
    layout: WidgetLayout,
    metrics: GridMetrics,
    mode: TerminalMode,
    x: int,
    y: int,
    mods: Modifiers,
) -> (GridPoint, Seq<ActionView>) {
    let cx = x - layout.origin_x;
    let cy = y - layout.origin_y;
    let p = spec_grid_point(cx, cy, metrics.cell_width as int, metrics.cell_height as int, metrics.display_offset as int);
    let drag = if m.is_dragged {
        if mode.mouse_motion && mods.spec_is_none() {
            seq![ActionView::BackendCall(CommandView::MouseReport(MouseButton::LeftMove, mods, p, true))]
        } else {
            seq![ActionView::BackendCall(CommandView::SelectUpdate(cx as i64, cy as i64))]
        }
    } else {
        Seq::empty()
    };
    let hover = if mods.spec_command_only() {
        seq![ActionView::BackendCall(CommandView::ProcessLink(LinkAction::Hover, p))]
    } else {
        Seq::empty()
    };
    (p, drag + hover)
}

/// The views of a list of actions.
pub open spec fn actions_view(v: Seq<InputAction>) -> Seq<ActionView> {
    v.map_values(|a: InputAction| a@)
}

/// A pointer move: records the grid point under the pointer and returns the
/// drag and hover actions.
pub fn process_mouse_move(
    state: &mut TerminalViewState,
    layout: &WidgetLayout,
    metrics: &GridMetrics,
    mode: &TerminalMode,
    x: i32,
    y: i32,
    mods: &Modifiers,
) -> (r: Vec<InputAction>)
    requires
        metrics.wf(),
    ensures
        final(state)@ == (ViewModel {
            pointer: spec_mouse_move(old(state)@, *layout, *metrics, *mode, x as int, y as int, *mods).0,
            ..old(state)@
        }),
        actions_view(r@) == spec_mouse_move(old(state)@, *layout, *metrics, *mode, x as int, y as int, *mods).1,
{
    let cx: i64 = x as i64 - layout.origin_x as i64;
    let cy: i64 = y as i64 - layout.origin_y as i64;
    let p = to_grid_point(cx, cy, metrics.cell_width, metrics.cell_height, metrics.display_offset);
    state.current_mouse_position_on_grid = p;
    let mut actions: Vec<InputAction> = Vec::new();
    if state.is_dragged {
        let cmd = if mode.mouse_motion && mods.is_none() {
            BackendCommand::MouseReport(MouseButton::LeftMove, *mods, p, true)
        } else {
            BackendCommand::SelectUpdate(cx, cy)
        };
        actions.push(InputAction::BackendCall(cmd));
    }
    if mods.command_only() {
        actions.push(InputAction::BackendCall(BackendCommand::ProcessLink(LinkAction::Hover, p)));
    }
    assert(actions_view(actions@) =~= spec_mouse_move(old(state)@, *layout, *metrics, *mode, x as int, y as int, *mods).1);
    actions
}

} // verus!
