use vstd::prelude::*;
use crate::bindings::{BindingsLayout, PointerButton};
use crate::command::{ActionView, InputAction};
use crate::event::InputEvent;
use crate::keyboard::{process_keyboard_event, spec_keyboard_event};
use crate::mode::{Modifiers, TerminalMode};
use crate::mouse::{
    actions_view, process_button_click, process_mouse_move, process_mouse_wheel, spec_left_button,
    spec_mouse_move, spec_scroll_action, spec_wheel_lines, GridMetrics, WidgetLayout,
};
use crate::state::{TerminalViewState, ViewModel};

verus! {

/// What the widget knows about the current frame.
#[derive(Clone, Copy, Debug, PartialEq, Eq, Structural)]
pub struct FrameContext {
    /// The widget holds keyboard focus.
    pub has_focus: bool,
    /// The pointer is over the widget.
    pub contains_pointer: bool,
    /// The modifiers held in this frame.
    pub modifiers: Modifiers,
    /// The terminal's current modes.
    pub mode: TerminalMode,
    /// The font size in pixels: one row of wheel motion.
    pub font_size: u32,
    pub layout: WidgetLayout,
    pub metrics: GridMetrics,
    /// The platform's clipboard shortcuts do not collide with the terminal's
    /// Ctrl-C and Ctrl-X, so copy and cut always copy.
    pub native_clipboard: bool,
}

impl FrameContext {
    pub open spec fn wf(&self) -> bool {
        self.font_size > 0 && self.metrics.wf()
    }
}

/// The state after an event and the actions that it asks for, in order.
/// Keyboard-side events count only with focus, wheel and button events only
/// with the pointer over the widget; pointer moves always update the grid
/// point under the pointer.
pub open spec fn spec_process_event(
    m: ViewModel,
    event: InputEvent,
    ctx: FrameContext,
    table: Seq<(crate::bindings::Binding, crate::bindings::BindingAction)>,
    selectable: Seq<char>,
) -> (ViewModel, Seq<ActionView>) {
    match event {
        InputEvent::Text(_) | InputEvent::Key { .. } | InputEvent::Copy | InputEvent::Cut
        | InputEvent::Paste(_) => if ctx.has_focus {
            (
                m,
                seq![
                    spec_keyboard_event(
                        event,
                        table,
                        ctx.modifiers,
                        ctx.mode,
                        m.search_active,
                        selectable,
                        ctx.native_clipboard,
                    ),
                ],
            )
        } else {
            (m, Seq::empty())
        },
        InputEvent::MouseWheel { unit, delta_y } => if ctx.contains_pointer {
            let w = spec_wheel_lines(m.scroll_pixels, ctx.font_size as int, unit, delta_y as int);
            (
                ViewModel { scroll_pixels: w.1, ..m },
                seq![spec_scroll_action(w.0, ctx.mode, m.pointer)],
            )
        } else {
            (m, Seq::empty())
        },
        InputEvent::PointerButton { button, pressed, modifiers, x, y } => if ctx.contains_pointer {
            if button == PointerButton::Primary {
                let b = spec_left_button(
                    m,
                    table,
                    ctx.mode,
                    ctx.layout,
                    x as int,
                    y as int,
                    modifiers,
                    pressed,
                );
                (ViewModel { is_dragged: b.1, ..m }, seq![b.0])
            } else {
                (m, seq![ActionView::Ignore])
            }
        } else {
            (m, Seq::empty())
        },
        InputEvent::PointerMoved { x, y } => {
            let mv = spec_mouse_move(
                m,
                ctx.layout,
                ctx.metrics,
                ctx.mode,
                x as int,
                y as int,
                ctx.modifiers,
            );
            (ViewModel { pointer: mv.0, ..m }, mv.1)
        },
        InputEvent::Other => (m, Seq::empty()),
    }
}

/// Routes one event to the keyboard, wheel, button or pointer-move handling
/// and returns the actions that it asks for, in order. `selectable` is the
/// text that a copy would take.
pub fn process_event(
    state: &mut TerminalViewState,
    event: &InputEvent,
    ctx: &FrameContext,
    bindings: &BindingsLayout,
    selectable: &String,
) -> (r: Vec<InputAction>)
    requires
        old(state)@.wf(),
        ctx.wf(),
    ensures
        final(state)@.wf(),
        final(state)@ == spec_process_event(old(state)@, *event, *ctx, bindings.layout@, selectable@).0,
        actions_view(r@) == spec_process_event(old(state)@, *event, *ctx, bindings.layout@, selectable@).1,
{
    let mut actions: Vec<InputAction> = Vec::new();
    match event {
        InputEvent::Text(_) | InputEvent::Key { .. } | InputEvent::Copy | InputEvent::Cut
        | InputEvent::Paste(_) => {
            if ctx.has_focus {
                let a = process_keyboard_event(
                    event,
                    bindings,
                    &ctx.modifiers,
                    &ctx.mode,
                    state.search_active,
                    selectable,
                    ctx.native_clipboard,
                );
                actions.push(a);
            }
        },
        InputEvent::MouseWheel { unit, delta_y } => {
            if ctx.contains_pointer {
                let a = process_mouse_wheel(state, ctx.font_size, *unit, *delta_y, &ctx.mode);
                actions.push(a);
            }
        },
        InputEvent::PointerButton { button, pressed, modifiers, x, y } => {
            if ctx.contains_pointer {
                let a = process_button_click(
                    state,
                    &ctx.layout,
                    bindings,
                    &ctx.mode,
                    *button,
                    *x,
                    *y,
                    modifiers,
                    *pressed,
                );
                actions.push(a);
            }
        },
        InputEvent::PointerMoved { x, y } => {
            actions = process_mouse_move(
                state,
                &ctx.layout,
                &ctx.metrics,
                &ctx.mode,
                *x,
                *y,
                &ctx.modifiers,
            );
        },
        InputEvent::Other => {},
    }
    assert(actions_view(actions@) =~= spec_process_event(old(state)@, *event, *ctx, bindings.layout@, selectable@).1);
    actions
}

} // verus!
