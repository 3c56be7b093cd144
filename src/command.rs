use vstd::prelude::*;
use crate::grid::GridPoint;
use crate::mode::Modifiers;

verus! {

/// The button named in a mouse report.
#[derive(Clone, Copy, Debug, PartialEq, Eq, Structural)]
pub enum MouseButton {
    LeftButton,
    LeftMove,
    ScrollUp,
    ScrollDown,
}

/// The granularity of a selection: cells, words, or whole lines.
#[derive(Clone, Copy, Debug, PartialEq, Eq, Structural)]
pub enum SelectionType {
    Simple,
    Semantic,
    Lines,
}

/// What to do with the hyperlink under a grid point.
#[derive(Clone, Copy, Debug, PartialEq, Eq, Structural)]
pub enum LinkAction {
    Hover,
    Open,
}

/// A command for the backend that owns the terminal grid and the child
/// process.
#[derive(Debug, PartialEq, Eq)]
pub enum BackendCommand {
    /// Bytes for the child process.
    Write(Vec<u8>),
    /// Move the scrollback view by a signed number of lines.
    Scroll(i64),
    /// Report a mouse event to the program: button, modifiers, point, pressed.
    MouseReport(MouseButton, Modifiers, GridPoint, bool),
    /// Begin a selection at a pixel offset from the grid's top-left corner.
    SelectStart(SelectionType, i64, i64),
    /// Extend the selection to a pixel offset from the grid's top-left corner.
    SelectUpdate(i64, i64),
    /// Hover or open the hyperlink at a grid point.
    ProcessLink(LinkAction, GridPoint),
}

/// What one input event asks for, before anything is carried out.
#[derive(Debug, PartialEq, Eq)]
pub enum InputAction {
    BackendCall(BackendCommand),
    WriteToClipboard(String),
    Ignore,
    ToggleSearch,
    SearchNext,
    SearchPrev,
}

/// A backend command as a mathematical value.
pub ghost enum CommandView {
    Write(Seq<u8>),
    Scroll(i64),
    MouseReport(MouseButton, Modifiers, GridPoint, bool),
    SelectStart(SelectionType, i64, i64),
    SelectUpdate(i64, i64),
    ProcessLink(LinkAction, GridPoint),
}

impl View for BackendCommand {
    type V = CommandView;

    open spec fn view(&self) -> CommandView {
        match self {
            BackendCommand::Write(b) => CommandView::Write(b@),
            BackendCommand::Scroll(n) => CommandView::Scroll(*n),
            BackendCommand::MouseReport(b, m, p, d) => CommandView::MouseReport(*b, *m, *p, *d),
            BackendCommand::SelectStart(t, x, y) => CommandView::SelectStart(*t, *x, *y),
            BackendCommand::SelectUpdate(x, y) => CommandView::SelectUpdate(*x, *y),
            BackendCommand::ProcessLink(a, p) => CommandView::ProcessLink(*a, *p),
        }
    }
}

/// An input action as a mathematical value.
pub ghost enum ActionView {
    BackendCall(CommandView),
    WriteToClipboard(Seq<char>),
    Ignore,
    ToggleSearch,
    SearchNext,
    SearchPrev,
}

impl View for InputAction {
    type V = ActionView;

    open spec fn view(&self) -> ActionView {
        match self {
            InputAction::BackendCall(c) => ActionView::BackendCall(c@),
            InputAction::WriteToClipboard(s) => ActionView::WriteToClipboard(s@),
            InputAction::Ignore => ActionView::Ignore,
            InputAction::ToggleSearch => ActionView::ToggleSearch,
            InputAction::SearchNext => ActionView::SearchNext,
            InputAction::SearchPrev => ActionView::SearchPrev,
        }
    }
}

/// The action that sends `bytes` to the child process.
pub open spec fn write_action(bytes: Seq<u8>) -> ActionView {
    ActionView::BackendCall(CommandView::Write(bytes))
}

} // verus!
