//! Input dispatch and grid projection for an embeddable terminal widget.
//!
//! The library turns toolkit input events into terminal commands and turns a
//! snapshot of the terminal grid into an ordered list of draw primitives.
//! Every decision is a verified function of plain values.
pub mod bindings;
pub mod command;
pub mod dispatch;
pub mod encode;
pub mod event;
pub mod grid;
pub mod keyboard;
pub mod mode;
pub mod mouse;
pub mod render;
pub mod settings;
pub mod state;
pub mod view;

pub use bindings::{
    action_for, Binding, BindingAction, BindingsLayout, InputKind, PointerButton,
};
pub use command::{
    ActionView, BackendCommand, CommandView, InputAction, LinkAction, MouseButton, SelectionType,
};
pub use dispatch::{process_event, FrameContext};
pub use encode::{bracketed_paste, normalize_line_endings, paste_bytes};
pub use event::{InputEvent, WheelUnit};
pub use grid::{to_grid_point, GridPoint, PointRange, SelectionRange};
pub use keyboard::{
    process_keyboard_event, process_keyboard_key, process_text_event, text_action_for_key,
};
pub use mode::{Modifiers, TerminalMode};
pub use render::{render, RenderCell, RenderSnapshot, Rgba, Shape};
pub use settings::BackendSettings;
pub use state::TerminalViewState;
pub use view::TerminalView;
