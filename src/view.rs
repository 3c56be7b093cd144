use vstd::prelude::*;
use crate::bindings::{with_bindings, Binding, BindingAction, BindingsLayout};

verus! {

/// The height of the search panel above the grid, in hundredths of a pixel.
pub const SEARCH_PANEL_HEIGHT: u32 = 2800;

/// The configuration of one terminal widget: focus, size (in hundredths of a
/// pixel), font, theme and binding table.
pub struct TerminalView<F, T> {
    pub has_focus: bool,
    pub width: u32,
    pub height: u32,
    pub font: F,
    pub theme: T,
    pub bindings_layout: BindingsLayout,
}

impl<F, T> TerminalView<F, T> {
    /// A widget without focus and with an empty binding table.
    pub fn new(width: u32, height: u32, font: F, theme: T) -> (r: Self)
        ensures
            !r.has_focus,
            r.width == width,
            r.height == height,
            r.font == font,
            r.theme == theme,
            r.bindings_layout.layout@.len() == 0,
    {
        TerminalView { has_focus: false, width, height, font, theme, bindings_layout: BindingsLayout::new() }
    }

    pub fn set_theme(self, theme: T) -> (r: Self)
        ensures
            r.theme == theme,
            r.font == self.font,
            r.has_focus == self.has_focus,
            r.width == self.width,
            r.height == self.height,
            r.bindings_layout == self.bindings_layout,
    {
        TerminalView { theme, ..self }
    }

    pub fn set_font(self, font: F) -> (r: Self)
        ensures
            r.font == font,
            r.theme == self.theme,
            r.has_focus == self.has_focus,
            r.width == self.width,
            r.height == self.height,
            r.bindings_layout == self.bindings_layout,
    {
        TerminalView { font, ..self }
    }

    pub fn set_focus(self, has_focus: bool) -> (r: Self)
        ensures
            r.has_focus == has_focus,
            r.font == self.font,
            r.theme == self.theme,
            r.width == self.width,
            r.height == self.height,
            r.bindings_layout == self.bindings_layout,
    {
        TerminalView { has_focus, ..self }
    }

    pub fn set_size(self, width: u32, height: u32) -> (r: Self)
        ensures
            r.width == width,
            r.height == height,
            r.has_focus == self.has_focus,
            r.font == self.font,
            r.theme == self.theme,
            r.bindings_layout == self.bindings_layout,
    {
        TerminalView { width, height, ..self }
    }

    /// Adds entries to the binding table; an entry replaces an earlier one
    /// with the same trigger.
    pub fn add_bindings(self, bindings: Vec<(Binding, BindingAction)>) -> (r: Self)
        ensures
            r.bindings_layout.layout@ == with_bindings(self.bindings_layout.layout@, bindings@),
            r.has_focus == self.has_focus,
            r.font == self.font,
            r.theme == self.theme,
            r.width == self.width,
            r.height == self.height,
    {
        let mut view = self;
        view.bindings_layout.add_bindings(bindings);
        view
    }

    /// The grid keeps keyboard focus only while the widget has it and the
    /// search overlay, which takes it, is closed.
    pub fn grid_wants_focus(&self, search_active: bool) -> (r: bool)
        ensures
            r == (self.has_focus && !search_active),
    {
        self.has_focus && !search_active
    }

    /// The height left to the grid below the search panel, while it is open.
    pub fn grid_height(&self, search_active: bool) -> (r: u32)
        ensures
            !search_active ==> r == self.height,
            search_active ==> r == if self.height >= SEARCH_PANEL_HEIGHT {
                self.height - SEARCH_PANEL_HEIGHT
            } else {
                0
            },
    {
        if !search_active {
            self.height
        } else if self.height >= SEARCH_PANEL_HEIGHT {
            self.height - SEARCH_PANEL_HEIGHT
        } else {
            0
        }
    }
}

} // verus!
