use vstd::prelude::*;
use crate::grid::GridPoint;

verus! {

/// The bound on the carried wheel pixels: below one row of the largest font.
pub open spec fn carry_bound() -> int {
    0x1_0000_0000
}

/// Per-widget state that persists from frame to frame.
#[derive(Debug)]
pub struct TerminalViewState {
    /// A selection drag with the primary button is under way.
    pub is_dragged: bool,
    /// Wheel pixels not yet turned into whole lines.
    pub scroll_pixels: i64,
    /// The grid point under the pointer.
    pub current_mouse_position_on_grid: GridPoint,
    /// The search overlay's query.
    pub search_query: String,
    /// The search overlay is open.
    pub search_active: bool,
    /// The search overlay opened and its input has not taken focus yet.
    pub search_just_opened: bool,
}

/// `TerminalViewState` as a mathematical value.
pub ghost struct ViewModel {
    pub is_dragged: bool,
    pub scroll_pixels: int,
    pub pointer: GridPoint,
    pub query: Seq<char>,
    pub search_active: bool,
    pub search_just_opened: bool,
}

impl View for TerminalViewState {
    type V = ViewModel;

    open spec fn view(&self) -> ViewModel {
        ViewModel {
            is_dragged: self.is_dragged,
            scroll_pixels: self.scroll_pixels as int,
            pointer: self.current_mouse_position_on_grid,
            query: self.search_query@,
            search_active: self.search_active,
            search_just_opened: self.search_just_opened,
        }
    }
}

impl ViewModel {
    /// The focus request is only pending while the overlay is open, and the
    /// carried wheel pixels stay below one row.
    pub open spec fn wf(&self) -> bool {
        (self.search_just_opened ==> self.search_active) && -carry_bound() < self.scroll_pixels
            < carry_bound()
    }
}

/// The search toggle: opening asks for the query input to take focus;
/// closing clears the query.
pub open spec fn spec_toggle_search(m: ViewModel) -> ViewModel {
    if m.search_active {
        ViewModel { search_active: false, search_just_opened: false, query: Seq::empty(), ..m }
    } else {
        ViewModel { search_active: true, search_just_opened: true, ..m }
    }
}

/// The overlay's input has taken focus: the pending request is done.
pub open spec fn spec_consume_just_opened(m: ViewModel) -> ViewModel {
    ViewModel { search_just_opened: false, ..m }
}

/// Opening the overlay with the toggle sets it active with a pending focus
/// request; consuming that request on the next frame clears the request and
/// leaves the overlay active.
pub proof fn lemma_open_then_consume(m: ViewModel)
    requires
        m.wf(),
        !m.search_active,
    ensures
        spec_toggle_search(m).search_active,
        spec_toggle_search(m).search_just_opened,
        spec_toggle_search(m).wf(),
        spec_consume_just_opened(spec_toggle_search(m)).search_active,
        !spec_consume_just_opened(spec_toggle_search(m)).search_just_opened,
        spec_consume_just_opened(spec_toggle_search(m)).wf(),
{
}

impl TerminalViewState {
    /// A fresh state: nothing dragged or carried, the pointer at the origin,
    /// the overlay closed with an empty query.
    pub fn new() -> (r: Self)
        ensures
            r@.wf(),
            !r.is_dragged,
            r.scroll_pixels == 0,
            r.current_mouse_position_on_grid == (GridPoint { line: 0, column: 0 }),
            r.search_query@.len() == 0,
            !r.search_active,
            !r.search_just_opened,
    {
        TerminalViewState {
            is_dragged: false,
            scroll_pixels: 0,
            current_mouse_position_on_grid: GridPoint { line: 0, column: 0 },
            search_query: String::new(),
            search_active: false,
            search_just_opened: false,
        }
    }

    /// Opens or closes the search overlay; returns whether it is now open.
    pub fn toggle_search(&mut self) -> (r: bool)
        requires
            old(self)@.wf(),
        ensures
            final(self)@ == spec_toggle_search(old(self)@),
            final(self)@.wf(),
            r == final(self).search_active,
    {
        self.search_active = !self.search_active;
        if self.search_active {
            self.search_just_opened = true;
        } else {
            self.search_just_opened = false;
            self.search_query = String::new();
        }
        self.search_active
    }

    /// Takes the pending focus request of a freshly opened overlay; returns
    /// whether there was one.
    pub fn take_just_opened(&mut self) -> (r: bool)
        requires
            old(self)@.wf(),
        ensures
            final(self)@ == spec_consume_just_opened(old(self)@),
            final(self)@.wf(),
            r == old(self).search_just_opened,
    {
        let r = self.search_just_opened;
        self.search_just_opened = false;
        r
    }
}

impl TerminalViewState {
    /// The overlay shows "no matches" where the backend's search found
    /// nothing for a query that is not empty.
    pub fn shows_no_matches(&self, backend_no_match: bool) -> (r: bool)
        ensures
            r == (backend_no_match && self.search_query@.len() > 0),
    {
        backend_no_match && !self.search_query.as_str().is_empty()
    }
}

impl Default for TerminalViewState {
    fn default() -> (r: Self)
        ensures
            r@.wf(),
            !r.is_dragged,
            r.scroll_pixels == 0,
            r.search_query@.len() == 0,
            !r.search_active,
            !r.search_just_opened,
    {
        TerminalViewState::new()
    }
}

} // verus!
