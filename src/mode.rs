use vstd::prelude::*;

verus! {

/// The terminal modes that the input and render logic reads, as named flags.
#[derive(Clone, Copy, Debug, PartialEq, Eq, Structural)]
pub struct TerminalMode {
    /// Button presses are reported to the program.
    pub mouse_report_click: bool,
    /// Presses and drags are reported to the program.
    pub mouse_drag: bool,
    /// Every pointer motion is reported to the program.
    pub mouse_motion: bool,
    /// The alternate screen buffer is active.
    pub alt_screen: bool,
    /// Wheel motion on the alternate screen becomes cursor keys.
    pub alternate_scroll: bool,
    /// Pasted text is wrapped in bracketed-paste markers.
    pub bracketed_paste: bool,
    /// Cursor keys send application sequences.
    pub app_cursor: bool,
}

impl TerminalMode {
    /// A mode with every flag off.
    pub fn empty() -> (r: Self)
        ensures
            r == Self::none(),
    {
        TerminalMode {
            mouse_report_click: false,
            mouse_drag: false,
            mouse_motion: false,
            alt_screen: false,
            alternate_scroll: false,
            bracketed_paste: false,
            app_cursor: false,
        }
    }

    pub open spec fn none() -> Self {
        TerminalMode {
            mouse_report_click: false,
            mouse_drag: false,
            mouse_motion: false,
            alt_screen: false,
            alternate_scroll: false,
            bracketed_paste: false,
            app_cursor: false,
        }
    }

    /// Any of the three mouse-reporting modes is on.
    pub open spec fn spec_mouse_mode(&self) -> bool {
        self.mouse_report_click || self.mouse_drag || self.mouse_motion
    }

    /// Wheel motion becomes cursor keys: alternate screen together with
    /// alternate scroll.
    pub open spec fn spec_alt_scroll(&self) -> bool {
        self.alt_screen && self.alternate_scroll
    }

    /// Every flag of `other` is also set in `self`.
    pub open spec fn spec_contains(&self, other: TerminalMode) -> bool {
        (other.mouse_report_click ==> self.mouse_report_click) && (other.mouse_drag
            ==> self.mouse_drag) && (other.mouse_motion ==> self.mouse_motion) && (
        other.alt_screen ==> self.alt_screen) && (other.alternate_scroll ==> self.alternate_scroll)
            && (other.bracketed_paste ==> self.bracketed_paste) && (other.app_cursor
            ==> self.app_cursor)
    }

    /// Some flag is set in both `self` and `other`.
    pub open spec fn spec_intersects(&self, other: TerminalMode) -> bool {
        (other.mouse_report_click && self.mouse_report_click) || (other.mouse_drag
            && self.mouse_drag) || (other.mouse_motion && self.mouse_motion) || (other.alt_screen
            && self.alt_screen) || (other.alternate_scroll && self.alternate_scroll) || (
        other.bracketed_paste && self.bracketed_paste) || (other.app_cursor && self.app_cursor)
    }

    pub fn mouse_mode(&self) -> (r: bool)
        ensures
            r == self.spec_mouse_mode(),
    {
        self.mouse_report_click || self.mouse_drag || self.mouse_motion
    }

    pub fn alt_scroll(&self) -> (r: bool)
        ensures
            r == self.spec_alt_scroll(),
    {
        self.alt_screen && self.alternate_scroll
    }

    pub fn contains(&self, other: &TerminalMode) -> (r: bool)
        ensures
            r == self.spec_contains(*other),
    {
        (!other.mouse_report_click || self.mouse_report_click) && (!other.mouse_drag
            || self.mouse_drag) && (!other.mouse_motion || self.mouse_motion) && (
        !other.alt_screen || self.alt_screen) && (!other.alternate_scroll || self.alternate_scroll)
            && (!other.bracketed_paste || self.bracketed_paste) && (!other.app_cursor
            || self.app_cursor)
    }

    pub fn intersects(&self, other: &TerminalMode) -> (r: bool)
        ensures
            r == self.spec_intersects(*other),
    {
        (other.mouse_report_click && self.mouse_report_click) || (other.mouse_drag
            && self.mouse_drag) || (other.mouse_motion && self.mouse_motion) || (other.alt_screen
            && self.alt_screen) || (other.alternate_scroll && self.alternate_scroll) || (
        other.bracketed_paste && self.bracketed_paste) || (other.app_cursor && self.app_cursor)
    }
}

/// The modifier keys held during an event.
///
/// `command` is the platform's command key: Ctrl on most platforms and Cmd
/// on Apple ones, where `mac_cmd` is set as well.
#[derive(Clone, Copy, Debug, PartialEq, Eq, Structural)]
pub struct Modifiers {
    pub alt: bool,
    pub ctrl: bool,
    pub shift: bool,
    pub mac_cmd: bool,
    pub command: bool,
}

impl Modifiers {
    /// No modifier held.
    pub fn none() -> (r: Self)
        ensures
            r.spec_is_none(),
    {
        Modifiers { alt: false, ctrl: false, shift: false, mac_cmd: false, command: false }
    }

    pub open spec fn spec_is_none(&self) -> bool {
        !self.alt && !self.ctrl && !self.shift && !self.mac_cmd && !self.command
    }

    /// The command key is held, with neither Alt nor Shift.
    pub open spec fn spec_command_only(&self) -> bool {
        !self.alt && !self.shift && self.command
    }

    /// Shift is held together with some form of the command key.
    pub open spec fn spec_command_shift(&self) -> bool {
        self.shift && (self.ctrl || self.command || self.mac_cmd)
    }

    pub fn is_none(&self) -> (r: bool)
        ensures
            r == self.spec_is_none(),
    {
        !self.alt && !self.ctrl && !self.shift && !self.mac_cmd && !self.command
    }

    pub fn command_only(&self) -> (r: bool)
        ensures
            r == self.spec_command_only(),
    {
        !self.alt && !self.shift && self.command
    }

    /// Whether the held set contains Command together with Shift, where Ctrl,
    /// Cmd and the platform command key each stand for the command key.
    pub fn command_shift(&self) -> (r: bool)
        ensures
            r == self.spec_command_shift(),
    {
        self.shift && (self.ctrl || self.command || self.mac_cmd)
    }
}

} // verus!
