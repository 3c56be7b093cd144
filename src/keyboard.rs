use vstd::prelude::*;
use vstd::utf8::encode_utf8;
use crate::bindings::{action_for, BindingAction, BindingsLayout, InputKind, InputView};
use crate::command::{write_action, ActionView, BackendCommand, InputAction};
use crate::encode::{char_bytes, paste_bytes, spec_paste_bytes, str_bytes, ETX};
use crate::event::InputEvent;
use crate::mode::{Modifiers, TerminalMode};
use crate::state::{spec_toggle_search, ViewModel};

verus! {

/// The byte that Ctrl-X sends.
pub const CAN: u8 = 0x18;

/// The canonical name of the key that `text` names, by name or alias, if it
/// names one.
pub uninterp spec fn key_named(text: Seq<char>) -> Option<Seq<char>>;

pub open spec fn opt_view(o: Option<String>) -> Option<Seq<char>> {
    match o {
        Some(s) => Some(s@),
        None => None,
    }
}

/// Relies on egui::Key::from_name, which recognises a key's name or one of
/// its aliases, and on egui::Key::name, which gives the recognised key's
/// canonical name.
#[verifier::external_body]
fn key_name_of_text(text: &str) -> (r: Option<String>)
    ensures
        opt_view(r) == key_named(text@),
{
    match egui::Key::from_name(text) {
        Some(k) => Some(k.name().to_string()),
        None => None,
    }
}

/// The action of a key event while the search overlay is open: Escape and
/// Command+F close it, F3 and Ctrl/Command+Enter step through the matches
/// (backwards with Shift).
pub open spec fn spec_search_key(key: Seq<char>, pressed: bool, mods: Modifiers) -> ActionView {
    if !pressed {
        ActionView::Ignore
    } else if key == "Escape"@ {
        ActionView::ToggleSearch
    } else if key == "F3"@ || (key == "Enter"@ && (mods.ctrl || mods.command)) {
        if mods.shift {
            ActionView::SearchPrev
        } else {
            ActionView::SearchNext
        }
    } else if mods.command && key == "F"@ {
        ActionView::ToggleSearch
    } else {
        ActionView::Ignore
    }
}

/// The action of a key event: Command+F opens the search overlay; otherwise
/// the binding table decides, and a character or an escape sequence is sent.
pub open spec fn spec_key_action(
    table: Seq<(crate::bindings::Binding, BindingAction)>,
    key: Seq<char>,
    mods: Modifiers,
    pressed: bool,
    mode: TerminalMode,
) -> ActionView {
    if !pressed {
        ActionView::Ignore
    } else if mods.command && key == "F"@ {
        ActionView::ToggleSearch
    } else {
        match action_for(table, InputView::Key(key), mods, mode) {
            BindingAction::Char(c) => write_action(encode_utf8(seq![c])),
            BindingAction::Esc(s) => write_action(encode_utf8(s@)),
            _ => ActionView::Ignore,
        }
    }
}

/// The action of typed text: where the text names a key whose binding does
/// something, the binding has handled it; otherwise its bytes are sent.
pub open spec fn spec_text_action(
    table: Seq<(crate::bindings::Binding, BindingAction)>,
    text: Seq<char>,
    key: Option<Seq<char>>,
    mods: Modifiers,
    mode: TerminalMode,
) -> ActionView {
    match key {
        Some(k) => if action_for(table, InputView::Key(k), mods, mode) is Ignore {
            write_action(encode_utf8(text))
        } else {
            ActionView::Ignore
        },
        None => write_action(encode_utf8(text)),
    }
}

/// The action of a copy or cut request. Where the platform's clipboard
/// shortcuts do not collide with the terminal's control keys, or Shift is held
/// with the command key, the selection is copied; otherwise `control_byte`
/// goes to the program.
pub open spec fn spec_clipboard_action(
    mods: Modifiers,
    native_clipboard: bool,
    selectable: Seq<char>,
    control_byte: u8,
) -> ActionView {
    if native_clipboard || mods.spec_command_shift() {
        ActionView::WriteToClipboard(selectable)
    } else {
        write_action(seq![control_byte])
    }
}

/// The action of a keyboard-side event (text, key, copy, cut, paste).
pub open spec fn spec_keyboard_event(
    event: InputEvent,
    table: Seq<(crate::bindings::Binding, BindingAction)>,
    mods: Modifiers,
    mode: TerminalMode,
    search_active: bool,
    selectable: Seq<char>,
    native_clipboard: bool,
) -> ActionView {
    if search_active {
        match event {
            InputEvent::Key { key, pressed, modifiers } => spec_search_key(key@, pressed, modifiers),
            _ => ActionView::Ignore,
        }
    } else {
        match event {
            InputEvent::Text(t) => spec_text_action(table, t@, key_named(t@), mods, mode),
            InputEvent::Paste(t) => write_action(spec_paste_bytes(t@, mode.bracketed_paste)),
            InputEvent::Copy => spec_clipboard_action(mods, native_clipboard, selectable, ETX),
            InputEvent::Cut => spec_clipboard_action(mods, native_clipboard, selectable, CAN),
            InputEvent::Key { key, pressed, modifiers } => spec_key_action(
                table,
                key@,
                modifiers,
                pressed,
                mode,
            ),
            _ => ActionView::Ignore,
        }
    }
}

/// With the search overlay open, Escape closes it and clears its query, so
/// that opening it again starts with an empty query.
pub proof fn lemma_escape_clears_query(m: ViewModel, mods: Modifiers)
    requires
        m.wf(),
        m.search_active,
    ensures
        spec_search_key("Escape"@, true, mods) == ActionView::ToggleSearch,
        !spec_toggle_search(m).search_active,
        spec_toggle_search(m).query.len() == 0,
        spec_toggle_search(spec_toggle_search(m)).search_active,
        spec_toggle_search(spec_toggle_search(m)).query.len() == 0,
{
}

/// Whether `key` is the key called `name`.
fn name_is(key: &String, name: &str) -> (r: bool)
    ensures
        r == (key@ == name@),
{
    key.eq(&name.to_owned())
}

/// The action of a key event while the search overlay is open.
pub fn search_key_action(key: &String, pressed: bool, mods: &Modifiers) -> (r: InputAction)
    ensures
        r@ == spec_search_key(key@, pressed, *mods),
{
    if !pressed {
        InputAction::Ignore
    } else if name_is(key, "Escape") {
        InputAction::ToggleSearch
    } else if name_is(key, "F3") || (name_is(key, "Enter") && (mods.ctrl || mods.command)) {
        if mods.shift {
            InputAction::SearchPrev
        } else {
            InputAction::SearchNext
        }
    } else if mods.command && name_is(key, "F") {
        InputAction::ToggleSearch
    } else {
        InputAction::Ignore
    }
}

/// The action of a key event outside the search overlay.
pub fn process_keyboard_key(
    bindings: &BindingsLayout,
    key: &String,
    mods: &Modifiers,
    pressed: bool,
    mode: &TerminalMode,
) -> (r: InputAction)
    ensures
        r@ == spec_key_action(bindings.layout@, key@, *mods, pressed, *mode),
{
    if !pressed {
        return InputAction::Ignore;
    }
    if mods.command && name_is(key, "F") {
        return InputAction::ToggleSearch;
    }
    let input = InputKind::KeyCode(key.clone());
    let action = bindings.get_action(&input, mods, mode);
    match action {
        BindingAction::Char(c) => InputAction::BackendCall(BackendCommand::Write(char_bytes(c))),
        BindingAction::Esc(s) => InputAction::BackendCall(
            BackendCommand::Write(str_bytes(s.as_str())),
        ),
        _ => InputAction::Ignore,
    }
}

/// The action of typed text, given the canonical name of the key that the
/// text names, if any.
pub fn text_action_for_key(
    text: &str,
    key: Option<String>,
    mods: &Modifiers,
    mode: &TerminalMode,
    bindings: &BindingsLayout,
) -> (r: InputAction)
    ensures
        r@ == spec_text_action(bindings.layout@, text@, opt_view(key), *mods, *mode),
{
    match key {
        Some(k) => {
            let action = bindings.get_action(&InputKind::KeyCode(k), mods, mode);
            if action.is_ignore() {
                InputAction::BackendCall(BackendCommand::Write(str_bytes(text)))
            } else {
                InputAction::Ignore
            }
        },
        None => InputAction::BackendCall(BackendCommand::Write(str_bytes(text))),
    }
}

/// The action of typed text.
pub fn process_text_event(
    text: &str,
    mods: &Modifiers,
    mode: &TerminalMode,
    bindings: &BindingsLayout,
) -> (r: InputAction)
    ensures
        r@ == spec_text_action(bindings.layout@, text@, key_named(text@), *mods, *mode),
{
    let key = key_name_of_text(text);
    text_action_for_key(text, key, mods, mode, bindings)
}

/// The action of a copy or cut request.
pub fn clipboard_action(
    mods: &Modifiers,
    native_clipboard: bool,
    selectable: &String,
    control_byte: u8,
) -> (r: InputAction)
    ensures
        r@ == spec_clipboard_action(*mods, native_clipboard, selectable@, control_byte),
{
    if native_clipboard || mods.command_shift() {
        InputAction::WriteToClipboard(selectable.clone())
    } else {
        let bytes = vec![control_byte];
        assert(bytes@ =~= seq![control_byte]);
        InputAction::BackendCall(BackendCommand::Write(bytes))
    }
}

/// The action of a keyboard-side event. While the search overlay is open,
/// only its own keys act; otherwise text, keys, paste and the clipboard
/// requests are resolved against the terminal mode and the binding table.
/// `mods` are the modifiers held in this frame; a key event carries its own.
/// `selectable` is the text that a copy would take.
pub fn process_keyboard_event(
    event: &InputEvent,
    bindings: &BindingsLayout,
    mods: &Modifiers,
    mode: &TerminalMode,
    search_active: bool,
    selectable: &String,
    native_clipboard: bool,
) -> (r: InputAction)
    ensures
        r@ == spec_keyboard_event(
            *event,
            bindings.layout@,
            *mods,
            *mode,
            search_active,
            selectable@,
            native_clipboard,
        ),
{
    if search_active {
        return match event {
            InputEvent::Key { key, pressed, modifiers } => search_key_action(key, *pressed, modifiers),
            _ => InputAction::Ignore,
        };
    }
    match event {
        InputEvent::Text(text) => process_text_event(text.as_str(), mods, mode, bindings),
        InputEvent::Paste(text) => InputAction::BackendCall(
            BackendCommand::Write(paste_bytes(text.as_str(), mode.bracketed_paste)),
        ),
        InputEvent::Copy => clipboard_action(mods, native_clipboard, selectable, ETX),
        InputEvent::Cut => clipboard_action(mods, native_clipboard, selectable, CAN),
        InputEvent::Key { key, pressed, modifiers } => process_keyboard_key(
            bindings,
            key,
            modifiers,
            *pressed,
            mode,
        ),
        _ => InputAction::Ignore,
    }
}

} // verus!
