use egui_term::mouse::{process_button_click, process_mouse_move, process_mouse_wheel, GridMetrics, WidgetLayout};
use egui_term::state::TerminalViewState;
use egui_term::{
    bracketed_paste, normalize_line_endings, paste_bytes, process_event, process_keyboard_event,
    process_text_event, to_grid_point, BackendCommand, BackendSettings, Binding, BindingAction,
    BindingsLayout, FrameContext, GridPoint, InputAction, InputEvent, InputKind, LinkAction,
    Modifiers, MouseButton, PointRange, PointerButton, SelectionRange, SelectionType, TerminalMode,
    TerminalView, WheelUnit,
};

fn no_mods() -> Modifiers {
    Modifiers { alt: false, ctrl: false, shift: false, mac_cmd: false, command: false }
}

fn plain_mode() -> TerminalMode {
    TerminalMode::empty()
}

fn layout(double: bool, triple: bool) -> WidgetLayout {
    WidgetLayout { origin_x: 0, origin_y: 0, double_clicked: double, triple_clicked: triple }
}

fn metrics() -> GridMetrics {
    GridMetrics { cell_width: 10, cell_height: 20, display_offset: 0 }
}

fn key_binding(name: &str, action: BindingAction) -> (Binding, BindingAction) {
    (
        Binding {
            target: InputKind::KeyCode(name.to_string()),
            modifiers: no_mods(),
            terminal_mode_include: TerminalMode::empty(),
            terminal_mode_exclude: TerminalMode::empty(),
        },
        action,
    )
}

fn ctx(mode: TerminalMode) -> FrameContext {
    FrameContext {
        has_focus: true,
        contains_pointer: true,
        modifiers: no_mods(),
        mode,
        font_size: 20,
        layout: layout(false, false),
        metrics: metrics(),
        native_clipboard: false,
    }
}

#[test]
fn wheel_point_scrolls_one_line_and_carries() {
    let mut st = TerminalViewState::new();
    let r = process_mouse_wheel(&mut st, 20, WheelUnit::Point, -30, &plain_mode());
    assert_eq!(r, InputAction::BackendCall(BackendCommand::Scroll(1)));
    assert_eq!(st.scroll_pixels, 10);
}

#[test]
fn wheel_chunks_add_up_to_whole_rows() {
    let mut st = TerminalViewState::new();
    let mut total: i64 = 0;
    for d in [-7, -13, -25, 5, -20] {
        if let InputAction::BackendCall(BackendCommand::Scroll(n)) =
            process_mouse_wheel(&mut st, 20, WheelUnit::Point, d, &plain_mode())
        {
            total += n;
        }
    }
    assert_eq!(total, 3);
    assert_eq!(st.scroll_pixels, 0);
}

#[test]
fn wheel_line_unit_rounds_magnitude_up() {
    let mut st = TerminalViewState::new();
    let r = process_mouse_wheel(&mut st, 20, WheelUnit::Line, 150, &plain_mode());
    assert_eq!(r, InputAction::BackendCall(BackendCommand::Scroll(2)));
    let r = process_mouse_wheel(&mut st, 20, WheelUnit::Line, -30, &plain_mode());
    assert_eq!(r, InputAction::BackendCall(BackendCommand::Scroll(-1)));
    let r = process_mouse_wheel(&mut st, 20, WheelUnit::Page, 500, &plain_mode());
    assert_eq!(r, InputAction::Ignore);
    assert_eq!(st.scroll_pixels, 0);
}

#[test]
fn wheel_mouse_mode_beats_alternate_scroll() {
    let mut mode = plain_mode();
    mode.mouse_report_click = true;
    mode.alt_screen = true;
    mode.alternate_scroll = true;
    let mut st = TerminalViewState::new();
    let r = process_mouse_wheel(&mut st, 20, WheelUnit::Line, -300, &mode);
    assert_eq!(
        r,
        InputAction::BackendCall(BackendCommand::MouseReport(
            MouseButton::ScrollUp,
            no_mods(),
            GridPoint { line: 0, column: 0 },
            true
        ))
    );
}

#[test]
fn wheel_alternate_scroll_sends_cursor_keys() {
    let mut mode = plain_mode();
    mode.alt_screen = true;
    mode.alternate_scroll = true;
    let mut st = TerminalViewState::new();
    let r = process_mouse_wheel(&mut st, 20, WheelUnit::Line, 200, &mode);
    assert_eq!(r, InputAction::BackendCall(BackendCommand::Write(b"\x1bOB\x1bOB".to_vec())));
    let r = process_mouse_wheel(&mut st, 20, WheelUnit::Line, -100, &mode);
    assert_eq!(r, InputAction::BackendCall(BackendCommand::Write(b"\x1bOA".to_vec())));
}

#[test]
fn paste_bracketed_exact_bytes() {
    let r = paste_bytes("echo hi\n", true);
    assert_eq!(r, b"\x1b[200~echo hi\n\x1b[201~".to_vec());
}

#[test]
fn paste_bracketed_strips_esc_and_etx() {
    let r = bracketed_paste(b"a\x1b[201~b\x03c");
    assert_eq!(r, b"\x1b[200~a[201~bc\x1b[201~".to_vec());
    let inner = &r[6..r.len() - 6];
    assert!(!inner.contains(&0x1b) && !inner.contains(&0x03));
}

#[test]
fn paste_plain_normalizes_line_endings() {
    assert_eq!(paste_bytes("a\r\nb\nc\r", false), b"a\rb\rc\r".to_vec());
    assert_eq!(normalize_line_endings(b"\r\r\n\n"), b"\r\r\r".to_vec());
    assert_eq!(normalize_line_endings(b""), Vec::<u8>::new());
}

#[test]
fn double_click_press_starts_semantic_selection() {
    let mut st = TerminalViewState::new();
    let bindings = BindingsLayout::new();
    let r = process_button_click(
        &mut st, &layout(true, false), &bindings, &plain_mode(), PointerButton::Primary, 12, 5,
        &no_mods(), true,
    );
    assert_eq!(r, InputAction::BackendCall(BackendCommand::SelectStart(SelectionType::Semantic, 12, 5)));
    assert!(st.is_dragged);
}

#[test]
fn click_count_selects_kind() {
    let bindings = BindingsLayout::new();
    let cases = [
        (false, false, SelectionType::Simple),
        (true, false, SelectionType::Semantic),
        (false, true, SelectionType::Lines),
    ];
    for (double, triple, kind) in cases {
        let mut st = TerminalViewState::new();
        let l = WidgetLayout { origin_x: 100, origin_y: 50, double_clicked: double, triple_clicked: triple };
        let r = process_button_click(
            &mut st, &l, &bindings, &plain_mode(), PointerButton::Primary, 130, 90, &no_mods(), true,
        );
        assert_eq!(r, InputAction::BackendCall(BackendCommand::SelectStart(kind, 30, 40)));
        if double || triple {
            let r = process_button_click(
                &mut st, &l, &bindings, &plain_mode(), PointerButton::Primary, 130, 90, &no_mods(), false,
            );
            assert_eq!(r, InputAction::BackendCall(BackendCommand::SelectStart(kind, 30, 40)));
            assert!(!st.is_dragged);
        }
    }
}

#[test]
fn release_opens_link_when_bound() {
    let mut bindings = BindingsLayout::new();
    bindings.add_bindings(vec![(
        Binding {
            target: InputKind::Mouse(PointerButton::Primary),
            modifiers: no_mods(),
            terminal_mode_include: TerminalMode::empty(),
            terminal_mode_exclude: TerminalMode::empty(),
        },
        BindingAction::LinkOpen,
    )]);
    let mut st = TerminalViewState::new();
    st.current_mouse_position_on_grid = GridPoint { line: 3, column: 4 };
    st.is_dragged = true;
    let r = process_button_click(
        &mut st, &layout(false, false), &bindings, &plain_mode(), PointerButton::Primary, 1, 1,
        &no_mods(), false,
    );
    assert_eq!(
        r,
        InputAction::BackendCall(BackendCommand::ProcessLink(LinkAction::Open, GridPoint { line: 3, column: 4 }))
    );
    assert!(!st.is_dragged);
    let r = process_button_click(
        &mut st, &layout(false, false), &BindingsLayout::new(), &plain_mode(), PointerButton::Primary, 1, 1,
        &no_mods(), false,
    );
    assert_eq!(r, InputAction::Ignore);
}

#[test]
fn mouse_mode_reports_button_and_keeps_drag() {
    let mut mode = plain_mode();
    mode.mouse_drag = true;
    let mut st = TerminalViewState::new();
    let r = process_button_click(
        &mut st, &layout(true, false), &BindingsLayout::new(), &mode, PointerButton::Primary, 12, 5,
        &no_mods(), true,
    );
    assert_eq!(
        r,
        InputAction::BackendCall(BackendCommand::MouseReport(
            MouseButton::LeftButton, no_mods(), GridPoint { line: 0, column: 0 }, true
        ))
    );
    assert!(!st.is_dragged);
    let r = process_button_click(
        &mut st, &layout(false, false), &BindingsLayout::new(), &mode, PointerButton::Secondary, 12, 5,
        &no_mods(), true,
    );
    assert_eq!(r, InputAction::Ignore);
}

#[test]
fn drag_with_motion_reporting_reports_move() {
    let mut mode = plain_mode();
    mode.mouse_motion = true;
    let mut st = TerminalViewState::new();
    st.is_dragged = true;
    let r = process_mouse_move(&mut st, &layout(false, false), &metrics(), &mode, 25, 45, &no_mods());
    let p = GridPoint { line: 2, column: 2 };
    assert_eq!(st.current_mouse_position_on_grid, p);
    assert_eq!(
        r,
        vec![InputAction::BackendCall(BackendCommand::MouseReport(MouseButton::LeftMove, no_mods(), p, true))]
    );
}

#[test]
fn drag_with_modifier_updates_selection_and_hovers() {
    let mut mode = plain_mode();
    mode.mouse_motion = true;
    let mut st = TerminalViewState::new();
    st.is_dragged = true;
    let mut mods = no_mods();
    mods.command = true;
    mods.ctrl = true;
    let r = process_mouse_move(&mut st, &layout(false, false), &metrics(), &mode, 25, 45, &mods);
    let p = GridPoint { line: 2, column: 2 };
    assert_eq!(
        r,
        vec![
            InputAction::BackendCall(BackendCommand::SelectUpdate(25, 45)),
            InputAction::BackendCall(BackendCommand::ProcessLink(LinkAction::Hover, p)),
        ]
    );
}

#[test]
fn grid_point_adds_display_offset() {
    assert_eq!(to_grid_point(25, 41, 10, 20, 3), GridPoint { line: 5, column: 2 });
    assert_eq!(to_grid_point(-15, -41, 10, 20, 0), GridPoint { line: -2, column: -1 });
}

#[test]
fn selection_range_block_and_lines() {
    let r = SelectionRange {
        start: GridPoint { line: 1, column: 5 },
        end: GridPoint { line: 3, column: 2 },
        is_block: false,
    };
    assert!(r.contains(GridPoint { line: 2, column: 40 }));
    assert!(!r.contains(GridPoint { line: 1, column: 4 }));
    assert!(!r.contains(GridPoint { line: 3, column: 3 }));
    let b = SelectionRange { is_block: true, ..r };
    assert!(!b.contains(GridPoint { line: 2, column: 40 }));
    let link = PointRange { start: GridPoint { line: 1, column: 5 }, end: GridPoint { line: 2, column: 1 } };
    assert!(link.contains(GridPoint { line: 1, column: 70 }));
    assert!(!link.contains(GridPoint { line: 2, column: 2 }));
}

#[test]
fn text_event_writes_bytes_unless_bound() {
    let mut bindings = BindingsLayout::new();
    bindings.add_bindings(vec![key_binding("Escape", BindingAction::Esc("\x1b".to_string()))]);
    let r = process_text_event("é", &no_mods(), &plain_mode(), &bindings);
    assert_eq!(r, InputAction::BackendCall(BackendCommand::Write(vec![0xc3, 0xa9])));
    // "Esc" is an alias of the key named "Escape", which is bound.
    let r = process_text_event("Esc", &no_mods(), &plain_mode(), &bindings);
    assert_eq!(r, InputAction::Ignore);
    let r = process_text_event("Tab", &no_mods(), &plain_mode(), &bindings);
    assert_eq!(r, InputAction::BackendCall(BackendCommand::Write(b"Tab".to_vec())));
}

#[test]
fn key_event_resolves_bindings() {
    let mut bindings = BindingsLayout::new();
    bindings.add_bindings(vec![
        key_binding("A", BindingAction::Char('é')),
        key_binding("Enter", BindingAction::Esc("\r".to_string())),
    ]);
    let key = |k: &str, pressed: bool| InputEvent::Key { key: k.to_string(), pressed, modifiers: no_mods() };
    let sel = String::new();
    let run = |e: &InputEvent| process_keyboard_event(e, &bindings, &no_mods(), &plain_mode(), false, &sel, false);
    assert_eq!(run(&key("A", true)), InputAction::BackendCall(BackendCommand::Write(vec![0xc3, 0xa9])));
    assert_eq!(run(&key("Enter", true)), InputAction::BackendCall(BackendCommand::Write(b"\r".to_vec())));
    assert_eq!(run(&key("A", false)), InputAction::Ignore);
    assert_eq!(run(&key("B", true)), InputAction::Ignore);
    let mut cmd = no_mods();
    cmd.command = true;
    let e = InputEvent::Key { key: "F".to_string(), pressed: true, modifiers: cmd };
    assert_eq!(run(&e), InputAction::ToggleSearch);
}

#[test]
fn later_binding_replaces_same_trigger() {
    let mut bindings = BindingsLayout::new();
    bindings.add_bindings(vec![key_binding("A", BindingAction::Char('a')), key_binding("B", BindingAction::Char('b'))]);
    bindings.add_bindings(vec![key_binding("A", BindingAction::Char('x'))]);
    assert_eq!(bindings.layout.len(), 2);
    let a = bindings.get_action(&InputKind::KeyCode("A".to_string()), &no_mods(), &plain_mode());
    assert_eq!(a, BindingAction::Char('x'));
}

#[test]
fn binding_mode_guards_filter_entries() {
    let mut alt = TerminalMode::empty();
    alt.alt_screen = true;
    let mut only_alt = key_binding("PageUp", BindingAction::Esc("\x1b[5~".to_string()));
    only_alt.0.terminal_mode_include = alt;
    let mut not_alt = key_binding("PageUp", BindingAction::Ignore);
    not_alt.0.terminal_mode_exclude = alt;
    let mut bindings = BindingsLayout::new();
    bindings.add_bindings(vec![only_alt, not_alt]);
    let k = InputKind::KeyCode("PageUp".to_string());
    assert_eq!(bindings.get_action(&k, &no_mods(), &alt), BindingAction::Esc("\x1b[5~".to_string()));
    assert_eq!(bindings.get_action(&k, &no_mods(), &plain_mode()), BindingAction::Ignore);
}

#[test]
fn copy_and_cut_send_control_bytes_or_copy() {
    let bindings = BindingsLayout::new();
    let sel = "picked".to_string();
    let r = process_keyboard_event(&InputEvent::Copy, &bindings, &no_mods(), &plain_mode(), false, &sel, false);
    assert_eq!(r, InputAction::BackendCall(BackendCommand::Write(vec![0x03])));
    let r = process_keyboard_event(&InputEvent::Cut, &bindings, &no_mods(), &plain_mode(), false, &sel, false);
    assert_eq!(r, InputAction::BackendCall(BackendCommand::Write(vec![0x18])));
    let mut cs = no_mods();
    cs.command = true;
    cs.ctrl = true;
    cs.shift = true;
    let r = process_keyboard_event(&InputEvent::Copy, &bindings, &cs, &plain_mode(), false, &sel, false);
    assert_eq!(r, InputAction::WriteToClipboard("picked".to_string()));
    let r = process_keyboard_event(&InputEvent::Cut, &bindings, &no_mods(), &plain_mode(), false, &sel, true);
    assert_eq!(r, InputAction::WriteToClipboard("picked".to_string()));
}

#[test]
fn search_overlay_keys_preempt_bindings() {
    let mut bindings = BindingsLayout::new();
    bindings.add_bindings(vec![key_binding("Escape", BindingAction::Esc("\x1b".to_string()))]);
    let sel = String::new();
    let run = |k: &str, m: Modifiers| {
        let e = InputEvent::Key { key: k.to_string(), pressed: true, modifiers: m };
        process_keyboard_event(&e, &bindings, &no_mods(), &plain_mode(), true, &sel, false)
    };
    assert_eq!(run("Escape", no_mods()), InputAction::ToggleSearch);
    assert_eq!(run("F3", no_mods()), InputAction::SearchNext);
    let mut shift = no_mods();
    shift.shift = true;
    assert_eq!(run("F3", shift), InputAction::SearchPrev);
    let mut ctrl_shift = shift;
    ctrl_shift.ctrl = true;
    assert_eq!(run("Enter", ctrl_shift), InputAction::SearchPrev);
    assert_eq!(run("Enter", no_mods()), InputAction::Ignore);
    let r = process_keyboard_event(&InputEvent::Text("x".to_string()), &bindings, &no_mods(), &plain_mode(), true, &sel, false);
    assert_eq!(r, InputAction::Ignore);
}

#[test]
fn toggle_search_opens_then_focus_consumed() {
    let mut st = TerminalViewState::new();
    assert!(st.toggle_search());
    assert!(st.search_active && st.search_just_opened);
    assert!(st.take_just_opened());
    assert!(st.search_active && !st.search_just_opened);
    assert!(!st.take_just_opened());
}

#[test]
fn closing_search_clears_query() {
    let mut st = TerminalViewState::new();
    st.toggle_search();
    st.search_query = "needle".to_string();
    assert!(st.shows_no_matches(true));
    assert!(!st.toggle_search());
    assert_eq!(st.search_query, "");
    assert!(!st.shows_no_matches(true));
    assert!(st.toggle_search());
    assert_eq!(st.search_query, "");
}

#[test]
fn dispatch_respects_focus_and_pointer() {
    let bindings = BindingsLayout::new();
    let sel = String::new();
    let mut st = TerminalViewState::new();
    let mut c = ctx(plain_mode());
    c.has_focus = false;
    let r = process_event(&mut st, &InputEvent::Text("a".to_string()), &c, &bindings, &sel);
    assert!(r.is_empty());
    c.has_focus = true;
    let r = process_event(&mut st, &InputEvent::Text("a".to_string()), &c, &bindings, &sel);
    assert_eq!(r, vec![InputAction::BackendCall(BackendCommand::Write(b"a".to_vec()))]);
    c.contains_pointer = false;
    let r = process_event(&mut st, &InputEvent::MouseWheel { unit: WheelUnit::Point, delta_y: -40 }, &c, &bindings, &sel);
    assert!(r.is_empty());
    let r = process_event(&mut st, &InputEvent::PointerMoved { x: 35, y: 65 }, &c, &bindings, &sel);
    assert!(r.is_empty());
    assert_eq!(st.current_mouse_position_on_grid, GridPoint { line: 3, column: 3 });
    c.contains_pointer = true;
    let r = process_event(&mut st, &InputEvent::MouseWheel { unit: WheelUnit::Point, delta_y: -40 }, &c, &bindings, &sel);
    assert_eq!(r, vec![InputAction::BackendCall(BackendCommand::Scroll(2))]);
    let r = process_event(&mut st, &InputEvent::Other, &c, &bindings, &sel);
    assert!(r.is_empty());
}

#[test]
fn default_settings_set_terminal_env() {
    let s = BackendSettings::default();
    assert_eq!(s.shell, "/bin/bash");
    assert!(s.args.is_empty());
    assert!(s.working_directory.is_none());
    assert_eq!(
        s.env,
        vec![
            ("TERM".to_string(), "xterm-256color".to_string()),
            ("COLORTERM".to_string(), "truecolor".to_string())
        ]
    );
}

#[test]
fn view_builders_keep_other_fields() {
    let v: TerminalView<u8, u16> = TerminalView::new(80000, 60000, 1, 2);
    let v = v.set_focus(true).set_theme(7).set_font(9).set_size(1000, 2000);
    assert!(v.has_focus);
    assert_eq!((v.font, v.theme, v.width, v.height), (9, 7, 1000, 2000));
    assert_eq!(v.grid_height(true), 0);
    assert_eq!(v.grid_height(false), 2000);
    assert!(!v.grid_wants_focus(true));
    assert!(v.grid_wants_focus(false));
    let v = v.add_bindings(vec![key_binding("A", BindingAction::LinkOpen)]);
    assert_eq!(v.bindings_layout.layout.len(), 1);
}
