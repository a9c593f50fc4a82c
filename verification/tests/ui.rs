use loofa::screen::{Frame, KeyInput};
use loofa::user::ui::{truncate_line, ChatUI, ReceiveAction, ServerFrame, TermEvent, UIState, UiAction};

fn rows_of(frame: &Frame) -> Vec<(u16, String)> {
    frame.lines.iter().map(|p| (p.row, p.text.clone())).collect()
}

fn state_with(cols: u16, rows: u16, lines: &[&str]) -> UIState {
    let mut s = UIState::new(cols, rows);
    for l in lines {
        s.add_line(l.to_string());
    }
    s
}

#[test]
fn render_puts_newest_line_lowest() {
    let s = state_with(20, 10, &["one", "two", "three"]);
    assert!(s.can_render());
    let f = s.render();
    assert_eq!((f.clear_from, f.clear_to), (2, 10));
    assert_eq!(f.cursor_row, Some(9));
    assert_eq!(
        rows_of(&f),
        vec![(8, "three".to_string()), (7, "two".to_string()), (6, "one".to_string())]
    );
}

#[test]
fn render_shows_only_what_fits() {
    // 6 rows leave 3 rows for messages.
    let s = state_with(20, 6, &["a", "b", "c", "d", "e"]);
    let f = s.render();
    assert_eq!(rows_of(&f), vec![(4, "e".to_string()), (3, "d".to_string()), (2, "c".to_string())]);
}

#[test]
fn render_follows_the_scroll_offset() {
    let mut s = state_with(20, 6, &["a", "b", "c", "d", "e"]);
    assert!(s.scroll(true));
    assert!(s.scroll(true));
    assert_eq!(s.scroll_offset(), 2);
    let f = s.render();
    assert_eq!(rows_of(&f), vec![(4, "c".to_string()), (3, "b".to_string()), (2, "a".to_string())]);
}

#[test]
fn scrolling_stops_at_the_oldest_line() {
    let mut s = state_with(20, 6, &["a", "b", "c", "d", "e"]);
    assert!(s.scroll(true));
    assert!(s.scroll(true));
    assert!(!s.scroll(true));
    assert_eq!(s.scroll_offset(), 2);
    assert!(s.scroll(false));
    assert_eq!(s.scroll_offset(), 1);
}

#[test]
fn scrolling_down_stops_at_the_newest_line() {
    let mut s = state_with(20, 6, &["a"]);
    assert!(!s.scroll(false));
    assert!(!s.scroll(true));
    assert_eq!(s.scroll_offset(), 0);
}

#[test]
fn scroll_up_then_down_restores_the_offset() {
    let mut s = state_with(20, 6, &["a", "b", "c", "d", "e", "f"]);
    assert!(s.scroll(true));
    let before = s.scroll_offset();
    assert!(s.scroll(true));
    assert!(s.scroll(false));
    assert_eq!(s.scroll_offset(), before);
}

#[test]
fn long_lines_are_cut_with_dots() {
    assert_eq!(truncate_line(&"abcdefgh".to_string(), 5), "abcd...");
    assert_eq!(truncate_line(&"abcde".to_string(), 5), "abcde");
    let s = state_with(5, 6, &["abcdefgh"]);
    assert_eq!(rows_of(&s.render()), vec![(4, "abcd...".to_string())]);
}

#[test]
fn cuts_count_bytes() {
    // "é" takes two bytes: "aé" is three bytes wide.
    assert_eq!(truncate_line(&"aébc".to_string(), 4), "aé...");
    assert_eq!(truncate_line(&"aé".to_string(), 3), "aé");
}

#[test]
fn windows_that_cannot_be_drawn() {
    assert!(!state_with(20, 2, &[]).can_render());
    // cutting "éa" after one byte would split the "é"
    assert!(!state_with(2, 6, &["éa"]).can_render());
    // a zero-width terminal cannot hold any non-empty line
    assert!(!state_with(0, 6, &["x"]).can_render());
    assert!(state_with(0, 6, &[""]).can_render());
    // lines out of view are not drawn, so they do not matter
    let mut s = state_with(2, 4, &["éa", "ok"]);
    assert!(s.can_render());
    s.scroll(true);
    assert!(!s.can_render());
}

#[test]
fn resize_changes_the_window() {
    let mut s = state_with(20, 10, &["a", "b", "c"]);
    s.new_size(30, 5);
    assert_eq!((s.cols(), s.rows()), (30, 5));
    assert_eq!(rows_of(&s.render()), vec![(3, "c".to_string()), (2, "b".to_string())]);
}

fn key(c: char) -> TermEvent {
    TermEvent::Key { code: KeyInput::Char(c), control_only: false }
}

#[test]
fn typing_and_sending() {
    let mut ui = ChatUI::new(40, 12);
    assert!(matches!(ui.handle_event(key('h')), UiAction::Echo('h')));
    assert!(matches!(ui.handle_event(key('i')), UiAction::Echo('i')));
    assert_eq!(ui.input, "hi");
    match ui.handle_event(TermEvent::Key { code: KeyInput::Enter, control_only: false }) {
        UiAction::Send(text) => assert_eq!(text, "hi"),
        _ => panic!("Enter must send"),
    }
    assert_eq!(ui.input, "hi");
    assert_eq!(ui.sent(), 11);
    assert_eq!(ui.input, "");
}

#[test]
fn backspace_erases_the_last_character() {
    let mut ui = ChatUI::new(40, 12);
    ui.handle_event(key('a'));
    ui.handle_event(key('é'));
    assert!(matches!(
        ui.handle_event(TermEvent::Key { code: KeyInput::Backspace, control_only: false }),
        UiAction::Erase
    ));
    assert_eq!(ui.input, "a");
    ui.handle_event(TermEvent::Key { code: KeyInput::Backspace, control_only: false });
    ui.handle_event(TermEvent::Key { code: KeyInput::Backspace, control_only: false });
    assert_eq!(ui.input, "");
}

#[test]
fn control_c_quits_and_other_control_keys_type() {
    let mut ui = ChatUI::new(40, 12);
    assert!(matches!(
        ui.handle_event(TermEvent::Key { code: KeyInput::Char('c'), control_only: true }),
        UiAction::Quit
    ));
    assert!(matches!(
        ui.handle_event(TermEvent::Key { code: KeyInput::Char('x'), control_only: true }),
        UiAction::Echo('x')
    ));
    assert!(matches!(ui.handle_event(key('c')), UiAction::Echo('c')));
    assert_eq!(ui.input, "xc");
}

#[test]
fn wheel_that_moves_the_window_freezes_the_client() {
    let mut ui = ChatUI::new(40, 6);
    for t in ["a", "b", "c", "d"] {
        assert!(matches!(ui.receive(ServerFrame::Text(t.to_string())), ReceiveAction::Redraw));
    }
    assert!(matches!(ui.handle_event(TermEvent::ScrollUp), UiAction::Freeze));
    assert_eq!(ui.state.scroll_offset(), 1);
    assert!(matches!(ui.handle_event(TermEvent::ScrollUp), UiAction::Nothing));
    assert!(matches!(ui.handle_event(TermEvent::ScrollDown), UiAction::Freeze));
    assert!(matches!(ui.handle_event(TermEvent::ScrollDown), UiAction::Nothing));
    assert!(matches!(ui.handle_event(TermEvent::Resize { cols: 10, rows: 7 }), UiAction::Nothing));
    assert_eq!(ui.state.rows(), 7);
    assert!(matches!(ui.handle_event(TermEvent::Other), UiAction::Nothing));
}

#[test]
fn server_frames() {
    let mut ui = ChatUI::new(40, 12);
    assert!(matches!(ui.receive(ServerFrame::Text("bob: hi".to_string())), ReceiveAction::Redraw));
    assert!(matches!(ui.receive(ServerFrame::Close), ReceiveAction::ConnectionClosed));
    assert!(matches!(ui.receive(ServerFrame::Other), ReceiveAction::Nothing));
    assert_eq!(ui.state.lines().clone(), vec!["bob: hi".to_string()]);
}

#[test]
fn failed_send_is_shown() {
    let mut ui = ChatUI::new(40, 12);
    ui.send_failed("broken pipe");
    assert_eq!(ui.state.lines().clone(), vec!["Failed to send: broken pipe".to_string()]);
}

#[test]
fn first_screen() {
    let ui = ChatUI::new(40, 12);
    let f = ui.init_display();
    assert_eq!((f.clear_from, f.clear_to), (0, 0));
    assert_eq!(
        rows_of(&f),
        vec![(0, "Loofa vAlpha0.2".to_string()), (1, "Press Ctrl+C to exit.".to_string())]
    );
    assert_eq!(f.cursor_row, Some(11));
}

#[test]
fn scroll_down_then_up_restores_the_offset() {
    let mut s = state_with(20, 6, &["a", "b", "c", "d", "e", "f"]);
    assert_eq!(s.line_count(), 6);
    assert!(s.scroll(true));
    assert!(s.scroll(true));
    assert!(s.scroll(false));
    assert!(s.scroll(true));
    assert_eq!(s.scroll_offset(), 2);
}
