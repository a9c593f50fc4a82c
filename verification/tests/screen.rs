use loofa::screen::{show_lines, update_display, KeyInput, PadAction, Scratchpad};

fn strings(v: &[&str]) -> Vec<String> {
    v.iter().map(|s| s.to_string()).collect()
}

#[test]
fn show_lines_prints_header_then_newest_lines_upwards() {
    let lines = strings(&["a", "b", "c"]);
    let out: Vec<(u16, String)> = show_lines(9, &lines).into_iter().map(|p| (p.row, p.text)).collect();
    assert_eq!(
        out,
        vec![
            (0, "Loofa vAlpha0.1".to_string()),
            (1, "Press Ctrl+C to stop the program.".to_string()),
            (8, "c".to_string()),
            (7, "b".to_string()),
            (6, "a".to_string()),
        ]
    );
}

#[test]
fn show_lines_stops_at_row_two() {
    let lines = strings(&["a", "b", "c", "d"]);
    let rows: Vec<u16> = show_lines(5, &lines).iter().map(|p| p.row).collect();
    assert_eq!(rows, vec![0, 1, 4, 3, 2]);
    assert_eq!(show_lines(2, &lines).len(), 2);
    assert_eq!(show_lines(1, &lines).len(), 2);
}

#[test]
fn update_display_clears_and_stacks() {
    let lines = strings(&["a", "b", "c", "d"]);
    let f = update_display(&lines, 6);
    assert_eq!((f.clear_from, f.clear_to), (2, 5));
    assert_eq!(f.cursor_row, None);
    let out: Vec<(u16, String)> = f.lines.into_iter().map(|p| (p.row, p.text)).collect();
    assert_eq!(out, vec![(4, "d".to_string()), (3, "c".to_string()), (2, "b".to_string())]);
    assert_eq!(update_display(&lines, 3).lines.len(), 0);
}

#[test]
fn scratchpad_types_and_commits() {
    let mut pad = Scratchpad::new(8);
    assert!(matches!(pad.handle_key(KeyInput::Char('h'), false), PadAction::Echo('h')));
    assert!(matches!(pad.handle_key(KeyInput::Char('x'), false), PadAction::Echo('x')));
    assert!(matches!(pad.handle_key(KeyInput::Backspace, false), PadAction::Erase));
    assert!(matches!(pad.handle_key(KeyInput::Char('i'), false), PadAction::Echo('i')));
    assert_eq!(pad.current(), "hi");
    match pad.handle_key(KeyInput::Enter, false) {
        PadAction::Commit { frame, prompt_row } => {
            assert_eq!(prompt_row, 7);
            assert_eq!(frame.lines.len(), 1);
            assert_eq!(frame.lines[0].row, 6);
            assert_eq!(frame.lines[0].text, "hi");
        }
        _ => panic!("Enter must commit"),
    }
    assert_eq!(pad.current(), "");
    assert_eq!(pad.lines().clone(), vec!["hi".to_string()]);
}

#[test]
fn scratchpad_quits_on_control_c_with_any_other_modifier() {
    let mut pad = Scratchpad::new(8);
    assert!(matches!(pad.handle_key(KeyInput::Char('c'), true), PadAction::Quit));
    assert!(matches!(pad.handle_key(KeyInput::Char('c'), false), PadAction::Echo('c')));
    assert!(matches!(pad.handle_key(KeyInput::Other, false), PadAction::Nothing));
}
