//! The chat window: the received lines above, the input row at the bottom,
//! scrolling through the history, and what each terminal event does.

use crate::screen::{
    min_int, placements_view, stacked, texts_view, Frame, FrameView, KeyInput, Placement,
    lemma_placements_push, lemma_stacked_push,
};
use crate::text::{concat2, pop_char, push_char};
use vstd::prelude::*;
use vstd::utf8::{decode_utf8, encode_utf8, is_char_boundary};

verus! {

/// `a - b`, or 0 where that is negative (`usize::saturating_sub`).
pub open spec fn sat_sub(a: int, b: int) -> int {
    if a > b {
        a - b
    } else {
        0
    }
}

/// The abstract state of the chat window.
pub ghost struct UiView {
    pub lines: Seq<Seq<char>>,
    pub scroll: usize,
    pub cols: u16,
    pub rows: u16,
}

/// The UTF-8 bytes of a line.
pub open spec fn line_bytes(line: Seq<char>) -> Seq<u8> {
    encode_utf8(line)
}

/// A line wider than `cols` bytes can be cut after `cols - 1` bytes: there
/// is room for at least one byte and the cut falls between two characters.
pub open spec fn fits_cut(line: Seq<char>, cols: u16) -> bool {
    line_bytes(line).len() > cols ==> cols >= 1 && is_char_boundary(line_bytes(line), cols - 1)
}

/// A line as drawn in `cols` columns: one wider than `cols` bytes keeps its
/// first `cols - 1` bytes and gets `...` appended.
pub open spec fn truncated(line: Seq<char>, cols: u16) -> Seq<char> {
    if line_bytes(line).len() > cols {
        decode_utf8(line_bytes(line).subrange(0, cols - 1)) + "..."@
    } else {
        line
    }
}

/// The end (exclusive) of the lines in view: `scroll` lines above the newest.
pub open spec fn window_end(v: UiView) -> int {
    sat_sub(v.lines.len() as int, v.scroll as int)
}

/// The first line in view: the window holds the `rows - 3` rows between the
/// hint and the input row.
pub open spec fn window_start(v: UiView) -> int {
    sat_sub(v.lines.len() as int, v.scroll + v.rows - 3)
}

/// The window can be drawn: the terminal has room for the header and the
/// input row, the window's arithmetic fits a `usize`, and each line in view
/// can be cut where it is too wide.
pub open spec fn renderable(v: UiView) -> bool {
    &&& v.rows >= 3
    &&& v.scroll + v.rows - 3 <= usize::MAX
    &&& forall|j: int| window_start(v) <= j < window_end(v) ==> fits_cut(#[trigger] v.lines[j], v.cols)
}

/// The lines as drawn in `cols` columns.
pub open spec fn drawn(lines: Seq<Seq<char>>, cols: u16) -> Seq<Seq<char>> {
    lines.map_values(|l: Seq<char>| truncated(l, cols))
}

/// The redraw of the window: rows `2..rows` are cleared (the input row
/// too), the lines in view go from row `rows - 2` upwards, newest lowest,
/// and the cursor returns to the input row.
pub open spec fn render_view(v: UiView) -> FrameView {
    FrameView {
        clear_from: 2,
        clear_to: v.rows,
        lines: stacked(
            drawn(v.lines, v.cols),
            window_end(v),
            window_end(v) - window_start(v),
            v.rows - 2,
        ),
        cursor_row: Some((v.rows - 1) as u16),
    }
}

/// How far back the window can be scrolled.
pub open spec fn max_scroll(len: int, rows: int) -> int {
    sat_sub(len, rows - 3)
}

/// The scroll offset after one step up (back in history) or down.
pub open spec fn scrolled(scroll: int, len: int, rows: int, up: bool) -> int {
    if up {
        min_int(min_int(scroll + 1, usize::MAX as int), max_scroll(len, rows))
    } else {
        sat_sub(scroll, 1)
    }
}

/// A line in `cols` columns, cut with `...` where it is too wide.
pub fn truncate_line(line: &String, cols: u16) -> (t: String)
    requires
        fits_cut(line@, cols),
    ensures
        t@ == truncated(line@, cols),
{
    let s = line.as_str();
    let bytes = s.as_bytes();
    if bytes.len() > cols as usize {
        let (head, _tail) = s.split_at(cols as usize - 1);
        proof {
            vstd::utf8::encode_utf8_decode_utf8(head@);
        }
        concat2(head, "...")
    } else {
        line.clone()
    }
}

/// Whether `line` can be cut for `cols` columns.
fn line_fits(line: &String, cols: u16) -> (b: bool)
    ensures
        b == fits_cut(line@, cols),
{
    let s = line.as_str();
    let bytes = s.as_bytes();
    if bytes.len() > cols as usize {
        cols >= 1 && s.is_char_boundary(cols as usize - 1)
    } else {
        true
    }
}

/// The received lines, the scroll offset and the terminal's size.
pub struct UIState {
    lines: Vec<String>,
    scroll_offset: usize,
    cols: u16,
    rows: u16,
}

impl View for UIState {
    type V = UiView;

    closed spec fn view(&self) -> UiView {
        UiView {
            lines: texts_view(self.lines@),
            scroll: self.scroll_offset,
            cols: self.cols,
            rows: self.rows,
        }
    }
}

impl UIState {
    /// An empty window on a terminal of `cols` columns and `rows` rows.
    pub fn new(cols: u16, rows: u16) -> (s: Self)
        ensures
            s@.lines == Seq::<Seq<char>>::empty(),
            s@.scroll == 0,
            s@.cols == cols,
            s@.rows == rows,
    {
        let s = UIState { lines: Vec::new(), scroll_offset: 0, cols, rows };
        assert(s@.lines =~= Seq::<Seq<char>>::empty());
        s
    }

    /// The received lines, oldest first.
    pub fn lines(&self) -> (l: &Vec<String>)
        ensures
            texts_view(l@) == self@.lines,
    {
        &self.lines
    }

    /// How many lines the window holds.
    pub fn line_count(&self) -> (n: usize)
        ensures
            n == self@.lines.len(),
    {
        self.lines.len()
    }

    /// How many lines the window is scrolled back.
    pub fn scroll_offset(&self) -> (s: usize)
        ensures
            s == self@.scroll,
    {
        self.scroll_offset
    }

    /// The terminal's width.
    pub fn cols(&self) -> (c: u16)
        ensures
            c == self@.cols,
    {
        self.cols
    }

    /// The terminal's height.
    pub fn rows(&self) -> (r: u16)
        ensures
            r == self@.rows,
    {
        self.rows
    }

    /// Appends a received line; the caller redraws with `render`.
    pub fn add_line(&mut self, line: String)
        ensures
            final(self)@ == (UiView { lines: old(self)@.lines.push(line@), ..old(self)@ }),
            final(self)@.lines.len() <= usize::MAX,
    {
        self.lines.push(line);
        let _count = self.lines.len();
        assert(texts_view(self.lines@) =~= old(self)@.lines.push(line@));
    }

    /// Whether `render` may be called.
    pub fn can_render(&self) -> (b: bool)
        ensures
            b == renderable(self@),
    {
        if self.rows < 3 {
            return false;
        }
        let room = (self.rows - 3) as usize;
        if self.scroll_offset > usize::MAX - room {
            return false;
        }
        let len = self.lines.len();
        let start = len.saturating_sub(self.scroll_offset + room);
        let end = len.saturating_sub(self.scroll_offset);
        let mut j = start;
        while j < end
            invariant
                len == self.lines@.len(),
                start <= j <= end <= len,
                start == window_start(self@),
                end == window_end(self@),
                forall|k: int| start <= k < j ==> fits_cut(#[trigger] self@.lines[k], self@.cols),
            decreases end - j,
        {
            assert(self@.lines[j as int] == self.lines@[j as int]@);
            if !line_fits(&self.lines[j], self.cols) {
                return false;
            }
            j = j + 1;
        }
        true
    }

    /// The redraw of the window.
    pub fn render(&self) -> (frame: Frame)
        requires
            renderable(self@),
        ensures
            frame@ == render_view(self@),
    {
        let rows = self.rows;
        let cols = self.cols;
        let len = self.lines.len();
        let start = len.saturating_sub(self.scroll_offset + (rows - 3) as usize);
        let end = len.saturating_sub(self.scroll_offset);
        let n = end - start;
        let ghost texts = drawn(self@.lines, cols);
        let mut out: Vec<Placement> = Vec::new();
        let mut idx: usize = 0;
        while idx < n
            invariant
                len == self.lines@.len(),
                renderable(self@),
                rows == self@.rows,
                cols == self@.cols,
                start == window_start(self@),
                end == window_end(self@),
                start <= end <= len,
                n == end - start,
                n <= rows - 3,
                texts == drawn(self@.lines, cols),
                idx <= n,
                placements_view(out@) =~= stacked(texts, end as int, idx as int, rows - 2),
            decreases n - idx,
        {
            let row: u16 = rows - 2 - (idx as u16);
            let line = &self.lines[end - 1 - idx];
            assert(self@.lines[end - 1 - idx] == line@);
            let text = truncate_line(line, cols);
            let ghost before = out@;
            let placed = Placement { row, text };
            out.push(placed);
            proof {
                lemma_placements_push(before, placed);
                lemma_stacked_push(texts, end as int, idx as int, rows - 2);
                assert(placements_view(out@) =~= stacked(texts, end as int, idx + 1, rows - 2));
            }
            idx = idx + 1;
        }
        Frame { clear_from: 2, clear_to: rows, lines: out, cursor_row: Some(rows - 1) }
    }

    /// Scrolls one line back (`up`) or forward; a scroll that changes
    /// nothing leaves the state as it was. Tells whether the offset changed.
    pub fn scroll(&mut self, up: bool) -> (changed: bool)
        requires
            old(self)@.rows >= 3,
        ensures
            final(self)@ == (UiView {
                scroll: scrolled(
                    old(self)@.scroll as int,
                    old(self)@.lines.len() as int,
                    old(self)@.rows as int,
                    up,
                ) as usize,
                ..old(self)@
            }),
            changed == (final(self)@.scroll != old(self)@.scroll),
            old(self)@.lines.len() <= usize::MAX,
    {
        let rows = self.rows;
        let max_scroll = self.lines.len().saturating_sub((rows - 3) as usize);
        let current = self.scroll_offset;
        let new = if up {
            let bumped = current.saturating_add(1);
            if bumped < max_scroll {
                bumped
            } else {
                max_scroll
            }
        } else {
            current.saturating_sub(1)
        };
        if new != current {
            self.scroll_offset = new;
        }
        new != current
    }

    /// Records the terminal's new size.
    pub fn new_size(&mut self, new_cols: u16, new_rows: u16)
        ensures
            final(self)@ == (UiView { cols: new_cols, rows: new_rows, ..old(self)@ }),
    {
        self.cols = new_cols;
        self.rows = new_rows;
    }
}

/// An event that the terminal reports.
pub enum TermEvent {
    /// A key; `control_only` tells whether Control, and no other modifier,
    /// was held.
    Key { code: KeyInput, control_only: bool },
    ScrollUp,
    ScrollDown,
    Resize { cols: u16, rows: u16 },
    /// Any other event.
    Other,
}

/// What the program does after an event.
pub enum UiAction {
    /// Leave the chat.
    Quit,
    /// Print the typed character.
    Echo(char),
    /// Erase one character before the cursor.
    Erase,
    /// Send this text over the socket, then report with `sent` or
    /// `send_failed`.
    Send(String),
    /// The client stops for good. The wheel moved the window: the scroll
    /// keeps the lines locked while it redraws, and the redraw waits for
    /// that same lock, so neither keys nor messages are handled again.
    Freeze,
    /// Nothing to do.
    Nothing,
}

/// A message that the server sends over the socket.
pub enum ServerFrame {
    Text(String),
    Close,
    /// Binary data, a ping, a pong or a raw frame.
    Other,
}

/// What the program does after a message from the server.
pub enum ReceiveAction {
    /// Redraw the window with `render`.
    Redraw,
    /// Say that the server closed the connection.
    ConnectionClosed,
    /// Nothing to do.
    Nothing,
}

/// The input row after a key: a typed character is appended, Backspace
/// drops the last character, anything else leaves it.
pub open spec fn edited(input: Seq<char>, code: KeyInput, control_only: bool) -> Seq<char> {
    match code {
        KeyInput::Char(c) => if c == 'c' && control_only {
            input
        } else {
            input.push(c)
        },
        KeyInput::Backspace => if input.len() > 0 {
            input.drop_last()
        } else {
            input
        },
        _ => input,
    }
}

/// The chat window and the text being typed on its input row.
pub struct ChatUI {
    pub state: UIState,
    pub input: String,
}

impl ChatUI {
    /// A chat window on a terminal of `cols` columns and `rows` rows.
    pub fn new(cols: u16, rows: u16) -> (ui: Self)
        ensures
            ui.state@.lines == Seq::<Seq<char>>::empty(),
            ui.state@.scroll == 0,
            ui.state@.cols == cols,
            ui.state@.rows == rows,
            ui.input@ == Seq::<char>::empty(),
    {
        ChatUI { state: UIState::new(cols, rows), input: String::new() }
    }

    /// The first screen: the title and the hint on the top two rows, and
    /// the cursor at the start of the input row.
    pub fn init_display(&self) -> (frame: Frame)
        requires
            self.state@.rows >= 1,
        ensures
            frame@.clear_from == 0,
            frame@.clear_to == 0,
            frame@.lines == seq![(0u16, "Loofa vAlpha0.2"@), (1u16, "Press Ctrl+C to exit."@)],
            frame@.cursor_row == Some((self.state@.rows - 1) as u16),
    {
        let mut lines: Vec<Placement> = Vec::new();
        lines.push(Placement { row: 0, text: String::from_str("Loofa vAlpha0.2") });
        lines.push(Placement { row: 1, text: String::from_str("Press Ctrl+C to exit.") });
        assert(placements_view(lines@) =~= seq![
            (0u16, "Loofa vAlpha0.2"@),
            (1u16, "Press Ctrl+C to exit."@),
        ]);
        Frame { clear_from: 0, clear_to: 0, lines, cursor_row: Some(self.state.rows() - 1) }
    }

    /// Handles a terminal event. Control-C (with no other modifier) quits;
    /// a character is typed; Backspace erases; Enter asks to send the input
    /// row's text; the mouse wheel scrolls, and a scroll that moves the
    /// window freezes the client; a resize records the new size.
    pub fn handle_event(&mut self, event: TermEvent) -> (action: UiAction)
        requires
            (event is ScrollUp || event is ScrollDown) ==> old(self).state@.rows >= 3,
        ensures
            match event {
                TermEvent::Key { code, control_only } => {
                    &&& final(self).state@ == old(self).state@
                    &&& final(self).input@ == edited(old(self).input@, code, control_only)
                    &&& match code {
                        KeyInput::Char(c) => if c == 'c' && control_only {
                            action is Quit
                        } else {
                            action matches UiAction::Echo(e) && e == c
                        },
                        KeyInput::Backspace => action is Erase,
                        KeyInput::Enter => action matches UiAction::Send(t) && t@
                            == old(self).input@,
                        KeyInput::Other => action is Nothing,
                    }
                },
                TermEvent::ScrollUp => {
                    &&& old(self).state@.lines.len() <= usize::MAX
                    &&& final(self).input@ == old(self).input@
                    &&& final(self).state@.scroll == scrolled(
                        old(self).state@.scroll as int,
                        old(self).state@.lines.len() as int,
                        old(self).state@.rows as int,
                        true,
                    )
                    &&& final(self).state@ == (UiView { scroll: final(self).state@.scroll, ..old(self).state@ })
                    &&& if final(self).state@.scroll != old(self).state@.scroll {
                        action is Freeze
                    } else {
                        action is Nothing
                    }
                },
                TermEvent::ScrollDown => {
                    &&& old(self).state@.lines.len() <= usize::MAX
                    &&& final(self).input@ == old(self).input@
                    &&& final(self).state@.scroll == scrolled(
                        old(self).state@.scroll as int,
                        old(self).state@.lines.len() as int,
                        old(self).state@.rows as int,
                        false,
                    )
                    &&& final(self).state@ == (UiView { scroll: final(self).state@.scroll, ..old(self).state@ })
                    &&& if final(self).state@.scroll != old(self).state@.scroll {
                        action is Freeze
                    } else {
                        action is Nothing
                    }
                },
                TermEvent::Resize { cols, rows } => {
                    &&& final(self).input@ == old(self).input@
                    &&& final(self).state@ == (UiView { cols, rows, ..old(self).state@ })
                    &&& action is Nothing
                },
                TermEvent::Other => {
                    &&& final(self).input@ == old(self).input@
                    &&& final(self).state@ == old(self).state@
                    &&& action is Nothing
                },
            },
    {
        match event {
            TermEvent::Key { code, control_only } => match code {
                KeyInput::Char(ch) => {
                    if ch == 'c' && control_only {
                        UiAction::Quit
                    } else {
                        push_char(&mut self.input, ch);
                        UiAction::Echo(ch)
                    }
                },
                KeyInput::Backspace => {
                    let _ = pop_char(&mut self.input);
                    UiAction::Erase
                },
                KeyInput::Enter => UiAction::Send(self.input.clone()),
                KeyInput::Other => UiAction::Nothing,
            },
            TermEvent::ScrollUp => {
                if self.state.scroll(true) {
                    UiAction::Freeze
                } else {
                    UiAction::Nothing
                }
            },
            TermEvent::ScrollDown => {
                if self.state.scroll(false) {
                    UiAction::Freeze
                } else {
                    UiAction::Nothing
                }
            },
            TermEvent::Resize { cols, rows } => {
                self.state.new_size(cols, rows);
                UiAction::Nothing
            },
            TermEvent::Other => UiAction::Nothing,
        }
    }

    /// The text was sent: the input row is emptied, and the row to put the
    /// cursor on (the input row) is returned.
    pub fn sent(&mut self) -> (cursor_row: u16)
        requires
            old(self).state@.rows >= 1,
        ensures
            final(self).state@ == old(self).state@,
            final(self).input@ == Seq::<char>::empty(),
            cursor_row == old(self).state@.rows - 1,
    {
        self.input = String::new();
        self.state.rows() - 1
    }

    /// Sending failed with the error text `error`: the window shows
    /// `Failed to send: ` and the error; the caller redraws and quits.
    pub fn send_failed(&mut self, error: &str)
        ensures
            final(self).input@ == old(self).input@,
            final(self).state@ == (UiView {
                lines: old(self).state@.lines.push("Failed to send: "@ + error@),
                ..old(self).state@
            }),
    {
        let line = concat2("Failed to send: ", error);
        self.state.add_line(line);
    }

    /// Handles a message from the server: a text becomes a new line of the
    /// window, a close is announced, anything else is ignored.
    pub fn receive(&mut self, frame: ServerFrame) -> (action: ReceiveAction)
        ensures
            final(self).input@ == old(self).input@,
            match frame {
                ServerFrame::Text(text) => {
                    &&& final(self).state@ == (UiView {
                        lines: old(self).state@.lines.push(text@),
                        ..old(self).state@
                    })
                    &&& action is Redraw
                },
                ServerFrame::Close => final(self).state@ == old(self).state@
                    && action is ConnectionClosed,
                ServerFrame::Other => final(self).state@ == old(self).state@ && action is Nothing,
            },
    {
        match frame {
            ServerFrame::Text(text) => {
                self.state.add_line(text);
                ReceiveAction::Redraw
            },
            ServerFrame::Close => ReceiveAction::ConnectionClosed,
            ServerFrame::Other => ReceiveAction::Nothing,
        }
    }
}

/// Typing a character and erasing it gives back the input row as it was.
pub proof fn typing_then_erasing_restores_input(
    input: Seq<char>,
    c: char,
    control_only: bool,
    control_on_erase: bool,
)
    requires
        !(c == 'c' && control_only),
    ensures
        edited(edited(input, KeyInput::Char(c), control_only), KeyInput::Backspace, control_on_erase)
            == input,
{
    assert(input.push(c).drop_last() =~= input);
}

/// A step back in history followed by a step forward returns to the same
/// offset, where the step back was not stopped at the oldest line.
pub proof fn scrolling_up_then_down_restores(scroll: int, len: int, rows: int)
    requires
        0 <= scroll < max_scroll(len, rows),
        rows >= 3,
        len <= usize::MAX,
    ensures
        scrolled(scrolled(scroll, len, rows, true), len, rows, false) == scroll,
{
}

/// A step forward followed by a step back returns to the same offset, where
/// the window was scrolled back and not beyond the oldest line.
pub proof fn scrolling_down_then_up_restores(scroll: int, len: int, rows: int)
    requires
        1 <= scroll <= max_scroll(len, rows),
        rows >= 3,
        len <= usize::MAX,
    ensures
        scrolled(scrolled(scroll, len, rows, false), len, rows, true) == scroll,
{
}

/// Scrolling from an offset within the history stays within it.
pub proof fn scrolling_stays_in_history(scroll: int, len: int, rows: int, up: bool)
    requires
        0 <= scroll <= max_scroll(len, rows),
    ensures
        0 <= scrolled(scroll, len, rows, up) <= max_scroll(len, rows),
{
}

/// Scrolled to the newest line, the window draws that line on the row just
/// above the input row.
pub proof fn newest_line_at_bottom(v: UiView)
    requires
        renderable(v),
        v.rows >= 4,
        v.scroll == 0,
        v.lines.len() > 0,
    ensures
        render_view(v).lines.len() > 0,
        render_view(v).lines[0] == ((v.rows - 2) as u16, truncated(v.lines.last(), v.cols)),
{
}

/// Every line that the window draws lies between the hint (row 1) and the
/// input row (row `rows - 1`), and the window draws at most `rows - 3`
/// lines.
pub proof fn drawn_lines_stay_in_window(v: UiView, k: int)
    requires
        renderable(v),
        0 <= k < render_view(v).lines.len(),
    ensures
        render_view(v).lines.len() <= v.rows - 3,
        2 <= render_view(v).lines[k].0 <= v.rows - 2,
{
}

/// The redraw of the window, row by row: it clears rows `2..rows`, then
/// draws as many lines as the `rows - 3` rows between the hint and the input
/// row hold, going back from `scroll` lines above the newest. The `k`-th
/// goes on row `rows - 2 - k` and shows the `k`-th line counted back from
/// there: a line longer than `cols` bytes shows its first `cols - 1` bytes
/// followed by `...`, any other line shows whole. Then the cursor returns to
/// the input row.
pub proof fn window_draws_each_line_cut_to_width(v: UiView, k: int)
    requires
        v.rows >= 3,
    ensures
        render_view(v).clear_from == 2,
        render_view(v).clear_to == v.rows,
        render_view(v).cursor_row == Some((v.rows - 1) as u16),
        ({
            let end = if v.lines.len() > v.scroll {
                v.lines.len() - v.scroll
            } else {
                0
            };
            render_view(v).lines.len() == if end < v.rows - 3 {
                end
            } else {
                v.rows - 3
            }
        }),
        0 <= k < render_view(v).lines.len() ==> ({
            let end = v.lines.len() - v.scroll;
            let line = v.lines[end - 1 - k];
            let bytes = encode_utf8(line);
            render_view(v).lines[k] == ((v.rows - 2 - k) as u16, if bytes.len() > v.cols {
                decode_utf8(bytes.subrange(0, v.cols - 1)) + "..."@
            } else {
                line
            })
        }),
{
    let end = window_end(v);
    let count = window_end(v) - window_start(v);
    if 0 <= k < count {
        assert(drawn(v.lines, v.cols)[end - 1 - k] == truncated(v.lines[end - 1 - k], v.cols));
    }
}

/// What a key does to the input row: a character is appended (Control-C
/// aside, which leaves it), Backspace drops the last character of a
/// non-empty row, and Enter or any other key leaves the row as it is.
pub proof fn keys_edit_the_input_row(input: Seq<char>, c: char, control_only: bool)
    ensures
        !(c == 'c' && control_only) ==> edited(input, KeyInput::Char(c), control_only)
            == input.push(c),
        edited(input, KeyInput::Char('c'), true) == input,
        input.len() > 0 ==> edited(input, KeyInput::Backspace, control_only) == input.subrange(
            0,
            input.len() - 1,
        ),
        edited(Seq::<char>::empty(), KeyInput::Backspace, control_only) == Seq::<char>::empty(),
        edited(input, KeyInput::Enter, control_only) == input,
        edited(input, KeyInput::Other, control_only) == input,
{
}

/// A window of at least three rows whose lines in view each fit in `cols`
/// bytes can be drawn (where the scroll arithmetic fits a `usize`).
pub proof fn narrow_lines_can_be_drawn(v: UiView)
    requires
        v.rows >= 3,
        v.scroll + v.rows - 3 <= usize::MAX,
        forall|j: int| 0 <= j < v.lines.len() ==> encode_utf8(#[trigger] v.lines[j]).len() <= v.cols,
    ensures
        renderable(v),
{
}

} // verus!
