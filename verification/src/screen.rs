//! Screen layout: what goes on which terminal row. The first prototype's
//! scratchpad lives here too; the chat window builds on the same layout.

use vstd::prelude::*;

verus! {

/// A text to print at the start of a terminal row.
pub struct Placement {
    pub row: u16,
    pub text: String,
}

impl View for Placement {
    type V = (u16, Seq<char>);

    open spec fn view(&self) -> (u16, Seq<char>) {
        (self.row, self.text@)
    }
}

/// One redraw of the message area: the rows `clear_from..clear_to` are
/// cleared, then each placement is printed in turn, then the cursor moves to
/// the start of `cursor_row`, if there is one.
pub struct Frame {
    pub clear_from: u16,
    pub clear_to: u16,
    pub lines: Vec<Placement>,
    pub cursor_row: Option<u16>,
}

/// The abstract content of a frame.
pub ghost struct FrameView {
    pub clear_from: u16,
    pub clear_to: u16,
    pub lines: Seq<(u16, Seq<char>)>,
    pub cursor_row: Option<u16>,
}

/// The views of a sequence of placements.
pub open spec fn placements_view(ps: Seq<Placement>) -> Seq<(u16, Seq<char>)> {
    ps.map_values(|p: Placement| p@)
}

/// The views of a sequence of strings.
pub open spec fn texts_view(ss: Seq<String>) -> Seq<Seq<char>> {
    ss.map_values(|s: String| s@)
}

impl View for Frame {
    type V = FrameView;

    open spec fn view(&self) -> FrameView {
        FrameView {
            clear_from: self.clear_from,
            clear_to: self.clear_to,
            lines: placements_view(self.lines@),
            cursor_row: self.cursor_row,
        }
    }
}

/// `count` texts stacked upwards from `bottom`: the text just before `end`
/// on row `bottom`, the one before it on the row above, and so on.
pub open spec fn stacked(texts: Seq<Seq<char>>, end: int, count: int, bottom: int) -> Seq<
    (u16, Seq<char>),
> {
    Seq::new(count as nat, |k: int| ((bottom - k) as u16, texts[end - 1 - k]))
}

/// Viewing a sequence of placements commutes with pushing one more.
pub proof fn lemma_placements_push(s: Seq<Placement>, p: Placement)
    ensures
        placements_view(s.push(p)) == placements_view(s).push(p@),
{
    assert(placements_view(s.push(p)) =~= placements_view(s).push(p@));
}

/// One more stacked text goes on the row above the others.
pub proof fn lemma_stacked_push(texts: Seq<Seq<char>>, end: int, count: int, bottom: int)
    requires
        count >= 0,
    ensures
        stacked(texts, end, count + 1, bottom) == stacked(texts, end, count, bottom).push(
            ((bottom - count) as u16, texts[end - 1 - count]),
        ),
{
    assert(stacked(texts, end, count + 1, bottom) =~= stacked(texts, end, count, bottom).push(
        ((bottom - count) as u16, texts[end - 1 - count]),
    ));
}

/// The smaller of two integers.
pub open spec fn min_int(a: int, b: int) -> int {
    if a < b {
        a
    } else {
        b
    }
}

/// The title of the scratchpad.
pub open spec fn pad_title() -> Seq<char> {
    "Loofa vAlpha0.1"@
}

/// The hint under the scratchpad's title.
pub open spec fn pad_hint() -> Seq<char> {
    "Press Ctrl+C to stop the program."@
}

/// How many lines `show_lines` prints below a bottom row of `last_row - 1`.
pub open spec fn shown_count(len: int, last_row: int) -> int {
    if last_row - 1 > 1 {
        min_int(len, last_row - 2)
    } else {
        0
    }
}

/// The scratchpad's title and hint on the top two rows, then the newest
/// lines from row `last_row - 1` upwards, down to row 2 at the highest.
pub fn show_lines(last_row: u16, lines: &[String]) -> (out: Vec<Placement>)
    requires
        last_row >= 1,
    ensures
        placements_view(out@) == seq![(0u16, pad_title()), (1u16, pad_hint())] + stacked(
            texts_view(lines@),
            lines@.len() as int,
            shown_count(lines@.len() as int, last_row as int),
            last_row - 1,
        ),
{
    let mut out: Vec<Placement> = Vec::new();
    out.push(Placement { row: 0, text: String::from_str("Loofa vAlpha0.1") });
    out.push(Placement { row: 1, text: String::from_str("Press Ctrl+C to stop the program.") });
    let size = lines.len();
    let mut row: u16 = last_row - 1;
    let mut i: usize = 1;
    let ghost texts = texts_view(lines@);
    let ghost head = seq![(0u16, pad_title()), (1u16, pad_hint())];
    assert(placements_view(out@) =~= head);
    while row > 1 && i <= size
        invariant
            size == lines@.len(),
            texts == texts_view(lines@),
            1 <= i <= size + 1,
            row == last_row - i,
            i == 1 || i + 1 <= last_row,
            last_row >= 1,
            placements_view(out@) =~= head + stacked(texts, size as int, i - 1, last_row - 1),
        decreases size + 1 - i,
    {
        let line = lines[size - i].clone();
        let ghost before = out@;
        let placed = Placement { row, text: line };
        out.push(placed);
        proof {
            lemma_placements_push(before, placed);
            lemma_stacked_push(texts, size as int, i - 1, last_row - 1);
            assert(texts[size - i] == lines@[size - i]@);
            assert(placements_view(out@) =~= head + stacked(texts, size as int, i as int, last_row - 1));
        }
        i = i + 1;
        row = row - 1;
    }
    assert(i - 1 == shown_count(size as int, last_row as int));
    out
}

/// The prototype's redraw of its message area: rows `2..rows - 1` are
/// cleared, then the newest lines go from row `rows - 2` upwards, as many as
/// the `rows - 3` rows between the hint and the input row hold.
pub fn update_display(lines: &[String], rows: u16) -> (frame: Frame)
    requires
        rows >= 3,
    ensures
        frame@.clear_from == 2,
        frame@.clear_to == rows - 1,
        frame@.cursor_row is None,
        frame@.lines == stacked(
            texts_view(lines@),
            lines@.len() as int,
            min_int(lines@.len() as int, rows - 3),
            rows - 2,
        ),
{
    let size = lines.len();
    let room = (rows - 3) as usize;
    let n = if size < room {
        size
    } else {
        room
    };
    let ghost texts = texts_view(lines@);
    let mut out: Vec<Placement> = Vec::new();
    let mut i: usize = 0;
    while i < n
        invariant
            size == lines@.len(),
            texts == texts_view(lines@),
            n <= size,
            n <= rows - 3,
            rows >= 3,
            i <= n,
            placements_view(out@) =~= stacked(texts, size as int, i as int, rows - 2),
        decreases n - i,
    {
        let row: u16 = rows - 2 - (i as u16);
        let ghost before = out@;
        let placed = Placement { row, text: lines[size - 1 - i].clone() };
        out.push(placed);
        proof {
            lemma_placements_push(before, placed);
            lemma_stacked_push(texts, size as int, i as int, rows - 2);
            assert(texts[size - 1 - i] == lines@[size - 1 - i]@);
            assert(placements_view(out@) =~= stacked(texts, size as int, i + 1, rows - 2));
        }
        i = i + 1;
    }
    Frame { clear_from: 2, clear_to: rows - 1, lines: out, cursor_row: None }
}

/// A key that the terminal reports.
pub enum KeyInput {
    Char(char),
    Backspace,
    Enter,
    /// Any other key.
    Other,
}

/// What the program does after a key on the scratchpad.
pub enum PadAction {
    /// Leave the program.
    Quit,
    /// Print the typed character.
    Echo(char),
    /// Erase one character before the cursor.
    Erase,
    /// Redraw the message area with `frame`, then clear the input row
    /// `prompt_row` and put the cursor at its start.
    Commit { frame: Frame, prompt_row: u16 },
    /// Nothing to do.
    Nothing,
}

/// The first prototype: an input row at the bottom of the terminal and the
/// lines entered so far above it.
pub struct Scratchpad {
    lines: Vec<String>,
    current: String,
    rows: u16,
}

/// The abstract state of the scratchpad.
pub ghost struct PadView {
    pub lines: Seq<Seq<char>>,
    pub current: Seq<char>,
    pub rows: u16,
}

impl View for Scratchpad {
    type V = PadView;

    closed spec fn view(&self) -> PadView {
        PadView { lines: texts_view(self.lines@), current: self.current@, rows: self.rows }
    }
}

impl Scratchpad {
    /// An empty scratchpad on a terminal of `rows` rows.
    pub fn new(rows: u16) -> (pad: Self)
        ensures
            pad@.lines == Seq::<Seq<char>>::empty(),
            pad@.current == Seq::<char>::empty(),
            pad@.rows == rows,
    {
        let pad = Scratchpad { lines: Vec::new(), current: String::new(), rows };
        assert(pad@.lines =~= Seq::<Seq<char>>::empty());
        pad
    }

    /// The lines entered so far, oldest first.
    pub fn lines(&self) -> (l: &Vec<String>)
        ensures
            texts_view(l@) == self@.lines,
    {
        &self.lines
    }

    /// The text typed on the input row.
    pub fn current(&self) -> (c: &String)
        ensures
            c@ == self@.current,
    {
        &self.current
    }

    /// Handles a key; `control` tells whether Control was among the
    /// modifiers. Control-C quits; a character is typed; Backspace erases
    /// the last character; Enter moves the input row's text to the end of
    /// the lines and redraws.
    pub fn handle_key(&mut self, key: KeyInput, control: bool) -> (action: PadAction)
        requires
            key is Enter ==> old(self)@.rows >= 3,
        ensures
            final(self)@.rows == old(self)@.rows,
            match key {
                KeyInput::Char(c) => if c == 'c' && control {
                    action is Quit && final(self)@ == old(self)@
                } else {
                    action == PadAction::Echo(c) && final(self)@.lines == old(self)@.lines
                        && final(self)@.current == old(self)@.current.push(c)
                },
                KeyInput::Backspace => {
                    &&& action is Erase
                    &&& final(self)@.lines == old(self)@.lines
                    &&& final(self)@.current == if old(self)@.current.len() > 0 {
                        old(self)@.current.drop_last()
                    } else {
                        old(self)@.current
                    }
                },
                KeyInput::Enter => {
                    &&& final(self)@.lines == old(self)@.lines.push(old(self)@.current)
                    &&& final(self)@.current == Seq::<char>::empty()
                    &&& action matches PadAction::Commit { frame, prompt_row } && prompt_row
                        == old(self)@.rows - 1 && frame@.clear_from == 2 && frame@.clear_to
                        == old(self)@.rows - 1 && frame@.cursor_row is None && frame@.lines
                        == stacked(
                        final(self)@.lines,
                        final(self)@.lines.len() as int,
                        min_int(final(self)@.lines.len() as int, old(self)@.rows - 3),
                        old(self)@.rows - 2,
                    )
                },
                KeyInput::Other => action is Nothing && final(self)@ == old(self)@,
            },
    {
        match key {
            KeyInput::Char(c) => {
                if c == 'c' && control {
                    PadAction::Quit
                } else {
                    crate::text::push_char(&mut self.current, c);
                    PadAction::Echo(c)
                }
            },
            KeyInput::Backspace => {
                let _ = crate::text::pop_char(&mut self.current);
                PadAction::Erase
            },
            KeyInput::Enter => {
                let entered = self.current.clone();
                self.lines.push(entered);
                self.current = String::new();
                assert(texts_view(self.lines@) =~= old(self)@.lines.push(old(self)@.current));
                let frame = update_display(self.lines.as_slice(), self.rows);
                PadAction::Commit { frame, prompt_row: self.rows - 1 }
            },
            KeyInput::Other => PadAction::Nothing,
        }
    }
}

/// After Enter on the scratchpad, the line just entered is drawn on the
/// row above the input row, where the terminal has room for one line.
pub proof fn entered_line_at_bottom(lines: Seq<Seq<char>>, entered: Seq<char>, rows: int)
    requires
        rows >= 4,
    ensures
        ({
            let after = lines.push(entered);
            let shown = stacked(after, after.len() as int, min_int(after.len() as int, rows - 3), rows - 2);
            shown.len() > 0 && shown[0] == ((rows - 2) as u16, entered)
        }),
{
}

/// The prototype's redraw, row by row: as many of the newest lines as the
/// `rows - 3` rows between the hint and the input row hold, the newest on
/// row `rows - 2`, each older one on the row above, each shown whole.
pub proof fn prototype_redraw_rows(lines: Seq<Seq<char>>, rows: int, k: int)
    requires
        rows >= 3,
    ensures
        ({
            let shown = stacked(lines, lines.len() as int, min_int(lines.len() as int, rows - 3), rows - 2);
            let n = if lines.len() < rows - 3 {
                lines.len() as int
            } else {
                rows - 3
            };
            &&& shown.len() == n
            &&& 0 <= k < n ==> shown[k] == ((rows - 2 - k) as u16, lines[lines.len() - 1 - k])
        }),
{
}

/// The scratchpad's listing: the title "Loofa vAlpha0.1" on row 0, the hint
/// "Press Ctrl+C to stop the program." on row 1, then as many of the newest
/// lines as fit from row `last_row - 1` up to row 2, newest lowest.
pub proof fn scratchpad_listing_rows(lines: Seq<Seq<char>>, last_row: int, k: int)
    requires
        last_row >= 1,
    ensures
        ({
            let shown = seq![(0u16, pad_title()), (1u16, pad_hint())] + stacked(
                lines,
                lines.len() as int,
                shown_count(lines.len() as int, last_row),
                last_row - 1,
            );
            let n = if last_row < 3 {
                0
            } else if lines.len() < last_row - 2 {
                lines.len() as int
            } else {
                last_row - 2
            };
            &&& shown.len() == 2 + n
            &&& shown[0] == (0u16, "Loofa vAlpha0.1"@)
            &&& shown[1] == (1u16, "Press Ctrl+C to stop the program."@)
            &&& 0 <= k < n ==> shown[2 + k] == ((last_row - 1 - k) as u16, lines[lines.len() - 1 - k])
        }),
{
}

} // verus!
