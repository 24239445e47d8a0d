//! The line-buffer editing engine: an ordered document of lines and a single
//! cursor, with auto-pairing of bracket/quote characters, soft tabs, tab-aware
//! backspace and context-sensitive auto-indentation on newline.
use vstd::prelude::*;
use crate::insert_at;
use crate::lines_view;

verus! {

/// Width of a soft tab: the number of space characters that `insert_tab`
/// inserts and that a tab-aware `backspace` removes in one step.
pub const TAB_SIZE: usize = 4;

/// A discrete cursor-movement request.
#[derive(Clone, Copy, PartialEq, Eq, Structural, Debug)]
pub enum Direction {
    Up,
    Down,
    Left,
    Right,
}

/// Mathematical model of an editor: the document as a sequence of lines (each
/// a sequence of characters) and the cursor as a (row, column) pair.
#[verifier::ext_equal]
pub struct EditorModel {
    pub lines: Seq<Seq<char>>,
    pub row: int,
    pub col: int,
}

impl EditorModel {
    /// The document always holds at least one line, the cursor row is a valid
    /// line index, and the column lies within the row's line (it may equal the
    /// line's length, meaning "after the last character").
    pub open spec fn wf(self) -> bool {
        &&& self.lines.len() >= 1
        &&& 0 <= self.row < self.lines.len()
        &&& 0 <= self.col <= self.lines[self.row].len()
    }

    /// The line the cursor is on.
    pub open spec fn cur_line(self) -> Seq<char> {
        self.lines[self.row]
    }
}

/// The state of a freshly created editor: one empty line, cursor at (0, 0).
pub open spec fn initial_editor() -> EditorModel {
    EditorModel { lines: seq![Seq::empty()], row: 0, col: 0 }
}

/// Characters that are inserted together with their matching closer.
pub open spec fn is_opener(c: char) -> bool {
    c == '(' || c == '[' || c == '{' || c == '"' || c == '\''
}

/// The closing partner of an auto-paired opener (quotes pair with themselves).
pub open spec fn closer_of(c: char) -> char {
    if c == '(' {
        ')'
    } else if c == '[' {
        ']'
    } else if c == '{' {
        '}'
    } else {
        c
    }
}

/// What a single keypress of `c` puts into the line: the character itself,
/// or the character together with its matching closer.
pub open spec fn inserted_text(c: char) -> Seq<char> {
    if is_opener(c) {
        seq![c, closer_of(c)]
    } else {
        seq![c]
    }
}

/// `n` space characters.
pub open spec fn spaces(n: int) -> Seq<char> {
    Seq::new(n as nat, |i: int| ' ')
}

/// The run of spaces that stands for one soft tab.
pub open spec fn tab_run() -> Seq<char> {
    spaces(TAB_SIZE as int)
}

/// The width of the leading run of space characters of `s`.
pub open spec fn leading_spaces(s: Seq<char>) -> int
    decreases s.len(),
{
    if s.len() == 0 || s[0] != ' ' {
        0
    } else {
        1 + leading_spaces(s.skip(1))
    }
}

/// Effect of `insert_char`: splice the inserted text into the cursor's line
/// and advance the column by one (past the opener only, for a pair).
pub open spec fn insert_char_spec(m: EditorModel, c: char) -> EditorModel {
    EditorModel {
        lines: m.lines.update(m.row, insert_at(m.cur_line(), m.col, inserted_text(c))),
        row: m.row,
        col: m.col + 1,
    }
}

/// Effect of `insert_tab`: splice one soft tab into the cursor's line and
/// advance the column by the tab width.
pub open spec fn insert_tab_spec(m: EditorModel) -> EditorModel {
    EditorModel {
        lines: m.lines.update(m.row, insert_at(m.cur_line(), m.col, tab_run())),
        row: m.row,
        col: m.col + TAB_SIZE,
    }
}

/// Effect of `backspace`:
/// - column > 0 and a whole soft tab stands immediately before the cursor:
///   remove the run in one step;
/// - column > 0 otherwise: remove the one preceding character;
/// - column == 0, row > 0: merge the current line into the end of the
///   previous one, the cursor landing where the previous line used to end;
/// - at (0, 0): no-op.
pub open spec fn backspace_spec(m: EditorModel) -> EditorModel {
    let s = m.cur_line();
    if m.col > 0 {
        if m.col >= TAB_SIZE && s.subrange(m.col - TAB_SIZE, m.col) == tab_run() {
            EditorModel {
                lines: m.lines.update(m.row, s.take(m.col - TAB_SIZE) + s.skip(m.col)),
                row: m.row,
                col: m.col - TAB_SIZE,
            }
        } else {
            EditorModel {
                lines: m.lines.update(m.row, s.take(m.col - 1) + s.skip(m.col)),
                row: m.row,
                col: m.col - 1,
            }
        }
    } else if m.row > 0 {
        EditorModel {
            lines: m.lines.update(m.row - 1, m.lines[m.row - 1] + s).remove(m.row),
            row: m.row - 1,
            col: m.lines[m.row - 1].len() as int,
        }
    } else {
        m
    }
}

/// Effect of `new_line`: split the cursor's line into head and tail and derive
/// the new line's indentation from context, in priority order:
/// - the cursor stands between `{` and `}`: two lines are inserted, an inner
///   empty line one tab deeper and an outer line carrying the tail at the old
///   indentation, the cursor landing at the end of the inner line;
/// - the character before the cursor is `{`: the tail's line is indented one
///   tab deeper than the head's leading whitespace;
/// - otherwise: the tail's line copies the head's leading whitespace.
pub open spec fn new_line_spec(m: EditorModel) -> EditorModel {
    let s = m.cur_line();
    let head = s.take(m.col);
    let tail = s.skip(m.col);
    let lead = leading_spaces(head);
    let brace_before = m.col > 0 && s[m.col - 1] == '{';
    let brace_after = tail.len() > 0 && tail[0] == '}';
    if brace_before && brace_after {
        EditorModel {
            lines: m.lines.update(m.row, head).insert(m.row + 1, spaces(lead + TAB_SIZE)).insert(
                m.row + 2,
                spaces(lead) + tail,
            ),
            row: m.row + 1,
            col: lead + TAB_SIZE,
        }
    } else {
        let indent = if brace_before {
            lead + TAB_SIZE
        } else {
            lead
        };
        EditorModel {
            lines: m.lines.update(m.row, head).insert(m.row + 1, spaces(indent) + tail),
            row: m.row + 1,
            col: indent,
        }
    }
}

/// Effect of `move_cursor`: vertical moves clamp the column to the target
/// line's length; a horizontal move at a line boundary wraps to the adjacent
/// line when one exists, and is a no-op otherwise.
pub open spec fn move_cursor_spec(m: EditorModel, key: Direction) -> EditorModel {
    match key {
        Direction::Up => if m.row > 0 {
            let n = m.lines[m.row - 1].len() as int;
            EditorModel {
                lines: m.lines,
                row: m.row - 1,
                col: if m.col <= n {
                    m.col
                } else {
                    n
                },
            }
        } else {
            m
        },
        Direction::Down => if m.row + 1 < m.lines.len() {
            let n = m.lines[m.row + 1].len() as int;
            EditorModel {
                lines: m.lines,
                row: m.row + 1,
                col: if m.col <= n {
                    m.col
                } else {
                    n
                },
            }
        } else {
            m
        },
        Direction::Left => if m.col > 0 {
            EditorModel { lines: m.lines, row: m.row, col: m.col - 1 }
        } else if m.row > 0 {
            EditorModel { lines: m.lines, row: m.row - 1, col: m.lines[m.row - 1].len() as int }
        } else {
            m
        },
        Direction::Right => if m.col < m.cur_line().len() {
            EditorModel { lines: m.lines, row: m.row, col: m.col + 1 }
        } else if m.row + 1 < m.lines.len() {
            EditorModel { lines: m.lines, row: m.row + 1, col: 0 }
        } else {
            m
        },
    }
}

/// The editing engine: the document text and the cursor position.
pub struct Editor {
    text: Vec<Vec<char>>,
    cursor_x: usize,
    cursor_y: usize,
}

impl View for Editor {
    type V = EditorModel;

    closed spec fn view(&self) -> EditorModel {
        EditorModel {
            lines: lines_view(self.text@),
            row: self.cursor_y as int,
            col: self.cursor_x as int,
        }
    }
}

impl Editor {
    /// A fresh editor: a single empty line with the cursor at (0, 0).
    pub fn new() -> (e: Editor)
        ensures
            e@ == initial_editor(),
            e@.wf(),
    {
        let mut text: Vec<Vec<char>> = Vec::new();
        text.push(Vec::new());
        let e = Editor { text, cursor_x: 0, cursor_y: 0 };
        proof {
            assert(e@ =~~= initial_editor());
        }
        e
    }

    /// The number of lines of the document.
    pub fn line_count(&self) -> (n: usize)
        ensures
            n == self@.lines.len(),
    {
        self.text.len()
    }

    /// Read access to one line of the document.
    pub fn line(&self, i: usize) -> (r: &Vec<char>)
        requires
            i < self@.lines.len(),
        ensures
            r@ == self@.lines[i as int],
    {
        &self.text[i]
    }

    /// The cursor's column.
    pub fn cursor_x(&self) -> (x: usize)
        ensures
            x == self@.col,
    {
        self.cursor_x
    }

    /// The cursor's row.
    pub fn cursor_y(&self) -> (y: usize)
        ensures
            y == self@.row,
    {
        self.cursor_y
    }

    /// Insert one typed character at the cursor, pairing openers.
    pub fn insert_char(&mut self, c: char)
        requires
            old(self)@.wf(),
        ensures
            final(self)@ == insert_char_spec(old(self)@, c),
            final(self)@.wf(),
    {
        let ghost m = self@;
        let special = Editor::special_char_insertion(
            c,
            &mut self.text[self.cursor_y],
            &mut self.cursor_x,
        );
        if !special {
            self.text[self.cursor_y].insert(self.cursor_x, c);
            // the grown line's length bounds the cursor, so advancing it fits
            let line_len = self.text[self.cursor_y].len();
            self.cursor_x = self.cursor_x + 1;
            proof {
                assert(self.text@[m.row]@ =~= insert_at(m.cur_line(), m.col, inserted_text(c)));
            }
        }
        proof {
            assert(self@ =~~= insert_char_spec(m, c));
        }
    }

    /// Insert `c` into `line` at `cursor_x`, pairing it with its closer when
    /// `c` is an auto-paired character; report whether it was.
    pub fn special_char_insertion(c: char, line: &mut Vec<char>, cursor_x: &mut usize) -> (special:
        bool)
        requires
            *old(cursor_x) <= old(line)@.len(),
        ensures
            special == is_opener(c),
            is_opener(c) ==> {
                &&& final(line)@ == insert_at(old(line)@, *old(cursor_x) as int, inserted_text(c))
                &&& *final(cursor_x) == *old(cursor_x) + 1
            },
            !is_opener(c) ==> *final(line) == *old(line) && *final(cursor_x) == *old(cursor_x),
    {
        if c == '(' || c == '[' || c == '{' || c == '"' || c == '\'' {
            let closer: char = if c == '(' {
                ')'
            } else if c == '[' {
                ']'
            } else if c == '{' {
                '}'
            } else {
                c
            };
            line.insert(*cursor_x, c);
            // the grown line's length bounds the cursor, so the sum fits
            let line_len = line.len();
            line.insert(*cursor_x + 1, closer);
            *cursor_x = *cursor_x + 1;
            proof {
                assert(line@ =~= insert_at(old(line)@, *old(cursor_x) as int, inserted_text(c)));
            }
            true
        } else {
            false
        }
    }

    /// Insert one soft tab (a fixed-width run of spaces) at the cursor.
    pub fn insert_tab(&mut self)
        requires
            old(self)@.wf(),
        ensures
            final(self)@ == insert_tab_spec(old(self)@),
            final(self)@.wf(),
    {
        let ghost m = self@;
        let mut i: usize = 0;
        while i < TAB_SIZE
            invariant
                m.wf(),
                i <= TAB_SIZE,
                self.cursor_y == m.row,
                self.cursor_x == m.col,
                self.text@.len() == m.lines.len(),
                self.text@[m.row]@ == insert_at(m.cur_line(), m.col, spaces(i as int)),
                self.text@[m.row]@.len() == m.cur_line().len() + i,
                forall|k: int| 0 <= k < m.lines.len() && k != m.row ==> self.text@[k]@ == m.lines[k],
            decreases TAB_SIZE - i,
        {
            // the line's length bounds the insertion position, so the sum fits
            let line_len = self.text[self.cursor_y].len();
            self.text[self.cursor_y].insert(self.cursor_x + i, ' ');
            i = i + 1;
            proof {
                assert(self.text@[m.row]@ =~= insert_at(m.cur_line(), m.col, spaces(i as int)));
            }
        }
        // the grown line's length bounds the cursor, so advancing it fits
        let line_len = self.text[self.cursor_y].len();
        self.cursor_x = self.cursor_x + TAB_SIZE;
        proof {
            assert(spaces(TAB_SIZE as int) =~= tab_run());
            assert(self@ =~~= insert_tab_spec(m));
        }
    }

    /// Delete backward from the cursor: a whole soft tab when one stands
    /// immediately before it, else one character, else merge with the
    /// previous line; a no-op at (0, 0).
    pub fn backspace(&mut self)
        requires
            old(self)@.wf(),
        ensures
            final(self)@ == backspace_spec(old(self)@),
            final(self)@.wf(),
    {
        let ghost m = self@;
        if self.cursor_x > 0 {
            let mut tab_check = false;
            if self.cursor_x >= TAB_SIZE {
                tab_check = tab_before(&self.text[self.cursor_y], self.cursor_x);
            }
            if tab_check {
                self.cursor_x = self.cursor_x - TAB_SIZE;
                let mut k: usize = 0;
                while k < TAB_SIZE
                    invariant
                        m.wf(),
                        TAB_SIZE <= m.col,
                        k <= TAB_SIZE,
                        self.cursor_y == m.row,
                        self.cursor_x == m.col - TAB_SIZE,
                        self.text@.len() == m.lines.len(),
                        self.text@[m.row]@ == m.cur_line().take(m.col - TAB_SIZE)
                            + m.cur_line().skip(m.col - TAB_SIZE + k),
                        forall|j: int|
                            0 <= j < m.lines.len() && j != m.row ==> self.text@[j]@ == m.lines[j],
                    decreases TAB_SIZE - k,
                {
                    self.text[self.cursor_y].remove(self.cursor_x);
                    k = k + 1;
                    proof {
                        assert(self.text@[m.row]@ =~= m.cur_line().take(m.col - TAB_SIZE)
                            + m.cur_line().skip(m.col - TAB_SIZE + k));
                    }
                }
            } else {
                self.cursor_x = self.cursor_x - 1;
                self.text[self.cursor_y].remove(self.cursor_x);
                proof {
                    assert(self.text@[m.row]@ =~= m.cur_line().take(m.col - 1) + m.cur_line().skip(
                        m.col,
                    ));
                }
            }
        } else if self.cursor_y > 0 {
            self.cursor_y = self.cursor_y - 1;
            let mut removed = self.text.remove(self.cursor_y + 1);
            let n = self.text[self.cursor_y].len();
            self.cursor_x = n;
            self.text[self.cursor_y].append(&mut removed);
        }
        proof {
            assert(self@ =~~= backspace_spec(m));
        }
    }

    /// Split the cursor's line at the cursor, auto-indenting the new line and
    /// expanding a `{`/`}` pair into a block.
    pub fn new_line(&mut self)
        requires
            old(self)@.wf(),
        ensures
            final(self)@ == new_line_spec(old(self)@),
            final(self)@.wf(),
    {
        let ghost m = self@;
        let mut tail = self.text[self.cursor_y].split_off(self.cursor_x);
        let lead = count_leading(&self.text[self.cursor_y]);
        let head = &self.text[self.cursor_y];
        let brace_before = self.cursor_x > 0 && head[self.cursor_x - 1] == '{';
        let brace_after = tail.len() > 0 && tail[0] == '}';
        if brace_before && brace_after {
            let mut inner = spaces_vec(lead);
            let mut j: usize = 0;
            while j < TAB_SIZE
                invariant
                    j <= TAB_SIZE,
                    inner@ == spaces(lead as int + j as int),
                decreases TAB_SIZE - j,
            {
                inner.push(' ');
                j = j + 1;
                proof {
                    assert(inner@ =~= spaces(lead as int + j as int));
                }
            }
            let inner_len = inner.len();
            let mut outer = spaces_vec(lead);
            outer.append(&mut tail);
            // the document's row count bounds the cursor row, so the
            // insertion positions below fit
            let rows = self.text.len();
            self.text.insert(self.cursor_y + 1, inner);
            let rows_after = self.text.len();
            self.text.insert(self.cursor_y + 2, outer);
            self.cursor_y = self.cursor_y + 1;
            self.cursor_x = inner_len;
        } else {
            let mut newline = spaces_vec(lead);
            if brace_before {
                let mut j: usize = 0;
                while j < TAB_SIZE
                    invariant
                        j <= TAB_SIZE,
                        newline@ == spaces(lead as int + j as int),
                    decreases TAB_SIZE - j,
                {
                    newline.push(' ');
                    j = j + 1;
                    proof {
                        assert(newline@ =~= spaces(lead as int + j as int));
                    }
                }
            }
            let indent_len = newline.len();
            newline.append(&mut tail);
            // the document's row count bounds the cursor row, so the
            // insertion position below fits
            let rows = self.text.len();
            self.text.insert(self.cursor_y + 1, newline);
            self.cursor_y = self.cursor_y + 1;
            self.cursor_x = indent_len;
        }
        proof {
            assert(self@ =~~= new_line_spec(m));
        }
    }

    /// Move the cursor one step, clamping the column on vertical moves and
    /// wrapping around line ends on horizontal ones.
    pub fn move_cursor(&mut self, key: Direction)
        requires
            old(self)@.wf(),
        ensures
            final(self)@ == move_cursor_spec(old(self)@, key),
            final(self)@.wf(),
    {
        let ghost m = self@;
        match key {
            Direction::Up => {
                if self.cursor_y > 0 {
                    self.cursor_y = self.cursor_y - 1;
                    let n = self.text[self.cursor_y].len();
                    if self.cursor_x > n {
                        self.cursor_x = n;
                    }
                }
            },
            Direction::Down => {
                let len = self.text.len();
                if self.cursor_y + 1 < len {
                    self.cursor_y = self.cursor_y + 1;
                    let n = self.text[self.cursor_y].len();
                    if self.cursor_x > n {
                        self.cursor_x = n;
                    }
                }
            },
            Direction::Left => {
                if self.cursor_x > 0 {
                    self.cursor_x = self.cursor_x - 1;
                } else if self.cursor_y > 0 {
                    self.cursor_y = self.cursor_y - 1;
                    self.cursor_x = self.text[self.cursor_y].len();
                }
            },
            Direction::Right => {
                let n = self.text[self.cursor_y].len();
                if self.cursor_x < n {
                    self.cursor_x = self.cursor_x + 1;
                } else {
                    let len = self.text.len();
                    if self.cursor_y + 1 < len {
                        self.cursor_y = self.cursor_y + 1;
                        self.cursor_x = 0;
                    }
                }
            },
        }
        proof {
            assert(self@ =~~= move_cursor_spec(m, key));
        }
    }
}

/// Whether the `TAB_SIZE` characters of `line` just before `end` are all
/// spaces, i.e. whether a whole soft tab stands there.
fn tab_before(line: &Vec<char>, end: usize) -> (b: bool)
    requires
        TAB_SIZE <= end <= line@.len(),
    ensures
        b == (line@.subrange(end - TAB_SIZE, end as int) == tab_run()),
{
    let mut j: usize = 0;
    while j < TAB_SIZE
        invariant
            TAB_SIZE <= end <= line@.len(),
            j <= TAB_SIZE,
            forall|t: int| end - TAB_SIZE <= t < end - TAB_SIZE + j ==> line@[t] == ' ',
        decreases TAB_SIZE - j,
    {
        if line[end - TAB_SIZE + j] != ' ' {
            proof {
                assert(line@.subrange(end - TAB_SIZE, end as int)[j as int] != tab_run()[j as int]);
            }
            return false;
        }
        j = j + 1;
    }
    proof {
        assert(line@.subrange(end - TAB_SIZE, end as int) =~= tab_run());
    }
    true
}

/// Count the leading spaces of a line.
fn count_leading(line: &Vec<char>) -> (n: usize)
    ensures
        n == leading_spaces(line@),
{
    let len = line.len();
    let mut i: usize = 0;
    while i < len && line[i] == ' '
        invariant
            i <= len,
            len == line@.len(),
            forall|j: int| 0 <= j < i ==> line@[j] == ' ',
        decreases len - i,
    {
        i = i + 1;
    }
    proof {
        lemma_leading_spaces(line@, i as int);
    }
    i
}

/// `leading_spaces` returns exactly the position of the first non-space
/// character (or the length, on an all-space line).
proof fn lemma_leading_spaces(s: Seq<char>, i: int)
    requires
        0 <= i <= s.len(),
        forall|j: int| 0 <= j < i ==> s[j] == ' ',
        i < s.len() ==> s[i] != ' ',
    ensures
        leading_spaces(s) == i,
    decreases i,
{
    if i == 0 {
    } else {
        assert(s[0] == ' ');
        lemma_leading_spaces(s.skip(1), i - 1);
    }
}

/// Inserting a plain (non-paired) character and pressing backspace once
/// restores the original document and cursor. The only inputs left out are
/// those where the inserted character is a space that completes a run of
/// spaces before the cursor into a whole soft tab: there the tab-aware
/// backspace removes the whole run instead.
pub proof fn lemma_insert_backspace_round_trip(m: EditorModel, c: char)
    requires
        m.wf(),
        !is_opener(c),
        !(c == ' ' && m.col >= TAB_SIZE - 1 && m.cur_line().subrange(
            m.col - (TAB_SIZE - 1),
            m.col,
        ) == spaces(TAB_SIZE - 1)),
    ensures
        backspace_spec(insert_char_spec(m, c)) == m,
{
    let s = m.cur_line();
    let x = m.col;
    let m2 = insert_char_spec(m, c);
    let s2 = m2.cur_line();
    assert(s2 =~= s.take(x).push(c) + s.skip(x));
    assert(s2.len() == s.len() + 1);
    if m2.col >= TAB_SIZE {
        let sub = s2.subrange(m2.col - TAB_SIZE, m2.col);
        if c == ' ' {
            let before = s.subrange(x - (TAB_SIZE - 1), x);
            assert(before != spaces(TAB_SIZE - 1));
            assert(!(before =~= spaces(TAB_SIZE - 1)));
            let t = choose|t: int| 0 <= t < TAB_SIZE - 1 && before[t] != ' ';
            assert(sub[t] == before[t]);
            assert(sub != tab_run());
        } else {
            assert(sub[TAB_SIZE - 1] == c);
            assert(sub != tab_run());
        }
    }
    let m3 = backspace_spec(m2);
    assert(s2.take(x) =~= s.take(x));
    assert(s2.skip(x + 1) =~= s.skip(x));
    assert(s2.take(x) + s2.skip(x + 1) =~= s);
    assert(m3 =~~= m);
}

/// Inserting an auto-paired opener and pressing backspace once removes only
/// the opener: the automatically inserted closer is left in place at the
/// cursor, and the cursor returns to its original position.
pub proof fn lemma_insert_pair_backspace(m: EditorModel, c: char)
    requires
        m.wf(),
        is_opener(c),
    ensures
        backspace_spec(insert_char_spec(m, c)) == (EditorModel {
            lines: m.lines.update(m.row, insert_at(m.cur_line(), m.col, seq![closer_of(c)])),
            row: m.row,
            col: m.col,
        }),
{
    let s = m.cur_line();
    let x = m.col;
    let m2 = insert_char_spec(m, c);
    let s2 = m2.cur_line();
    assert(s2 =~= s.take(x) + seq![c, closer_of(c)] + s.skip(x));
    if m2.col >= TAB_SIZE {
        let sub = s2.subrange(m2.col - TAB_SIZE, m2.col);
        assert(sub[TAB_SIZE - 1] == c);
        assert(sub != tab_run());
    }
    let m3 = backspace_spec(m2);
    assert(s2.take(x) + s2.skip(x + 1) =~= insert_at(s, x, seq![closer_of(c)]));
    assert(m3 =~~= EditorModel {
        lines: m.lines.update(m.row, insert_at(m.cur_line(), m.col, seq![closer_of(c)])),
        row: m.row,
        col: m.col,
    });
}

/// Splitting a line with `new_line` in the default-indentation case and
/// pressing backspace once restores the original document and cursor, for
/// heads that carry no leading whitespace (with indentation the new line is
/// non-empty and backspace eats indentation instead of merging).
pub proof fn lemma_new_line_backspace_round_trip(m: EditorModel)
    requires
        m.wf(),
        m.col == 0 || m.cur_line()[m.col - 1] != '{',
        leading_spaces(m.cur_line().take(m.col)) == 0,
    ensures
        backspace_spec(new_line_spec(m)) == m,
{
    let s = m.cur_line();
    let head = s.take(m.col);
    let tail = s.skip(m.col);
    let m2 = new_line_spec(m);
    assert(spaces(0) + tail =~= tail);
    assert(m2.lines == m.lines.update(m.row, head).insert(m.row + 1, tail));
    assert(m2.lines[m.row] == head);
    assert(m2.lines[m.row + 1] == tail);
    let m3 = backspace_spec(m2);
    assert(head + tail =~= s);
    assert(m3 =~~= m);
}

/// A single backspace undoes a whole `insert_tab`: the four inserted spaces
/// are removed in one step and the cursor returns to its original position.
pub proof fn lemma_insert_tab_backspace_round_trip(m: EditorModel)
    requires
        m.wf(),
    ensures
        backspace_spec(insert_tab_spec(m)) == m,
{
    let s = m.cur_line();
    let x = m.col;
    let m2 = insert_tab_spec(m);
    let s2 = m2.cur_line();
    assert(s2 =~= s.take(x) + tab_run() + s.skip(x));
    assert(s2.subrange(m2.col - TAB_SIZE, m2.col) =~= tab_run());
    let m3 = backspace_spec(m2);
    assert(s2.take(x) =~= s.take(x));
    assert(s2.skip(x + TAB_SIZE) =~= s.skip(x));
    assert(s2.take(x) + s2.skip(x + TAB_SIZE) =~= s);
    assert(m3 =~~= m);
}

/// Backspace at (0, 0) is a no-op, so repeating it any number of times
/// leaves the document (in particular a single empty line) unchanged.
pub proof fn lemma_backspace_at_origin_noop(m: EditorModel)
    requires
        m.wf(),
        m.row == 0,
        m.col == 0,
    ensures
        backspace_spec(m) == m,
{
}

/// Build a run of `n` space characters.
fn spaces_vec(n: usize) -> (v: Vec<char>)
    ensures
        v@ == spaces(n as int),
{
    let mut v: Vec<char> = Vec::new();
    proof {
        assert(v@ =~= spaces(0));
    }
    let mut i: usize = 0;
    while i < n
        invariant
            i <= n,
            v@ == spaces(i as int),
        decreases n - i,
    {
        v.push(' ');
        i = i + 1;
        proof {
            assert(v@ =~= spaces(i as int));
        }
    }
    v
}

} // verus!
