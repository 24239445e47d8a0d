//! The command interpreter: a pending directive line with its own edit
//! cursor, and the sentinel-based grammar that resolves the line to an
//! integer verb code by first-prefix-wins matching over an ordered verb
//! table.
use vstd::prelude::*;
use crate::command::COMMAND_INDECES;
use crate::command::ConsoleCommand;
use crate::insert_at;
use crate::lines_view;

verus! {

/// The leading character that marks a typed line as a directive rather than
/// a raw filename.
pub const SENTINEL: char = '?';

/// Mathematical model of the console: whether console mode is active, the
/// pending command's last resolved index and text, and the edit cursor's
/// column within that text.
#[verifier::ext_equal]
pub struct ConsoleModel {
    pub console_mode: bool,
    pub index: int,
    pub text: Seq<char>,
    pub col: int,
}

impl ConsoleModel {
    /// The edit cursor lies within the command text (it may equal the text's
    /// length, meaning "after the last character").
    pub open spec fn wf(self) -> bool {
        0 <= self.col <= self.text.len()
    }
}

/// The state of a freshly created console: text mode, an empty command.
pub open spec fn initial_console() -> ConsoleModel {
    ConsoleModel { console_mode: false, index: 0, text: Seq::empty(), col: 0 }
}

/// Effect of `console_mode_switch`: toggle the mode; the pending command is
/// cleared on every mode change, so entering console mode always starts from
/// an empty line.
pub open spec fn switch_spec(m: ConsoleModel) -> ConsoleModel {
    ConsoleModel { console_mode: !m.console_mode, index: m.index, text: Seq::empty(), col: 0 }
}

/// Effect of the console's `insert_char`: a plain single-character insert at
/// the edit cursor (no auto-pairing, no tab handling).
pub open spec fn console_insert_spec(m: ConsoleModel, c: char) -> ConsoleModel {
    ConsoleModel {
        console_mode: m.console_mode,
        index: m.index,
        text: insert_at(m.text, m.col, seq![c]),
        col: m.col + 1,
    }
}

/// Effect of the console's `backspace`: delete the one character before the
/// edit cursor; a no-op at column 0.
pub open spec fn console_backspace_spec(m: ConsoleModel) -> ConsoleModel {
    if m.col > 0 {
        ConsoleModel {
            console_mode: m.console_mode,
            index: m.index,
            text: m.text.take(m.col - 1) + m.text.skip(m.col),
            col: m.col - 1,
        }
    } else {
        m
    }
}

/// Effect of `execute`: the pending command is cleared after it resolves.
pub open spec fn execute_spec(m: ConsoleModel) -> ConsoleModel {
    ConsoleModel { console_mode: m.console_mode, index: m.index, text: Seq::empty(), col: 0 }
}

/// Is `p` a prefix of `s`?
pub open spec fn is_prefix_of(p: Seq<char>, s: Seq<char>) -> bool {
    p.len() <= s.len() && p == s.take(p.len() as int)
}

/// The index of the first verb, from position `i` on in table order, whose
/// string is a prefix of `rest`; the unknown-command code when none is.
pub open spec fn resolve_from(verbs: Seq<Seq<char>>, rest: Seq<char>, i: int) -> int
    decreases verbs.len() - i
    when 0 <= i <= verbs.len()
{
    if i >= verbs.len() {
        COMMAND_INDECES::CommandUnkown.code_spec()
    } else if is_prefix_of(verbs[i], rest) {
        i
    } else {
        resolve_from(verbs, rest, i + 1)
    }
}

/// The grammar of a typed line: a line that does not begin with the sentinel
/// is a file-switch request and delegates to the file handler; otherwise the
/// sentinel is stripped and the remainder is matched, in table order, against
/// each verb as a prefix, the first match winning.
pub open spec fn resolve_spec(text: Seq<char>, verbs: Seq<Seq<char>>) -> int {
    if text.len() == 0 || text[0] != SENTINEL {
        COMMAND_INDECES::CommandFileHandle.code_spec()
    } else {
        resolve_from(verbs, text.skip(1), 0)
    }
}

/// The configured verb table, in dispatch order: change directory, write
/// file, delete file, exit, palette switch, go to line.
pub open spec fn default_verbs() -> Seq<Seq<char>> {
    seq![
        seq!['c', 'd'],
        seq!['w', 'f'],
        seq!['r', 'f'],
        seq!['e'],
        seq!['p'],
        seq!['l'],
    ]
}

/// Build the configured verb table.
pub fn command_vector() -> (v: Vec<Vec<char>>)
    ensures
        lines_view(v@) == default_verbs(),
{
    let mut v: Vec<Vec<char>> = Vec::new();
    let mut w: Vec<char> = Vec::new();
    w.push('c');
    w.push('d');
    v.push(w);
    let mut w: Vec<char> = Vec::new();
    w.push('w');
    w.push('f');
    v.push(w);
    let mut w: Vec<char> = Vec::new();
    w.push('r');
    w.push('f');
    v.push(w);
    let mut w: Vec<char> = Vec::new();
    w.push('e');
    v.push(w);
    let mut w: Vec<char> = Vec::new();
    w.push('p');
    v.push(w);
    let mut w: Vec<char> = Vec::new();
    w.push('l');
    v.push(w);
    proof {
        assert(lines_view(v@) =~~= default_verbs());
    }
    v
}

/// Whether `p` is a prefix of `s` from position `off` on.
fn is_prefix_at(p: &Vec<char>, s: &Vec<char>, off: usize) -> (r: bool)
    requires
        off <= s@.len(),
    ensures
        r == is_prefix_of(p@, s@.skip(off as int)),
{
    let n = s.len();
    let pn = p.len();
    if pn > n - off {
        return false;
    }
    let mut j: usize = 0;
    while j < pn
        invariant
            off + pn <= n,
            n == s@.len(),
            j <= pn,
            pn == p@.len(),
            forall|t: int| 0 <= t < j ==> p@[t] == s@[off + t],
        decreases pn - j,
    {
        if p[j] != s[off + j] {
            proof {
                assert(s@.skip(off as int).take(pn as int)[j as int] == s@[off + j]);
            }
            return false;
        }
        j = j + 1;
    }
    proof {
        assert(p@ =~= s@.skip(off as int).take(pn as int));
    }
    true
}

/// Resolve a typed line against a verb table: the file-handler code for a
/// line without the leading sentinel, the index of the first verb that is a
/// prefix of the rest, or the unknown-command code.
pub fn resolve_command(text: &Vec<char>, verbs: &Vec<Vec<char>>) -> (code: i32)
    requires
        verbs@.len() <= i32::MAX as int,
    ensures
        code as int == resolve_spec(text@, lines_view(verbs@)),
{
    if text.len() == 0 {
        return COMMAND_INDECES::CommandFileHandle.code();
    }
    if text[0] != SENTINEL {
        return COMMAND_INDECES::CommandFileHandle.code();
    }
    let ghost vd = lines_view(verbs@);
    let ghost rest = text@.skip(1);
    let n = verbs.len();
    let mut i: usize = 0;
    while i < n
        invariant
            n == verbs@.len(),
            n <= i32::MAX as int,
            i <= n,
            vd == lines_view(verbs@),
            rest == text@.skip(1),
            text@.len() >= 1,
            text@[0] == SENTINEL,
            resolve_from(vd, rest, 0) == resolve_from(vd, rest, i as int),
        decreases n - i,
    {
        if is_prefix_at(&verbs[i], text, 1) {
            proof {
                assert(vd[i as int] == verbs@[i as int]@);
                assert(resolve_from(vd, rest, i as int) == i as int);
            }
            return i as i32;
        }
        proof {
            assert(vd[i as int] == verbs@[i as int]@);
            assert(resolve_from(vd, rest, i as int) == resolve_from(vd, rest, i as int + 1));
        }
        i = i + 1;
    }
    COMMAND_INDECES::CommandUnkown.code()
}

/// The command interpreter: the mode flag, the pending command, and the edit
/// cursor within its text.
pub struct Console {
    console_mode: bool,
    command: ConsoleCommand,
    cursor_x: usize,
}

impl View for Console {
    type V = ConsoleModel;

    closed spec fn view(&self) -> ConsoleModel {
        ConsoleModel {
            console_mode: self.console_mode,
            index: self.command.command_index as int,
            text: self.command.text@,
            col: self.cursor_x as int,
        }
    }
}

impl Console {
    /// A fresh console: text mode, an empty pending command.
    pub fn new() -> (c: Console)
        ensures
            c@ == initial_console(),
            c@.wf(),
    {
        let c = Console { console_mode: false, command: ConsoleCommand::new(), cursor_x: 0 };
        proof {
            assert(c@ =~~= initial_console());
        }
        c
    }

    /// Whether console mode is active.
    pub fn console_mode(&self) -> (b: bool)
        ensures
            b == self@.console_mode,
    {
        self.console_mode
    }

    /// Read access to the pending command.
    pub fn command(&self) -> (r: &ConsoleCommand)
        ensures
            r.text@ == self@.text,
            r.command_index as int == self@.index,
    {
        &self.command
    }

    /// The edit cursor's column within the pending command text.
    pub fn cursor_x(&self) -> (x: usize)
        ensures
            x == self@.col,
    {
        self.cursor_x
    }

    /// Switch in and out of the console; the pending command starts empty.
    pub fn console_mode_switch(&mut self)
        ensures
            final(self)@ == switch_spec(old(self)@),
            final(self)@.wf(),
    {
        self.console_mode = !self.console_mode;
        self.command.text = Vec::new();
        self.cursor_x = 0;
        proof {
            assert(self@ =~~= switch_spec(old(self)@));
        }
    }

    /// Insert a character into the pending command at the edit cursor.
    pub fn insert_char(&mut self, c: char)
        requires
            old(self)@.wf(),
        ensures
            final(self)@ == console_insert_spec(old(self)@, c),
            final(self)@.wf(),
    {
        let n = self.command.text.len();
        if self.cursor_x <= n {
            self.command.text.insert(self.cursor_x, c);
            // the grown text's length bounds the cursor, so advancing it fits
            let text_len = self.command.text.len();
            self.cursor_x = self.cursor_x + 1;
            proof {
                assert(self@.text =~= console_insert_spec(old(self)@, c).text);
                assert(self@ =~~= console_insert_spec(old(self)@, c));
            }
        }
    }

    /// Delete the character before the edit cursor; a no-op at column 0.
    pub fn backspace(&mut self)
        requires
            old(self)@.wf(),
        ensures
            final(self)@ == console_backspace_spec(old(self)@),
            final(self)@.wf(),
    {
        if self.cursor_x > 0 {
            self.cursor_x = self.cursor_x - 1;
            self.command.text.remove(self.cursor_x);
            proof {
                assert(self@.text =~= console_backspace_spec(old(self)@).text);
                assert(self@ =~~= console_backspace_spec(old(self)@));
            }
        }
    }

    /// Resolve the pending command text against the configured verb table.
    pub fn read_command(&self) -> (code: i32)
        ensures
            code as int == resolve_spec(self@.text, default_verbs()),
    {
        let verbs = command_vector();
        proof {
            assert(lines_view(verbs@).len() == verbs@.len());
        }
        resolve_command(&self.command.text, &verbs)
    }

    /// Resolve the pending command and clear it; the caller dispatches the
    /// returned code (process exit on the exit verb is the host's effect).
    pub fn execute(&mut self) -> (code: i32)
        ensures
            code as int == resolve_spec(old(self)@.text, default_verbs()),
            final(self)@ == execute_spec(old(self)@),
            final(self)@.wf(),
    {
        let code = self.read_command();
        self.command.text = Vec::new();
        self.cursor_x = 0;
        proof {
            assert(self@ =~~= execute_spec(old(self)@));
        }
        code
    }
}

} // verus!
