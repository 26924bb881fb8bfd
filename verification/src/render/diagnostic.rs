//! Diagnostics and the columns of source lines.
use vstd::prelude::*;
use vstd::string::*;

use crate::text;

verus! {

pub const RESET: &'static str = "\x1b[0m";

pub const BOLD: &'static str = "\x1b[1m";

/// The colour of the frame.
pub const BLUE: &'static str = "\x1b[1;34m";

/// The colour of a mark that is not the primary one.
pub const SECONDARY: &'static str = "\x1b[1;34m";

/// The colour of the primary mark.
pub const PRIMARY: &'static str = "\x1b[1;31m";

/// The columns that a tab takes.
pub const TAB_WIDTH: usize = 4;

/// A line and a column, both from 1; a column is a character.
#[derive(Clone, Copy, PartialEq, Eq, Debug, Structural)]
pub struct Location {
    pub line: u32,
    pub col: u32,
}

/// A place in a source: the number and the name of the source, where the place begins and ends, and
/// the text of the line on which it begins.
#[derive(Debug)]
pub struct Place {
    pub source: u32,
    pub lo: u32,
    pub name: String,
    pub start: Location,
    pub end: Location,
    pub line: String,
}

/// A mark on a place, `None` where there is nothing to mark.
#[derive(Debug)]
pub struct Label {
    pub place: Option<Place>,
    pub message: String,
    pub primary: bool,
}

/// What a note is.
#[derive(Clone, Copy, PartialEq, Eq, Debug, Structural)]
pub enum NoteKind {
    Note,
    Help,
}

/// A diagnostic.
#[derive(Debug)]
pub struct Diagnostic {
    /// The name of its severity, and the colour of that name.
    pub header: String,
    pub ansi: String,
    pub code: Option<String>,
    pub message: String,
    pub labels: Vec<Label>,
    pub notes: Vec<(NoteKind, String)>,
}

impl Place {
    /// Lines and columns count from 1, and the columns of a line can be counted.
    pub open spec fn wf(self) -> bool {
        &&& self.start.line >= 1
        &&& self.start.col >= 1
        &&& self.end.col >= 1
        &&& columns(self.line@, 0, (self.start.col - 1) as nat) <= usize::MAX
        &&& columns(self.line@, (self.start.col - 1) as nat, self.behind()) <= usize::MAX
        &&& self.behind() <= usize::MAX
    }

    /// The column behind the marked part of the first line, counted from 0: that of the end, or,
    /// where the end is on another line, the one behind the line and its end.
    pub open spec fn behind(self) -> nat {
        if self.end.line == self.start.line {
            (self.end.col - 1) as nat
        } else {
            self.line@.len() + 1
        }
    }
}

impl Diagnostic {
    /// The places are well-formed.
    pub open spec fn wf(self) -> bool {
        forall|i: int|
            0 <= i < self.labels@.len() && #[trigger] self.labels@[i].place is Some
                ==> self.labels@[i].place->0.wf()
    }
}

/// So many of a character.
pub open spec fn repeated(c: char, n: nat) -> Seq<char> {
    Seq::new(n, |i: int| c)
}

/// See [`repeated`].
pub fn repeat(c: char, n: usize) -> (r: String)
    ensures
        r@ == repeated(c, n as nat),
{
    let mut r = String::new();
    for i in 0..n
        invariant
            r@ == repeated(c, i as nat),
    {
        r.push(c);
        assert(r@ =~= repeated(c, (i + 1) as nat));
    }
    r
}

/// The columns that character `i` of a line takes; behind its end a character takes one.
pub open spec fn cell(s: Seq<char>, i: int) -> nat {
    if i < s.len() && s[i] == '\t' {
        TAB_WIDTH as nat
    } else {
        1
    }
}

/// The columns of the characters from `start` up to `end`.
pub open spec fn columns(s: Seq<char>, start: nat, end: nat) -> nat
    decreases end,
{
    if end <= start {
        0
    } else {
        columns(s, start, (end - 1) as nat) + cell(s, end - 1)
    }
}

/// Columns add up.
pub proof fn law_columns_add_up(s: Seq<char>, a: nat, b: nat, c: nat)
    requires
        a <= b <= c,
    ensures
        columns(s, a, b) + columns(s, b, c) == columns(s, a, c),
    decreases c,
{
    if b < c {
        law_columns_add_up(s, a, b, (c - 1) as nat);
    }
}

/// Behind the end of a line every character takes one column, and backwards there is none.
pub proof fn law_columns_behind_the_line(s: Seq<char>, a: nat, b: nat)
    ensures
        s.len() <= a <= b ==> columns(s, a, b) == b - a,
        b <= a ==> columns(s, a, b) == 0,
    decreases b,
{
    if s.len() <= a < b {
        law_columns_behind_the_line(s, a, (b - 1) as nat);
    }
}

/// The columns that the characters of `s` from `start` up to `end` take, where a tab takes four.
pub fn rendered_width(s: &str, start: usize, end: usize) -> (r: usize)
    requires
        columns(s@, start as nat, end as nat) <= usize::MAX,
    ensures
        r == columns(s@, start as nat, end as nat),
{
    let chars = text::chars_of(s);
    let stop: usize = if end <= chars.len() {
        end
    } else {
        chars.len()
    };
    let mut width: usize = 0;
    let mut i: usize = start;
    while i < stop
        invariant
            start <= i,
            i <= stop || i == start,
            stop <= end,
            stop <= chars@.len(),
            chars@ == s@,
            columns(s@, start as nat, end as nat) <= usize::MAX,
            width == columns(s@, start as nat, i as nat),
        decreases stop - i,
    {
        proof {
            law_columns_add_up(s@, start as nat, (i + 1) as nat, end as nat);
        }
        if chars[i] == '\t' {
            width = width + TAB_WIDTH;
        } else {
            width = width + 1;
        }
        i = i + 1;
    }
    if i < end {
        proof {
            law_columns_add_up(s@, start as nat, i as nat, end as nat);
            law_columns_behind_the_line(s@, i as nat, end as nat);
        }
        width = width + (end - i);
    }
    width
}

/// A line with four spaces for each tab.
pub open spec fn untabbed(s: Seq<char>) -> Seq<char>
    decreases s.len(),
{
    if s.len() == 0 {
        Seq::empty()
    } else if s.last() == '\t' {
        untabbed(s.drop_last()) + repeated(' ', TAB_WIDTH as nat)
    } else {
        untabbed(s.drop_last()).push(s.last())
    }
}

/// `s` with four spaces for each tab.
pub fn expand_tabs(s: &str) -> (r: String)
    ensures
        r@ == untabbed(s@),
{
    let mut r = String::new();
    let tab = repeat(' ', TAB_WIDTH);
    assert(s@.take(0) =~= Seq::empty());
    for c in it: s.chars()
        invariant
            it.seq() == s@,
            tab@ == repeated(' ', TAB_WIDTH as nat),
            r@ == untabbed(s@.take(it.index() as int)),
    {
        let ghost now = s@.take(it.index() + 1);
        proof {
            assert(now.drop_last() =~= s@.take(it.index() as int));
            assert(now.last() == c);
        }
        if c == '\t' {
            r.append(&tab);
        } else {
            r.push(c);
        }
    }
    assert(s@.take(s@.len() as int) =~= s@);
    r
}

/// A line and what is drawn beneath it agree: the first `k` characters of a line take as many
/// columns as [`columns`] counts.
pub proof fn law_columns_are_those_of_the_line(s: Seq<char>, k: nat)
    requires
        k <= s.len(),
    ensures
        untabbed(s.take(k as int)).len() == columns(s, 0, k),
    decreases k,
{
    if k > 0 {
        law_columns_are_those_of_the_line(s, (k - 1) as nat);
        assert(s.take(k as int).drop_last() =~= s.take(k - 1));
    } else {
        assert(s.take(0) =~= Seq::empty());
    }
}

/// No tab is left in a line.
pub proof fn law_no_tab_is_left(s: Seq<char>)
    ensures
        !untabbed(s).contains('\t'),
    decreases s.len(),
{
    if s.len() > 0 {
        law_no_tab_is_left(s.drop_last());
        let before = untabbed(s.drop_last());
        let after = untabbed(s);
        if after.contains('\t') {
            let i = choose|i: int| 0 <= i < after.len() && after[i] == '\t';
            assert(i < before.len() ==> before[i] == '\t');
        }
    }
}

} // verus!
