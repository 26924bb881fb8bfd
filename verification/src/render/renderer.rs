//! The text of a diagnostic.
use vstd::prelude::*;
use vstd::string::*;

use crate::render::diagnostic;
use crate::render::order;
use crate::text;

verus! {

/// Renders diagnostics, with or without colour.
#[derive(Clone, Copy, Debug)]
pub struct Renderer {
    pub color: bool,
}

pub const PAINTED: &'static str = "#0#1#2";

pub const HEAD: &'static str = "#0[#1]";

pub const MESSAGE: &'static str = ": #0";

pub const ARROW: &'static str = "
#0#1 #2:#3:#4";

pub const EDGE: &'static str = "
#0 #1";

pub const SOURCE: &'static str = "
#0 #1 #2";

pub const MARK: &'static str = "
#0 #1 #2#3";

pub const MARKED: &'static str = "#0 #1";

pub const NOTE: &'static str = "
#0 #1 #2: #3";

pub const ALIGNED: &'static str = "#0#1";

impl Renderer {
    /// A text in a colour, where there are colours.
    pub open spec fn painted(self, code: Seq<char>, s: Seq<char>) -> Seq<char> {
        if self.color {
            text::fill(PAINTED@, seq![code, s, diagnostic::RESET@])
        } else {
            s
        }
    }

    /// The first line: the severity, the code and the message.
    pub open spec fn headline(self, d: diagnostic::Diagnostic) -> Seq<char> {
        let head = match d.code {
            Some(code) => text::fill(HEAD@, seq![d.header@, code@]),
            None => d.header@,
        };
        self.painted(d.ansi@, head) + self.painted(
            diagnostic::BOLD@,
            text::fill(MESSAGE@, seq![d.message@]),
        )
    }

    /// Where the primary place is, if there is one.
    pub open spec fn arrow(self, d: diagnostic::Diagnostic) -> Seq<char> {
        match primary(d.labels@, 0) {
            Some(i) => match d.labels@[i].place {
                Some(p) => text::fill(
                    ARROW@,
                    seq![
                        diagnostic::repeated(' ', gutter(d.labels@)),
                        self.painted(diagnostic::BLUE@, "-->"@),
                        p.name@,
                        text::dec(p.start.line as nat),
                        text::dec(p.start.col as nat),
                    ],
                ),
                None => Seq::empty(),
            },
            None => Seq::empty(),
        }
    }

    /// The bar beside the source.
    pub open spec fn bar(self) -> Seq<char> {
        self.painted(diagnostic::BLUE@, "|"@)
    }

    /// A line of the frame with no source on it.
    pub open spec fn edge(self, width: nat) -> Seq<char> {
        text::fill(EDGE@, seq![diagnostic::repeated(' ', width), self.bar()])
    }

    /// A label: its line, and beneath the marked part of it the mark and the message.
    pub open spec fn labelled(self, l: diagnostic::Label, width: nat) -> Seq<char> {
        let p = l.place->0;
        let first = (p.start.col - 1) as nat;
        text::fill(
            SOURCE@,
            seq![
                self.painted(diagnostic::BLUE@, aligned(p.start.line as nat, width)),
                self.bar(),
                diagnostic::untabbed(p.line@),
            ],
        ) + text::fill(
            MARK@,
            seq![
                diagnostic::repeated(' ', width),
                self.bar(),
                diagnostic::repeated(' ', diagnostic::columns(p.line@, 0, first)),
                self.painted(mark_color(l.primary), underline(l)),
            ],
        )
    }

    /// The first `k` labels of an order.
    pub open spec fn frames(
        self,
        labels: Seq<diagnostic::Label>,
        o: Seq<usize>,
        width: nat,
        k: nat,
    ) -> Seq<char>
        decreases k,
    {
        if k == 0 {
            Seq::empty()
        } else {
            self.frames(labels, o, width, (k - 1) as nat) + self.labelled(
                labels[o[k - 1] as int],
                width,
            )
        }
    }

    /// The source with its labels, where there are any.
    pub open spec fn framed(self, d: diagnostic::Diagnostic) -> Seq<char> {
        let o = order::ordered(d.labels@, d.labels@.len());
        let width = gutter(d.labels@);
        if o.len() == 0 {
            Seq::empty()
        } else {
            self.edge(width) + self.frames(d.labels@, o, width, o.len()) + self.edge(width)
        }
    }

    /// The first `k` notes.
    pub open spec fn noted(
        self,
        notes: Seq<(diagnostic::NoteKind, String)>,
        width: nat,
        k: nat,
    ) -> Seq<char>
        decreases k,
    {
        if k == 0 {
            Seq::empty()
        } else {
            self.noted(notes, width, (k - 1) as nat) + text::fill(
                NOTE@,
                seq![
                    diagnostic::repeated(' ', width),
                    self.painted(diagnostic::BLUE@, "="@),
                    self.painted(diagnostic::BOLD@, tag(notes[k - 1].0)),
                    notes[k - 1].1@,
                ],
            )
        }
    }

    /// The text of a diagnostic.
    pub open spec fn rendered(self, d: diagnostic::Diagnostic) -> Seq<char> {
        self.headline(d) + self.arrow(d) + self.framed(d) + self.noted(
            d.notes@,
            gutter(d.labels@),
            d.notes@.len(),
        )
    }
}

/// The first primary label from `i` on.
pub open spec fn primary(labels: Seq<diagnostic::Label>, i: int) -> Option<int>
    decreases labels.len() - i,
{
    if i >= labels.len() {
        None
    } else if labels[i].primary {
        Some(i)
    } else {
        primary(labels, i + 1)
    }
}

/// The largest line number of the first `k` labels.
pub open spec fn max_line(labels: Seq<diagnostic::Label>, k: nat) -> nat
    decreases k,
{
    if k == 0 {
        0
    } else {
        let before = max_line(labels, (k - 1) as nat);
        match labels[k - 1].place {
            Some(p) => if p.start.line > before {
                p.start.line as nat
            } else {
                before
            },
            None => before,
        }
    }
}

/// The width of the gutter: that of the largest line number.
pub open spec fn gutter(labels: Seq<diagnostic::Label>) -> nat {
    let n = max_line(labels, labels.len());
    text::dec(
        if n == 0 {
            1
        } else {
            n
        },
    ).len()
}

/// A number with spaces before it up to a width.
pub open spec fn aligned(n: nat, width: nat) -> Seq<char> {
    let shown = text::dec(n);
    text::fill(
        ALIGNED@,
        seq![
            diagnostic::repeated(
                ' ',
                if shown.len() < width {
                    (width - shown.len()) as nat
                } else {
                    0
                },
            ),
            shown,
        ],
    )
}

/// The columns of a mark, at least one: to the end of the place, or, where that is on another line,
/// to behind the end of the first.
pub open spec fn mark_width(p: diagnostic::Place) -> nat {
    let n = diagnostic::columns(p.line@, (p.start.col - 1) as nat, p.behind());
    if n == 0 {
        1
    } else {
        n
    }
}

/// The mark of a label and its message.
pub open spec fn underline(l: diagnostic::Label) -> Seq<char> {
    let marks = diagnostic::repeated(
        if l.primary {
            '^'
        } else {
            '-'
        },
        mark_width(l.place->0),
    );
    if l.message@.len() == 0 {
        marks
    } else {
        text::fill(MARKED@, seq![marks, l.message@])
    }
}

/// The colour of a mark.
pub open spec fn mark_color(primary: bool) -> Seq<char> {
    if primary {
        diagnostic::PRIMARY@
    } else {
        diagnostic::SECONDARY@
    }
}

/// The name of a kind of note.
pub open spec fn tag(kind: diagnostic::NoteKind) -> Seq<char> {
    match kind {
        diagnostic::NoteKind::Note => "note"@,
        diagnostic::NoteKind::Help => "help"@,
    }
}

/// See [`mark_color`].
fn span_color(primary: bool) -> (r: &'static str)
    ensures
        r@ == mark_color(primary),
{
    if primary {
        diagnostic::PRIMARY
    } else {
        diagnostic::SECONDARY
    }
}

/// See [`gutter`].
fn gutter_of(labels: &[diagnostic::Label]) -> (r: usize)
    ensures
        r == gutter(labels@),
{
    let mut n: u32 = 0;
    for k in 0..labels.len()
        invariant
            n == max_line(labels@, k as nat),
    {
        if let Some(p) = &labels[k].place {
            if p.start.line > n {
                n = p.start.line;
            }
        }
    }
    let shown: u32 = if n == 0 {
        1
    } else {
        n
    };
    text::decimal64(shown as u64).unicode_len()
}

/// See [`aligned`].
fn aligned_of(n: u32, width: usize) -> (r: String)
    ensures
        r@ == aligned(n as nat, width as nat),
{
    let shown = text::decimal64(n as u64);
    let len: usize = shown.unicode_len();
    let before: usize = if len < width {
        width - len
    } else {
        0
    };
    text::expand2(ALIGNED, &diagnostic::repeat(' ', before), &shown)
}

/// See [`underline`].
fn underline_of(l: &diagnostic::Label, p: &diagnostic::Place) -> (r: String)
    requires
        l.place == Some(*p),
        p.wf(),
    ensures
        r@ == underline(*l),
{
    let first: usize = (p.start.col - 1) as usize;
    let behind: usize = if p.end.line == p.start.line {
        (p.end.col - 1) as usize
    } else {
        p.line.unicode_len() + 1
    };
    let n: usize = diagnostic::rendered_width(&p.line, first, behind);
    let width: usize = if n == 0 {
        1
    } else {
        n
    };
    let marks = diagnostic::repeat(
        if l.primary {
            '^'
        } else {
            '-'
        },
        width,
    );
    if l.message.unicode_len() == 0 {
        marks
    } else {
        text::expand2(MARKED, &marks, &l.message)
    }
}

impl Renderer {
    /// A renderer.
    pub fn new(color: bool) -> (r: Renderer)
        ensures
            r.color == color,
    {
        Renderer { color }
    }

    /// See [`Renderer::painted`].
    fn paint(&self, code: &str, s: &str) -> (r: String)
        ensures
            r@ == self.painted(code@, s@),
    {
        if self.color {
            text::expand3(PAINTED, code, s, diagnostic::RESET)
        } else {
            String::from_str(s)
        }
    }

    /// See [`Renderer::headline`].
    fn headline_of(&self, d: &diagnostic::Diagnostic) -> (r: String)
        ensures
            r@ == self.headline(*d),
    {
        let mut r = match &d.code {
            Some(code) => self.paint(&d.ansi, &text::expand2(HEAD, &d.header, code)),
            None => self.paint(&d.ansi, &d.header),
        };
        r.append(&self.paint(diagnostic::BOLD, &text::expand1(MESSAGE, &d.message)));
        r
    }

    /// See [`Renderer::arrow`].
    fn arrow_of(&self, d: &diagnostic::Diagnostic, pad: &str) -> (r: String)
        requires
            pad@ == diagnostic::repeated(' ', gutter(d.labels@)),
        ensures
            r@ == self.arrow(*d),
    {
        let mut i: usize = 0;
        while i < d.labels.len()
            invariant
                i <= d.labels@.len(),
                pad@ == diagnostic::repeated(' ', gutter(d.labels@)),
                primary(d.labels@, 0) == primary(d.labels@, i as int),
            decreases d.labels@.len() - i,
        {
            if d.labels[i].primary {
                return match &d.labels[i].place {
                    Some(p) => text::expand5(
                        ARROW,
                        pad,
                        &self.paint(diagnostic::BLUE, "-->"),
                        &p.name,
                        &text::decimal64(p.start.line as u64),
                        &text::decimal64(p.start.col as u64),
                    ),
                    None => String::new(),
                };
            }
            i = i + 1;
        }
        String::new()
    }

    /// See [`Renderer::labelled`].
    fn render_label(&self, l: &diagnostic::Label, width: usize, pad: &str, bar: &str) -> (r: String)
        requires
            l.place is Some,
            l.place->0.wf(),
            pad@ == diagnostic::repeated(' ', width as nat),
            bar@ == self.bar(),
        ensures
            r@ == self.labelled(*l, width as nat),
    {
        match &l.place {
            Some(p) => {
                let num = aligned_of(p.start.line, width);
                let mut r = text::expand3(
                    SOURCE,
                    &self.paint(diagnostic::BLUE, &num),
                    bar,
                    &diagnostic::expand_tabs(&p.line),
                );
                let before: usize = diagnostic::rendered_width(
                    &p.line,
                    0,
                    (p.start.col - 1) as usize,
                );
                let mark = self.paint(span_color(l.primary), &underline_of(l, p));
                r.append(
                    &text::expand4(MARK, pad, bar, &diagnostic::repeat(' ', before), &mark),
                );
                r
            },
            None => String::new(),
        }
    }

    /// See [`Renderer::framed`].
    fn framed_of(&self, d: &diagnostic::Diagnostic, width: usize, pad: &str) -> (r: String)
        requires
            d.wf(),
            width == gutter(d.labels@),
            pad@ == diagnostic::repeated(' ', width as nat),
        ensures
            r@ == self.framed(*d),
    {
        let o = order::order(&d.labels);
        let n: usize = d.labels.len();
        proof {
            order::lemma_ordered(d.labels@, d.labels@.len());
        }
        if o.len() == 0 {
            return String::new();
        }
        let bar = self.paint(diagnostic::BLUE, "|");
        let edge = text::expand2(EDGE, pad, &bar);
        let mut frames = String::new();
        for k in 0..o.len()
            invariant
                d.wf(),
                n == d.labels@.len(),
                forall|i: int|
                    0 <= i < o@.len() ==> (#[trigger] o@[i]) < n && d.labels@[o@[i] as int].place
                        is Some,
                pad@ == diagnostic::repeated(' ', width as nat),
                bar@ == self.bar(),
                frames@ == self.frames(d.labels@, o@, width as nat, k as nat),
        {
            let i: usize = o[k];
            assert(d.labels@[i as int].place is Some);
            frames.append(&self.render_label(&d.labels[i], width, pad, &bar));
        }
        let mut r = String::from_str(&edge);
        r.append(&frames);
        r.append(&edge);
        r
    }

    /// See [`Renderer::noted`].
    fn noted_of(&self, notes: &[(diagnostic::NoteKind, String)], width: usize, pad: &str) -> (r:
        String)
        requires
            pad@ == diagnostic::repeated(' ', width as nat),
        ensures
            r@ == self.noted(notes@, width as nat, notes@.len()),
    {
        let mut r = String::new();
        for k in 0..notes.len()
            invariant
                pad@ == diagnostic::repeated(' ', width as nat),
                r@ == self.noted(notes@, width as nat, k as nat),
        {
            let tag = match notes[k].0 {
                diagnostic::NoteKind::Note => "note",
                diagnostic::NoteKind::Help => "help",
            };
            r.append(
                &text::expand4(
                    NOTE,
                    pad,
                    &self.paint(diagnostic::BLUE, "="),
                    &self.paint(diagnostic::BOLD, tag),
                    &notes[k].1,
                ),
            );
        }
        r
    }

    /// The text of a diagnostic, without a newline at its end: the headline, the primary place, the
    /// marked source in the order of the places, and the notes.
    pub fn render(&self, d: &diagnostic::Diagnostic) -> (r: String)
        requires
            d.wf(),
        ensures
            r@ == self.rendered(*d),
    {
        let width: usize = gutter_of(&d.labels);
        let pad = diagnostic::repeat(' ', width);
        let mut r = self.headline_of(d);
        r.append(&self.arrow_of(d, &pad));
        r.append(&self.framed_of(d, width, &pad));
        r.append(&self.noted_of(&d.notes, width, &pad));
        r
    }
}

} // verus!
