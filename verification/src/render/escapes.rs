//! Colour is escapes and nothing else: without it there are none but those of the diagnostic itself,
//! and with them taken out a coloured text is the plain one.
use vstd::prelude::*;

use crate::render::diagnostic;
use crate::render::order;
use crate::render::renderer;
use crate::text;

verus! {

/// The character that begins an escape.
pub const ESCAPE: char = '\x1b';

/// Whether a text has no escape.
pub open spec fn unescaped(s: Seq<char>) -> bool {
    forall|i: int| 0 <= i < s.len() ==> #[trigger] s[i] != ESCAPE
}

/// Whether none of what a diagnostic shows has an escape.
pub open spec fn unescaped_diagnostic(d: diagnostic::Diagnostic) -> bool {
    &&& unescaped(d.header@)
    &&& d.code matches Some(code) ==> unescaped(code@)
    &&& unescaped(d.message@)
    &&& forall|i: int| 0 <= i < d.labels@.len() ==> unescaped_label(#[trigger] d.labels@[i])
    &&& forall|i: int| 0 <= i < d.notes@.len() ==> unescaped((#[trigger] d.notes@[i]).1@)
}

/// Whether none of what a label shows has an escape.
pub open spec fn unescaped_label(l: diagnostic::Label) -> bool {
    &&& unescaped(l.message@)
    &&& l.place matches Some(p) ==> unescaped(p.name@) && unescaped(p.line@)
}

/// A template without escapes, filled with what has none, has none.
proof fn lemma_filled(t: Seq<char>, args: Seq<Seq<char>>)
    requires
        unescaped(t),
        forall|k: int| 0 <= k < args.len() ==> unescaped(#[trigger] args[k]),
    ensures
        unescaped(text::fill(t, args)),
    decreases t.len(),
{
    reveal(text::fill);
    if t.len() > 0 {
        lemma_filled(t.drop_last(), args);
    }
}

/// A number has no escape.
proof fn lemma_number(n: nat)
    ensures
        unescaped(text::dec(n)),
    decreases n,
{
    reveal(text::dec);
    if n >= 10 {
        lemma_number(n / 10);
    }
}

/// A line has no more escapes without its tabs.
proof fn lemma_untabbed(s: Seq<char>)
    requires
        unescaped(s),
    ensures
        unescaped(diagnostic::untabbed(s)),
    decreases s.len(),
{
    if s.len() > 0 {
        lemma_untabbed(s.drop_last());
    }
}

/// The templates and the fixed texts have no escape.
proof fn lemma_templates()
    ensures
        unescaped(renderer::HEAD@),
        unescaped(renderer::MESSAGE@),
        unescaped(renderer::ARROW@),
        unescaped(renderer::EDGE@),
        unescaped(renderer::SOURCE@),
        unescaped(renderer::MARK@),
        unescaped(renderer::MARKED@),
        unescaped(renderer::NOTE@),
        unescaped(renderer::ALIGNED@),
        unescaped("-->"@),
        unescaped("|"@),
        unescaped("="@),
        unescaped("note"@),
        unescaped("help"@),
{
    reveal_strlit("#0[#1]");
    reveal_strlit(": #0");
    reveal_strlit("\n#0#1 #2:#3:#4");
    reveal_strlit("\n#0 #1");
    reveal_strlit("\n#0 #1 #2");
    reveal_strlit("\n#0 #1 #2#3");
    reveal_strlit("#0 #1");
    reveal_strlit("\n#0 #1 #2: #3");
    reveal_strlit("#0#1");
    reveal_strlit("-->");
    reveal_strlit("|");
    reveal_strlit("=");
    reveal_strlit("note");
    reveal_strlit("help");
}

/// The headline has no escape.
proof fn lemma_headline(r: renderer::Renderer, d: diagnostic::Diagnostic)
    requires
        !r.color,
        unescaped_diagnostic(d),
    ensures
        unescaped(r.headline(d)),
{
    lemma_templates();
    if let Some(code) = d.code {
        lemma_filled(renderer::HEAD@, seq![d.header@, code@]);
    }
    lemma_filled(renderer::MESSAGE@, seq![d.message@]);
}

/// The first primary label is one of the labels.
proof fn lemma_primary(labels: Seq<diagnostic::Label>, i: int)
    requires
        0 <= i,
    ensures
        renderer::primary(labels, i) matches Some(j) ==> i <= j < labels.len(),
    decreases labels.len() - i,
{
    if i < labels.len() && !labels[i].primary {
        lemma_primary(labels, i + 1);
    }
}

/// The place has no escape.
proof fn lemma_arrow(r: renderer::Renderer, d: diagnostic::Diagnostic)
    requires
        !r.color,
        unescaped_diagnostic(d),
    ensures
        unescaped(r.arrow(d)),
{
    lemma_templates();
    lemma_primary(d.labels@, 0);
    if let Some(i) = renderer::primary(d.labels@, 0) {
        assert(unescaped_label(d.labels@[i]));
        if let Some(p) = d.labels@[i].place {
            lemma_number(p.start.line as nat);
            lemma_number(p.start.col as nat);
            lemma_filled(
                renderer::ARROW@,
                seq![
                    diagnostic::repeated(' ', renderer::gutter(d.labels@)),
                    "-->"@,
                    p.name@,
                    text::dec(p.start.line as nat),
                    text::dec(p.start.col as nat),
                ],
            );
        }
    }
}

/// A label has no escape.
proof fn lemma_labelled(r: renderer::Renderer, l: diagnostic::Label, width: nat)
    requires
        !r.color,
        l.place is Some,
        unescaped_label(l),
    ensures
        unescaped(r.labelled(l, width)),
{
    lemma_templates();
    let p = l.place->0;
    let shown = text::dec(p.start.line as nat);
    lemma_number(p.start.line as nat);
    let before = diagnostic::repeated(
        ' ',
        if shown.len() < width {
            (width - shown.len()) as nat
        } else {
            0
        },
    );
    lemma_filled(renderer::ALIGNED@, seq![before, shown]);
    lemma_untabbed(p.line@);
    let number = renderer::aligned(p.start.line as nat, width);
    lemma_filled(renderer::SOURCE@, seq![number, r.bar(), diagnostic::untabbed(p.line@)]);
    let marks = diagnostic::repeated(
        if l.primary {
            '^'
        } else {
            '-'
        },
        renderer::mark_width(p),
    );
    lemma_filled(renderer::MARKED@, seq![marks, l.message@]);
    lemma_filled(
        renderer::MARK@,
        seq![
            diagnostic::repeated(' ', width),
            r.bar(),
            diagnostic::repeated(
                ' ',
                diagnostic::columns(p.line@, 0, (p.start.col - 1) as nat),
            ),
            renderer::underline(l),
        ],
    );
}

/// The labels have no escape.
proof fn lemma_frames(
    r: renderer::Renderer,
    labels: Seq<diagnostic::Label>,
    o: Seq<usize>,
    width: nat,
    k: nat,
)
    requires
        !r.color,
        k <= o.len(),
        forall|i: int|
            0 <= i < o.len() ==> (#[trigger] o[i]) < labels.len() && labels[o[i] as int].place
                is Some,
        forall|i: int| 0 <= i < labels.len() ==> unescaped_label(#[trigger] labels[i]),
    ensures
        unescaped(r.frames(labels, o, width, k)),
    decreases k,
{
    if k > 0 {
        lemma_frames(r, labels, o, width, (k - 1) as nat);
        lemma_labelled(r, labels[o[k - 1] as int], width);
    }
}

/// The notes have no escape.
proof fn lemma_noted(
    r: renderer::Renderer,
    notes: Seq<(diagnostic::NoteKind, String)>,
    width: nat,
    k: nat,
)
    requires
        !r.color,
        k <= notes.len(),
        forall|i: int| 0 <= i < notes.len() ==> unescaped((#[trigger] notes[i]).1@),
    ensures
        unescaped(r.noted(notes, width, k)),
    decreases k,
{
    if k > 0 {
        lemma_noted(r, notes, width, (k - 1) as nat);
        lemma_templates();
        lemma_filled(
            renderer::NOTE@,
            seq![
                diagnostic::repeated(' ', width),
                "="@,
                renderer::tag(notes[k - 1].0),
                notes[k - 1].1@,
            ],
        );
    }
}

/// A painted text is the text between the escape of its colour and the one that ends it.
pub proof fn law_painted(code: Seq<char>, s: Seq<char>)
    ensures
        (renderer::Renderer { color: true }).painted(code, s) == code + s + diagnostic::RESET@,
        (renderer::Renderer { color: false }).painted(code, s) == s,
{
    reveal_strlit("#0#1#2");
    let args = seq![code, s, diagnostic::RESET@];
    let t = renderer::PAINTED@;
    reveal_with_fuel(text::fill, 7);
    assert(t.drop_last().drop_last().drop_last().drop_last().drop_last().drop_last().len() == 0);
}

/// With colour there is an escape in the text of every diagnostic.
pub proof fn law_colour_escapes(r: renderer::Renderer, d: diagnostic::Diagnostic)
    requires
        r.color,
    ensures
        !unescaped(r.rendered(d)),
{
    let head = match d.code {
        Some(code) => text::fill(renderer::HEAD@, seq![d.header@, code@]),
        None => d.header@,
    };
    let message = text::fill(renderer::MESSAGE@, seq![d.message@]);
    let first = r.painted(d.ansi@, head);
    law_painted(diagnostic::BOLD@, message);
    reveal_strlit("\x1b[1m");
    assert(r.painted(diagnostic::BOLD@, message)[0] == ESCAPE);
    assert(r.rendered(d)[first.len() as int] == ESCAPE);
}

/// Without colour, the text of a diagnostic has an escape only where the diagnostic shows one.
pub proof fn law_no_colour_no_escape(r: renderer::Renderer, d: diagnostic::Diagnostic)
    requires
        !r.color,
        d.labels@.len() <= usize::MAX,
        unescaped_diagnostic(d),
    ensures
        unescaped(r.rendered(d)),
{
    let width = renderer::gutter(d.labels@);
    let o = order::ordered(d.labels@, d.labels@.len());
    lemma_headline(r, d);
    lemma_arrow(r, d);
    order::lemma_ordered(d.labels@, d.labels@.len());
    lemma_frames(r, d.labels@, o, width, o.len());
    lemma_templates();
    lemma_filled(renderer::EDGE@, seq![diagnostic::repeated(' ', width), r.bar()]);
    lemma_noted(r, d.notes@, width, d.notes@.len());
}

/// Whether an escape has begun in a text and not ended.
pub open spec fn unfinished(s: Seq<char>) -> bool
    decreases s.len(),
{
    if s.len() == 0 {
        false
    } else if s.last() == ESCAPE {
        true
    } else {
        s.last() != 'm' && unfinished(s.drop_last())
    }
}

/// A text without its escapes: each goes from [`ESCAPE`] to the `m` that ends it.
pub open spec fn visible(s: Seq<char>) -> Seq<char>
    decreases s.len(),
{
    if s.len() == 0 {
        Seq::empty()
    } else if s.last() == ESCAPE || unfinished(s.drop_last()) {
        visible(s.drop_last())
    } else {
        visible(s.drop_last()).push(s.last())
    }
}

/// Whether a text is one escape sequence that sets a colour.
pub open spec fn sets_colour(code: Seq<char>) -> bool {
    &&& code.len() >= 3
    &&& code[0] == ESCAPE
    &&& code[1] == '['
    &&& code.last() == 'm'
    &&& forall|i: int| 2 <= i < code.len() - 1 ==> #[trigger] code[i] != 'm' && code[i] != ESCAPE
}

/// Whether `plain` is all that shows of a text, and its escapes are over.
pub open spec fn shows(s: Seq<char>, plain: Seq<char>) -> bool {
    visible(s) == plain && !unfinished(s)
}

/// What has no escape shows itself.
proof fn lemma_shows_itself(s: Seq<char>)
    requires
        unescaped(s),
    ensures
        shows(s, s),
    decreases s.len(),
{
    if s.len() > 0 {
        assert forall|i: int| 0 <= i < s.drop_last().len() implies #[trigger] s.drop_last()[i]
            != ESCAPE by {
            assert(s[i] != ESCAPE);
        }
        lemma_shows_itself(s.drop_last());
        assert(s[s.len() - 1] != ESCAPE);
        assert(s.drop_last().push(s.last()) =~= s);
    } else {
        assert(s =~= Seq::empty());
    }
}

/// What two texts show together.
proof fn lemma_shows_both(a: Seq<char>, p: Seq<char>, b: Seq<char>)
    requires
        shows(a, p),
    ensures
        visible(a + b) == p + visible(b),
        unfinished(a + b) == unfinished(b),
    decreases b.len(),
{
    if b.len() > 0 {
        lemma_shows_both(a, p, b.drop_last());
        assert((a + b).drop_last() =~= a + b.drop_last());
        assert((a + b).last() == b.last());
        assert(p + visible(b) =~= if b.last() == ESCAPE || unfinished(b.drop_last()) {
            p + visible(b.drop_last())
        } else {
            (p + visible(b.drop_last())).push(b.last())
        });
    } else {
        assert(a + b =~= a);
        assert(p + visible(b) =~= p);
    }
}

/// What two texts show, one behind the other.
proof fn lemma_shows_joined(a: Seq<char>, p: Seq<char>, b: Seq<char>, q: Seq<char>)
    requires
        shows(a, p),
        shows(b, q),
    ensures
        shows(a + b, p + q),
{
    lemma_shows_both(a, p, b);
}

/// The beginning of an escape sequence shows nothing.
proof fn lemma_begun(code: Seq<char>, n: int)
    requires
        sets_colour(code),
        1 <= n < code.len(),
    ensures
        visible(code.take(n)) == Seq::<char>::empty(),
        unfinished(code.take(n)),
    decreases n,
{
    let t = code.take(n);
    assert(t.last() == code[n - 1]);
    if n > 1 {
        lemma_begun(code, n - 1);
        assert(t.drop_last() =~= code.take(n - 1));
    } else {
        assert(visible(t.drop_last()) =~= Seq::empty());
    }
}

/// An escape sequence shows nothing.
proof fn lemma_sequence(code: Seq<char>)
    requires
        sets_colour(code),
    ensures
        shows(code, Seq::empty()),
{
    let n = code.len() - 1;
    lemma_begun(code, n);
    assert(code.drop_last() =~= code.take(n));
}

/// The colours are escape sequences.
proof fn lemma_colours()
    ensures
        sets_colour(diagnostic::RESET@),
        sets_colour(diagnostic::BOLD@),
        sets_colour(diagnostic::BLUE@),
        sets_colour(diagnostic::PRIMARY@),
        sets_colour(diagnostic::SECONDARY@),
{
    reveal_strlit("\x1b[0m");
    reveal_strlit("\x1b[1m");
    reveal_strlit("\x1b[1;34m");
    reveal_strlit("\x1b[1;31m");
}

/// A painted text shows itself.
proof fn lemma_shows_painted(r: renderer::Renderer, code: Seq<char>, s: Seq<char>)
    requires
        sets_colour(code),
        unescaped(s),
    ensures
        shows(r.painted(code, s), s),
{
    lemma_shows_itself(s);
    if r.color {
        law_painted(code, s);
        lemma_colours();
        lemma_sequence(code);
        lemma_sequence(diagnostic::RESET@);
        lemma_shows_joined(code, Seq::empty(), s, s);
        assert(Seq::<char>::empty() + s =~= s);
        lemma_shows_joined(code + s, s, diagnostic::RESET@, Seq::empty());
        assert(s + Seq::<char>::empty() =~= s);
    }
}

/// A template shows itself, filled with what its arguments show.
proof fn lemma_shows_filled(t: Seq<char>, args: Seq<Seq<char>>, plain: Seq<Seq<char>>)
    requires
        unescaped(t),
        args.len() == plain.len(),
        forall|k: int| 0 <= k < args.len() ==> shows(#[trigger] args[k], plain[k]),
    ensures
        shows(text::fill(t, args), text::fill(t, plain)),
    decreases t.len(),
{
    reveal(text::fill);
    if t.len() > 0 {
        let front = t.drop_last();
        assert forall|i: int| 0 <= i < front.len() implies #[trigger] front[i] != ESCAPE by {
            assert(t[i] != ESCAPE);
        }
        lemma_shows_filled(front, args, plain);
        assert(t[t.len() - 1] != ESCAPE);
        let (a, p) = (text::fill(front, args), text::fill(front, plain));
        if t.last() == '#' {
        } else if t.len() >= 2 && t[t.len() - 2] == '#' {
            let (h, q) = (text::hole(args, t.last()), text::hole(plain, t.last()));
            assert(shows(h, q));
            lemma_shows_joined(a, p, h, q);
        } else {
            let c = seq![t.last()];
            assert(unescaped(c));
            lemma_shows_itself(c);
            lemma_shows_joined(a, p, c, c);
            assert(a + c =~= a.push(t.last()));
            assert(p + c =~= p.push(t.last()));
        }
    }
}

/// The headline.
proof fn lemma_shows_headline(
    r: renderer::Renderer,
    plain: renderer::Renderer,
    d: diagnostic::Diagnostic,
)
    requires
        !plain.color,
        unescaped_diagnostic(d),
        sets_colour(d.ansi@),
    ensures
        shows(r.headline(d), plain.headline(d)),
{
    lemma_templates();
    lemma_colours();
    let head = match d.code {
        Some(code) => text::fill(renderer::HEAD@, seq![d.header@, code@]),
        None => d.header@,
    };
    if let Some(code) = d.code {
        lemma_filled(renderer::HEAD@, seq![d.header@, code@]);
    }
    let message = text::fill(renderer::MESSAGE@, seq![d.message@]);
    lemma_filled(renderer::MESSAGE@, seq![d.message@]);
    lemma_shows_painted(r, d.ansi@, head);
    lemma_shows_painted(r, diagnostic::BOLD@, message);
    lemma_shows_joined(
        r.painted(d.ansi@, head),
        head,
        r.painted(diagnostic::BOLD@, message),
        message,
    );
}

/// The place.
proof fn lemma_shows_arrow(
    r: renderer::Renderer,
    plain: renderer::Renderer,
    d: diagnostic::Diagnostic,
)
    requires
        !plain.color,
        unescaped_diagnostic(d),
    ensures
        shows(r.arrow(d), plain.arrow(d)),
{
    lemma_templates();
    lemma_colours();
    lemma_primary(d.labels@, 0);
    if let Some(i) = renderer::primary(d.labels@, 0) {
        assert(unescaped_label(d.labels@[i]));
        if let Some(p) = d.labels@[i].place {
            let pad = diagnostic::repeated(' ', renderer::gutter(d.labels@));
            let (line, col) = (text::dec(p.start.line as nat), text::dec(p.start.col as nat));
            lemma_number(p.start.line as nat);
            lemma_number(p.start.col as nat);
            lemma_shows_itself(pad);
            lemma_shows_itself(p.name@);
            lemma_shows_itself(line);
            lemma_shows_itself(col);
            lemma_shows_painted(r, diagnostic::BLUE@, "-->"@);
            lemma_shows_filled(
                renderer::ARROW@,
                seq![pad, r.painted(diagnostic::BLUE@, "-->"@), p.name@, line, col],
                seq![pad, "-->"@, p.name@, line, col],
            );
        }
    }
}

/// A label.
proof fn lemma_shows_labelled(
    r: renderer::Renderer,
    plain: renderer::Renderer,
    l: diagnostic::Label,
    width: nat,
)
    requires
        !plain.color,
        l.place is Some,
        unescaped_label(l),
    ensures
        shows(r.labelled(l, width), plain.labelled(l, width)),
{
    lemma_templates();
    lemma_colours();
    let p = l.place->0;
    let shown = text::dec(p.start.line as nat);
    lemma_number(p.start.line as nat);
    let before = diagnostic::repeated(
        ' ',
        if shown.len() < width {
            (width - shown.len()) as nat
        } else {
            0
        },
    );
    lemma_filled(renderer::ALIGNED@, seq![before, shown]);
    let number = renderer::aligned(p.start.line as nat, width);
    let line = diagnostic::untabbed(p.line@);
    lemma_untabbed(p.line@);
    lemma_shows_itself(line);
    lemma_shows_painted(r, diagnostic::BLUE@, number);
    lemma_shows_painted(r, diagnostic::BLUE@, "|"@);
    lemma_shows_filled(
        renderer::SOURCE@,
        seq![r.painted(diagnostic::BLUE@, number), r.bar(), line],
        seq![number, "|"@, line],
    );
    let marks = diagnostic::repeated(
        if l.primary {
            '^'
        } else {
            '-'
        },
        renderer::mark_width(p),
    );
    lemma_filled(renderer::MARKED@, seq![marks, l.message@]);
    let pad = diagnostic::repeated(' ', width);
    let indent = diagnostic::repeated(
        ' ',
        diagnostic::columns(p.line@, 0, (p.start.col - 1) as nat),
    );
    let mark = renderer::underline(l);
    lemma_shows_itself(pad);
    lemma_shows_itself(indent);
    lemma_shows_painted(r, renderer::mark_color(l.primary), mark);
    lemma_shows_filled(
        renderer::MARK@,
        seq![pad, r.bar(), indent, r.painted(renderer::mark_color(l.primary), mark)],
        seq![pad, "|"@, indent, mark],
    );
    lemma_shows_joined(
        text::fill(renderer::SOURCE@, seq![r.painted(diagnostic::BLUE@, number), r.bar(), line]),
        text::fill(renderer::SOURCE@, seq![number, "|"@, line]),
        text::fill(
            renderer::MARK@,
            seq![pad, r.bar(), indent, r.painted(renderer::mark_color(l.primary), mark)],
        ),
        text::fill(renderer::MARK@, seq![pad, "|"@, indent, mark]),
    );
}

/// The labels.
proof fn lemma_shows_frames(
    r: renderer::Renderer,
    plain: renderer::Renderer,
    labels: Seq<diagnostic::Label>,
    o: Seq<usize>,
    width: nat,
    k: nat,
)
    requires
        !plain.color,
        k <= o.len(),
        forall|i: int|
            0 <= i < o.len() ==> (#[trigger] o[i]) < labels.len() && labels[o[i] as int].place
                is Some,
        forall|i: int| 0 <= i < labels.len() ==> unescaped_label(#[trigger] labels[i]),
    ensures
        shows(r.frames(labels, o, width, k), plain.frames(labels, o, width, k)),
    decreases k,
{
    if k > 0 {
        let (j, l) = ((k - 1) as nat, labels[o[k - 1] as int]);
        lemma_shows_frames(r, plain, labels, o, width, j);
        lemma_shows_labelled(r, plain, l, width);
        lemma_shows_joined(
            r.frames(labels, o, width, j),
            plain.frames(labels, o, width, j),
            r.labelled(l, width),
            plain.labelled(l, width),
        );
    } else {
        lemma_shows_itself(Seq::empty());
    }
}

/// The notes.
proof fn lemma_shows_noted(
    r: renderer::Renderer,
    plain: renderer::Renderer,
    notes: Seq<(diagnostic::NoteKind, String)>,
    width: nat,
    k: nat,
)
    requires
        !plain.color,
        k <= notes.len(),
        forall|i: int| 0 <= i < notes.len() ==> unescaped((#[trigger] notes[i]).1@),
    ensures
        shows(r.noted(notes, width, k), plain.noted(notes, width, k)),
    decreases k,
{
    if k > 0 {
        let j = (k - 1) as nat;
        lemma_shows_noted(r, plain, notes, width, j);
        lemma_templates();
        lemma_colours();
        let pad = diagnostic::repeated(' ', width);
        let tag = renderer::tag(notes[k - 1].0);
        let note = notes[k - 1].1@;
        lemma_shows_itself(pad);
        lemma_shows_itself(note);
        lemma_shows_painted(r, diagnostic::BLUE@, "="@);
        lemma_shows_painted(r, diagnostic::BOLD@, tag);
        let args = seq![
            pad,
            r.painted(diagnostic::BLUE@, "="@),
            r.painted(diagnostic::BOLD@, tag),
            note,
        ];
        let plain_args = seq![pad, "="@, tag, note];
        lemma_shows_filled(renderer::NOTE@, args, plain_args);
        lemma_shows_joined(
            r.noted(notes, width, j),
            plain.noted(notes, width, j),
            text::fill(renderer::NOTE@, args),
            text::fill(renderer::NOTE@, plain_args),
        );
    } else {
        lemma_shows_itself(Seq::empty());
    }
}

/// The source.
proof fn lemma_shows_framed(
    r: renderer::Renderer,
    plain: renderer::Renderer,
    d: diagnostic::Diagnostic,
)
    requires
        !plain.color,
        d.labels@.len() <= usize::MAX,
        unescaped_diagnostic(d),
    ensures
        shows(r.framed(d), plain.framed(d)),
{
    let width = renderer::gutter(d.labels@);
    let o = order::ordered(d.labels@, d.labels@.len());
    order::lemma_ordered(d.labels@, d.labels@.len());
    lemma_shows_frames(r, plain, d.labels@, o, width, o.len());
    lemma_templates();
    lemma_colours();
    let pad = diagnostic::repeated(' ', width);
    lemma_shows_itself(pad);
    lemma_shows_painted(r, diagnostic::BLUE@, "|"@);
    lemma_shows_filled(renderer::EDGE@, seq![pad, r.bar()], seq![pad, "|"@]);
    assert(shows(r.edge(width), plain.edge(width)));
    if o.len() == 0 {
        lemma_shows_itself(Seq::empty());
    } else {
        let (f, g) = (
            r.frames(d.labels@, o, width, o.len()),
            plain.frames(d.labels@, o, width, o.len()),
        );
        lemma_shows_joined(r.edge(width), plain.edge(width), f, g);
        lemma_shows_joined(
            r.edge(width) + f,
            plain.edge(width) + g,
            r.edge(width),
            plain.edge(width),
        );
    }
}

/// Colour adds escapes and nothing else: where what a diagnostic shows has none and its own colour
/// is one, the coloured text without its escapes is the plain text.
pub proof fn law_colour_is_only_escapes(d: diagnostic::Diagnostic)
    requires
        d.labels@.len() <= usize::MAX,
        unescaped_diagnostic(d),
        sets_colour(d.ansi@),
    ensures
        visible((renderer::Renderer { color: true }).rendered(d)) == (renderer::Renderer {
            color: false,
        }).rendered(d),
        visible((renderer::Renderer { color: false }).rendered(d)) == (renderer::Renderer {
            color: false,
        }).rendered(d),
{
    let r = renderer::Renderer { color: true };
    let plain = renderer::Renderer { color: false };
    let width = renderer::gutter(d.labels@);
    let n = d.notes@.len();
    lemma_shows_headline(r, plain, d);
    lemma_shows_arrow(r, plain, d);
    lemma_shows_framed(r, plain, d);
    lemma_shows_noted(r, plain, d.notes@, width, n);
    lemma_shows_joined(r.headline(d), plain.headline(d), r.arrow(d), plain.arrow(d));
    lemma_shows_joined(
        r.headline(d) + r.arrow(d),
        plain.headline(d) + plain.arrow(d),
        r.framed(d),
        plain.framed(d),
    );
    lemma_shows_joined(
        r.headline(d) + r.arrow(d) + r.framed(d),
        plain.headline(d) + plain.arrow(d) + plain.framed(d),
        r.noted(d.notes@, width, n),
        plain.noted(d.notes@, width, n),
    );
    law_no_colour_no_escape(plain, d);
    lemma_shows_itself(plain.rendered(d));
}

} // verus!
