//! What the text of a diagnostic shows, without colour: nothing that a diagnostic says is missing,
//! and every mark stands beneath what it marks.
use vstd::prelude::*;

use crate::render::diagnostic;
use crate::render::order;
use crate::render::renderer;
use crate::text;

verus! {

/// Whether a text is these three, one behind the other.
pub open spec fn joined(t: Seq<char>, a: Seq<char>, b: Seq<char>, c: Seq<char>) -> bool {
    t == a + b + c
}

/// Whether a part stands somewhere in a text.
pub open spec fn holds(t: Seq<char>, part: Seq<char>) -> bool {
    exists|a: Seq<char>, b: Seq<char>| #[trigger] joined(t, a, part, b)
}

/// A part of a part is a part.
proof fn lemma_holds(t: Seq<char>, a: Seq<char>, b: Seq<char>, part: Seq<char>)
    requires
        holds(t, part),
    ensures
        holds(a + t + b, part),
{
    let (x, y) = choose|x: Seq<char>, y: Seq<char>| #[trigger] joined(t, x, part, y);
    assert(a + t + b =~= (a + x) + part + (y + b));
    assert(joined(a + t + b, a + x, part, y + b));
}

/// A part is held by itself.
proof fn lemma_holds_itself(t: Seq<char>)
    ensures
        holds(t, t),
{
    assert(joined(t, Seq::empty(), t, Seq::empty())) by {
        assert(t =~= Seq::empty() + t + Seq::empty());
    }
}

/// So many of a character are so many, each that one.
pub proof fn law_repeated(c: char, n: nat, i: int)
    ensures
        diagnostic::repeated(c, n).len() == n,
        0 <= i < n ==> diagnostic::repeated(c, n)[i] == c,
{
}

/// A line is shown character by character: a tab as four spaces, any other character as it is.
pub proof fn law_a_tab_is_four_spaces(a: Seq<char>, b: Seq<char>, c: char)
    ensures
        diagnostic::untabbed(a + b) == diagnostic::untabbed(a) + diagnostic::untabbed(b),
        diagnostic::untabbed(Seq::empty()) == Seq::<char>::empty(),
        c == '\t' ==> diagnostic::untabbed(seq![c]) == seq![' ', ' ', ' ', ' '],
        c != '\t' ==> diagnostic::untabbed(seq![c]) == seq![c],
    decreases b.len(),
{
    reveal_with_fuel(diagnostic::untabbed, 2);
    assert(seq![c].drop_last() =~= Seq::<char>::empty());
    if b.len() == 0 {
        assert(a + b =~= a);
    } else {
        assert((a + b).drop_last() =~= a + b.drop_last());
        law_a_tab_is_four_spaces(a, b.drop_last(), c);
    }
}

/// The line of the number, the bar and the source, filled in.
proof fn lemma_source(a: Seq<char>, b: Seq<char>, c: Seq<char>)
    ensures
        text::fill(renderer::SOURCE@, seq![a, b, c]) == seq!['\n'] + a + seq![' '] + b + seq![' ']
            + c,
{
    reveal_strlit("\n#0 #1 #2");
    reveal_with_fuel(text::fill, 10);
    let t = renderer::SOURCE@;
    assert(t.drop_last().drop_last().drop_last().drop_last().drop_last().drop_last().drop_last().drop_last().drop_last().len()
        == 0);
    assert(text::fill(t, seq![a, b, c]) =~= seq!['\n'] + a + seq![' '] + b + seq![' '] + c);
}

/// The line beneath, filled in.
proof fn lemma_mark(a: Seq<char>, b: Seq<char>, c: Seq<char>, d: Seq<char>)
    ensures
        text::fill(renderer::MARK@, seq![a, b, c, d]) == seq!['\n'] + a + seq![' '] + b + seq![' ']
            + c + d,
{
    reveal_strlit("\n#0 #1 #2#3");
    reveal_with_fuel(text::fill, 12);
    let t = renderer::MARK@;
    assert(t.drop_last().drop_last().drop_last().drop_last().drop_last().drop_last().drop_last().drop_last().drop_last().drop_last().drop_last().len()
        == 0);
    assert(text::fill(t, seq![a, b, c, d]) =~= seq!['\n'] + a + seq![' '] + b + seq![' '] + c + d);
}

/// Two texts with a space between them, and without.
proof fn lemma_pairs(a: Seq<char>, b: Seq<char>)
    ensures
        text::fill(renderer::MARKED@, seq![a, b]) == a + seq![' '] + b,
        text::fill(renderer::ALIGNED@, seq![a, b]) == a + b,
        text::fill(renderer::EDGE@, seq![a, b]) == seq!['\n'] + a + seq![' '] + b,
        text::fill(renderer::HEAD@, seq![a, b]) == a + seq!['['] + b + seq![']'],
        text::fill(renderer::MESSAGE@, seq![a]) == seq![':', ' '] + a,
{
    reveal_with_fuel(text::fill, 7);
    reveal_strlit("#0 #1");
    let t = renderer::MARKED@;
    assert(t.drop_last().drop_last().drop_last().drop_last().drop_last().len() == 0);
    assert(text::fill(t, seq![a, b]) =~= a + seq![' '] + b);
    reveal_strlit("#0#1");
    let t = renderer::ALIGNED@;
    assert(t.drop_last().drop_last().drop_last().drop_last().len() == 0);
    assert(text::fill(t, seq![a, b]) =~= a + b);
    reveal_strlit("\n#0 #1");
    let t = renderer::EDGE@;
    assert(t.drop_last().drop_last().drop_last().drop_last().drop_last().drop_last().len() == 0);
    assert(text::fill(t, seq![a, b]) =~= seq!['\n'] + a + seq![' '] + b);
    reveal_strlit("#0[#1]");
    let t = renderer::HEAD@;
    assert(t.drop_last().drop_last().drop_last().drop_last().drop_last().drop_last().len() == 0);
    assert(text::fill(t, seq![a, b]) =~= a + seq!['['] + b + seq![']']);
    reveal_strlit(": #0");
    let t = renderer::MESSAGE@;
    assert(t.drop_last().drop_last().drop_last().drop_last().len() == 0);
    assert(text::fill(t, seq![a]) =~= seq![':', ' '] + a);
}

/// The note, filled in.
proof fn lemma_note(a: Seq<char>, b: Seq<char>, c: Seq<char>, d: Seq<char>)
    ensures
        text::fill(renderer::NOTE@, seq![a, b, c, d]) == seq!['\n'] + a + seq![' '] + b + seq![' ']
            + c + seq![':', ' '] + d,
{
    reveal_strlit("\n#0 #1 #2: #3");
    reveal_with_fuel(text::fill, 14);
    let t = renderer::NOTE@;
    assert(t.drop_last().drop_last().drop_last().drop_last().drop_last().drop_last().drop_last().drop_last().drop_last().drop_last().drop_last().drop_last().drop_last().len()
        == 0);
    assert(text::fill(t, seq![a, b, c, d]) =~= seq!['\n'] + a + seq![' '] + b + seq![' '] + c + seq![
        ':',
        ' ',
    ] + d);
}

/// The place, filled in.
proof fn lemma_place(a: Seq<char>, b: Seq<char>, c: Seq<char>, d: Seq<char>, e: Seq<char>)
    ensures
        text::fill(renderer::ARROW@, seq![a, b, c, d, e]) == seq!['\n'] + a + b + seq![' '] + c
            + seq![':'] + d + seq![':'] + e,
{
    reveal_strlit("\n#0#1 #2:#3:#4");
    reveal_with_fuel(text::fill, 15);
    let t = renderer::ARROW@;
    assert(t.drop_last().drop_last().drop_last().drop_last().drop_last().drop_last().drop_last().drop_last().drop_last().drop_last().drop_last().drop_last().drop_last().drop_last().len()
        == 0);
    assert(text::fill(t, seq![a, b, c, d, e]) =~= seq!['\n'] + a + b + seq![' '] + c + seq![':'] + d
        + seq![':'] + e);
}

/// What follows a mark: a space and the message, or nothing where there is none.
pub open spec fn said(message: Seq<char>) -> Seq<char> {
    if message.len() == 0 {
        Seq::empty()
    } else {
        seq![' '] + message
    }
}

/// Whether a text is that of a label: the number of its line with `margin` spaces before it, the
/// line, and beneath it behind `before` spaces `n` marks and all of the message.
pub open spec fn drawn(
    t: Seq<char>,
    l: diagnostic::Label,
    width: nat,
    margin: nat,
    before: nat,
    n: nat,
) -> bool {
    let p = l.place->0;
    let bar = seq![' ', '|', ' '];
    t == seq!['\n'] + diagnostic::repeated(' ', margin) + text::dec(p.start.line as nat) + bar
        + diagnostic::untabbed(p.line@) + seq!['\n'] + diagnostic::repeated(' ', width) + bar
        + diagnostic::repeated(' ', before) + diagnostic::repeated(
        if l.primary {
            '^'
        } else {
            '-'
        },
        n,
    ) + said(l.message@)
}

/// Columns are counted as a line is shown.
proof fn lemma_columns(s: Seq<char>, k: nat)
    ensures
        k <= s.len() ==> diagnostic::columns(s, 0, k) == diagnostic::untabbed(
            s.take(k as int),
        ).len(),
        k >= s.len() ==> diagnostic::columns(s, 0, k) == diagnostic::untabbed(s).len() + (k
            - s.len()),
{
    if k <= s.len() {
        diagnostic::law_columns_are_those_of_the_line(s, k);
        if k == s.len() {
            assert(s.take(k as int) =~= s);
        }
    } else {
        diagnostic::law_columns_are_those_of_the_line(s, s.len());
        assert(s.take(s.len() as int) =~= s);
        diagnostic::law_columns_add_up(s, 0, s.len(), k);
        diagnostic::law_columns_behind_the_line(s, s.len(), k);
    }
}

/// Where columns from a place on end.
proof fn lemma_reach(s: Seq<char>, a: nat, b: nat)
    ensures
        a <= b ==> diagnostic::columns(s, 0, a) + diagnostic::columns(s, a, b)
            == diagnostic::columns(s, 0, b),
        b <= a ==> diagnostic::columns(s, a, b) == 0,
        a < b ==> diagnostic::columns(s, a, b) >= 1,
{
    if a <= b {
        diagnostic::law_columns_add_up(s, 0, a, b);
    } else {
        diagnostic::law_columns_behind_the_line(s, a, b);
    }
}

/// The two lines of a label, regrouped.
proof fn lemma_lines(
    pad: Seq<char>,
    number: Seq<char>,
    line: Seq<char>,
    w: Seq<char>,
    b: Seq<char>,
    marks: Seq<char>,
    rest: Seq<char>,
)
    ensures
        (seq!['\n'] + (pad + number) + seq![' '] + seq!['|'] + seq![' '] + line) + (seq!['\n'] + w
            + seq![' '] + seq!['|'] + seq![' '] + b + (marks + rest)) == seq!['\n'] + pad + number
            + seq![' ', '|', ' '] + line + seq!['\n'] + w + seq![' ', '|', ' '] + b + marks + rest,
{
    let bar = seq![' ', '|', ' '];
    let upper = seq!['\n'] + (pad + number) + seq![' '] + seq!['|'] + seq![' '] + line;
    let lower = seq!['\n'] + w + seq![' '] + seq!['|'] + seq![' '] + b + (marks + rest);
    let first = seq!['\n'] + pad + number + bar + line;
    assert(upper =~= first);
    assert(lower =~= seq!['\n'] + w + bar + b + marks + rest);
    assert(first + (seq!['\n'] + w + bar + b + marks + rest) =~= first + seq!['\n'] + w + bar + b
        + marks + rest);
}

/// A label is shown whole, whatever lines its place covers. The number of its line is drawn up to
/// the bar. The mark begins beneath the first character of the place, behind as many columns as
/// are shown before it, and there is always one. It ends beneath the last character of the place
/// where that is on the same line, and behind the end of the line where it is not; a place
/// without characters has one mark. All of the message follows, behind a space.
pub proof fn law_a_label_is_shown_whole(
    r: renderer::Renderer,
    l: diagnostic::Label,
    width: nat,
) -> (drawing: (nat, nat, nat))
    requires
        !r.color,
        l.place is Some,
        l.place->0.wf(),
    ensures
        ({
            let (margin, before, n) = drawing;
            let p = l.place->0;
            let line = p.line@;
            let first = p.start.col - 1;
            let behind = p.end.col - 1;
            &&& drawn(r.labelled(l, width), l, width, margin, before, n)
            &&& text::dec(p.start.line as nat).len() <= width ==> margin + text::dec(
                p.start.line as nat,
            ).len() == width
            &&& first <= line.len() ==> before == diagnostic::untabbed(line.take(first)).len()
            &&& first > line.len() ==> before == diagnostic::untabbed(line).len() + (first
                - line.len())
            &&& n >= 1
            &&& p.end.line == p.start.line && behind <= first ==> n == 1
            &&& p.end.line == p.start.line && first < behind <= line.len() ==> before + n
                == diagnostic::untabbed(line.take(behind)).len()
            &&& p.end.line == p.start.line && first < behind && behind > line.len() ==> before + n
                == diagnostic::untabbed(line).len() + (behind - line.len())
            &&& p.end.line != p.start.line && first <= line.len() ==> before + n
                == diagnostic::untabbed(line).len() + 1
            &&& p.end.line != p.start.line && first > line.len() ==> n == 1
        }),
{
    let p = l.place->0;
    let line = p.line@;
    let first = (p.start.col - 1) as nat;
    let shown = text::dec(p.start.line as nat);
    let margin = if shown.len() < width {
        (width - shown.len()) as nat
    } else {
        0
    };
    let before = diagnostic::columns(line, 0, first);
    let n = renderer::mark_width(p);
    lemma_columns(line, first);
    lemma_columns(line, p.behind());
    lemma_reach(line, first, p.behind());
    let marks = diagnostic::repeated(
        if l.primary {
            '^'
        } else {
            '-'
        },
        n,
    );
    let pad = diagnostic::repeated(' ', margin);
    lemma_pairs(pad, shown);
    lemma_pairs(marks, l.message@);
    assert(marks + seq![' '] + l.message@ =~= marks + (seq![' '] + l.message@));
    assert(marks + said(l.message@) == renderer::underline(l)) by {
        if l.message@.len() == 0 {
            assert(marks + Seq::<char>::empty() =~= marks);
        }
    }
    reveal_strlit("|");
    lemma_source(pad + shown, r.bar(), diagnostic::untabbed(line));
    lemma_mark(
        diagnostic::repeated(' ', width),
        r.bar(),
        diagnostic::repeated(' ', before),
        renderer::underline(l),
    );
    assert(r.bar() =~= seq!['|']);
    lemma_lines(
        pad,
        shown,
        diagnostic::untabbed(line),
        diagnostic::repeated(' ', width),
        diagnostic::repeated(' ', before),
        marks,
        said(l.message@),
    );
    (margin, before, n)
}

/// Every label that is shown is in the frame.
proof fn lemma_frames_hold(
    r: renderer::Renderer,
    labels: Seq<diagnostic::Label>,
    o: Seq<usize>,
    width: nat,
    k: nat,
    i: int,
)
    requires
        0 <= i < k <= o.len(),
    ensures
        holds(r.frames(labels, o, width, k), r.labelled(labels[o[i] as int], width)),
    decreases k,
{
    let before = r.frames(labels, o, width, (k - 1) as nat);
    let last = r.labelled(labels[o[k - 1] as int], width);
    if i == k - 1 {
        lemma_holds_itself(last);
        lemma_holds(last, before, Seq::empty(), last);
        assert(before + last + Seq::empty() =~= before + last);
    } else {
        lemma_frames_hold(r, labels, o, width, (k - 1) as nat, i);
        let part = r.labelled(labels[o[i] as int], width);
        lemma_holds(before, Seq::empty(), last, part);
        assert(Seq::empty() + before + last =~= before + last);
    }
}

/// Every note is among the notes.
proof fn lemma_notes_hold(
    r: renderer::Renderer,
    notes: Seq<(diagnostic::NoteKind, String)>,
    width: nat,
    k: nat,
    i: int,
)
    requires
        !r.color,
        0 <= i < k <= notes.len(),
    ensures
        holds(r.noted(notes, width, k), noted(notes[i].0, notes[i].1@, width)),
    decreases k,
{
    let before = r.noted(notes, width, (k - 1) as nat);
    let now = r.noted(notes, width, k);
    let last = noted(notes[k - 1].0, notes[k - 1].1@, width);
    assert(now == before + last) by {
        lemma_note(
            diagnostic::repeated(' ', width),
            "="@,
            renderer::tag(notes[k - 1].0),
            notes[k - 1].1@,
        );
        reveal_strlit("=");
        reveal_strlit("note");
        reveal_strlit("help");
        assert("="@ =~= seq!['=']);
        assert("note"@ =~= seq!['n', 'o', 't', 'e']);
        assert("help"@ =~= seq!['h', 'e', 'l', 'p']);
        assert(seq!['\n'] + diagnostic::repeated(' ', width) + seq![' '] + seq!['='] + seq![' ']
            =~= seq!['\n'] + diagnostic::repeated(' ', width) + seq![' ', '=', ' ']);
    }
    if i == k - 1 {
        lemma_holds_itself(last);
        lemma_holds(last, before, Seq::empty(), last);
        assert(before + last + Seq::empty() =~= before + last);
    } else {
        lemma_notes_hold(r, notes, width, (k - 1) as nat, i);
        let part = noted(notes[i].0, notes[i].1@, width);
        lemma_holds(before, Seq::empty(), last, part);
        assert(Seq::empty() + before + last =~= before + last);
    }
}

/// The line of a note: what it is, and all that it says.
pub open spec fn noted(kind: diagnostic::NoteKind, message: Seq<char>, width: nat) -> Seq<char> {
    seq!['\n'] + diagnostic::repeated(' ', width) + seq![' ', '=', ' '] + (match kind {
        diagnostic::NoteKind::Note => seq!['n', 'o', 't', 'e'],
        diagnostic::NoteKind::Help => seq!['h', 'e', 'l', 'p'],
    }) + seq![':', ' '] + message
}

/// The line that says where a place begins.
pub open spec fn pointed(p: diagnostic::Place, width: nat) -> Seq<char> {
    seq!['\n'] + diagnostic::repeated(' ', width) + seq!['-', '-', '>', ' '] + p.name@ + seq![':']
        + text::dec(p.start.line as nat) + seq![':'] + text::dec(p.start.col as nat)
}

/// The first line of a text: the severity, the code where there is one, and the message.
pub open spec fn titled(d: diagnostic::Diagnostic) -> Seq<char> {
    d.header@ + (match d.code {
        Some(code) => seq!['['] + code@ + seq![']'],
        None => Seq::empty(),
    }) + seq![':', ' '] + d.message@
}

/// A text begins with its severity, its code and its message.
pub proof fn law_a_text_begins_with_its_message(r: renderer::Renderer, d: diagnostic::Diagnostic)
    requires
        !r.color,
    ensures
        r.headline(d) == titled(d),
        joined(
            r.rendered(d),
            Seq::empty(),
            titled(d),
            r.rendered(d).skip(titled(d).len() as int),
        ),
{
    if let Some(code) = d.code {
        lemma_pairs(d.header@, code@);
    }
    lemma_pairs(d.message@, d.message@);
    assert(r.headline(d) =~= titled(d));
    let t = r.rendered(d);
    assert(t =~= Seq::empty() + titled(d) + t.skip(titled(d).len() as int));
}

/// Which label is the first that is primary.
pub proof fn law_the_first_primary_label(labels: Seq<diagnostic::Label>, i: int)
    requires
        0 <= i,
    ensures
        renderer::primary(labels, i) is None <==> forall|j: int|
            i <= j < labels.len() ==> !(#[trigger] labels[j]).primary,
        renderer::primary(labels, i) matches Some(j) ==> {
            &&& i <= j < labels.len()
            &&& labels[j].primary
            &&& forall|h: int| i <= h < j ==> !(#[trigger] labels[h]).primary
        },
    decreases labels.len() - i,
{
    if i < labels.len() && !labels[i].primary {
        law_the_first_primary_label(labels, i + 1);
    }
}

/// A text says where it points: to the name, the line and the column of the first primary label, if
/// that has a place.
pub proof fn law_a_text_points_to_its_place(
    r: renderer::Renderer,
    d: diagnostic::Diagnostic,
    i: int,
)
    requires
        !r.color,
        0 <= i < d.labels@.len(),
        d.labels@[i].primary,
        forall|j: int| 0 <= j < i ==> !(#[trigger] d.labels@[j]).primary,
    ensures
        d.labels@[i].place matches Some(p) ==> holds(
            r.rendered(d),
            titled(d) + pointed(p, renderer::gutter(d.labels@)),
        ),
        d.labels@[i].place is None ==> r.arrow(d) == Seq::<char>::empty(),
{
    law_the_first_primary_label(d.labels@, 0);
    assert(renderer::primary(d.labels@, 0) == Some(i)) by {
        if renderer::primary(d.labels@, 0) is None {
            assert(!d.labels@[i].primary);
        } else {
            let j = renderer::primary(d.labels@, 0)->0;
            if i < j {
                assert(!d.labels@[i].primary);
            } else if j < i {
                assert(!d.labels@[j].primary);
            }
        }
    }
    if let Some(p) = d.labels@[i].place {
        let width = renderer::gutter(d.labels@);
        let w = diagnostic::repeated(' ', width);
        lemma_place(
            w,
            "-->"@,
            p.name@,
            text::dec(p.start.line as nat),
            text::dec(p.start.col as nat),
        );
        reveal_strlit("-->");
        assert("-->"@ =~= seq!['-', '-', '>']);
        assert(seq!['\n'] + w + seq!['-', '-', '>'] + seq![' '] =~= seq!['\n'] + w + seq![
            '-',
            '-',
            '>',
            ' ',
        ]);
        assert(r.arrow(d) == pointed(p, width));
        law_a_text_begins_with_its_message(r, d);
        let first = titled(d) + pointed(p, width);
        let rest = r.framed(d) + r.noted(d.notes@, width, d.notes@.len());
        assert(r.rendered(d) =~= Seq::empty() + first + rest);
        assert(joined(r.rendered(d), Seq::empty(), first, rest));
    }
}

/// No label that marks something is missing from the text, nor its message, and no note.
pub proof fn law_nothing_is_missing(r: renderer::Renderer, d: diagnostic::Diagnostic, i: int)
    requires
        !r.color,
        d.wf(),
    ensures
        ({
            let width = renderer::gutter(d.labels@);
            &&& 0 <= i < d.labels@.len() && d.labels@[i].place is Some ==> {
                &&& holds(r.rendered(d), r.labelled(d.labels@[i], width))
                &&& holds(r.rendered(d), d.labels@[i].message@)
                &&& holds(r.rendered(d), diagnostic::untabbed(d.labels@[i].place->0.line@))
            }
            &&& 0 <= i < d.notes@.len() ==> holds(
                r.rendered(d),
                noted(d.notes@[i].0, d.notes@[i].1@, width),
            )
        }),
{
    let width = renderer::gutter(d.labels@);
    let t = r.rendered(d);
    let o = order::ordered(d.labels@, d.labels@.len());
    let head = r.headline(d) + r.arrow(d);
    let notes = r.noted(d.notes@, width, d.notes@.len());
    if 0 <= i < d.labels@.len() && d.labels@[i].place is Some {
        assert(d.labels@.len() == d.labels.len());
        order::law_every_mark_is_shown(d.labels@, d.labels@.len(), i);
        let k = choose|k: int| 0 <= k < o.len() && o[k] == i as usize;
        lemma_frames_hold(r, d.labels@, o, width, o.len(), k);
        let part = r.labelled(d.labels@[i], width);
        let frames = r.frames(d.labels@, o, width, o.len());
        lemma_holds(frames, head + r.edge(width), r.edge(width) + notes, part);
        assert(t =~= (head + r.edge(width)) + frames + (r.edge(width) + notes));
        let l = d.labels@[i];
        let (margin, before, n) = law_a_label_is_shown_whole(r, l, width);
        let p = l.place->0;
        let bar = seq![' ', '|', ' '];
        let u = diagnostic::untabbed(p.line@);
        let upper = seq!['\n'] + diagnostic::repeated(' ', margin) + text::dec(
            p.start.line as nat,
        ) + bar;
        let lower = seq!['\n'] + diagnostic::repeated(' ', width) + bar + diagnostic::repeated(
            ' ',
            before,
        ) + diagnostic::repeated(
            if l.primary {
                '^'
            } else {
                '-'
            },
            n,
        );
        let said_now = said(l.message@);
        assert(part =~= upper + u + (lower + said_now));
        assert(joined(part, upper, u, lower + said_now));
        let (x, y) = choose|x: Seq<char>, y: Seq<char>| #[trigger] joined(t, x, part, y);
        assert(holds(part, u));
        lemma_holds(part, x, y, u);
        assert(holds(part, l.message@)) by {
            if l.message@.len() == 0 {
                assert(part =~= part + l.message@ + Seq::empty());
                assert(joined(part, part, l.message@, Seq::empty()));
            } else {
                assert(part =~= (upper + u + lower + seq![' ']) + l.message@ + Seq::empty());
                assert(joined(part, upper + u + lower + seq![' '], l.message@, Seq::empty()));
            }
        }
        lemma_holds(part, x, y, l.message@);
    }
    if 0 <= i < d.notes@.len() {
        lemma_notes_hold(r, d.notes@, width, d.notes@.len(), i);
        let part = noted(d.notes@[i].0, d.notes@[i].1@, width);
        lemma_holds(notes, head + r.framed(d), Seq::empty(), part);
        assert(t =~= (head + r.framed(d)) + notes + Seq::empty());
    }
}

/// The labels stand in a frame, from a line with nothing but the bar to another, and where nothing
/// is marked there is no frame.
pub proof fn law_the_source_is_framed(r: renderer::Renderer, d: diagnostic::Diagnostic)
    requires
        !r.color,
        d.labels@.len() <= usize::MAX,
    ensures
        ({
            let width = renderer::gutter(d.labels@);
            let edge = seq!['\n'] + diagnostic::repeated(' ', width) + seq![' ', '|'];
            let o = order::ordered(d.labels@, d.labels@.len());
            if exists|i: int| 0 <= i < d.labels@.len() && (#[trigger] d.labels@[i]).place is Some {
                joined(r.framed(d), edge, r.frames(d.labels@, o, width, o.len()), edge)
            } else {
                r.framed(d) == Seq::<char>::empty()
            }
        }),
{
    let width = renderer::gutter(d.labels@);
    let w = diagnostic::repeated(' ', width);
    let o = order::ordered(d.labels@, d.labels@.len());
    order::lemma_ordered(d.labels@, d.labels@.len());
    if exists|i: int| 0 <= i < d.labels@.len() && (#[trigger] d.labels@[i]).place is Some {
        let i = choose|i: int|
            0 <= i < d.labels@.len() && (#[trigger] d.labels@[i]).place is Some;
        order::law_every_mark_is_shown(d.labels@, d.labels@.len(), i);
        assert(o.len() > 0);
        lemma_pairs(w, r.bar());
        reveal_strlit("|");
        assert(r.bar() =~= seq!['|']);
        assert(seq!['\n'] + w + seq![' '] + seq!['|'] =~= seq!['\n'] + w + seq![' ', '|']);
    } else if o.len() > 0 {
        assert(d.labels@[o[0] as int].place is Some);
    }
}

/// Labels are shown by their sources and, within one, by where they begin.
pub proof fn law_labels_stand_by_their_places(labels: Seq<diagnostic::Label>, i: int, j: int)
    requires
        labels.len() <= usize::MAX,
        0 <= i < j < order::ordered(labels, labels.len()).len(),
    ensures
        ({
            let a = order::ordered(labels, labels.len())[i];
            let b = order::ordered(labels, labels.len())[j];
            let p = labels[a as int].place->0;
            let q = labels[b as int].place->0;
            &&& labels[a as int].place is Some
            &&& labels[b as int].place is Some
            &&& p.source < q.source || p.source == q.source && (p.lo < q.lo || p.lo == q.lo && a
                < b)
        }),
{
    order::lemma_ordered(labels, labels.len());
    order::law_labels_are_in_order(labels, labels.len(), i, j);
}

/// A larger number is not shorter.
proof fn lemma_longer(a: nat, b: nat)
    requires
        a <= b,
    ensures
        text::dec(a).len() <= text::dec(b).len(),
    decreases b,
{
    reveal(text::dec);
    if a >= 10 {
        assert(a / 10 <= b / 10);
        lemma_longer(a / 10, b / 10);
    }
}

/// The largest line is one of the lines.
proof fn lemma_max_line(labels: Seq<diagnostic::Label>, k: nat)
    requires
        k <= labels.len(),
    ensures
        forall|i: int|
            0 <= i < k && (#[trigger] labels[i]).place is Some ==> labels[i].place->0.start.line
                <= renderer::max_line(labels, k),
        renderer::max_line(labels, k) == 0 || exists|i: int|
            0 <= i < k && (#[trigger] labels[i]).place is Some && labels[i].place->0.start.line
                == renderer::max_line(labels, k),
    decreases k,
{
    if k > 0 {
        lemma_max_line(labels, (k - 1) as nat);
        let before = renderer::max_line(labels, (k - 1) as nat);
        if renderer::max_line(labels, k) == before && before > 0 {
            let i = choose|i: int|
                0 <= i < k - 1 && (#[trigger] labels[i]).place is Some
                    && labels[i].place->0.start.line == before;
            assert(labels[i].place is Some);
        } else {
            assert(labels[k - 1].place is Some || before == 0);
        }
    }
}

/// The gutter has room for the number of every line, and no more than the longest of them needs.
pub proof fn law_the_gutter_fits(labels: Seq<diagnostic::Label>, i: int)
    requires
        0 <= i < labels.len(),
        labels[i].place is Some,
        labels[i].place->0.start.line >= 1,
    ensures
        text::dec(labels[i].place->0.start.line as nat).len() <= renderer::gutter(labels),
        exists|j: int|
            0 <= j < labels.len() && (#[trigger] labels[j]).place is Some && text::dec(
                labels[j].place->0.start.line as nat,
            ).len() == renderer::gutter(labels),
{
    lemma_max_line(labels, labels.len());
    lemma_longer(
        labels[i].place->0.start.line as nat,
        renderer::max_line(labels, labels.len()),
    );
    let j = choose|j: int|
        0 <= j < labels.len() && (#[trigger] labels[j]).place is Some
            && labels[j].place->0.start.line == renderer::max_line(labels, labels.len());
    assert(labels[j].place is Some);
}

} // verus!
