//! Diagnostics as text.
use wukong_gpu::render::diagnostic::{
    expand_tabs, rendered_width, Diagnostic, Label, Location, NoteKind, Place,
};
use wukong_gpu::render::renderer::Renderer;

/// The location of a byte of a source.
fn location(src: &str, at: usize) -> Location {
    let before = &src[..at];
    let line_start = before.rfind('\n').map_or(0, |i| i + 1);
    Location {
        line: before.matches('\n').count() as u32 + 1,
        col: src[line_start..at].chars().count() as u32 + 1,
    }
}

/// The place of the bytes from `lo` up to `hi` of `test.wk`.
fn place(src: &str, lo: usize, hi: usize) -> Option<Place> {
    let start = location(src, lo);
    Some(Place {
        source: 0,
        lo: lo as u32,
        name: "test.wk".to_string(),
        start,
        end: location(src, hi),
        line: src.lines().nth(start.line as usize - 1).unwrap().to_string(),
    })
}

fn error(message: &str, code: Option<&str>) -> Diagnostic {
    Diagnostic {
        header: "error".to_string(),
        ansi: "\x1b[1;31m".to_string(),
        code: code.map(|c| c.to_string()),
        message: message.to_string(),
        labels: Vec::new(),
        notes: Vec::new(),
    }
}

fn label(place: Option<Place>, message: &str, primary: bool) -> Label {
    Label {
        place,
        message: message.to_string(),
        primary,
    }
}

#[test]
fn renders_header_location_and_caret() {
    let src = "fn main() {\n    matmul(a, b);\n}\n";
    let mut d = error("shape mismatch", Some("E0501"));
    d.labels.push(label(place(src, 16, 22), "K must equal P", true));
    d.notes.push((NoteKind::Help, "transpose b".to_string()));
    let r = Renderer::new(false).render(&d);
    let expected = "\
error[E0501]: shape mismatch
 --> test.wk:2:5
  |
2 |     matmul(a, b);
  |     ^^^^^^ K must equal P
  |
  = help: transpose b";
    assert_eq!(r, expected);
}

#[test]
fn tab_indented_line_aligns_with_its_caret() {
    let src = "fn main() {\n\t\tmatmul(a, b);\n}\n";
    let mut d = error("shape mismatch", Some("E0501"));
    d.labels.push(label(place(src, 14, 20), "K must equal P", true));
    let r = Renderer::new(false).render(&d);
    let expected = "\
error[E0501]: shape mismatch
 --> test.wk:2:3
  |
2 |         matmul(a, b);
  |         ^^^^^^ K must equal P
  |";
    assert_eq!(r, expected);
}

#[test]
fn renders_without_labels() {
    let mut d = error("could not find input file", None);
    d.notes.push((NoteKind::Note, "check the path".to_string()));
    let r = Renderer::new(false).render(&d);
    assert_eq!(r, "error: could not find input file\n  = note: check the path");
}

#[test]
fn color_adds_escapes() {
    let mut d = error("e", None);
    d.labels.push(label(place("abc", 0, 1), "", true));
    let colored = Renderer::new(true).render(&d);
    assert!(colored.contains("\x1b["));
    let plain = Renderer::new(false).render(&d);
    assert!(!plain.contains("\x1b["));
    assert!(colored.starts_with("\x1b[1;31merror\x1b[0m\x1b[1m: e\x1b[0m"));
    assert!(colored.contains("\x1b[1;34m1\x1b[0m \x1b[1;34m|\x1b[0m abc"));
    assert!(colored.contains("\x1b[1;31m^\x1b[0m"));
}

#[test]
fn labels_are_sorted_and_the_gutter_fits_the_largest_line() {
    let src = "a\nb\nc\nd\ne\nf\ng\nh\ni\nlet x = y;\n";
    let mut d = error("two places", None);
    d.labels.push(label(place(src, 22, 23), "here", true));
    d.labels.push(label(place(src, 2, 3), "and here", false));
    d.labels.push(label(None, "nowhere", false));
    let expected = "\
error: two places
  --> test.wk:10:5
   |
 2 | b
   | - and here
10 | let x = y;
   |     ^ here
   |";
    assert_eq!(Renderer::new(false).render(&d), expected);
}

#[test]
fn a_place_over_two_lines_is_marked_to_behind_the_first() {
    let src = "ab\ncd\n";
    let mut d = error("open", None);
    d.labels.push(label(place(src, 1, 4), "", true));
    let expected = "\
error: open
 --> test.wk:1:2
  |
1 | ab
  |  ^^
  |";
    assert_eq!(Renderer::new(false).render(&d), expected);
}

#[test]
fn a_dummy_primary_label_has_no_place() {
    let mut d = error("lost", Some("E0001"));
    d.labels.push(label(None, "unseen", true));
    assert_eq!(Renderer::new(false).render(&d), "error[E0001]: lost");
}

#[test]
fn a_tab_takes_four_columns() {
    assert_eq!(rendered_width("\ta\tb", 0, 4), 10);
    assert_eq!(rendered_width("\ta\tb", 1, 3), 5);
    assert_eq!(rendered_width("ab", 0, 5), 5);
    assert_eq!(rendered_width("ab", 4, 5), 1);
    assert_eq!(rendered_width("ab", 3, 1), 0);
    assert_eq!(expand_tabs("\ta\tb"), "    a    b");
    assert_eq!(expand_tabs("é\t"), "é    ");
}

/// A text without its escapes, each from `ESC` to the next `m`.
fn stripped(s: &str) -> String {
    let mut rest = s.chars();
    let mut shown = String::new();
    while let Some(c) = rest.next() {
        if c == '\x1b' {
            rest.by_ref().find(|&c| c == 'm');
        } else {
            shown.push(c);
        }
    }
    shown
}

#[test]
fn color_adds_nothing_but_escapes() {
    let src = "fn main() {\n\tmatmul(a, b);\n}\n";
    let mut d = error("shape mismatch", Some("E0501"));
    d.labels.push(label(place(src, 13, 19), "K must equal P", true));
    d.labels.push(label(place(src, 3, 7), "in here", false));
    d.notes.push((NoteKind::Help, "transpose b".to_string()));
    d.notes.push((NoteKind::Note, "both are matrices".to_string()));
    let colored = Renderer::new(true).render(&d);
    let plain = Renderer::new(false).render(&d);
    assert_ne!(colored, plain);
    assert_eq!(stripped(&colored), plain);
}

#[test]
fn widths_add_up() {
    let line = "\ta\tbc";
    for a in 0..8 {
        for b in a..8 {
            for c in b..8 {
                assert_eq!(
                    rendered_width(line, a, b) + rendered_width(line, b, c),
                    rendered_width(line, a, c),
                    "{a} {b} {c}"
                );
            }
        }
    }
    assert_eq!(rendered_width("a\t", 0, usize::MAX - 3), usize::MAX);
    assert_eq!(rendered_width("a\t", 2, usize::MAX), usize::MAX - 2);
}

#[test]
fn the_order_of_attachment_is_not_seen() {
    let src = "fn main() {\n    matmul(a, b);\n}\n";
    let labels = || {
        [
            label(place(src, 16, 22), "here", true),
            label(place(src, 3, 7), "in this function", false),
            label(place(src, 23, 24), "this operand", false),
            label(None, "unseen", false),
        ]
    };
    let text = |order: [usize; 4]| {
        let mut d = error("shape mismatch", Some("E0501"));
        let mut all = labels().map(Some);
        for i in order {
            d.labels.push(all[i].take().unwrap());
        }
        Renderer::new(true).render(&d)
    };
    let want = text([0, 1, 2, 3]);
    for order in [[3, 2, 1, 0], [1, 0, 3, 2], [2, 3, 0, 1]] {
        assert_eq!(text(order), want, "{order:?}");
    }
}
