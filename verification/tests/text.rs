use anathema_widgets::geometry::Size;
use anathema_widgets::text::{ProcessResult, Segment, StringStorage, StyleId, Wrap};

fn layout_lines(max: Size, input: &[&str], wrap: Wrap) -> (String, Size, Vec<u16>) {
    let mut string_storage = StringStorage::new();
    let session = string_storage.new_session();
    let mut strings = session.new_layout(max, wrap);

    for i in input {
        if let ProcessResult::Break = strings.add_str(i) {
            break;
        }
    }

    let (key, size) = strings.finish(session);

    let lines = session.lines(key);

    let mut output = String::new();
    let mut widths = vec![];
    for line in lines {
        widths.push(line.width);
        for e in &line.entries {
            match e {
                Segment::SetStyle(_) => unreachable!("no styles are set here"),
                Segment::Str(s) => output.push_str(s),
            }
        }
        output.push('\n');
    }
    output.pop();
    (output, size, widths)
}

fn test_layout(max: Size, input: &[&str], expected: &str, wrap: Wrap) {
    let (output, _, _) = layout_lines(max, input, wrap);
    assert_eq!(&output, expected);
}

#[test]
fn word_wrapping_layout() {
    let inputs: &[(&[&str], &str)] = &[
        (&["a\nb\nc"], "a\nb\nc"),
        (&[" 12", "345 12", "345 "], " \n12345\n12345\n"),
        (&[" 12", "345\u{3000}12", "345 "], " \n12345\n12345\n"),
        (&[" 🐇🐇🐇", "🐇🐇 12", "345 "], " \n🐇🐇\n🐇🐇\n🐇 \n12345\n"),
        (&["1", "23", "45 12", "345 "], "12345\n12345\n"),
        (&["12345 abcde "], "12345\nabcde\n"),
        (&["onereallylongword"], "onere\nallyl\nongwo\nrd"),
        (&["ahello do the"], "ahell\no do \nthe"),
        (&["hello do the"], "hello\ndo \nthe"),
    ];

    for (input, expected) in inputs {
        test_layout(Size::new(5, 10), input, expected, Wrap::Normal);
    }
}

#[test]
fn outliers() {
    let inputs: &[(&[&str], &str)] = &[
        (&["🐇"], ""),
        (&["\n"], "\n"),
        (&["\n\n\n"], "\n\n\n"),
        (&["abc"], "a\nb\nc"),
    ];

    for (input, expected) in inputs {
        test_layout(Size::new(1, 10), input, expected, Wrap::Normal);
    }
}

#[test]
fn layout_size() {
    let inputs: &[(&[&str], &str)] = &[(&["123456789"], "123\n456")];

    for (input, expected) in inputs {
        test_layout(Size::new(3, 2), input, expected, Wrap::Normal);
    }
}

#[test]
fn word_breaking_layout() {
    let inputs: &[(&[&str], &str)] = &[(&["123 4567"], "123 4\n567")];

    for (input, expected) in inputs {
        test_layout(Size::new(5, 3), input, expected, Wrap::WordBreak);
    }
}

#[test]
fn freeze_layout() {
    let mut string_storage = StringStorage::new();
    let session = string_storage.new_session();
    let mut strings = session.new_layout(Size::new(100, 10), Wrap::Normal);

    assert_eq!(strings.add_str("abc"), ProcessResult::Continue);
    strings.freeze();
    assert_eq!(strings.add_str("abc"), ProcessResult::Break);
}

#[test]
fn layout_reports_size_and_line_widths() {
    let (output, size, widths) = layout_lines(Size::new(5, 10), &["hello do the"], Wrap::Normal);
    assert_eq!(output, "hello\ndo \nthe");
    assert_eq!(size, Size::new(5, 3));
    assert_eq!(widths, vec![5, 3, 3]);
}

#[test]
fn empty_layout_has_zero_size() {
    let (output, size, widths) = layout_lines(Size::new(5, 10), &[""], Wrap::Normal);
    assert_eq!(output, "");
    assert_eq!(size, Size::new(0, 0));
    assert_eq!(widths, vec![0]);
}

#[test]
fn break_stops_layout_and_freezes() {
    let mut storage = StringStorage::new();
    let session = storage.new_session();
    let mut strings = session.new_layout(Size::new(3, 1), Wrap::Normal);
    assert_eq!(strings.add_str("abcdef"), ProcessResult::Break);
    assert_eq!(strings.add_str("x"), ProcessResult::Break);
    let (key, size) = strings.finish(session);
    assert_eq!(size, Size::new(3, 1));
    let lines = session.lines(key);
    assert_eq!(lines.len(), 1);
}

#[test]
fn styles_are_placed_between_segments() {
    let mut storage = StringStorage::new();
    let session = storage.new_session();
    let mut strings = session.new_layout(Size::new(10, 10), Wrap::Normal);
    strings.add_str("ab");
    strings.set_style(StyleId(7));
    strings.add_str("cd");
    let (key, _) = strings.finish(session);
    let lines = session.lines(key);
    assert_eq!(lines.len(), 1);
    let segments = &lines[0].entries;
    assert_eq!(segments.len(), 3);
    assert!(matches!(&segments[0], Segment::Str(s) if s == "ab"));
    assert!(matches!(&segments[1], Segment::SetStyle(StyleId(7))));
    assert!(matches!(&segments[2], Segment::Str(s) if s == "cd"));
}

#[test]
fn too_wide_character_is_dropped() {
    test_layout(Size::new(1, 10), &["a🐇b"], "a\nb", Wrap::Normal);
}

#[test]
fn whitespace_matches_std() {
    for u in 0..=0x10FFFFu32 {
        if let Some(c) = char::from_u32(u) {
            assert_eq!(
                anathema_widgets::width::is_whitespace(c),
                c.is_whitespace(),
                "{u:#x}"
            );
        }
    }
}

#[test]
fn lines_hold_the_kept_text() {
    // Breaking mid-word keeps every character; the lines read in order give the text back.
    let (output, _, widths) = layout_lines(Size::new(4, 10), &["onereallylongword"], Wrap::WordBreak);
    assert_eq!(output.replace('\n', ""), "onereallylongword");
    assert!(widths.iter().all(|w| *w <= 4));
    // A line break is not kept as a character.
    let (output, _, _) = layout_lines(Size::new(10, 10), &["ab\ncd"], Wrap::Normal);
    assert_eq!(output.replace('\n', ""), "abcd");
}

#[test]
fn normal_wrapping_breaks_after_hyphen() {
    test_layout(Size::new(5, 10), &["foo-bar"], "foo-\nbar", Wrap::Normal);
    // Breaking mid-word ignores the hyphen.
    test_layout(Size::new(5, 10), &["foo-bar"], "foo-b\nar", Wrap::WordBreak);
}
