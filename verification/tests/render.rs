use ed::terminal::{Position, Size};
use ed::view::{render_rows, welcome_row, Buffer, View};

fn lines(texts: &[&str]) -> Vec<String> {
    texts.iter().map(|t| t.to_string()).collect()
}

#[test]
fn empty_buffer_three_rows_width_twenty() {
    let rows = render_rows(&lines(&[]), 3, 20, "ed", "0.1");
    assert_eq!(rows.len(), 3);
    assert_eq!(rows[0].text, "~");
    assert!(rows[0].line_break);
    // The message is 24 characters, wider than the terminal: no centering
    // spaces, and the row is cut to 20 characters.
    assert_eq!(rows[1].text, "~ed editor -- versio");
    assert!(rows[1].line_break);
    assert_eq!(rows[2].text, "~");
    assert!(!rows[2].line_break);
}

#[test]
fn empty_buffer_banner_is_centered_when_it_fits() {
    let rows = render_rows(&lines(&[]), 5, 40, "ed", "0.1");
    assert_eq!(rows.len(), 5);
    // 5 / 3 == 1, so the banner is on row 1; padding is (40 - 24) / 2 == 8,
    // less one cell for the marker.
    assert_eq!(rows[1].text, "~       ed editor -- version 0.1");
    for r in [0usize, 2, 3, 4] {
        assert_eq!(rows[r].text, "~");
    }
    for r in 0..4 {
        assert!(rows[r].line_break);
    }
    assert!(!rows[4].line_break);
}

#[test]
fn short_buffer_rows_then_placeholder() {
    let rows = render_rows(&lines(&["hello"]), 2, 40, "ed", "0.1");
    assert_eq!(rows.len(), 2);
    assert_eq!(rows[0].text, "hello");
    assert!(rows[0].line_break);
    // Row 1 has no content and 1 != 2 / 3, so it gets the placeholder.
    assert_eq!(rows[1].text, "~");
    assert!(!rows[1].line_break);
}

#[test]
fn short_buffer_banner_row_still_fires() {
    // With one content line and four visible rows, row 4 / 3 == 1 is a
    // filler row, so the banner lands there.
    let rows = render_rows(&lines(&["top"]), 4, 40, "ed", "0.1");
    assert_eq!(rows.len(), 4);
    assert_eq!(rows[0].text, "top");
    assert_eq!(rows[1].text, "~       ed editor -- version 0.1");
    assert_eq!(rows[2].text, "~");
    assert_eq!(rows[3].text, "~");
    assert!(rows[0].line_break);
    assert!(rows[1].line_break);
    assert!(rows[2].line_break);
    assert!(!rows[3].line_break);
}

#[test]
fn long_buffer_draws_only_visible_rows() {
    let rows = render_rows(&lines(&["a", "b", "c", "d"]), 2, 10, "ed", "0.1");
    assert_eq!(rows.len(), 2);
    assert_eq!(rows[0].text, "a");
    assert_eq!(rows[1].text, "b");
    // A content row always ends with a line break, even the last one.
    assert!(rows[0].line_break);
    assert!(rows[1].line_break);
}

#[test]
fn zero_height_renders_nothing() {
    let rows = render_rows(&lines(&["a"]), 0, 10, "ed", "0.1");
    assert!(rows.is_empty());
}

#[test]
fn zero_width_banner_is_cut_to_nothing() {
    let rows = render_rows(&lines(&[]), 2, 0, "ed", "0.1");
    assert_eq!(rows.len(), 2);
    // 2 / 3 == 0, so row 0 is the banner row, cut to the zero-cell width.
    assert_eq!(rows[0].text, "");
    assert_eq!(rows[1].text, "~");
}

#[test]
fn two_passes_with_unchanged_inputs_are_identical() {
    let buffer = lines(&["one", "two"]);
    let first = render_rows(&buffer, 6, 30, "ed", "0.1");
    let second = render_rows(&buffer, 6, 30, "ed", "0.1");
    assert_eq!(first.len(), second.len());
    for r in 0..first.len() {
        assert_eq!(first[r].text, second[r].text);
        assert_eq!(first[r].line_break, second[r].line_break);
    }
}

#[test]
fn banner_length_never_exceeds_width() {
    let message_len = "ed editor -- version 0.1".len();
    for width in 0..60usize {
        let row = welcome_row("ed", "0.1", width);
        let padding = if width > message_len {
            (width - message_len) / 2
        } else {
            0
        };
        let spaces = padding.saturating_sub(1);
        let full_len = 1 + spaces + message_len;
        assert_eq!(row.chars().count(), full_len.min(width));
        assert!(row.chars().count() <= width);
    }
}

#[test]
fn banner_exact_fit_is_not_cut() {
    // The full row is 1 + 24 == 25 characters; at width 25 nothing is cut.
    let row = welcome_row("ed", "0.1", 25);
    assert_eq!(row, "~ed editor -- version 0.1");
}

#[test]
fn banner_narrow_terminal_cuts_silently() {
    assert_eq!(welcome_row("ed", "0.1", 5), "~ed e");
    assert_eq!(welcome_row("ed", "0.1", 1), "~");
    assert_eq!(welcome_row("ed", "0.1", 0), "");
}

#[test]
fn banner_empty_name_and_version() {
    // The message alone is 19 characters; padding is (40 - 19) / 2 == 10,
    // so nine spaces follow the marker.
    let row = welcome_row("", "", 40);
    assert_eq!(row, "~          editor -- version ");
}

#[test]
fn renderer_holds_its_inputs() {
    let v = View::new("ed", "0.1", lines(&["alpha", "beta"]));
    assert_eq!(v.name, "ed");
    assert_eq!(v.version, "0.1");
    assert_eq!(v.buffer.lines, vec!["alpha".to_string(), "beta".to_string()]);
}

#[test]
fn defaults_are_empty() {
    let b = Buffer::default();
    assert!(b.lines.is_empty());
    let v = View::default();
    assert!(v.buffer.lines.is_empty());
    assert_eq!(v.name, "");
    assert_eq!(v.version, "");
    let s = Size::default();
    assert_eq!(s.height, 0);
    assert_eq!(s.width, 0);
    let p = Position::default();
    assert_eq!(p.col, 0);
    assert_eq!(p.row, 0);
}

#[test]
fn size_and_position_compare_by_fields() {
    assert_eq!(Size { height: 2, width: 3 }, Size { height: 2, width: 3 });
    assert_ne!(Size { height: 2, width: 3 }, Size { height: 3, width: 2 });
    assert_eq!(Position { col: 1, row: 4 }, Position { col: 1, row: 4 });
    assert_ne!(Position { col: 1, row: 4 }, Position { col: 4, row: 1 });
}
