use vterm_view::ansi::cell_to_ansi;
use vterm_view::cell::{Cell, Color};
use vterm_view::frame::{clamp_render_rows, start_row, Strategy, TermOp};
use vterm_view::terminal::{Outcome, VirtualTerminal, MIN_USED_HEIGHT};

fn styled(fg: Color, bg: Color) -> Cell {
    let mut c = Cell::blank();
    c.fg = fg;
    c.bg = bg;
    c
}

fn default_row(text: &str, cols: usize) -> String {
    let mut s = String::new();
    for ch in text.chars() {
        s.push_str("\x1b[39;49m");
        s.push(ch);
    }
    for _ in text.chars().count()..cols {
        s.push_str("\x1b[39;49m ");
    }
    s.push('\n');
    s
}

fn printed(op: &TermOp) -> String {
    match op {
        TermOp::Print(s) => s.clone(),
        other => panic!("expected a print, got {:?}", other),
    }
}

#[test]
fn encode_twice_is_identical() {
    let mut c = styled(Color::Rgb(1, 2, 3), Color::Idx(200));
    c.italic = true;
    c.contents = String::from("q");
    assert_eq!(cell_to_ansi(&c), cell_to_ansi(&c));
    let d = c.clone();
    assert_eq!(cell_to_ansi(&c), cell_to_ansi(&d));
}

#[test]
fn attributes_come_in_fixed_order() {
    let mut c = styled(Color::Idx(3), Color::Default);
    c.bold = true;
    c.underline = true;
    c.inverse = true;
    assert_eq!(cell_to_ansi(&c), "\x1b[1;4;7;38;5;3;49m");
}

#[test]
fn true_color_foreground_without_attributes() {
    let c = styled(Color::Rgb(10, 20, 30), Color::Default);
    assert_eq!(cell_to_ansi(&c), "\x1b[38;2;10;20;30;49m");
}

#[test]
fn all_attributes_and_background_colors() {
    let mut c = styled(Color::Default, Color::Idx(255));
    c.bold = true;
    c.dim = true;
    c.italic = true;
    c.underline = true;
    c.inverse = true;
    assert_eq!(cell_to_ansi(&c), "\x1b[1;2;3;4;7;39;48;5;255m");
    let c = styled(Color::Idx(0), Color::Rgb(0, 100, 7));
    assert_eq!(cell_to_ansi(&c), "\x1b[38;5;0;48;2;0;100;7m");
}

#[test]
fn plain_cell_encodes_default_colors() {
    assert_eq!(cell_to_ansi(&Cell::blank()), "\x1b[39;49m");
}

#[test]
fn blank_screen_has_floor_height() {
    for rows in [1u16, 2, 5, 24] {
        let t = VirtualTerminal::new(rows, 80, Strategy::ScrollAppend);
        assert_eq!(t.get_used_height(), MIN_USED_HEIGHT);
        assert_eq!(t.get_used_height(), 1);
    }
}

#[test]
fn used_height_is_lowest_visible_row_plus_one() {
    for k in 0u16..10 {
        let mut t = VirtualTerminal::new(10, 20, Strategy::ScrollAppend);
        let seq = format!("top\x1b[{};5Hx", k + 1);
        assert_eq!(t.pump(seq.as_bytes()), Outcome::Updated);
        assert_eq!(t.get_used_height(), k + 1);
    }
}

#[test]
fn spaces_do_not_count_as_content() {
    let mut t = VirtualTerminal::new(6, 10, Strategy::ScrollAppend);
    t.pump(b"\x1b[4;1H    ");
    assert_eq!(t.get_used_height(), 1);
    t.pump(b"\x1b[2;3Hy");
    assert_eq!(t.get_used_height(), 2);
}

#[test]
fn render_rows_never_exceed_total() {
    assert_eq!(clamp_render_rows(3, 10), 3);
    assert_eq!(clamp_render_rows(0, 5), 0);
    assert_eq!(clamp_render_rows(10, 3), 3);
    assert_eq!(clamp_render_rows(4, 4), 4);
    let mut t = VirtualTerminal::new(3, 4, Strategy::ScrollAppend);
    t.pump(b"a\r\nb\r\nc");
    assert_eq!(t.render_rows(), 3);
}

#[test]
fn bottom_region_start_row_saturates() {
    assert_eq!(start_row(24, 1), 22);
    assert_eq!(start_row(24, 23), 0);
    assert_eq!(start_row(2, 5), 0);
    assert_eq!(start_row(0, 0), 0);
}

#[test]
fn scroll_append_clears_rows_of_taller_frame() {
    let mut t = VirtualTerminal::new(5, 4, Strategy::ScrollAppend);
    let first = t.render(b"a\r\nb\r\nc", 40);
    assert_eq!(first.len(), 3);
    assert!(matches!(first[0], TermOp::ClearFromCursorDown));
    assert!(matches!(first[2], TermOp::Flush));
    let second = t.render(b"\x1b[2J\x1b[Hz", 40);
    assert_eq!(second.len(), 4);
    assert!(matches!(second[0], TermOp::MoveUp(3)));
    assert!(matches!(second[1], TermOp::ClearFromCursorDown));
    assert_eq!(printed(&second[2]), default_row("z", 4));
    assert!(matches!(second[3], TermOp::Flush));
    let third = t.render(b"!", 40);
    assert!(matches!(third[0], TermOp::MoveUp(1)));
}

#[test]
fn hello_renders_one_padded_row() {
    let mut t = VirtualTerminal::new(24, 80, Strategy::FixedBottomRegion);
    assert_eq!(t.pump(b"hello\n"), Outcome::Updated);
    assert_eq!(t.get_used_height(), 1);
    assert_eq!(t.size(), (24, 80));
    let ops = t.draw(30);
    assert_eq!(ops.len(), 5);
    assert!(matches!(ops[0], TermOp::SavePosition));
    assert!(matches!(ops[1], TermOp::MoveTo(0, 28)));
    assert_eq!(printed(&ops[2]), default_row("hello", 80));
    assert!(matches!(ops[3], TermOp::RestorePosition));
    assert!(matches!(ops[4], TermOp::Flush));
}

#[test]
fn empty_read_changes_nothing() {
    let mut t = VirtualTerminal::new(4, 6, Strategy::ScrollAppend);
    t.pump(b"abc");
    let before = t.frame(4);
    assert_eq!(t.pump(b""), Outcome::Eof);
    assert!(t.render(b"", 10).is_empty());
    assert_eq!(t.frame(4), before);
    let ops = t.draw(10);
    assert_eq!(printed(&ops[1]), default_row("abc", 6));
}

#[test]
fn blank_frame_is_spaces_in_default_colors() {
    let t = VirtualTerminal::new(2, 3, Strategy::ScrollAppend);
    assert_eq!(t.frame(2), format!("{}{}", default_row("", 3), default_row("", 3)));
    assert_eq!(t.frame(0), "");
}

#[test]
fn styles_reach_the_frame() {
    let mut t = VirtualTerminal::new(2, 2, Strategy::ScrollAppend);
    t.pump(b"\x1b[1;31mA\x1b[0;48;2;1;2;3mB");
    assert_eq!(t.frame(1), "\x1b[1;38;5;1;49mA\x1b[39;48;2;1;2;3mB\n");
}

#[test]
fn wide_character_on_narrowest_screen() {
    let mut t = VirtualTerminal::new(2, 2, Strategy::ScrollAppend);
    assert_eq!(t.pump("\u{4e2d}\u{6587}".as_bytes()), Outcome::Updated);
    assert_eq!(t.size(), (2, 2));
    assert_eq!(t.get_used_height(), 2);
}

#[test]
fn chunked_output_gives_the_same_screen() {
    let whole = "ab\x1b[1;31mc\u{e9}d\r\nxy".as_bytes();
    let mut one = VirtualTerminal::new(3, 8, Strategy::ScrollAppend);
    one.pump(whole);
    for split in 1..whole.len() {
        let mut two = VirtualTerminal::new(3, 8, Strategy::ScrollAppend);
        two.pump(&whole[..split]);
        two.pump(&whole[split..]);
        assert_eq!(two.frame(3), one.frame(3));
    }
}
