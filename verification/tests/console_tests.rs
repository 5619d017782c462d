//! Console behavior: cell writes, cursor movement, wrapping, scrolling, and
//! clearing over the owned buffer.

use boot_handoff::console::{Console, DEFAULT_COLOR, VGA_HEIGHT, VGA_WIDTH};

fn cell(color: u8, byte: u8) -> u16 {
    (color as u16) * 256 + byte as u16
}

#[test]
fn new_console_is_blank_with_cursor_at_origin() {
    let console = Console::new();
    assert_eq!(console.cursor_x, 0);
    assert_eq!(console.cursor_y, 0);
    assert_eq!(console.color, DEFAULT_COLOR);
    for row in 0..VGA_HEIGHT {
        for column in 0..VGA_WIDTH {
            assert_eq!(console.cell_at(row, column), cell(DEFAULT_COLOR, b' '));
        }
    }
}

#[test]
fn putchar_stores_the_byte_and_advances() {
    let mut console = Console::new();
    console.putchar('A');
    assert_eq!(console.cell_at(0, 0), cell(DEFAULT_COLOR, b'A'));
    assert_eq!(console.cursor_x, 1);
    assert_eq!(console.cursor_y, 0);
}

#[test]
fn newline_moves_to_the_next_row() {
    let mut console = Console::new();
    console.putchar('A');
    console.putchar('\n');
    assert_eq!(console.cursor_x, 0);
    assert_eq!(console.cursor_y, 1);
}

#[test]
fn non_ascii_characters_are_stored_as_question_marks() {
    let mut console = Console::new();
    console.putchar('\u{20AC}');
    assert_eq!(console.cell_at(0, 0), cell(DEFAULT_COLOR, b'?'));
}

#[test]
fn line_wrap_at_the_right_edge() {
    let mut console = Console::new();
    for _ in 0..VGA_WIDTH {
        console.putchar('x');
    }
    assert_eq!(console.cursor_x, 0);
    assert_eq!(console.cursor_y, 1);
    assert_eq!(console.cell_at(0, VGA_WIDTH - 1), cell(DEFAULT_COLOR, b'x'));
}

#[test]
fn newline_on_the_last_row_scrolls() {
    let mut console = Console::new();
    console.print("top");
    for _ in 0..(VGA_HEIGHT - 1) {
        console.putchar('\n');
    }
    assert_eq!(console.cursor_y, VGA_HEIGHT - 1);
    // The cursor sits on the last row; the next newline scrolls "top" away.
    assert_eq!(console.cell_at(0, 0), cell(DEFAULT_COLOR, b't'));
    console.putchar('\n');
    assert_eq!(console.cursor_y, VGA_HEIGHT - 1);
    assert_eq!(console.cell_at(0, 0), cell(DEFAULT_COLOR, b' '));
}

#[test]
fn scrolling_shifts_rows_up_and_blanks_the_last() {
    let mut console = Console::new();
    for _ in 0..(VGA_HEIGHT - 1) {
        console.putchar('\n');
    }
    console.print("bottom");
    // Force a scroll from the last row.
    console.putchar('\n');
    // "bottom" moved up one row.
    assert_eq!(console.cell_at(VGA_HEIGHT - 2, 0), cell(DEFAULT_COLOR, b'b'));
    assert_eq!(console.cell_at(VGA_HEIGHT - 2, 5), cell(DEFAULT_COLOR, b'm'));
    for column in 0..VGA_WIDTH {
        assert_eq!(
            console.cell_at(VGA_HEIGHT - 1, column),
            cell(DEFAULT_COLOR, b' ')
        );
    }
}

#[test]
fn print_writes_each_character_in_order() {
    let mut console = Console::new();
    console.print("Kernel");
    let expected = b"Kernel";
    for (i, &byte) in expected.iter().enumerate() {
        assert_eq!(console.cell_at(0, i), cell(DEFAULT_COLOR, byte));
    }
    assert_eq!(console.cursor_x, expected.len());
}

#[test]
fn println_ends_the_line() {
    let mut console = Console::new();
    console.println("ok");
    assert_eq!(console.cursor_x, 0);
    assert_eq!(console.cursor_y, 1);
    assert_eq!(console.cell_at(0, 0), cell(DEFAULT_COLOR, b'o'));
    assert_eq!(console.cell_at(0, 1), cell(DEFAULT_COLOR, b'k'));
}

#[test]
fn set_color_applies_to_subsequent_writes_only() {
    let mut console = Console::new();
    console.putchar('a');
    console.set_color(0x2F);
    console.putchar('b');
    assert_eq!(console.cell_at(0, 0), cell(DEFAULT_COLOR, b'a'));
    assert_eq!(console.cell_at(0, 1), cell(0x2F, b'b'));
}

#[test]
fn clear_screen_blanks_under_the_current_color() {
    let mut console = Console::new();
    console.print("junk");
    console.set_color(0x4F);
    console.clear_screen();
    assert_eq!(console.cursor_x, 0);
    assert_eq!(console.cursor_y, 0);
    for column in 0..VGA_WIDTH {
        assert_eq!(console.cell_at(0, column), cell(0x4F, b' '));
    }
}

#[test]
fn init_resets_the_cursor_and_keeps_cells() {
    let mut console = Console::new();
    console.print("kept");
    console.init();
    assert_eq!(console.cursor_x, 0);
    assert_eq!(console.cursor_y, 0);
    assert_eq!(console.cell_at(0, 0), cell(DEFAULT_COLOR, b'k'));
}
