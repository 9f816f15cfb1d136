use yat::config::{Colour, Config, ConfigBuffer};
use yat::escape::{bg_command, fg_command};
use yat::tui::{dimensions_from, Window};

fn window() -> Window {
    Window::new(Config::default())
}

fn at(row: usize, col: usize, text: &str) -> String {
    format!("\x1b[{};{}H{}", row + 1, col + 1, text)
}

#[test]
fn new_window_has_nothing_pending() {
    let w = window();
    assert_eq!(w.output(), "");
}

#[test]
fn move_to_origin_is_native_row_one_column_one() {
    let mut w = window();
    w.mv(0, 0);
    assert_eq!(w.output(), "\x1b[1;1H");
}

#[test]
fn move_to_puts_row_before_column() {
    let mut w = window();
    w.mv(4, 11);
    assert_eq!(w.output(), "\x1b[5;12H");
}

#[test]
fn move_to_largest_cell() {
    let mut w = window();
    w.mv(65534, 65534);
    assert_eq!(w.output(), "\x1b[65535;65535H");
}

#[test]
fn print_at_writes_text_verbatim() {
    let mut w = window();
    w.mvprintw(2, 3, "abc def");
    assert_eq!(w.output(), "\x1b[3;4Habc def");
}

#[test]
fn wrap_print_short_text_unchanged() {
    let mut w = window();
    w.wrap_print(0, 0, 10, "hi");
    assert_eq!(w.output(), "\x1b[1;1Hhi");
}

#[test]
fn wrap_print_text_of_exact_width_unchanged() {
    let mut w = window();
    w.wrap_print(1, 2, 10, "helloworld");
    assert_eq!(w.output(), at(1, 2, "helloworld"));
}

#[test]
fn wrap_print_truncates_long_text() {
    let mut w = window();
    w.wrap_print(0, 0, 10, "helloworld!");
    assert_eq!(w.output(), "\x1b[1;1Hhellowo\x1b[1;8H...");
}

#[test]
fn wrap_print_truncation_offset_by_column() {
    let mut w = window();
    w.wrap_print(3, 5, 6, "abcdefgh");
    assert_eq!(w.output(), format!("{}{}", at(3, 5, "abc"), at(3, 8, "...")));
}

#[test]
fn wrap_print_width_three_only_ellipsis() {
    let mut w = window();
    w.wrap_print(0, 0, 3, "abcd");
    assert_eq!(w.output(), format!("{}{}", at(0, 0, ""), at(0, 0, "...")));
}

#[test]
fn wrap_print_narrow_field_has_no_ellipsis() {
    let mut w = window();
    w.wrap_print(0, 0, 2, "abc");
    assert_eq!(w.output(), at(0, 0, "ab"));
}

#[test]
fn wrap_print_counts_characters_not_bytes() {
    let mut w = window();
    w.wrap_print(0, 0, 5, "ééééééé");
    assert_eq!(w.output(), format!("{}{}", at(0, 0, "éé"), at(0, 2, "...")));
}

#[test]
fn colour_on_out_of_range_foreground_issues_nothing() {
    let mut w = window();
    w.colour_on(9, 0);
    assert_eq!(w.output(), "");
}

#[test]
fn colour_on_out_of_range_background_issues_nothing() {
    let mut w = window();
    w.colour_on(0, 9);
    assert_eq!(w.output(), "");
}

#[test]
fn colour_on_palette_and_default() {
    let mut w = window();
    w.colour_on(1, 8);
    assert_eq!(w.output(), "\x1b[38;5;1m\x1b[49m");
}

#[test]
fn colour_on_default_foreground_and_palette_background() {
    let mut w = window();
    w.colour_on(8, 7);
    assert_eq!(w.output(), "\x1b[39m\x1b[48;5;7m");
}

#[test]
fn colour_off_uses_configured_defaults() {
    let mut b = ConfigBuffer::empty();
    b.colourfg = Some(Colour::Rgb(1, 2, 3));
    b.colourbg = Some(Colour::Basic(4));
    let mut w = Window::new(b.config(Config::default()));
    w.colour_off();
    assert_eq!(w.output(), "\x1b[38;2;1;2;3m\x1b[48;5;4m");
}

#[test]
fn colour_reset_uses_terminal_defaults() {
    let mut b = ConfigBuffer::empty();
    b.colourfg = Some(Colour::Rgb(1, 2, 3));
    let mut w = Window::new(b.config(Config::default()));
    w.colour_reset();
    assert_eq!(w.output(), "\x1b[39m\x1b[49m");
}

#[test]
fn colour_commands_for_each_kind() {
    assert_eq!(fg_command(Colour::Basic(200)), "\x1b[38;5;200m");
    assert_eq!(bg_command(Colour::Basic(0)), "\x1b[48;5;0m");
    assert_eq!(fg_command(Colour::Rgb(255, 0, 17)), "\x1b[38;2;255;0;17m");
    assert_eq!(bg_command(Colour::Rgb(9, 10, 100)), "\x1b[48;2;9;10;100m");
    assert_eq!(fg_command(Colour::TerminalDefault), "\x1b[39m");
    assert_eq!(bg_command(Colour::TerminalDefault), "\x1b[49m");
}

#[test]
fn cursor_visibility_commands() {
    let mut w = window();
    w.hide_cursor();
    w.show_cursor();
    assert_eq!(w.output(), "\x1b[?25l\x1b[?25h");
}

#[test]
fn clear_whole_screen() {
    let mut w = window();
    w.clear();
    assert_eq!(w.output(), "\x1b[2J");
}

#[test]
fn endwin_resets_terminal() {
    let mut w = window();
    w.endwin();
    assert_eq!(w.output(), "\x1b[39m\x1b[49m\x1b[2J\x1b[m\x1b[1;1H");
}

#[test]
fn teardown_issues_each_step_once() {
    let mut w = window();
    w.mvprintw(1, 1, "x");
    w.take_output();
    w.teardown();
    let out = w.output();
    assert_eq!(out, "\x1b[39m\x1b[49m\x1b[2J\x1b[m\x1b[1;1H\x1b[?25h");
    assert_eq!(out.matches("\x1b[2J").count(), 1);
    assert_eq!(out.matches("\x1b[?25h").count(), 1);
    assert_eq!(out.matches("\x1b[1;1H").count(), 1);
}

#[test]
fn take_output_empties_buffer() {
    let mut w = window();
    w.mv(0, 1);
    let out = w.take_output();
    assert_eq!(out, "\x1b[1;2H");
    assert_eq!(w.output(), "");
}

#[test]
fn border_places_corners_and_edges() {
    let mut w = window();
    w.border((5, 10), (3, 6));
    let mut expected = String::new();
    expected.push_str(&at(3, 10, "┌"));
    expected.push_str(&at(5, 10, "└"));
    expected.push_str(&at(3, 15, "┐"));
    expected.push_str(&at(5, 15, "┘"));
    expected.push_str(&at(4, 10, "│"));
    expected.push_str(&at(4, 15, "│"));
    for i in 11..15 {
        expected.push_str(&at(5, i, "─"));
        expected.push_str(&at(3, i, "─"));
    }
    assert_eq!(w.output(), expected);
}

#[test]
fn border_single_cell() {
    let mut w = window();
    w.border((0, 0), (1, 1));
    let expected = format!(
        "{}{}{}{}",
        at(0, 0, "┌"),
        at(0, 0, "└"),
        at(0, 0, "┐"),
        at(0, 0, "┘")
    );
    assert_eq!(w.output(), expected);
}

#[test]
fn border_uses_configured_glyphs() {
    let mut b = ConfigBuffer::empty();
    b.hline = Some("-".to_string());
    b.vline = Some("|".to_string());
    b.ulcorner = Some("+".to_string());
    let mut w = Window::new(b.config(Config::default()));
    w.border((2, 0), (3, 3));
    let expected = format!(
        "{}{}{}{}{}{}{}{}",
        at(0, 0, "+"),
        at(2, 0, "└"),
        at(0, 2, "┐"),
        at(2, 2, "┘"),
        at(1, 0, "|"),
        at(1, 2, "|"),
        at(2, 1, "-"),
        at(0, 1, "-")
    );
    assert_eq!(w.output(), expected);
}

#[test]
fn rectangle_fills_interior_once() {
    let mut w = window();
    w.rectangle("x", (5, 10), (4, 4));
    let expected = format!(
        "{}{}{}{}",
        at(3, 11, "x"),
        at(3, 12, "x"),
        at(4, 11, "x"),
        at(4, 12, "x")
    );
    assert_eq!(w.output(), expected);
}

#[test]
fn rectangle_without_interior_issues_nothing() {
    let mut w = window();
    w.rectangle("x", (5, 10), (2, 6));
    w.rectangle("x", (5, 10), (6, 2));
    assert_eq!(w.output(), "");
}

#[test]
fn dimensions_of_size_query() {
    assert_eq!(dimensions_from(Some((80, 24))), (80, 24));
    assert_eq!(dimensions_from(None), (0, 0));
}
