use file_browser::render::row_style;
use file_browser::render::row_text;
use file_browser::render::RowStyle;
use file_browser::status::bar_content;
use file_browser::status::fit_to_width;
use file_browser::DirPath;

#[test]
fn long_text_is_cut_to_the_width() {
    assert_eq!(fit_to_width("hello", 3), "hel");
    assert_eq!(fit_to_width("hello", 0), "");
}

#[test]
fn short_text_is_padded_to_the_width() {
    assert_eq!(fit_to_width("hi", 5), "hi   ");
    assert_eq!(fit_to_width("", 4), "    ");
}

#[test]
fn exact_text_stays_as_it_is() {
    assert_eq!(fit_to_width("four", 4), "four");
}

#[test]
fn bar_names_the_current_directory() {
    let p = DirPath::from_parts(vec![String::from("home"), String::from("user")]);
    assert_eq!(bar_content(&p), "Current dir: /home/user");
    assert_eq!(bar_content(&DirPath::root()), "Current dir: /");
}

#[test]
fn bar_fits_the_terminal_exactly() {
    let p = DirPath::from_parts(vec![String::from("home")]);
    let text = bar_content(&p);
    let fitted = fit_to_width(&text, 10);
    assert_eq!(fitted, "Current di");
    let fitted = fit_to_width(&text, 20);
    assert_eq!(fitted, "Current dir: /home  ");
    assert_eq!(fitted.chars().count(), 20);
}

#[test]
fn rows_show_the_cursor_on_the_selection() {
    assert_eq!(row_text("src/", true), "> src/");
    assert_eq!(row_text("src/", false), "  src/");
}

#[test]
fn row_colour_follows_selection_then_marker() {
    assert!(matches!(row_style(1, 1, "src/"), RowStyle::Selected));
    assert!(matches!(row_style(0, 1, "src/"), RowStyle::Directory));
    assert!(matches!(row_style(0, 1, "main.rs"), RowStyle::Plain));
}
