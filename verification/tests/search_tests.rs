use file_browser::search::find_match;
use file_browser::Browser;
use file_browser::DirPath;
use file_browser::Key;
use file_browser::SearchQuery;
use file_browser::SearchStep;

fn listing(entries: &[&str]) -> Vec<String> {
    entries.iter().map(|e| e.to_string()).collect()
}

fn browser(entries: &[&str]) -> Browser {
    Browser::new(DirPath::from_parts(vec![String::from("home")]), listing(entries))
}

#[test]
fn search_selects_the_first_match() {
    let mut b = browser(&["README.md", "src/", "main.rs"]);
    b.apply_search("read");
    assert_eq!(b.selected, 0);
}

#[test]
fn search_without_match_keeps_the_selection() {
    let mut b = browser(&["README.md", "src/", "main.rs"]);
    b.move_down();
    b.apply_search("zzz");
    assert_eq!(b.selected, 1);
}

#[test]
fn empty_search_keeps_the_selection() {
    let mut b = browser(&["README.md", "src/", "main.rs"]);
    b.move_down();
    b.apply_search("");
    assert_eq!(b.selected, 1);
}

#[test]
fn search_folds_case_both_ways() {
    let mut b = browser(&["Makefile", "main.rs"]);
    b.apply_search("MAIN");
    assert_eq!(b.selected, 1);
    let mut b = browser(&["README.md", "notes.txt"]);
    b.apply_search("readme");
    assert_eq!(b.selected, 0);
}

#[test]
fn find_match_takes_listing_order() {
    let files = listing(&["xa", "ba", "ab"]);
    assert_eq!(find_match(&files, "ab"), Some(2));
    assert_eq!(find_match(&files, "a"), Some(0));
    assert_eq!(find_match(&files, "nope"), None);
}

#[test]
fn query_grows_and_shrinks() {
    let mut q = SearchQuery::new();
    assert_eq!(q.text, "");
    assert!(matches!(q.handle_key(Key::Char('a')), SearchStep::Pending));
    assert!(matches!(q.handle_key(Key::Char('b')), SearchStep::Pending));
    assert_eq!(q.text, "ab");
    assert!(matches!(q.handle_key(Key::Backspace), SearchStep::Pending));
    assert_eq!(q.text, "a");
    assert!(matches!(q.handle_key(Key::Backspace), SearchStep::Pending));
    assert!(matches!(q.handle_key(Key::Backspace), SearchStep::Pending));
    assert_eq!(q.text, "");
}

#[test]
fn query_keys_confirm_or_cancel() {
    let mut q = SearchQuery::new();
    q.handle_key(Key::Char('x'));
    assert!(matches!(q.handle_key(Key::Enter), SearchStep::Commit));
    assert_eq!(q.text, "x");
    assert!(matches!(q.handle_key(Key::Esc), SearchStep::Cancel));
    assert_eq!(q.text, "x");
    assert!(matches!(q.handle_key(Key::Up), SearchStep::Pending));
    assert_eq!(q.text, "x");
}
