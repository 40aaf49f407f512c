use file_browser::DirPath;

fn path(parts: &[&str]) -> DirPath {
    DirPath::from_parts(parts.iter().map(|p| p.to_string()).collect())
}

#[test]
fn root_displays_as_slash() {
    assert_eq!(DirPath::root().display(), "/");
}

#[test]
fn components_display_joined() {
    assert_eq!(path(&["home", "user"]).display(), "/home/user");
    assert_eq!(path(&["etc"]).display(), "/etc");
}

#[test]
fn push_and_pop_components() {
    let mut p = path(&["home", "user"]);
    p.push_part(String::from("sub"));
    assert_eq!(p.display(), "/home/user/sub");
    p.pop_part();
    assert_eq!(p.display(), "/home/user");
}

#[test]
fn root_is_root() {
    assert!(DirPath::root().is_root());
    assert!(!path(&["home"]).is_root());
}

#[test]
fn duplicate_shows_the_same_path() {
    let p = path(&["home", "user"]);
    assert_eq!(p.duplicate().display(), p.display());
}
