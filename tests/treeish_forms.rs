use treeish::{parse, BuildErrorKind, Partitioned, RuleError, Text, Treeish};

fn path_of(expression: &str) -> Option<String> {
    Treeish::new(expression)
        .ok()
        .and_then(|t| t.path())
        .map(|p| p.as_str().to_string())
}

fn glob_of(expression: &str) -> Option<String> {
    Treeish::new(expression)
        .ok()
        .and_then(|t| t.glob())
        .map(|g| g.as_str().to_string())
}

fn glob_in_of(expression: &str) -> Option<(String, String)> {
    Treeish::new(expression)
        .ok()
        .and_then(|t| t.glob_in())
        .map(|(p, g)| (p.as_str().to_string(), g.as_str().to_string()))
}

#[test]
fn separated_pattern_in_tree() {
    assert_eq!(
        glob_in_of("/mnt/media::**/*.txt"),
        Some(("/mnt/media".to_string(), "**/*.txt".to_string()))
    );
}

#[test]
fn bare_pattern_has_default_root() {
    assert_eq!(glob_of("**/*.txt"), Some("**/*.txt".to_string()));
}

#[test]
fn literal_path_is_path() {
    assert_eq!(path_of("/var/log/app.log"), Some("/var/log/app.log".to_string()));
}

#[test]
fn empty_expression_is_empty() {
    let t = Treeish::new("").ok().unwrap();
    assert!(matches!(t, Treeish::Empty));
    assert!(t.walk_target().is_none());
    assert!(!t.has_path());
    assert!(!t.has_glob());
}

#[test]
fn rooted_suffix_breaks_rule() {
    match Treeish::new("a/b::/x/*.txt") {
        Err(e) => assert!(matches!(e.kind, BuildErrorKind::Rule(RuleError::RootedPatternIn))),
        Ok(_) => panic!("a rooted pattern under a tree was accepted"),
    }
}

#[test]
fn empty_prefix_gives_pattern() {
    assert_eq!(glob_of("::*.rs"), Some("*.rs".to_string()));
}

#[test]
fn only_first_separator_splits() {
    // The suffix `b::c` is handed to the glob engine whole, which refuses it;
    // a split at the second separator would have built a tree `a::b`.
    assert!(matches!(
        Treeish::new("a::b::c"),
        Err(e) if matches!(e.kind, BuildErrorKind::Glob(_))
    ));
}

#[test]
fn invalid_suffix_is_glob_error() {
    match Treeish::new("a::***") {
        Err(e) => assert!(matches!(e.kind, BuildErrorKind::Glob(_))),
        Ok(_) => panic!("an invalid pattern after the separator was accepted"),
    }
}

#[test]
fn invalid_pattern_without_separator_is_path() {
    assert_eq!(path_of("***"), Some("***".to_string()));
}

#[test]
fn bare_pattern_under_literal_prefix() {
    assert_eq!(
        glob_in_of("/mnt/media/**/*.txt"),
        Some(("/mnt/media".to_string(), "**/*.txt".to_string()))
    );
    assert_eq!(
        glob_in_of("src/*.rs"),
        Some(("src".to_string(), "*.rs".to_string()))
    );
}

#[test]
fn empty_suffix_keeps_tree_only() {
    assert_eq!(path_of("a::"), Some("a".to_string()));
    assert!(matches!(Treeish::new("::").ok(), Some(Treeish::Empty)));
}

#[test]
fn literal_round_trip() {
    for p in ["file.txt", "a/b/c", "/usr/share/doc", "notes.md"] {
        assert_eq!(path_of(p), Some(p.to_string()));
    }
}

#[test]
fn into_owned_twice_same_as_once() {
    let s = String::from("/mnt/media::**/*.txt");
    let once = Treeish::new(&s).ok().unwrap().into_owned();
    let twice = Treeish::new(&s).ok().unwrap().into_owned().into_owned();
    drop(s);
    let a = once.glob_in().map(|(p, g)| (p.as_str().to_string(), g.as_str().to_string()));
    let b = twice.glob_in().map(|(p, g)| (p.as_str().to_string(), g.as_str().to_string()));
    assert_eq!(a, b);
    assert_eq!(a, Some(("/mnt/media".to_string(), "**/*.txt".to_string())));
}

#[test]
fn accessors_by_variant() {
    let t = Treeish::new("/var/log/app.log").ok().unwrap();
    assert!(t.has_path() && !t.has_glob());
    let t = Treeish::new("**/*.txt").ok().unwrap();
    assert!(!t.has_path() && t.has_glob());
    let t = Treeish::new("/mnt/media::**/*.txt").ok().unwrap();
    assert!(t.has_path() && t.has_glob());
    assert!(Treeish::new("**/*.txt").ok().unwrap().path().is_none());
    assert!(Treeish::new("/var/log/app.log").ok().unwrap().glob().is_none());
    assert!(Treeish::new("/var/log/app.log").ok().unwrap().glob_in().is_none());
}

#[test]
fn walk_targets() {
    let t = Treeish::new("/var/log/app.log").ok().unwrap();
    assert_eq!(t.walk_target(), Some(("/var/log/app.log", "")));
    let t = Treeish::new("**/*.txt").ok().unwrap();
    assert_eq!(t.walk_target(), Some((".", "**/*.txt")));
    let t = Treeish::new("/mnt/media::**/*.txt").ok().unwrap();
    assert_eq!(t.walk_target(), Some(("/mnt/media", "**/*.txt")));
}

#[test]
fn parse_partitions() {
    assert!(matches!(parse(""), Ok(None)));
    assert!(matches!(parse("**/*.txt"), Ok(Some(Partitioned::Glob(_)))));
    assert!(matches!(parse("x::*.txt"), Ok(Some(Partitioned::GlobIn(_, _)))));
    assert!(matches!(parse("/x/*.txt"), Ok(Some(Partitioned::GlobIn(_, _)))));
    assert!(matches!(parse("plain"), Ok(Some(Partitioned::Path(_)))));
}

#[test]
fn from_partitioned_checks_rule() {
    let rooted = parse("a::/x/*.txt").ok().unwrap();
    assert!(matches!(
        Treeish::from_partitioned(rooted),
        Err(e) if matches!(e.kind, BuildErrorKind::Rule(_))
    ));
    assert!(matches!(Treeish::from_partitioned(None), Ok(Treeish::Empty)));
}

#[test]
fn from_glob_and_from_path() {
    let t = Treeish::from_glob("src/**/*.rs").ok().unwrap();
    assert_eq!(t.walk_target(), Some(("src", "**/*.rs")));
    assert!(matches!(Treeish::from_glob("***"), Err(e) if matches!(e.kind, BuildErrorKind::Glob(_))));
    assert!(matches!(Treeish::from_path(""), Treeish::Empty));
    assert_eq!(Treeish::from_path("a/b").path().map(|p| p.as_str().to_string()), Some("a/b".to_string()));
}

#[test]
fn glob_root_reported() {
    let t = Treeish::new("::/x/*.txt").ok().unwrap();
    let g = t.glob().unwrap();
    assert!(g.has_root());
    let t = Treeish::new("x::*.txt").ok().unwrap();
    let (_, g) = t.glob_in().unwrap();
    assert!(!g.has_root());
}

#[test]
fn parse_error_keeps_expression() {
    let s = String::from("bad");
    let e = treeish::ParseError::new(&s).into_owned();
    drop(s);
    assert_eq!(e.expression(), "bad");
    let b = treeish::BuildError::from_parse(e);
    assert!(matches!(b.kind, BuildErrorKind::Parse(_)));
}

#[test]
fn text_detaches() {
    let t = Text::Borrowed("abc").into_owned();
    assert!(matches!(&t, Text::Owned(s) if s == "abc"));
    assert!(Text::Borrowed("").non_empty().is_none());
}
