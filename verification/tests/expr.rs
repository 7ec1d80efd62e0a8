use fastfind::cli::version_string;
use fastfind::expr::{glob_to_regex, has_action, has_prune, parse_cmp, Cmp, Config, Expr, FileType, GlobPattern, RegexMatcher, RegexType, SizeUnit, SymlinkMode, Timestamp};
use fastfind::walker::{
    compute_daystart, depth_allowed, descends, follow_links, keep_parallel_entry, on_root_device,
    root_device, use_sequential, walk_error, walk_min_depth,
};

#[test]
fn comparisons() {
    assert!(Cmp::Greater.matches(3, 2));
    assert!(!Cmp::Greater.matches(2, 2));
    assert!(Cmp::Less.matches(-1, 0));
    assert!(Cmp::Equal.matches(5, 5));
    assert!(Cmp::Greater.matches_u64(u64::MAX, 0));
    assert!(!Cmp::Less.matches_u64(0, 0));
}

#[test]
fn comparison_arguments() {
    assert_eq!(parse_cmp("+5").unwrap(), (Cmp::Greater, 5));
    assert_eq!(parse_cmp("-3").unwrap(), (Cmp::Less, 3));
    assert_eq!(parse_cmp("7").unwrap(), (Cmp::Equal, 7));
    assert_eq!(parse_cmp("+-2").unwrap(), (Cmp::Greater, -2));
    assert_eq!(parse_cmp("-9223372036854775808").unwrap(), (Cmp::Less, i64::MIN));
    assert_eq!(parse_cmp("x").unwrap_err(), "invalid number: `x`");
    assert_eq!(parse_cmp("").unwrap_err(), "invalid number: ``");
    assert_eq!(parse_cmp("+").unwrap_err(), "invalid number: `+`");
    assert_eq!(parse_cmp("9223372036854775808").unwrap_err(), "invalid number: `9223372036854775808`");
}

#[test]
fn file_type_letters() {
    for (c, t) in [('b', FileType::BlockDevice), ('c', FileType::CharDevice), ('d', FileType::Directory), ('p', FileType::Pipe), ('f', FileType::File), ('l', FileType::Symlink), ('s', FileType::Socket)] {
        assert_eq!(FileType::from_char(c).unwrap(), t);
        assert_eq!(t.to_char(), c);
    }
    assert_eq!(FileType::from_char('z').unwrap_err(), "unknown file type `z`");
}

#[test]
fn size_units() {
    assert_eq!(SizeUnit::Bytes.bytes(), 1);
    assert_eq!(SizeUnit::Words.bytes(), 2);
    assert_eq!(SizeUnit::Blocks512.bytes(), 512);
    assert_eq!(SizeUnit::Kilobytes.bytes(), 1024);
    assert_eq!(SizeUnit::Megabytes.bytes(), 1_048_576);
    assert_eq!(SizeUnit::Gigabytes.bytes(), 1_073_741_824);
}

#[test]
fn timestamps_order() {
    let a = Timestamp { secs: 5, nanos: 1 };
    let b = Timestamp { secs: 5, nanos: 0 };
    assert!(a.is_after(&b));
    assert!(!b.is_after(&a));
    assert!(!a.is_after(&a));
    assert!(Timestamp { secs: 6, nanos: 0 }.is_after(&a));
}

#[test]
fn glob_regexes() {
    assert_eq!(glob_to_regex("*.rs"), "^.*\\.rs$");
    assert_eq!(glob_to_regex("a?c"), "^a.c$");
    assert_eq!(glob_to_regex("[!ab]x"), "^[^ab]x$");
    assert_eq!(glob_to_regex("f[o]+"), "^f[o]\\+$");
}

#[test]
fn glob_matching() {
    let g = GlobPattern::new("*.rs", false).unwrap();
    assert!(g.is_match("main.rs"));
    assert!(!g.is_match("main.rs.bak"));
    assert!(g.is_match_bytes(b"x.rs"));
    let g = GlobPattern::new("Make*", false).unwrap();
    assert!(g.is_match("Makefile"));
    assert!(!g.is_match("makefile"));
    let g = GlobPattern::new("make*", true).unwrap();
    assert!(g.is_match("MAKEFILE"));
    let g = GlobPattern::new("exact", false).unwrap();
    assert!(g.is_match("exact"));
    assert!(!g.is_match("exactly"));
    let g = GlobPattern::new("a?[bc]d", false).unwrap();
    assert!(g.is_match("axcd"));
    assert!(!g.is_match("axed"));
    assert!(!g.is_match_bytes(&[b'a', 0xff, b'b', b'd']));
}

#[test]
fn invalid_glob() {
    let e = GlobPattern::new("[", false).unwrap_err();
    assert!(e.starts_with("invalid pattern: "), "{e}");
    assert!(e.len() > "invalid pattern: ".len());
    assert_eq!(e, format!("invalid pattern: {}", regex::Regex::new(&fastfind::expr::glob_to_regex("[")).unwrap_err()));
}

#[test]
fn regex_matcher() {
    let r = RegexMatcher::new("^a+b$").unwrap();
    assert!(r.is_match("aab"));
    assert!(!r.is_match("ab c"));
    assert_eq!(RegexMatcher::new("(").unwrap_err(), regex::Regex::new("(").unwrap_err().to_string());
}

#[test]
fn actions_and_prune() {
    let e = Expr::And(vec![Expr::Name(GlobPattern::new("x", false).unwrap()), Expr::Not(Box::new(Expr::Print))]);
    assert!(has_action(&e));
    assert!(!has_prune(&e));
    let e = Expr::Or(vec![Expr::Prune, Expr::True]);
    assert!(!has_action(&e));
    assert!(has_prune(&e));
    assert!(has_action(&Expr::List(vec![Expr::False, Expr::Quit])));
    assert!(!has_action(&Expr::Type(vec![FileType::File])));
}

#[test]
fn default_configuration() {
    let c = Config::default();
    assert_eq!(c.paths, vec![".".to_string()]);
    assert_eq!(c.max_depth, None);
    assert_eq!(c.min_depth, 0);
    assert!(!c.depth_first);
    assert!(!c.xdev);
    assert_eq!(c.symlink_mode, SymlinkMode::Never);
    assert!(!c.daystart);
    assert_eq!(c.regex_type, RegexType::Emacs);
    assert!(c.warn);
    assert!(!c.noleaf);
    assert!(!c.ignore_readdir_race);
    assert!(matches!(c.expr, Expr::True));
}

#[test]
fn version_banner() {
    assert_eq!(version_string("1a2b3c4"), "find (fastfind) 0.1.3 (1a2b3c4)\nhttps://crates.io/crates/fastfind");
}

#[test]
fn walk_decisions() {
    assert_eq!(compute_daystart(Timestamp { secs: 86_400 * 3 + 5, nanos: 7 }), Timestamp { secs: 86_400 * 3, nanos: 0 });
    let mut c = Config::default();
    assert!(!use_sequential(&c));
    c.expr = Expr::And(vec![Expr::Prune, Expr::Print]);
    assert!(use_sequential(&c));
    c.expr = Expr::Print;
    c.depth_first = true;
    assert!(use_sequential(&c));
    assert!(!follow_links(&c));
    c.symlink_mode = SymlinkMode::Always;
    assert!(follow_links(&c));
    assert_eq!(walk_min_depth(&c), None);
    c.min_depth = 2;
    assert_eq!(walk_min_depth(&c), Some(2));
    assert!(depth_allowed(Some(2), 2));
    assert!(!depth_allowed(Some(2), 3));
    assert!(depth_allowed(None, 99));
    assert!(descends(&c, true, true));
    c.depth_first = false;
    assert!(!descends(&c, true, true));
    assert!(descends(&c, true, false));
    assert!(!descends(&c, false, false));
}

#[test]
fn devices() {
    let devs = vec![Some(10), None, Some(30)];
    assert_eq!(root_device(false, &devs, 0), None);
    assert_eq!(root_device(true, &devs, 0), Some(10));
    assert_eq!(root_device(true, &devs, 1), Some(30));
    assert_eq!(root_device(true, &devs, 2), None);
    assert!(on_root_device(None, 5));
    assert!(on_root_device(Some(5), 5));
    assert!(!on_root_device(Some(5), 6));
    assert!(keep_parallel_entry(Some(5), None));
    assert!(!keep_parallel_entry(Some(5), Some(4)));
}

#[test]
fn walk_errors() {
    let mut c = Config::default();
    assert_eq!(walk_error(&c, Some(b"./x"), "Permission denied (os error 13)"), Some("find: `./x`: Permission denied (os error 13)".to_string()));
    assert_eq!(walk_error(&c, None, "loop"), Some("find: loop".to_string()));
    c.ignore_readdir_race = true;
    assert_eq!(walk_error(&c, None, "loop"), None);
}
