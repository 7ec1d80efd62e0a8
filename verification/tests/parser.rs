use fastfind::expr::{Cmp, ExecArg, Expr, FileType, PermMatch, PrintfToken, RegexType, SizeUnit, SymlinkMode, TimeRef, Timestamp};
use fastfind::parser::{
    parse, parse_exec_args, parse_file_types, parse_octal_mode, parse_perm, parse_printf, parse_size,
    parse_time_ref, next_arg, HELP_SENTINEL, VERSION_SENTINEL, ParseStep, RefMetadata, RefStat,
};

fn strings(v: &[&str]) -> Vec<String> {
    v.iter().map(|s| s.to_string()).collect()
}

fn ok(v: &[&str]) -> fastfind::expr::Config {
    match parse(&strings(v), &Vec::new()) {
        ParseStep::Done(Ok(c)) => c,
        ParseStep::Done(Err(e)) => panic!("unexpected error: {e}"),
        ParseStep::NeedStat(p) => panic!("unexpected stat request: {p}"),
    }
}

fn err(v: &[&str]) -> String {
    match parse(&strings(v), &Vec::new()) {
        ParseStep::Done(Err(e)) => e,
        ParseStep::Done(Ok(_)) => panic!("parsed"),
        ParseStep::NeedStat(p) => panic!("unexpected stat request: {p}"),
    }
}

#[test]
fn no_arguments_print_everything_under_dot() {
    let c = ok(&[]);
    assert_eq!(c.paths, vec![".".to_string()]);
    assert!(matches!(c.expr, Expr::Print));
    assert!(!c.depth_first);
    assert_eq!(c.min_depth, 0);
    assert_eq!(c.max_depth, None);
}

#[test]
fn paths_then_expression() {
    let c = ok(&["src", "tests", "-type", "f"]);
    assert_eq!(c.paths, strings(&["src", "tests"]));
    match c.expr {
        Expr::And(v) => {
            assert_eq!(v.len(), 2);
            assert!(matches!(&v[0], Expr::Type(t) if t == &vec![FileType::File]));
            assert!(matches!(&v[1], Expr::Print));
        }
        other => panic!("{other:?}"),
    }
}

#[test]
fn explicit_action_gets_no_implicit_print() {
    let c = ok(&[".", "-name", "*.rs", "-print0"]);
    match c.expr {
        Expr::And(v) => {
            assert_eq!(v.len(), 2);
            assert!(matches!(&v[0], Expr::Name(_)));
            assert!(matches!(&v[1], Expr::Print0));
        }
        other => panic!("{other:?}"),
    }
}

#[test]
fn prune_is_not_an_action() {
    let c = ok(&[".", "-prune"]);
    match c.expr {
        Expr::And(v) => {
            assert!(matches!(&v[0], Expr::Prune));
            assert!(matches!(&v[1], Expr::Print));
        }
        other => panic!("{other:?}"),
    }
}

#[test]
fn or_binds_looser_than_implicit_and() {
    let c = ok(&[".", "-name", "a", "-o", "-name", "b", "-type", "d"]);
    match c.expr {
        Expr::And(v) => match &v[0] {
            Expr::Or(alts) => {
                assert_eq!(alts.len(), 2);
                assert!(matches!(&alts[0], Expr::Name(_)));
                match &alts[1] {
                    Expr::And(t) => {
                        assert_eq!(t.len(), 2);
                        assert!(matches!(&t[1], Expr::Type(_)));
                    }
                    other => panic!("{other:?}"),
                }
            }
            other => panic!("{other:?}"),
        },
        other => panic!("{other:?}"),
    }
}

#[test]
fn parentheses_not_and_comma() {
    let c = ok(&[".", "!", "(", "-true", "-a", "-false", ")", ",", "-print"]);
    match c.expr {
        Expr::List(v) => {
            assert_eq!(v.len(), 2);
            match &v[0] {
                Expr::Not(b) => assert!(matches!(&**b, Expr::And(x) if x.len() == 2)),
                other => panic!("{other:?}"),
            }
            assert!(matches!(&v[1], Expr::Print));
        }
        other => panic!("{other:?}"),
    }
}

#[test]
fn leading_symlink_options() {
    assert_eq!(ok(&["-L", "."]).symlink_mode, SymlinkMode::Always);
    assert_eq!(ok(&["-H", "."]).symlink_mode, SymlinkMode::CommandLine);
    assert_eq!(ok(&["-L", "-P"]).symlink_mode, SymlinkMode::Never);
}

#[test]
fn global_options_set_the_configuration() {
    let c = ok(&[".", "-maxdepth", "2", "-mindepth", "+1", "-xdev", "-daystart", "-nowarn", "-regextype", "egrep"]);
    assert_eq!(c.max_depth, Some(2));
    assert_eq!(c.min_depth, 1);
    assert!(c.xdev);
    assert!(c.daystart);
    assert!(!c.warn);
    assert_eq!(c.regex_type, RegexType::Egrep);
}

#[test]
fn delete_implies_depth() {
    let c = ok(&[".", "-name", "*.tmp", "-delete"]);
    assert!(c.depth_first);
    match c.expr {
        Expr::And(v) => assert!(matches!(&v[1], Expr::Delete)),
        other => panic!("{other:?}"),
    }
}

#[test]
fn numeric_tests() {
    let c = ok(&[".", "-mtime", "+7", "-uid", "-5", "-links", "2"]);
    match c.expr {
        Expr::And(v) => {
            assert!(matches!(&v[0], Expr::And(t) if matches!(&t[0], Expr::MTime(Cmp::Greater, 7))
                && matches!(&t[1], Expr::Uid(Cmp::Less, 5))
                && matches!(&t[2], Expr::Links(Cmp::Equal, 2))));
        }
        other => panic!("{other:?}"),
    }
}

#[test]
fn exec_arguments() {
    let c = ok(&[".", "-exec", "echo", "{}", "x", ";"]);
    match c.expr {
        Expr::Exec { args, batch } => {
            assert!(!batch);
            assert_eq!(args.len(), 3);
            assert!(matches!(&args[0], ExecArg::Literal(s) if s == "echo"));
            assert!(matches!(&args[1], ExecArg::Placeholder));
        }
        other => panic!("{other:?}"),
    }
    let c = ok(&[".", "-execdir", "ls", "{}", "+"]);
    assert!(matches!(c.expr, Expr::ExecDir { batch: true, .. }));
}

#[test]
fn ok_refuses_batches() {
    assert_eq!(err(&[".", "-ok", "rm", "{}", "+"]), "-ok: only `;` terminator is supported, not `+`");
    assert_eq!(err(&[".", "-okdir", "rm", "{}", "+"]), "-okdir: only `;` terminator is supported, not `+`");
}

#[test]
fn errors() {
    assert_eq!(err(&[".", "-bogus"]), "unknown option: `-bogus`");
    assert_eq!(err(&[".", "-name"]), "-name requires an argument");
    assert_eq!(err(&[".", "-maxdepth", "x"]), "-maxdepth: `x` is not a valid number");
    assert_eq!(err(&[".", "-mindepth", "-1"]), "-mindepth: `-1` is not a valid number");
    assert_eq!(err(&[".", "-type", "q"]), "unknown file type `q`");
    assert_eq!(err(&[".", "-type", "é"]), "-type: unknown type `é`");
    assert_eq!(err(&[".", "-size", "12x"]), "-size: invalid size `12x`");
    assert_eq!(err(&[".", "-perm", "9"]), "-perm: invalid mode `9`");
    assert_eq!(err(&[".", "-regextype", "perl"]), "-regextype: unknown type `perl`");
    assert_eq!(err(&[".", "(", "-true"]), "missing closing `)`");
    assert_eq!(err(&[".", "-true", ")"]), "unexpected argument: `)`");
    assert_eq!(err(&[".", "!"]), "expected expression");
    assert_eq!(err(&[".", "-exec", "ls"]), "-exec: missing terminator `;` or `+`");
    assert_eq!(err(&[".", "-mtime", "abc"]), "invalid number: `abc`");
    assert_eq!(err(&[".", "-newerqq", "f"]), "-newerXY: unknown time reference `q`");
    assert_eq!(err(&[".", "-newerabc", "f"]), "unknown option: `-newerabc`");
}

#[test]
fn version_and_help_sentinels() {
    assert_eq!(err(&["--version"]), VERSION_SENTINEL);
    assert_eq!(err(&[".", "-help"]), HELP_SENTINEL);
}

#[test]
fn invalid_regex_is_an_error() {
    let e = err(&[".", "-regex", "("]);
    assert!(e.starts_with("-regex: invalid regex `(`: "), "{e}");
    assert!(e.len() > "-regex: invalid regex `(`: ".len());
    assert_eq!(e, format!("-regex: invalid regex `(`: {}", regex::Regex::new("(").unwrap_err()));
    let e = err(&[".", "-iregex", "a["]);
    assert!(e.starts_with("-iregex: invalid regex `a[`: "), "{e}");
    assert_eq!(e, format!("-iregex: invalid regex `a[`: {}", regex::Regex::new("(?i)a[").unwrap_err()));
}

#[test]
fn iregex_is_case_insensitive() {
    let c = ok(&[".", "-iregex", ".*\\.RS", "-print"]);
    match c.expr {
        Expr::And(v) => match &v[0] {
            Expr::IRegex(re) => {
                assert!(re.is_match("./src/main.rs"));
                assert!(!re.is_match("./src/main.txt"));
            }
            other => panic!("{other:?}"),
        },
        other => panic!("{other:?}"),
    }
}

fn meta(modified: i64) -> RefMetadata {
    RefMetadata {
        modified: Ok(Timestamp { secs: modified, nanos: 5 }),
        accessed: Ok(Timestamp { secs: modified + 1, nanos: 0 }),
        created: Err("creation time is not available".to_string()),
        ctime: 77,
        dev: 3,
        ino: 9,
    }
}

#[test]
fn reference_files_are_asked_for_in_order() {
    let a = strings(&[".", "-newer", "ref1", "-samefile", "ref2"]);
    match parse(&a, &Vec::new()) {
        ParseStep::NeedStat(p) => assert_eq!(p, "ref1"),
        _ => panic!("expected a stat request"),
    }
    let stats = vec![RefStat::Found(meta(100))];
    match parse(&a, &stats) {
        ParseStep::NeedStat(p) => assert_eq!(p, "ref2"),
        _ => panic!("expected a stat request"),
    }
    let stats = vec![RefStat::Found(meta(100)), RefStat::Found(meta(5))];
    match parse(&a, &stats) {
        ParseStep::Done(Ok(c)) => match c.expr {
            Expr::And(v) => match &v[0] {
                Expr::And(t) => {
                    assert!(matches!(&t[0], Expr::Newer(ts) if *ts == Timestamp { secs: 100, nanos: 5 }));
                    assert!(matches!(&t[1], Expr::SameFile { dev: 3, ino: 9 }));
                }
                other => panic!("{other:?}"),
            },
            other => panic!("{other:?}"),
        },
        _ => panic!("expected a configuration"),
    }
}

#[test]
fn reference_file_errors() {
    let stats = vec![RefStat::Failed("No such file or directory (os error 2)".to_string())];
    match parse(&strings(&[".", "-newer", "nope"]), &stats) {
        ParseStep::Done(Err(e)) => {
            assert_eq!(e, "cannot get modification time of `nope`: No such file or directory (os error 2)")
        }
        _ => panic!("expected an error"),
    }
    match parse(&strings(&[".", "-samefile", "nope"]), &stats) {
        ParseStep::Done(Err(e)) => assert_eq!(e, "-samefile: cannot stat `nope`: No such file or directory (os error 2)"),
        _ => panic!("expected an error"),
    }
    match parse(&strings(&[".", "-newermB", "f"]), &vec![RefStat::Found(meta(1))]) {
        ParseStep::Done(Err(e)) => assert_eq!(e, "cannot get birth time: creation time is not available"),
        _ => panic!("expected an error"),
    }
    match parse(&strings(&[".", "-newerac", "f"]), &vec![RefStat::Found(meta(1))]) {
        ParseStep::Done(Ok(c)) => match c.expr {
            Expr::And(v) => assert!(matches!(&v[0], Expr::NewerXY { x: TimeRef::Access, y: TimeRef::Change, reference }
                if *reference == Timestamp { secs: 77, nanos: 0 })),
            other => panic!("{other:?}"),
        },
        _ => panic!("expected a configuration"),
    }
}

#[test]
fn file_type_lists() {
    assert_eq!(parse_file_types("f,d, l").unwrap(), vec![FileType::File, FileType::Directory, FileType::Symlink]);
    assert_eq!(parse_file_types("fd").unwrap_err(), "-type: unknown type `fd`");
    assert_eq!(parse_file_types("").unwrap_err(), "-type: unknown type ``");
    assert_eq!(parse_file_types("x").unwrap_err(), "unknown file type `x`");
}

#[test]
fn sizes() {
    assert_eq!(parse_size("+10k").unwrap(), (Cmp::Greater, 10, SizeUnit::Kilobytes));
    assert_eq!(parse_size("-3M").unwrap(), (Cmp::Less, 3, SizeUnit::Megabytes));
    assert_eq!(parse_size("100c").unwrap(), (Cmp::Equal, 100, SizeUnit::Bytes));
    assert_eq!(parse_size("7").unwrap(), (Cmp::Equal, 7, SizeUnit::Blocks512));
    assert_eq!(parse_size("2G").unwrap(), (Cmp::Equal, 2, SizeUnit::Gigabytes));
    assert_eq!(parse_size("5w").unwrap(), (Cmp::Equal, 5, SizeUnit::Words));
    assert_eq!(parse_size("k").unwrap_err(), "-size: invalid size `k`");
}

#[test]
fn permissions() {
    assert_eq!(parse_perm("644").unwrap(), (0o644, PermMatch::Exact));
    assert_eq!(parse_perm("-u").unwrap_err(), "-perm: invalid mode `u`");
    assert_eq!(parse_perm("-111").unwrap(), (0o111, PermMatch::All));
    assert_eq!(parse_perm("/222").unwrap(), (0o222, PermMatch::Any));
    assert_eq!(parse_octal_mode("755").unwrap(), 0o755);
    assert_eq!(parse_octal_mode("8").unwrap_err(), "-perm: invalid mode `8`");
}

#[test]
fn time_references() {
    assert_eq!(parse_time_ref('a'), Some(TimeRef::Access));
    assert_eq!(parse_time_ref('m'), Some(TimeRef::Modify));
    assert_eq!(parse_time_ref('c'), Some(TimeRef::Change));
    assert_eq!(parse_time_ref('B'), Some(TimeRef::Birth));
    assert_eq!(parse_time_ref('W'), Some(TimeRef::Birth));
    assert_eq!(parse_time_ref('t'), Some(TimeRef::Modify));
    assert_eq!(parse_time_ref('x'), None);
}

#[test]
fn exec_argument_lists() {
    let a = strings(&["echo", "{}", ";", "rest"]);
    let mut i = 0;
    let (words, batch) = parse_exec_args(&a, &mut i, "-exec").unwrap();
    assert_eq!(i, 3);
    assert!(!batch);
    assert_eq!(words.len(), 2);
    let a = strings(&["x", "+"]);
    let mut i = 0;
    assert!(parse_exec_args(&a, &mut i, "-exec").unwrap().1);
    let a = strings(&["x"]);
    let mut i = 0;
    assert_eq!(parse_exec_args(&a, &mut i, "-ok").unwrap_err(), "-ok: missing terminator `;` or `+`");
}

#[test]
fn next_argument() {
    let a = strings(&["-name", "x"]);
    let mut i = 1;
    assert_eq!(next_arg(&a, &mut i, "-name").unwrap(), "x");
    assert_eq!(i, 2);
    assert_eq!(next_arg(&a, &mut i, "-name").unwrap_err(), "-name requires an argument");
    assert_eq!(i, 2);
}

#[test]
fn printf_formats() {
    let t = parse_printf("%p\\n").unwrap();
    assert!(matches!(t.as_slice(), [PrintfToken::Path, PrintfToken::Newline]));
    let t = parse_printf("size=%s%%%TY").unwrap();
    assert!(matches!(t.as_slice(), [PrintfToken::Literal(a), PrintfToken::Size, PrintfToken::Percent, PrintfToken::TimeModifyFmt(y)]
        if a == "size=" && y == "Y"));
    let t = parse_printf("%T@%Z\\q\\").unwrap();
    assert!(matches!(t.as_slice(), [PrintfToken::TimeModifySecs, PrintfToken::Literal(z), PrintfToken::Literal(q), PrintfToken::Literal(b)]
        if z == "%Z" && q == "\\q" && b == "\\"));
    let t = parse_printf("%").unwrap();
    assert!(matches!(t.as_slice(), [PrintfToken::Literal(p)] if p == "%"));
    let t = parse_printf("\\a\\0%A").unwrap();
    assert!(matches!(t.as_slice(), [PrintfToken::Literal(bell), PrintfToken::NullChar] if bell == "\u{7}"));
}
