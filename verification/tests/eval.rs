use fastfind::batch::{exec_batch_command, flush_batch_exec};
use fastfind::chrono_format::{days_to_ymd, from_timestamp};
use fastfind::eval::{
    check_time_days, check_time_mins, classify, evaluate, file_type_from_metadata, format_mode,
    format_time_ls, linux_fstype_name, Answer, EntryInfo, EntryType, EvalContext, Meta, Output,
    Request, Step,
};
use fastfind::expr::{Cmp, ExecArg, Expr, FileType, GlobPattern, PermMatch, PrintfToken, RegexMatcher, SizeUnit, Timestamp};

fn meta(len: u64, mode: u32) -> Meta {
    Meta {
        len,
        mode,
        uid: 1000,
        gid: 100,
        nlink: 2,
        ino: 4242,
        dev: 7,
        blocks: 8,
        atime: 1_000_000,
        mtime: 900_000,
        ctime: 800_000,
        modified: Ok(Timestamp { secs: 900_000, nanos: 0 }),
        accessed: Ok(Timestamp { secs: 1_000_000, nanos: 0 }),
        created: Err("creation time is not available".to_string()),
        is_file: mode & 0o170000 == 0o100000,
        is_dir: mode & 0o170000 == 0o040000,
        is_symlink: mode & 0o170000 == 0o120000,
    }
}

fn entry(path: &str, file_type: EntryType) -> EntryInfo {
    let p = std::path::Path::new(path);
    EntryInfo {
        path: path.as_bytes().to_vec(),
        name: p.file_name().map(|n| n.to_str().unwrap().as_bytes().to_vec()),
        parent: p.parent().map(|d| d.to_str().unwrap().as_bytes().to_vec()),
        relative: p.strip_prefix("./").ok().map(|r| r.to_str().unwrap().as_bytes().to_vec()),
        depth: 1,
        file_type,
        metadata: None,
        is_dir: file_type == EntryType::Directory,
        should_prune: false,
    }
}

fn ctx() -> EvalContext {
    EvalContext {
        now: Timestamp { secs: 1_000_000, nanos: 0 },
        daystart: false,
        daystart_time: Timestamp { secs: 950_400, nanos: 0 },
        starting_point: b".".to_vec(),
        depth: 1,
        batch_exec: Vec::new(),
        quit: false,
    }
}

fn describe(q: &Request) -> String {
    match q {
        Request::Metadata => "metadata".to_string(),
        Request::FollowMetadata => "follow".to_string(),
        Request::ReadLink => "readlink".to_string(),
        Request::DirIsEmpty => "empty?".to_string(),
        Request::Access(m) => format!("access {m}"),
        Request::UserId(n) => format!("uid of {n}"),
        Request::GroupId(n) => format!("gid of {n}"),
        Request::UserName(u) => format!("user {u}"),
        Request::GroupName(g) => format!("group {g}"),
        Request::FsType => "fstype".to_string(),
        Request::Now => "now".to_string(),
        Request::Write(Output::Stdout, b) => format!("stdout {}", String::from_utf8_lossy(b)),
        Request::Write(Output::Append(f), b) => format!("{f} {}", String::from_utf8_lossy(b)),
        Request::Warn(m) => format!("warn {m}"),
        Request::Run(c) => format!("run {} {:?} {:?}", c.program, c.args, c.dir.as_ref().map(|d| String::from_utf8_lossy(d).to_string())),
        Request::Ask(p) => format!("ask {p}"),
        Request::Remove(d) => format!("remove {d}"),
    }
}

/// Evaluate, answering each request with `answer`, and return the result and
/// the requests made, in order.
fn run(expr: &Expr, en: &mut EntryInfo, cx: &mut EvalContext, answer: impl Fn(&Request) -> Answer) -> (Result<bool, String>, Vec<String>) {
    let mut answers: Vec<Answer> = Vec::new();
    let mut asked = Vec::new();
    loop {
        match evaluate(expr, en, cx, &answers) {
            Step::Need(q) => {
                asked.push(describe(&q));
                answers.push(answer(&q));
                assert!(asked.len() < 50);
            }
            Step::Done(r) => return (r, asked),
        }
    }
}

fn written(_: &Request) -> Answer {
    Answer::Status(Ok(()))
}

#[test]
fn name_test_needs_no_request() {
    let e = Expr::Name(GlobPattern::new("*.rs", false).unwrap());
    let (r, asked) = run(&e, &mut entry("./src/lib.rs", EntryType::File), &mut ctx(), written);
    assert_eq!(r, Ok(true));
    assert!(asked.is_empty());
    let (r, _) = run(&e, &mut entry("./src/lib.txt", EntryType::File), &mut ctx(), written);
    assert_eq!(r, Ok(false));
}

#[test]
fn print_writes_the_path_and_a_newline() {
    let (r, asked) = run(&Expr::Print, &mut entry("./a", EntryType::File), &mut ctx(), written);
    assert_eq!(r, Ok(true));
    assert_eq!(asked, vec!["stdout ./a\n".to_string()]);
    let (r, asked) = run(&Expr::FPrint0("out.txt".to_string()), &mut entry("./a", EntryType::File), &mut ctx(), written);
    assert_eq!(r, Ok(true));
    assert_eq!(asked, vec!["out.txt ./a\0".to_string()]);
}

#[test]
fn write_failure_is_an_error() {
    let (r, _) = run(&Expr::Print, &mut entry("./a", EntryType::File), &mut ctx(), |_| Answer::Status(Err("Broken pipe".to_string())));
    assert_eq!(r, Err("Broken pipe".to_string()));
}

#[test]
fn answer_of_the_wrong_kind_is_a_failure() {
    let (r, _) = run(&Expr::Print, &mut entry("./a", EntryType::File), &mut ctx(), |_| Answer::Flag(true));
    assert_eq!(r, Err("unexpected answer".to_string()));
}

#[test]
fn and_stops_at_false_and_metadata_is_cached() {
    let e = Expr::And(vec![
        Expr::Size { cmp: Cmp::Greater, size: 1, unit: SizeUnit::Kilobytes },
        Expr::Perm { mode: 0o644, match_type: PermMatch::Exact },
        Expr::Print,
    ]);
    let mut en = entry("./big", EntryType::File);
    let (r, asked) = run(&e, &mut en, &mut ctx(), |q| match q {
        Request::Metadata => Answer::Meta(Ok(meta(1025, 0o100644))),
        _ => Answer::Status(Ok(())),
    });
    assert_eq!(r, Ok(true));
    assert_eq!(asked, vec!["metadata".to_string(), "stdout ./big\n".to_string()]);
    assert!(en.metadata.is_some());
    let mut en = entry("./small", EntryType::File);
    let (r, asked) = run(&e, &mut en, &mut ctx(), |_| Answer::Meta(Ok(meta(1024, 0o100644))));
    assert_eq!(r, Ok(false));
    assert_eq!(asked, vec!["metadata".to_string()]);
}

#[test]
fn metadata_failure_is_an_error_and_not_cached() {
    let e = Expr::Empty;
    let mut en = entry("./gone", EntryType::File);
    let (r, _) = run(&e, &mut en, &mut ctx(), |_| Answer::Meta(Err("No such file or directory (os error 2)".to_string())));
    assert_eq!(r, Err("No such file or directory (os error 2)".to_string()));
    assert!(en.metadata.is_none());
}

#[test]
fn or_not_and_comma() {
    let t = || Expr::True;
    let f = || Expr::False;
    let (r, _) = run(&Expr::Or(vec![f(), t()]), &mut entry("./a", EntryType::File), &mut ctx(), written);
    assert_eq!(r, Ok(true));
    let (r, _) = run(&Expr::Not(Box::new(t())), &mut entry("./a", EntryType::File), &mut ctx(), written);
    assert_eq!(r, Ok(false));
    let (r, asked) = run(&Expr::List(vec![Expr::Print, f()]), &mut entry("./a", EntryType::File), &mut ctx(), written);
    assert_eq!(r, Ok(false));
    assert_eq!(asked.len(), 1);
    let (r, asked) = run(&Expr::Or(vec![t(), Expr::Print]), &mut entry("./a", EntryType::File), &mut ctx(), written);
    assert_eq!(r, Ok(true));
    assert!(asked.is_empty());
}

#[test]
fn quit_stops_everything_after_it() {
    let mut cx = ctx();
    let e = Expr::List(vec![Expr::Quit, Expr::Print]);
    let (r, asked) = run(&e, &mut entry("./a", EntryType::File), &mut cx, written);
    assert_eq!(r, Ok(false));
    assert!(asked.is_empty());
    assert!(cx.quit);
    let (r, asked) = run(&Expr::Print, &mut entry("./b", EntryType::File), &mut cx, written);
    assert_eq!(r, Ok(false));
    assert!(asked.is_empty());
}

#[test]
fn prune_marks_the_entry() {
    let mut en = entry("./d", EntryType::Directory);
    let (r, _) = run(&Expr::Prune, &mut en, &mut ctx(), written);
    assert_eq!(r, Ok(true));
    assert!(en.should_prune);
}

#[test]
fn batched_exec_collects_paths() {
    let mut cx = ctx();
    let e = Expr::Exec { args: vec![ExecArg::Literal("echo".to_string()), ExecArg::Placeholder, ExecArg::Literal("end".to_string())], batch: true };
    for p in ["./a", "./b"] {
        let (r, asked) = run(&e, &mut entry(p, EntryType::File), &mut cx, written);
        assert_eq!(r, Ok(true));
        assert!(asked.is_empty());
    }
    let d = Expr::ExecDir { args: vec![ExecArg::Literal("ls".to_string())], batch: true };
    for p in ["./x/1", "./y/2", "./x/3"] {
        run(&d, &mut entry(p, EntryType::File), &mut cx, written);
    }
    assert_eq!(cx.batch_exec.len(), 2);
    let cmds = flush_batch_exec(&mut cx);
    assert!(cx.batch_exec.is_empty());
    let shown: Vec<(String, Vec<String>, Option<Vec<u8>>)> = cmds.into_iter().map(|c| (c.program, c.args, c.dir)).collect();
    assert_eq!(shown, vec![
        ("echo".to_string(), vec!["./a".to_string(), "./b".to_string(), "end".to_string()], None),
        ("ls".to_string(), vec!["./1".to_string(), "./3".to_string()], Some(b"./x".to_vec())),
        ("ls".to_string(), vec!["./2".to_string()], Some(b"./y".to_vec())),
    ]);
}

#[test]
fn batch_command_without_placeholder_appends_paths() {
    let c = exec_batch_command(&vec![ExecArg::Literal("wc".to_string()), ExecArg::Literal("-l".to_string())], &vec![b"f1".to_vec(), vec![0xff]], None).unwrap();
    assert_eq!(c.program, "wc");
    assert_eq!(c.args, vec!["-l".to_string(), "f1".to_string(), "".to_string()]);
    assert!(exec_batch_command(&vec![ExecArg::Placeholder], &vec![], None).is_none());
}

#[test]
fn exec_runs_and_reports_spawn_failure() {
    let e = Expr::Exec { args: vec![ExecArg::Literal("nosuch".to_string()), ExecArg::Placeholder], batch: false };
    let (r, asked) = run(&e, &mut entry("./a", EntryType::File), &mut ctx(), |q| match q {
        Request::Run(_) => Answer::Ran(Err("No such file or directory (os error 2)".to_string())),
        _ => Answer::Status(Ok(())),
    });
    assert_eq!(r, Ok(false));
    assert_eq!(asked, vec![
        "run nosuch [\"./a\"] None".to_string(),
        "warn find: `nosuch`: No such file or directory (os error 2)".to_string(),
    ]);
    let d = Expr::ExecDir { args: vec![ExecArg::Literal("cat".to_string()), ExecArg::Placeholder], batch: false };
    let (r, asked) = run(&d, &mut entry("./dir/f", EntryType::File), &mut ctx(), |_| Answer::Ran(Ok(true)));
    assert_eq!(r, Ok(true));
    assert_eq!(asked, vec!["run cat [\"./f\"] Some(\"./dir\")".to_string()]);
}

#[test]
fn ok_asks_before_running() {
    let e = Expr::OkPrompt { args: vec![ExecArg::Literal("rm".to_string()), ExecArg::Placeholder] };
    let (r, asked) = run(&e, &mut entry("./a", EntryType::File), &mut ctx(), |q| match q {
        Request::Ask(_) => Answer::Line(Ok("  YES\n".to_string())),
        _ => Answer::Ran(Ok(true)),
    });
    assert_eq!(r, Ok(true));
    assert_eq!(asked, vec!["ask < rm ./a ... ./a > ? ".to_string(), "run rm [\"./a\"] None".to_string()]);
    let (r, asked) = run(&e, &mut entry("./a", EntryType::File), &mut ctx(), |_| Answer::Line(Ok("n\n".to_string())));
    assert_eq!(r, Ok(false));
    assert_eq!(asked.len(), 1);
}

#[test]
fn delete_failure_is_reported() {
    let (r, asked) = run(&Expr::Delete, &mut entry("./locked", EntryType::File), &mut ctx(), |q| match q {
        Request::Remove(_) => Answer::Status(Err("Permission denied (os error 13)".to_string())),
        _ => Answer::Status(Ok(())),
    });
    assert_eq!(r, Ok(false));
    assert_eq!(asked, vec!["remove false".to_string(), "warn find: cannot delete `./locked`: Permission denied (os error 13)".to_string()]);
}

#[test]
fn printf_output() {
    let toks = vec![
        PrintfToken::Path, PrintfToken::Literal(" ".to_string()), PrintfToken::Size, PrintfToken::Literal(" ".to_string()),
        PrintfToken::Permissions, PrintfToken::Literal(" ".to_string()), PrintfToken::PermSymbolic, PrintfToken::Tab,
        PrintfToken::Type, PrintfToken::Filename, PrintfToken::ParentDir, PrintfToken::SparseName, PrintfToken::Depth,
        PrintfToken::User, PrintfToken::TimeModifySecs, PrintfToken::Newline,
    ];
    let (r, asked) = run(&Expr::Printf(toks), &mut entry("./sub/f.txt", EntryType::File), &mut ctx(), |q| match q {
        Request::Metadata => Answer::Meta(Ok(meta(42, 0o100640))),
        Request::UserName(_) => Answer::Name(None),
        _ => Answer::Status(Ok(())),
    });
    assert_eq!(r, Ok(true));
    assert_eq!(asked, vec![
        "metadata".to_string(),
        "user 1000".to_string(),
        "stdout ./sub/f.txt 42 0640 -rw-r-----\tff.txt./subsub/f.txt11000900000\n".to_string(),
    ]);
}

#[test]
fn printf_date_and_failed_metadata() {
    let toks = vec![PrintfToken::TimeModify];
    let (_, asked) = run(&Expr::Printf(toks), &mut entry("./f", EntryType::File), &mut ctx(), |q| match q {
        Request::Metadata => Answer::Meta(Ok(Meta { mtime: 951_782_400 + 3_723, ..meta(1, 0o100644) })),
        _ => Answer::Status(Ok(())),
    });
    assert_eq!(asked[1], "stdout Feb 29 01:02:03.0000000000 2000");
    let toks = vec![PrintfToken::Literal("x".to_string()), PrintfToken::Size, PrintfToken::TimeAccess];
    let (r, asked) = run(&Expr::Printf(toks), &mut entry("./f", EntryType::File), &mut ctx(), |q| match q {
        Request::Metadata => Answer::Meta(Err("gone".to_string())),
        _ => Answer::Status(Ok(())),
    });
    assert_eq!(r, Err("gone".to_string()));
    assert_eq!(asked, vec!["metadata".to_string(), "metadata".to_string(), "stdout x0".to_string()]);
}

#[test]
fn ls_line() {
    let mut en = entry("./link", EntryType::Symlink);
    en.metadata = Some(Meta { mtime: 990_000, ..meta(11, 0o120777) });
    let (r, asked) = run(&Expr::Ls, &mut en, &mut ctx(), |q| match q {
        Request::UserName(_) => Answer::Name(Some("alice".to_string())),
        Request::GroupName(_) => Answer::Name(None),
        Request::Now => Answer::Time(1_000_000),
        Request::ReadLink => Answer::Link(Some(b"target".to_vec())),
        _ => Answer::Status(Ok(())),
    });
    assert_eq!(r, Ok(true));
    assert_eq!(asked.last().unwrap(), "stdout    4242    4 lrwxrwxrwx   2 alice    100            11 Jan 12 11:00 ./link -> target\n");
}

#[test]
fn owners() {
    let e = Expr::User("1000".to_string());
    let (r, asked) = run(&e, &mut entry("./f", EntryType::File), &mut ctx(), |_| Answer::Meta(Ok(meta(0, 0o100644))));
    assert_eq!(r, Ok(true));
    assert_eq!(asked.len(), 1);
    let e = Expr::Group("staff".to_string());
    let (r, asked) = run(&e, &mut entry("./f", EntryType::File), &mut ctx(), |q| match q {
        Request::Metadata => Answer::Meta(Ok(meta(0, 0o100644))),
        _ => Answer::Id(Some(100)),
    });
    assert_eq!(r, Ok(true));
    assert_eq!(asked[1], "gid of staff");
    let e = Expr::User("nobody-here".to_string());
    let (r, _) = run(&e, &mut entry("./f", EntryType::File), &mut ctx(), |q| match q {
        Request::Metadata => Answer::Meta(Ok(meta(0, 0o100644))),
        _ => Answer::Id(None),
    });
    assert_eq!(r, Err("-user: `nobody-here` is not the name of a known user".to_string()));
    let (r, _) = run(&Expr::NoUser, &mut entry("./f", EntryType::File), &mut ctx(), |q| match q {
        Request::Metadata => Answer::Meta(Ok(meta(0, 0o100644))),
        _ => Answer::Name(None),
    });
    assert_eq!(r, Ok(true));
}

#[test]
fn times() {
    let m = |_: &Request| Answer::Meta(Ok(meta(0, 0o100644)));
    let (r, _) = run(&Expr::MTime(Cmp::Equal, 1), &mut entry("./f", EntryType::File), &mut ctx(), m);
    assert_eq!(r, Ok(true));
    let (r, _) = run(&Expr::MMin(Cmp::Greater, 1666), &mut entry("./f", EntryType::File), &mut ctx(), m);
    assert_eq!(r, Ok(false));
    let (r, _) = run(&Expr::Newer(Timestamp { secs: 899_999, nanos: 999_999_999 }), &mut entry("./f", EntryType::File), &mut ctx(), m);
    assert_eq!(r, Ok(true));
    let (r, _) = run(&Expr::CNewerM(Timestamp { secs: 800_000, nanos: 0 }), &mut entry("./f", EntryType::File), &mut ctx(), m);
    assert_eq!(r, Ok(false));
    let (r, _) = run(&Expr::Used(Cmp::Equal, 2), &mut entry("./f", EntryType::File), &mut ctx(), m);
    assert_eq!(r, Ok(true));
    let (r, _) = run(
        &Expr::NewerXY { x: fastfind::expr::TimeRef::Birth, y: fastfind::expr::TimeRef::Modify, reference: Timestamp { secs: 0, nanos: 0 } },
        &mut entry("./f", EntryType::File), &mut ctx(), m);
    assert_eq!(r, Err("creation time is not available".to_string()));
}

#[test]
fn type_tests() {
    let (r, asked) = run(&Expr::Type(vec![FileType::Directory, FileType::File]), &mut entry("./f", EntryType::File), &mut ctx(), written);
    assert_eq!(r, Ok(true));
    assert!(asked.is_empty());
    let (r, asked) = run(&Expr::XType(vec![FileType::Directory]), &mut entry("./l", EntryType::Symlink), &mut ctx(), |_| Answer::Meta(Ok(meta(0, 0o040755))));
    assert_eq!(r, Ok(true));
    assert_eq!(asked, vec!["follow".to_string()]);
    let (r, _) = run(&Expr::XType(vec![FileType::Symlink]), &mut entry("./l", EntryType::Symlink), &mut ctx(), |_| Answer::Meta(Err("dangling".to_string())));
    assert_eq!(r, Ok(false));
    let (r, asked) = run(&Expr::Empty, &mut entry("./d", EntryType::Directory), &mut ctx(), |_| Answer::Flag(true));
    assert_eq!(r, Ok(true));
    assert_eq!(asked, vec!["empty?".to_string()]);
}

#[test]
fn link_names_and_regexes() {
    let e = Expr::LName(GlobPattern::new("*get", false).unwrap());
    let (r, _) = run(&e, &mut entry("./l", EntryType::Symlink), &mut ctx(), |_| Answer::Link(Some(b"target".to_vec())));
    assert_eq!(r, Ok(true));
    let (r, asked) = run(&e, &mut entry("./f", EntryType::File), &mut ctx(), written);
    assert_eq!(r, Ok(false));
    assert!(asked.is_empty());
    let re = Expr::Regex(RegexMatcher::new("^$").unwrap());
    let mut en = entry("./x", EntryType::File);
    en.path = vec![b'.', b'/', 0xff];
    let (r, _) = run(&re, &mut en, &mut ctx(), written);
    assert_eq!(r, Ok(true));
}

#[test]
fn access_and_filesystem() {
    let (r, asked) = run(&Expr::Writable, &mut entry("./f", EntryType::File), &mut ctx(), |_| Answer::Flag(false));
    assert_eq!(r, Ok(false));
    assert_eq!(asked, vec!["access 2".to_string()]);
    let e = Expr::FsType("ext2/ext3/ext4".to_string());
    let (r, _) = run(&e, &mut entry("./f", EntryType::File), &mut ctx(), |_| Answer::Number(Ok(0xEF53)));
    assert_eq!(r, Ok(true));
    let (r, _) = run(&e, &mut entry("./f", EntryType::File), &mut ctx(), |_| Answer::Number(Err("statfs failed".to_string())));
    assert_eq!(r, Err("statfs failed".to_string()));
}

#[test]
fn mode_strings() {
    assert_eq!(format_mode(0o040755), "drwxr-xr-x");
    assert_eq!(format_mode(0o104755), "-rwsr-xr-x");
    assert_eq!(format_mode(0o102644), "-rw-r-Sr--");
    assert_eq!(format_mode(0o041777), "drwxrwxrwt");
    assert_eq!(format_mode(0o021000), "c--------T");
    assert_eq!(format_mode(0o140600), "srw-------");
}

#[test]
fn entry_types() {
    assert_eq!(EntryType::from_mode(0o100644), EntryType::File);
    assert_eq!(EntryType::from_mode(0o060660), EntryType::BlockDevice);
    assert_eq!(EntryType::from_mode(0o010644), EntryType::Pipe);
    assert_eq!(EntryType::from_mode(0), EntryType::Unknown);
    assert!(EntryType::Symlink.matches(FileType::Symlink));
    assert!(!EntryType::Unknown.matches(FileType::File));
    assert_eq!(EntryType::Unknown.to_char(), 'U');
    assert_eq!(EntryType::Socket.to_char(), 's');
    assert_eq!(classify(false, false, false, Some(0o020600)), EntryType::CharDevice);
    assert_eq!(classify(false, false, false, None), EntryType::Unknown);
    assert_eq!(classify(false, true, false, Some(0o100644)), EntryType::Directory);
    assert_eq!(file_type_from_metadata(&meta(0, 0o120777)), EntryType::Symlink);
}

#[test]
fn dates() {
    let d = from_timestamp(0);
    assert_eq!((d.year, d.month_abbr, d.day, d.hour, d.minute, d.second), (1970, "Jan", 1, 0, 0, 0));
    let d = from_timestamp(951_782_400 + 86_399);
    assert_eq!((d.year, d.month_abbr, d.day, d.hour, d.minute, d.second), (2000, "Feb", 29, 23, 59, 59));
    let d = from_timestamp(-1);
    assert_eq!((d.year, d.month_abbr, d.day, d.hour, d.minute, d.second), (1970, "Jan", 1, 23, 59, 59));
    let d = from_timestamp(-86_400);
    assert_eq!((d.year, d.month_abbr, d.day), (1969, "Dec", 31));
    assert_eq!(days_to_ymd(719_468), (1970, 0, 1));
    assert_eq!(days_to_ymd(0), (0, 2, 1));
    assert_eq!(days_to_ymd(-1), (0, 1, 29));
}

#[test]
fn ls_dates() {
    assert_eq!(format_time_ls(0, 0), "Jan  1 00:00");
    assert_eq!(format_time_ls(0, 200 * 86_400), "Jan  1  1970");
    assert_eq!(format_time_ls(1_700_000_000, 1_700_000_000 - 100 * 86_400), "Nov 14 22:13");
}

#[test]
fn filesystem_names() {
    assert_eq!(linux_fstype_name(0xEF53), "ext2/ext3/ext4");
    assert_eq!(linux_fstype_name(0x01021994), "tmpfs");
    assert_eq!(linux_fstype_name(0xFF534D42), "cifs");
    assert_eq!(linux_fstype_name(12345), "unknown");
}

#[test]
fn age_in_days_and_minutes() {
    let cx = ctx();
    let t = Timestamp { secs: 1_000_000 - 86_400 - 1, nanos: 0 };
    assert!(check_time_days(t, Cmp::Equal, 1, &cx));
    assert!(check_time_mins(t, Cmp::Equal, 1440, &cx));
    let future = Timestamp { secs: 2_000_000, nanos: 0 };
    assert!(check_time_days(future, Cmp::Equal, 0, &cx));
    let mut ds = ctx();
    ds.daystart = true;
    let t = Timestamp { secs: 950_000, nanos: 0 };
    assert!(check_time_days(t, Cmp::Equal, 0, &ds));
    assert!(check_time_mins(t, Cmp::Equal, 6, &ds));
}

#[test]
fn replay_with_more_answers_ends_the_same() {
    let e = Expr::And(vec![
        Expr::Size { cmp: Cmp::Greater, size: 0, unit: SizeUnit::Bytes },
        Expr::Print,
    ]);
    let answers = || vec![Answer::Meta(Ok(meta(10, 0o100644))), Answer::Status(Ok(()))];
    // With only the first answer, evaluation stops at the write.
    let mut en = entry("./a", EntryType::File);
    let mut cx = ctx();
    match evaluate(&e, &mut en, &mut cx, &vec![Answer::Meta(Ok(meta(10, 0o100644)))]) {
        Step::Need(Request::Write(Output::Stdout, b)) => assert_eq!(b, b"./a\n".to_vec()),
        _ => panic!("expected the write request"),
    }
    assert!(en.metadata.is_none());
    // With both answers it ends true; extra answers change nothing.
    let mut en1 = entry("./a", EntryType::File);
    let mut cx1 = ctx();
    let r1 = evaluate(&e, &mut en1, &mut cx1, &answers());
    let mut longer = answers();
    longer.push(Answer::Flag(false));
    longer.push(Answer::Status(Err("never read".to_string())));
    let mut en2 = entry("./a", EntryType::File);
    let mut cx2 = ctx();
    let r2 = evaluate(&e, &mut en2, &mut cx2, &longer);
    assert!(matches!(r1, Step::Done(Ok(true))));
    assert!(matches!(r2, Step::Done(Ok(true))));
    assert_eq!(en1.metadata.as_ref().map(|m| m.len), Some(10));
    assert_eq!(en2.metadata.as_ref().map(|m| m.len), Some(10));
}

#[test]
fn true_and_false_make_no_request() {
    let (r, asked) = run(&Expr::True, &mut entry("./a", EntryType::File), &mut ctx(), written);
    assert_eq!(r, Ok(true));
    assert!(asked.is_empty());
    let (r, asked) = run(&Expr::False, &mut entry("./a", EntryType::File), &mut ctx(), written);
    assert_eq!(r, Ok(false));
    assert!(asked.is_empty());
    let e = Expr::Or(vec![Expr::True, Expr::Print]);
    let (r, asked) = run(&e, &mut entry("./a", EntryType::File), &mut ctx(), written);
    assert_eq!(r, Ok(true));
    assert!(asked.is_empty());
}

#[test]
fn iso_time_format() {
    let toks = vec![PrintfToken::TimeModifyFmt("+".to_string()), PrintfToken::Literal(" ".to_string()), PrintfToken::TimeModifyFmt("k".to_string())];
    let (r, asked) = run(&Expr::Printf(toks), &mut entry("./f", EntryType::File), &mut ctx(), |q| match q {
        Request::Metadata => Answer::Meta(Ok(Meta { mtime: 0, ..meta(1, 0o100644) })),
        _ => Answer::Status(Ok(())),
    });
    assert_eq!(r, Ok(true));
    assert_eq!(asked[1], "stdout 1970-01-01+00:00:00.0000000000 0");
    let toks = vec![PrintfToken::TimeAccessFmt("+".to_string())];
    let (_, asked) = run(&Expr::Printf(toks), &mut entry("./f", EntryType::File), &mut ctx(), |q| match q {
        Request::Metadata => Answer::Meta(Ok(Meta { atime: 951_782_400 + 3_723, ..meta(1, 0o100644) })),
        _ => Answer::Status(Ok(())),
    });
    assert_eq!(asked[1], "stdout 2000-02-29+01:02:03.0000000000");
}

#[test]
fn execdir_on_a_bare_name_runs_in_dot() {
    let mut cx = ctx();
    let d = Expr::ExecDir { args: vec![ExecArg::Literal("ls".to_string()), ExecArg::Placeholder], batch: true };
    run(&d, &mut entry("x.txt", EntryType::File), &mut cx, written);
    let cmds = flush_batch_exec(&mut cx);
    assert_eq!(cmds.len(), 1);
    assert_eq!(cmds[0].dir, Some(b".".to_vec()));
    assert_eq!(cmds[0].args, vec!["./x.txt".to_string()]);
    let d = Expr::ExecDir { args: vec![ExecArg::Literal("ls".to_string())], batch: false };
    let (_, asked) = run(&d, &mut entry("x.txt", EntryType::File), &mut ctx(), |_| Answer::Ran(Ok(true)));
    assert_eq!(asked, vec!["run ls [] Some(\".\")".to_string()]);
}

#[test]
fn change_time_before_the_epoch_is_an_error() {
    let e = Expr::CTime(Cmp::Greater, 1);
    let (r, _) = run(&e, &mut entry("./f", EntryType::File), &mut ctx(), |_| Answer::Meta(Ok(Meta { ctime: -5, ..meta(1, 0o100644) })));
    assert_eq!(r, Err("cannot get change time: it is before the epoch".to_string()));
    // Other tests and the change time's seconds are unaffected.
    let toks = vec![PrintfToken::TimeChangeSecs];
    let (r, asked) = run(&Expr::Printf(toks), &mut entry("./f", EntryType::File), &mut ctx(), |q| match q {
        Request::Metadata => Answer::Meta(Ok(Meta { ctime: -5, ..meta(1, 0o100644) })),
        _ => Answer::Status(Ok(())),
    });
    assert_eq!(r, Ok(true));
    assert_eq!(asked[1], "stdout -5");
}

#[test]
fn fls_opens_its_file_first() {
    let (r, asked) = run(&Expr::FLs("out.txt".to_string()), &mut entry("./f", EntryType::File), &mut ctx(), |q| match q {
        Request::Metadata => Answer::Meta(Err("gone".to_string())),
        _ => Answer::Status(Ok(())),
    });
    assert_eq!(r, Err("gone".to_string()));
    assert_eq!(asked, vec!["out.txt ".to_string(), "metadata".to_string()]);
}

#[test]
fn far_dates() {
    let d = from_timestamp(i64::MAX);
    assert!(d.year > 292_000_000_000);
    let d = from_timestamp(i64::MIN);
    assert!(d.year < -292_000_000_000);
    assert_eq!(format_time_ls(i64::MIN, i64::MAX).len() > 0, true);
}

#[test]
fn braces_inside_a_word_are_replaced() {
    let e = Expr::ExecDir {
        args: vec![ExecArg::Literal("mv".to_string()), ExecArg::Placeholder, ExecArg::Literal("{}.old".to_string())],
        batch: false,
    };
    let (r, asked) = run(&e, &mut entry("d/a.bak", EntryType::File), &mut ctx(), |_| Answer::Ran(Ok(true)));
    assert_eq!(r, Ok(true));
    assert_eq!(asked, vec!["run mv [\"./a.bak\", \"./a.bak.old\"] Some(\"d\")".to_string()]);
    let e = Expr::Exec {
        args: vec![ExecArg::Literal("echo".to_string()), ExecArg::Literal("<{}|{}>{".to_string())],
        batch: false,
    };
    let (_, asked) = run(&e, &mut entry("./p", EntryType::File), &mut ctx(), |_| Answer::Ran(Ok(true)));
    assert_eq!(asked, vec!["run echo [\"<./p|./p>{\"] None".to_string()]);
}
