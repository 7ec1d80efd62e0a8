//! The command-line grammar, stated as spec functions over the argument list.
use vstd::prelude::*;
use vstd::utf8::encode_utf8;

use crate::expr::{
    Cmp, ConfigView, ExprView, GlobView, RegexType, SymlinkMode, TimeRef, Timestamp,
    any_has_action, default_config_view, glob_regex_source, regex_compiles, regex_error, spec_glob_fast_path,
    spec_has_action, spec_parse_cmp, strings_view,
};
use crate::parser::{
    HELP_SENTINEL, RefMetadata, RefStat, VERSION_SENTINEL, spec_exec_args, spec_parse_file_types, spec_parse_perm,
    spec_parse_printf, spec_parse_size, spec_time_ref,
};
use crate::text::{spec_parse_unsigned, u64_wrap};

verus! {

// ---------------------------------------------------------------------------
// The grammar, as spec functions over the argument list
// ---------------------------------------------------------------------------

/// Where parsing stands: the next argument, the reference-file answers used so
/// far, and the configuration as options have changed it.
pub struct Cursor {
    pub pos: int,
    pub used: int,
    pub cfg: ConfigView,
}

/// The outcome of parsing a piece of the expression: the expression, whether
/// it holds an action, and where parsing stands after it; or an error; or the
/// path of a reference file whose metadata is needed to go on.
pub enum Parsed {
    Node(ExprView, bool, Cursor),
    Fail(Seq<char>),
    Stat(Seq<char>),
}

/// The cursor at an executable position and count of used answers.
pub open spec fn cursor_at(pos: usize, used: usize, cfg: ConfigView) -> Cursor {
    Cursor { pos: pos as int, used: used as int, cfg }
}

pub open spec fn at(c: Cursor, pos: int) -> Cursor {
    Cursor { pos, used: c.used, cfg: c.cfg }
}

pub open spec fn exact(t: Seq<char>) -> Parsed {
    Parsed::Fail(t)
}

pub open spec fn needs_arg(opt: Seq<char>) -> Seq<char> {
    opt + " requires an argument"@
}

/// The argument at `pos`, if there is one.
pub open spec fn val_at(args: Seq<String>, pos: int) -> Option<Seq<char>> {
    if 0 <= pos < args.len() {
        Some(args[pos]@)
    } else {
        None
    }
}

/// What a glob argument compiles to, or why it is refused.
pub open spec fn glob_result(v: Seq<char>, ci: bool) -> Result<GlobView, Seq<char>> {
    match spec_glob_fast_path(v, ci) {
        Some(g) => Ok(g),
        None => if regex_compiles(glob_regex_source(v, ci)) {
            Ok(GlobView::Regex(glob_regex_source(v, ci)))
        } else {
            Err("invalid pattern: "@ + regex_error(glob_regex_source(v, ci)))
        },
    }
}

/// Global options: they change the configuration and stand for `-true`.
#[verifier::opaque]
pub open spec fn p_options(args: Seq<String>, a: Seq<char>, c1: Cursor) -> Option<Parsed> {
    let cfg = c1.cfg;
    let c2 = at(c1, c1.pos + 1);
    if a == "-maxdepth"@ {
        Some(
            match val_at(args, c1.pos) {
                None => exact(needs_arg("-maxdepth"@)),
                Some(v) => match spec_parse_unsigned(v, 10, usize::MAX as nat) {
                    Some(n) => Parsed::Node(
                        ExprView::True,
                        false,
                        Cursor { cfg: ConfigView { max_depth: Some(n as usize), ..cfg }, ..c2 },
                    ),
                    None => exact("-maxdepth: `"@ + v + "` is not a valid number"@),
                },
            },
        )
    } else if a == "-mindepth"@ {
        Some(
            match val_at(args, c1.pos) {
                None => exact(needs_arg("-mindepth"@)),
                Some(v) => match spec_parse_unsigned(v, 10, usize::MAX as nat) {
                    Some(n) => Parsed::Node(
                        ExprView::True,
                        false,
                        Cursor { cfg: ConfigView { min_depth: n as usize, ..cfg }, ..c2 },
                    ),
                    None => exact("-mindepth: `"@ + v + "` is not a valid number"@),
                },
            },
        )
    } else if a == "-depth"@ || a == "-d"@ {
        Some(
            Parsed::Node(
                ExprView::True,
                false,
                Cursor { cfg: ConfigView { depth_first: true, ..cfg }, ..c1 },
            ),
        )
    } else if a == "-xdev"@ || a == "-mount"@ {
        Some(Parsed::Node(ExprView::True, false, Cursor { cfg: ConfigView { xdev: true, ..cfg }, ..c1 }))
    } else if a == "-noleaf"@ {
        Some(Parsed::Node(ExprView::True, false, Cursor { cfg: ConfigView { noleaf: true, ..cfg }, ..c1 }))
    } else if a == "-ignore_readdir_race"@ {
        Some(
            Parsed::Node(
                ExprView::True,
                false,
                Cursor { cfg: ConfigView { ignore_readdir_race: true, ..cfg }, ..c1 },
            ),
        )
    } else if a == "-noignore_readdir_race"@ {
        Some(
            Parsed::Node(
                ExprView::True,
                false,
                Cursor { cfg: ConfigView { ignore_readdir_race: false, ..cfg }, ..c1 },
            ),
        )
    } else if a == "-warn"@ {
        Some(Parsed::Node(ExprView::True, false, Cursor { cfg: ConfigView { warn: true, ..cfg }, ..c1 }))
    } else if a == "-nowarn"@ {
        Some(Parsed::Node(ExprView::True, false, Cursor { cfg: ConfigView { warn: false, ..cfg }, ..c1 }))
    } else if a == "-daystart"@ {
        Some(Parsed::Node(ExprView::True, false, Cursor { cfg: ConfigView { daystart: true, ..cfg }, ..c1 }))
    } else if a == "-regextype"@ {
        Some(
            match val_at(args, c1.pos) {
                None => exact(needs_arg("-regextype"@)),
                Some(v) => match spec_regex_type(v) {
                    Some(t) => Parsed::Node(
                        ExprView::True,
                        false,
                        Cursor { cfg: ConfigView { regex_type: t, ..cfg }, ..c2 },
                    ),
                    None => exact("-regextype: unknown type `"@ + v + "`"@),
                },
            },
        )
    } else {
        None
    }
}

/// The regex dialect a `-regextype` argument names.
pub open spec fn spec_regex_type(v: Seq<char>) -> Option<RegexType> {
    if v == "emacs"@ {
        Some(RegexType::Emacs)
    } else if v == "posix-basic"@ {
        Some(RegexType::PosixBasic)
    } else if v == "posix-extended"@ {
        Some(RegexType::PosixExtended)
    } else if v == "grep"@ {
        Some(RegexType::Grep)
    } else if v == "egrep"@ {
        Some(RegexType::Egrep)
    } else {
        None
    }
}

/// A test whose argument is a glob.
pub open spec fn p_glob(args: Seq<String>, opt: Seq<char>, ci: bool, which: int, c1: Cursor) -> Parsed {
    match val_at(args, c1.pos) {
        None => exact(needs_arg(opt)),
        Some(v) => match glob_result(v, ci) {
            Ok(g) => Parsed::Node(
                if which == 0 {
                    ExprView::Name(g)
                } else if which == 1 {
                    ExprView::IName(g)
                } else if which == 2 {
                    ExprView::Path(g)
                } else if which == 3 {
                    ExprView::IPath(g)
                } else if which == 4 {
                    ExprView::LName(g)
                } else {
                    ExprView::ILName(g)
                },
                false,
                at(c1, c1.pos + 1),
            ),
            Err(e) => Parsed::Fail(e),
        },
    }
}

/// Tests that read their argument as text, a glob, a regex or a type list.
#[verifier::opaque]
pub open spec fn p_text_tests(args: Seq<String>, a: Seq<char>, c1: Cursor) -> Option<Parsed> {
    let c2 = at(c1, c1.pos + 1);
    if a == "-true"@ {
        Some(Parsed::Node(ExprView::True, false, c1))
    } else if a == "-false"@ {
        Some(Parsed::Node(ExprView::False, false, c1))
    } else if a == "-name"@ {
        Some(p_glob(args, "-name"@, false, 0, c1))
    } else if a == "-iname"@ {
        Some(p_glob(args, "-iname"@, true, 1, c1))
    } else if a == "-path"@ || a == "-wholename"@ {
        Some(p_glob(args, a, false, 2, c1))
    } else if a == "-ipath"@ || a == "-iwholename"@ {
        Some(p_glob(args, a, true, 3, c1))
    } else if a == "-lname"@ {
        Some(p_glob(args, "-lname"@, false, 4, c1))
    } else if a == "-ilname"@ {
        Some(p_glob(args, "-ilname"@, true, 5, c1))
    } else if a == "-regex"@ {
        Some(
            match val_at(args, c1.pos) {
                None => exact(needs_arg("-regex"@)),
                Some(v) => if regex_compiles(v) {
                    Parsed::Node(ExprView::Regex(v), false, c2)
                } else {
                    Parsed::Fail(a + ": invalid regex `"@ + v + "`: "@ + regex_error(v))
                },
            },
        )
    } else if a == "-iregex"@ {
        Some(
            match val_at(args, c1.pos) {
                None => exact(needs_arg("-iregex"@)),
                Some(v) => if regex_compiles("(?i)"@ + v) {
                    Parsed::Node(ExprView::IRegex("(?i)"@ + v), false, c2)
                } else {
                    Parsed::Fail(a + ": invalid regex `"@ + v + "`: "@ + regex_error("(?i)"@ + v))
                },
            },
        )
    } else if a == "-type"@ || a == "-xtype"@ {
        Some(
            match val_at(args, c1.pos) {
                None => exact(needs_arg(a)),
                Some(v) => match spec_parse_file_types(v) {
                    Ok(ts) => Parsed::Node(
                        if a == "-type"@ {
                            ExprView::Type(ts)
                        } else {
                            ExprView::XType(ts)
                        },
                        false,
                        c2,
                    ),
                    Err(m) => exact(m),
                },
            },
        )
    } else if a == "-size"@ {
        Some(
            match val_at(args, c1.pos) {
                None => exact(needs_arg("-size"@)),
                Some(v) => match spec_parse_size(v) {
                    Ok((k, n, u)) => Parsed::Node(ExprView::Size { cmp: k, size: n, unit: u }, false, c2),
                    Err(m) => exact(m),
                },
            },
        )
    } else if a == "-empty"@ {
        Some(Parsed::Node(ExprView::Empty, false, c1))
    } else if a == "-perm"@ {
        Some(
            match val_at(args, c1.pos) {
                None => exact(needs_arg("-perm"@)),
                Some(v) => match spec_parse_perm(v) {
                    Ok((mode, mt)) => Parsed::Node(ExprView::Perm { mode, match_type: mt }, false, c2),
                    Err(m) => exact(m),
                },
            },
        )
    } else if a == "-readable"@ {
        Some(Parsed::Node(ExprView::Readable, false, c1))
    } else if a == "-writable"@ {
        Some(Parsed::Node(ExprView::Writable, false, c1))
    } else if a == "-executable"@ {
        Some(Parsed::Node(ExprView::Executable, false, c1))
    } else if a == "-user"@ || a == "-group"@ {
        Some(
            match val_at(args, c1.pos) {
                None => exact(needs_arg(a)),
                Some(v) => Parsed::Node(
                    if a == "-user"@ {
                        ExprView::User(v)
                    } else {
                        ExprView::Group(v)
                    },
                    false,
                    c2,
                ),
            },
        )
    } else if a == "-nouser"@ {
        Some(Parsed::Node(ExprView::NoUser, false, c1))
    } else if a == "-nogroup"@ {
        Some(Parsed::Node(ExprView::NoGroup, false, c1))
    } else if a == "-fstype"@ {
        Some(
            match val_at(args, c1.pos) {
                None => exact(needs_arg("-fstype"@)),
                Some(v) => Parsed::Node(ExprView::FsType(v), false, c2),
            },
        )
    } else {
        None
    }
}

/// Which numeric test an option names (`None` when it names none).
pub open spec fn numeric_test_index(a: Seq<char>) -> Option<int> {
    if a == "-uid"@ {
        Some(0)
    } else if a == "-gid"@ {
        Some(1)
    } else if a == "-links"@ {
        Some(2)
    } else if a == "-inum"@ {
        Some(3)
    } else if a == "-mtime"@ {
        Some(4)
    } else if a == "-mmin"@ {
        Some(5)
    } else if a == "-atime"@ {
        Some(6)
    } else if a == "-amin"@ {
        Some(7)
    } else if a == "-ctime"@ {
        Some(8)
    } else if a == "-cmin"@ {
        Some(9)
    } else if a == "-used"@ {
        Some(10)
    } else {
        None
    }
}

/// The numeric test number `which` with comparison `k` and count `n`
/// (ids, link counts and inode numbers take `n` as `u64`).
pub open spec fn numeric_test(which: int, k: Cmp, n: i64) -> ExprView {
    if which == 0 {
        ExprView::Uid(k, u64_wrap(n))
    } else if which == 1 {
        ExprView::Gid(k, u64_wrap(n))
    } else if which == 2 {
        ExprView::Links(k, u64_wrap(n))
    } else if which == 3 {
        ExprView::Inum(k, u64_wrap(n))
    } else if which == 4 {
        ExprView::MTime(k, n)
    } else if which == 5 {
        ExprView::MMin(k, n)
    } else if which == 6 {
        ExprView::ATime(k, n)
    } else if which == 7 {
        ExprView::AMin(k, n)
    } else if which == 8 {
        ExprView::CTime(k, n)
    } else if which == 9 {
        ExprView::CMin(k, n)
    } else {
        ExprView::Used(k, n)
    }
}

/// Tests whose argument is `+n`, `-n` or `n`.
#[verifier::opaque]
pub open spec fn p_numeric_tests(args: Seq<String>, a: Seq<char>, c1: Cursor) -> Option<Parsed> {
    match numeric_test_index(a) {
        None => None,
        Some(which) => Some(
            match val_at(args, c1.pos) {
                None => exact(needs_arg(a)),
                Some(v) => match spec_parse_cmp(v) {
                    Ok((k, n)) => Parsed::Node(numeric_test(which, k, n), false, at(c1, c1.pos + 1)),
                    Err(m) => exact(m),
                },
            },
        ),
    }
}

/// `-newerXY`: the option starts with `-newer` and is at least eight bytes long.
pub open spec fn is_newer_xy(a: Seq<char>) -> bool {
    &&& a.len() >= 6
    &&& a[0] == '-' && a[1] == 'n' && a[2] == 'e' && a[3] == 'w' && a[4] == 'e' && a[5] == 'r'
    &&& encode_utf8(a).len() >= 8
}

/// The time a reference file's metadata gives for a `-newerXY` letter.
pub open spec fn ref_time(m: RefMetadata, y: TimeRef) -> Result<Timestamp, Seq<char>> {
    match y {
        TimeRef::Modify => match m.modified {
            Ok(t) => Ok(t),
            Err(e) => Err("cannot get modification time: "@ + e@),
        },
        TimeRef::Access => match m.accessed {
            Ok(t) => Ok(t),
            Err(e) => Err("cannot get access time: "@ + e@),
        },
        TimeRef::Change => if m.ctime >= 0 {
            Ok(Timestamp { secs: m.ctime, nanos: 0 })
        } else {
            Err("cannot get change time: it is before the epoch"@)
        },
        TimeRef::Birth => match m.created {
            Ok(t) => Ok(t),
            Err(e) => Err("cannot get birth time: "@ + e@),
        },
    }
}

/// A reference-file test: stat the file (the next unused answer, or a request
/// for one), then build the test from its metadata.
#[verifier::opaque]
pub open spec fn p_reference(
    stats: Seq<RefStat>,
    a: Seq<char>,
    v: Seq<char>,
    c2: Cursor,
    x: TimeRef,
    y: TimeRef,
) -> Parsed {
    if c2.used < 0 || c2.used >= stats.len() {
        Parsed::Stat(v)
    } else {
        let c3 = Cursor { used: c2.used + 1, ..c2 };
        match stats[c2.used] {
            RefStat::Failed(e) => if a == "-samefile"@ {
                exact("-samefile: cannot stat `"@ + v + "`: "@ + e@)
            } else if a == "-newer"@ || a == "-anewer"@ || a == "-cnewer"@ {
                exact("cannot get modification time of `"@ + v + "`: "@ + e@)
            } else {
                exact("cannot stat `"@ + v + "`: "@ + e@)
            },
            RefStat::Found(m) => if a == "-samefile"@ {
                Parsed::Node(ExprView::SameFile { dev: m.dev, ino: m.ino }, false, c3)
            } else if a == "-newer"@ || a == "-anewer"@ || a == "-cnewer"@ {
                match m.modified {
                    Ok(t) => Parsed::Node(
                        if a == "-newer"@ {
                            ExprView::Newer(t)
                        } else if a == "-anewer"@ {
                            ExprView::ANewerM(t)
                        } else {
                            ExprView::CNewerM(t)
                        },
                        false,
                        c3,
                    ),
                    Err(e) => exact("cannot get modification time of `"@ + v + "`: "@ + e@),
                }
            } else {
                match ref_time(m, y) {
                    Ok(t) => Parsed::Node(ExprView::NewerXY { x, y, reference: t }, false, c3),
                    Err(msg) => exact(msg),
                }
            },
        }
    }
}

/// Tests that read the metadata of a reference file.
#[verifier::opaque]
pub open spec fn p_reference_tests(
    args: Seq<String>,
    stats: Seq<RefStat>,
    a: Seq<char>,
    c1: Cursor,
) -> Option<Parsed> {
    let c2 = at(c1, c1.pos + 1);
    if a == "-samefile"@ || a == "-newer"@ || a == "-anewer"@ || a == "-cnewer"@ {
        Some(
            match val_at(args, c1.pos) {
                None => exact(needs_arg(a)),
                Some(v) => p_reference(stats, a, v, c2, TimeRef::Modify, TimeRef::Modify),
            },
        )
    } else if is_newer_xy(a) {
        let xy = a.skip(6);
        Some(
            if xy.len() != 2 {
                exact("unknown option: `"@ + a + "`"@)
            } else {
                match spec_time_ref(xy[0]) {
                    None => exact("-newerXY: unknown time reference `"@ + seq![xy[0]] + "`"@),
                    Some(x) => match spec_time_ref(xy[1]) {
                        None => exact("-newerXY: unknown time reference `"@ + seq![xy[1]] + "`"@),
                        Some(y) => match val_at(args, c1.pos) {
                            None => exact(needs_arg(a)),
                            Some(v) => p_reference(stats, a, v, c2, x, y),
                        },
                    },
                }
            },
        )
    } else {
        None
    }
}

/// `-exec`, `-execdir`, `-ok`, `-okdir`.
#[verifier::opaque]
pub open spec fn p_commands(args: Seq<String>, a: Seq<char>, c1: Cursor) -> Option<Parsed> {
    if a == "-exec"@ || a == "-execdir"@ || a == "-ok"@ || a == "-okdir"@ {
        Some(
            match spec_exec_args(args, c1.pos, a) {
                Err(m) => exact(m),
                Ok((words, batch, end)) => if a == "-exec"@ {
                    Parsed::Node(ExprView::Exec { args: words, batch }, true, at(c1, end))
                } else if a == "-execdir"@ {
                    Parsed::Node(ExprView::ExecDir { args: words, batch }, true, at(c1, end))
                } else if batch {
                    exact(a + ": only `;` terminator is supported, not `+`"@)
                } else if a == "-ok"@ {
                    Parsed::Node(ExprView::OkPrompt { args: words }, true, at(c1, end))
                } else {
                    Parsed::Node(ExprView::OkDir { args: words }, true, at(c1, end))
                },
            },
        )
    } else {
        None
    }
}

/// Output actions and the rest.
#[verifier::opaque]
pub open spec fn p_actions(args: Seq<String>, a: Seq<char>, c1: Cursor) -> Option<Parsed> {
    let c2 = at(c1, c1.pos + 1);
    if a == "-print"@ {
        Some(Parsed::Node(ExprView::Print, true, c1))
    } else if a == "-print0"@ {
        Some(Parsed::Node(ExprView::Print0, true, c1))
    } else if a == "-printf"@ {
        Some(
            match val_at(args, c1.pos) {
                None => exact(needs_arg("-printf"@)),
                Some(v) => Parsed::Node(ExprView::Printf(spec_parse_printf(v)), true, c2),
            },
        )
    } else if a == "-ls"@ {
        Some(Parsed::Node(ExprView::Ls, true, c1))
    } else if a == "-fprint"@ || a == "-fprint0"@ || a == "-fls"@ {
        Some(
            match val_at(args, c1.pos) {
                None => exact(needs_arg(a)),
                Some(v) => Parsed::Node(
                    if a == "-fprint"@ {
                        ExprView::FPrint(v)
                    } else if a == "-fprint0"@ {
                        ExprView::FPrint0(v)
                    } else {
                        ExprView::FLs(v)
                    },
                    true,
                    c2,
                ),
            },
        )
    } else if a == "-fprintf"@ {
        Some(
            match val_at(args, c1.pos) {
                None => exact(needs_arg("-fprintf"@)),
                Some(f) => match val_at(args, c1.pos + 1) {
                    None => exact(needs_arg("-fprintf"@)),
                    Some(v) => Parsed::Node(
                        ExprView::FPrintf(f, spec_parse_printf(v)),
                        true,
                        at(c1, c1.pos + 2),
                    ),
                },
            },
        )
    } else if a == "-delete"@ {
        Some(
            Parsed::Node(
                ExprView::Delete,
                true,
                Cursor { cfg: ConfigView { depth_first: true, ..c1.cfg }, ..c1 },
            ),
        )
    } else if a == "-prune"@ {
        Some(Parsed::Node(ExprView::Prune, false, c1))
    } else if a == "-quit"@ {
        Some(Parsed::Node(ExprView::Quit, true, c1))
    } else {
        None
    }
}

/// A primary: an option, a test or an action.
pub open spec fn p_primary(args: Seq<String>, stats: Seq<RefStat>, c: Cursor) -> Parsed {
    if c.pos < 0 || c.pos >= args.len() {
        exact("expected expression"@)
    } else {
        let a = args[c.pos]@;
        let c1 = at(c, c.pos + 1);
        if a == "--version"@ || a == "-version"@ {
            exact(VERSION_SENTINEL@)
        } else if a == "--help"@ || a == "-help"@ {
            exact(HELP_SENTINEL@)
        } else if p_options(args, a, c1) is Some {
            p_options(args, a, c1).unwrap()
        } else if p_text_tests(args, a, c1) is Some {
            p_text_tests(args, a, c1).unwrap()
        } else if p_numeric_tests(args, a, c1) is Some {
            p_numeric_tests(args, a, c1).unwrap()
        } else if p_reference_tests(args, stats, a, c1) is Some {
            p_reference_tests(args, stats, a, c1).unwrap()
        } else if p_actions(args, a, c1) is Some {
            p_actions(args, a, c1).unwrap()
        } else if p_commands(args, a, c1) is Some {
            p_commands(args, a, c1).unwrap()
        } else {
            exact("unknown option: `"@ + a + "`"@)
        }
    }
}

/// Either a parsed node advanced past `pos` and stayed within the arguments,
/// or not a node at all.
pub open spec fn advanced(p: Parsed, pos: int, len: int) -> bool {
    p matches Parsed::Node(_, _, c2) ==> pos < c2.pos <= len
}

/// `! expr`, `-not expr`, `( expr )`, or a primary.
pub open spec fn p_unary(args: Seq<String>, stats: Seq<RefStat>, c: Cursor) -> Parsed
    decreases args.len() - c.pos, 1nat,
{
    if c.pos < 0 || c.pos >= args.len() {
        exact("expected expression"@)
    } else if args[c.pos]@ == "!"@ || args[c.pos]@ == "-not"@ {
        match p_unary(args, stats, at(c, c.pos + 1)) {
            Parsed::Node(e, act, c2) => Parsed::Node(ExprView::Not(Box::new(e)), act, c2),
            other => other,
        }
    } else if args[c.pos]@ == "("@ {
        match p_or(args, stats, at(c, c.pos + 1)) {
            Parsed::Node(e, act, c2) => if c2.pos >= args.len() || args[c2.pos]@ != ")"@ {
                exact("missing closing `)`"@)
            } else {
                Parsed::Node(e, act, at(c2, c2.pos + 1))
            },
            other => other,
        }
    } else {
        p_primary(args, stats, c)
    }
}

/// A sequence of one expression is that expression; more make an operator node.
pub open spec fn gather(acc: Seq<ExprView>, which: int) -> ExprView {
    if acc.len() == 1 {
        acc[0]
    } else if which == 0 {
        ExprView::And(acc)
    } else if which == 1 {
        ExprView::List(acc)
    } else {
        ExprView::Or(acc)
    }
}

/// Arguments that end an implicit `-a` chain.
pub open spec fn ends_and(a: Seq<char>) -> bool {
    a == "-o"@ || a == "-or"@ || a == ")"@ || a == ","@
}

/// The rest of an AND chain after the terms in `acc`: an optional `-a` /
/// `-and`, then another term unless the chain ends.
pub open spec fn p_and_tail(
    args: Seq<String>,
    stats: Seq<RefStat>,
    acc: Seq<ExprView>,
    act: bool,
    c: Cursor,
) -> Parsed
    decreases args.len() - c.pos, 6nat,
{
    if c.pos < 0 || c.pos > args.len() {
        exact(Seq::empty())
    } else {
        let p1 = if c.pos < args.len() && (args[c.pos]@ == "-a"@ || args[c.pos]@ == "-and"@) {
            c.pos + 1
        } else {
            c.pos
        };
        let c1 = at(c, p1);
        if p1 >= args.len() || ends_and(args[p1]@) {
            Parsed::Node(gather(acc, 0), act, c1)
        } else {
            match p_unary(args, stats, c1) {
                Parsed::Node(e, a, c2) => if p1 < c2.pos <= args.len() {
                    p_and_tail(args, stats, acc.push(e), act || a, c2)
                } else {
                    exact(Seq::empty())
                },
                other => other,
            }
        }
    }
}

/// `expr1 [-a] expr2 ...`
pub open spec fn p_and(args: Seq<String>, stats: Seq<RefStat>, c: Cursor) -> Parsed
    decreases args.len() - c.pos, 2nat,
{
    match p_unary(args, stats, c) {
        Parsed::Node(e, act, c1) => if c.pos < c1.pos <= args.len() {
            p_and_tail(args, stats, seq![e], act, c1)
        } else {
            exact(Seq::empty())
        },
        other => other,
    }
}

/// The rest of a comma list after the members in `acc`.
pub open spec fn p_list_tail(
    args: Seq<String>,
    stats: Seq<RefStat>,
    acc: Seq<ExprView>,
    act: bool,
    c: Cursor,
) -> Parsed
    decreases args.len() - c.pos, 7nat,
{
    if c.pos < 0 || c.pos > args.len() {
        exact(Seq::empty())
    } else if c.pos < args.len() && args[c.pos]@ == ","@ {
        match p_and(args, stats, at(c, c.pos + 1)) {
            Parsed::Node(e, a, c2) => if c.pos < c2.pos <= args.len() {
                p_list_tail(args, stats, acc.push(e), act || a, c2)
            } else {
                exact(Seq::empty())
            },
            other => other,
        }
    } else {
        Parsed::Node(gather(acc, 1), act, c)
    }
}

/// `expr1 , expr2 ...`
pub open spec fn p_list(args: Seq<String>, stats: Seq<RefStat>, c: Cursor) -> Parsed
    decreases args.len() - c.pos, 3nat,
{
    match p_and(args, stats, c) {
        Parsed::Node(e, act, c1) => if c.pos < c1.pos <= args.len() {
            p_list_tail(args, stats, seq![e], act, c1)
        } else {
            exact(Seq::empty())
        },
        other => other,
    }
}

/// The rest of an OR chain after the alternatives in `acc`.
pub open spec fn p_or_tail(
    args: Seq<String>,
    stats: Seq<RefStat>,
    acc: Seq<ExprView>,
    act: bool,
    c: Cursor,
) -> Parsed
    decreases args.len() - c.pos, 5nat,
{
    if c.pos < 0 || c.pos > args.len() {
        exact(Seq::empty())
    } else if c.pos < args.len() && (args[c.pos]@ == "-o"@ || args[c.pos]@ == "-or"@) {
        match p_list(args, stats, at(c, c.pos + 1)) {
            Parsed::Node(e, a, c2) => if c.pos < c2.pos <= args.len() {
                p_or_tail(args, stats, acc.push(e), act || a, c2)
            } else {
                exact(Seq::empty())
            },
            other => other,
        }
    } else {
        Parsed::Node(gather(acc, 2), act, c)
    }
}

/// `expr1 -o expr2 ...`
pub open spec fn p_or(args: Seq<String>, stats: Seq<RefStat>, c: Cursor) -> Parsed
    decreases args.len() - c.pos, 4nat,
{
    match p_list(args, stats, c) {
        Parsed::Node(e, act, c1) => if c.pos < c1.pos <= args.len() {
            p_or_tail(args, stats, seq![e], act, c1)
        } else {
            exact(Seq::empty())
        },
        other => other,
    }
}

/// Leading `-H`, `-L`, `-P`: the position after them and the symlink mode the last one sets.
pub open spec fn leading_options(args: Seq<String>, pos: int, mode: SymlinkMode) -> (int, SymlinkMode)
    decreases args.len() - pos,
{
    if 0 <= pos < args.len() && args[pos]@ == "-H"@ {
        leading_options(args, pos + 1, SymlinkMode::CommandLine)
    } else if 0 <= pos < args.len() && args[pos]@ == "-L"@ {
        leading_options(args, pos + 1, SymlinkMode::Always)
    } else if 0 <= pos < args.len() && args[pos]@ == "-P"@ {
        leading_options(args, pos + 1, SymlinkMode::Never)
    } else {
        (pos, mode)
    }
}

/// A starting point: an argument that does not start with `-` and is not `(`, `)`, `!` or `,`.
pub open spec fn is_path_arg(a: Seq<char>) -> bool {
    !(a.len() > 0 && a[0] == '-') && a != "("@ && a != ")"@ && a != "!"@ && a != ","@
}

/// The end of the run of starting points from `pos`.
pub open spec fn paths_end(args: Seq<String>, pos: int) -> int
    decreases args.len() - pos,
{
    if 0 <= pos < args.len() && is_path_arg(args[pos]@) {
        paths_end(args, pos + 1)
    } else {
        pos
    }
}

/// The outcome of parsing a whole command line.
pub enum TopParsed {
    Config(ConfigView),
    Fail(Seq<char>),
    Stat(Seq<char>),
}

/// A command line: `[-H|-L|-P]... [path...] [expression]`. Without paths the
/// search starts at `.`; without an expression it prints everything; an
/// expression without an action is AND-ed with `-print`.
pub open spec fn spec_parse(args: Seq<String>, stats: Seq<RefStat>) -> TopParsed {
    let (p0, mode) = leading_options(args, 0, SymlinkMode::Never);
    let p1 = paths_end(args, p0);
    let paths = if p1 > p0 {
        strings_view(args.subrange(p0, p1))
    } else {
        seq![seq!['.']]
    };
    let cfg0 = ConfigView { paths, symlink_mode: mode, ..default_config_view() };
    if p1 >= args.len() {
        TopParsed::Config(ConfigView { expr: ExprView::Print, ..cfg0 })
    } else {
        match p_or(args, stats, Cursor { pos: p1, used: 0, cfg: cfg0 }) {
            Parsed::Node(e, act, c) => if c.pos < args.len() {
                TopParsed::Fail("unexpected argument: `"@ + args[c.pos]@ + "`"@)
            } else {
                TopParsed::Config(
                    ConfigView {
                        expr: if act {
                            e
                        } else {
                            ExprView::And(seq![e, ExprView::Print])
                        },
                        ..c.cfg
                    },
                )
            },
            Parsed::Fail(t) => TopParsed::Fail(t),
            Parsed::Stat(p) => TopParsed::Stat(p),
        }
    }
}

// ---------------------------------------------------------------------------
// What the grammar guarantees
// ---------------------------------------------------------------------------

/// Some expression of a sequence holds an action exactly when one of them does.
pub proof fn lemma_any_has_action(s: Seq<ExprView>)
    ensures
        any_has_action(s) <==> exists|i: int| 0 <= i < s.len() && #[trigger] spec_has_action(s[i]),
    decreases s.len(),
{
    if s.len() > 0 {
        lemma_any_has_action(s.drop_first());
        if spec_has_action(s[0]) {
        }
        if exists|i: int| 0 <= i < s.len() && #[trigger] spec_has_action(s[i]) {
            let i = choose|i: int| 0 <= i < s.len() && #[trigger] spec_has_action(s[i]);
            if i > 0 {
                assert(spec_has_action(s.drop_first()[i - 1]));
            }
        }
        if exists|i: int| 0 <= i < s.drop_first().len() && #[trigger] spec_has_action(s.drop_first()[i]) {
            let i = choose|i: int| 0 <= i < s.drop_first().len() && #[trigger] spec_has_action(s.drop_first()[i]);
            assert(spec_has_action(s[i + 1]));
        }
    }
}

proof fn lemma_any_has_action_push(s: Seq<ExprView>, e: ExprView)
    ensures
        any_has_action(s.push(e)) == (any_has_action(s) || spec_has_action(e)),
{
    lemma_any_has_action(s);
    lemma_any_has_action(s.push(e));
    if spec_has_action(e) {
        assert(spec_has_action(s.push(e)[s.len() as int]));
    }
    if exists|i: int| 0 <= i < s.len() && #[trigger] spec_has_action(s[i]) {
        let i = choose|i: int| 0 <= i < s.len() && #[trigger] spec_has_action(s[i]);
        assert(spec_has_action(s.push(e)[i]));
    }
    if exists|i: int| 0 <= i < s.push(e).len() && #[trigger] spec_has_action(s.push(e)[i]) {
        let i = choose|i: int| 0 <= i < s.push(e).len() && #[trigger] spec_has_action(s.push(e)[i]);
        if i < s.len() {
            assert(spec_has_action(s[i]));
        }
    }
}

proof fn lemma_any_single(e: ExprView)
    ensures
        any_has_action(seq![e]) == spec_has_action(e),
{
    let s = seq![e];
    assert(s.drop_first() =~= Seq::<ExprView>::empty());
    assert(!any_has_action(Seq::<ExprView>::empty()));
    assert(any_has_action(s) == (spec_has_action(s[0]) || any_has_action(s.drop_first())));
}

proof fn lemma_gather_action(acc: Seq<ExprView>, which: int)
    requires
        acc.len() >= 1,
    ensures
        spec_has_action(gather(acc, which)) == any_has_action(acc),
{
    if acc.len() == 1 {
        assert(acc =~= seq![acc[0]]);
        lemma_any_single(acc[0]);
    }
}

/// The parsed node of a group of primaries holds an action exactly when its
/// flag says so.
spec fn flag_right(p: Option<Parsed>) -> bool {
    p matches Some(Parsed::Node(e, act, _)) ==> act == spec_has_action(e)
}

proof fn lemma_options_action(args: Seq<String>, a: Seq<char>, c1: Cursor)
    ensures
        flag_right(p_options(args, a, c1)),
{
    reveal(p_options);
}

proof fn lemma_text_tests_action(args: Seq<String>, a: Seq<char>, c1: Cursor)
    ensures
        flag_right(p_text_tests(args, a, c1)),
{
    reveal(p_text_tests);
}

proof fn lemma_numeric_tests_action(args: Seq<String>, a: Seq<char>, c1: Cursor)
    ensures
        flag_right(p_numeric_tests(args, a, c1)),
{
    reveal(p_numeric_tests);
}

proof fn lemma_reference_tests_action(args: Seq<String>, stats: Seq<RefStat>, a: Seq<char>, c1: Cursor)
    ensures
        flag_right(p_reference_tests(args, stats, a, c1)),
{
    reveal(p_reference_tests);
    reveal(p_reference);
}

proof fn lemma_actions_action(args: Seq<String>, a: Seq<char>, c1: Cursor)
    ensures
        flag_right(p_actions(args, a, c1)),
{
    reveal(p_actions);
}

proof fn lemma_commands_action(args: Seq<String>, a: Seq<char>, c1: Cursor)
    ensures
        flag_right(p_commands(args, a, c1)),
{
    reveal(p_commands);
}

/// The flag the parser returns with a primary tells whether the primary
/// holds an action (`-prune` does not, `-quit` does, global options stand for
/// `-true` and do not).
pub proof fn lemma_primary_action(args: Seq<String>, stats: Seq<RefStat>, c: Cursor)
    ensures
        p_primary(args, stats, c) matches Parsed::Node(e, act, _) ==> act == spec_has_action(e),
{
    if 0 <= c.pos < args.len() {
        let a = args[c.pos]@;
        let c1 = at(c, c.pos + 1);
        lemma_options_action(args, a, c1);
        lemma_text_tests_action(args, a, c1);
        lemma_numeric_tests_action(args, a, c1);
        lemma_reference_tests_action(args, stats, a, c1);
        lemma_actions_action(args, a, c1);
        lemma_commands_action(args, a, c1);
    }
}

/// The flag the parser returns with an expression tells whether the
/// expression holds an action.
pub proof fn lemma_unary_action(args: Seq<String>, stats: Seq<RefStat>, c: Cursor)
    ensures
        p_unary(args, stats, c) matches Parsed::Node(e, act, _) ==> act == spec_has_action(e),
    decreases args.len() - c.pos, 1nat,
{
    if c.pos < 0 || c.pos >= args.len() {
    } else if args[c.pos]@ == "!"@ || args[c.pos]@ == "-not"@ {
        lemma_unary_action(args, stats, at(c, c.pos + 1));
    } else if args[c.pos]@ == "("@ {
        lemma_or_action(args, stats, at(c, c.pos + 1));
    } else {
        lemma_primary_action(args, stats, c);
    }
}

proof fn lemma_and_tail_action(args: Seq<String>, stats: Seq<RefStat>, acc: Seq<ExprView>, act: bool, c: Cursor)
    requires
        acc.len() >= 1,
        act == any_has_action(acc),
    ensures
        p_and_tail(args, stats, acc, act, c) matches Parsed::Node(e, a, _) ==> a == spec_has_action(e),
    decreases args.len() - c.pos, 6nat,
{
    if c.pos < 0 || c.pos > args.len() {
    } else {
        let p1 = if c.pos < args.len() && (args[c.pos]@ == "-a"@ || args[c.pos]@ == "-and"@) {
            c.pos + 1
        } else {
            c.pos
        };
        let c1 = at(c, p1);
        if p1 >= args.len() || ends_and(args[p1]@) {
            lemma_gather_action(acc, 0);
        } else {
            lemma_unary_action(args, stats, c1);
            match p_unary(args, stats, c1) {
                Parsed::Node(e, a, c2) => if p1 < c2.pos <= args.len() {
                    lemma_any_has_action_push(acc, e);
                    lemma_and_tail_action(args, stats, acc.push(e), act || a, c2);
                },
                _ => {},
            }
        }
    }
}

proof fn lemma_and_action(args: Seq<String>, stats: Seq<RefStat>, c: Cursor)
    ensures
        p_and(args, stats, c) matches Parsed::Node(e, act, _) ==> act == spec_has_action(e),
    decreases args.len() - c.pos, 2nat,
{
    lemma_unary_action(args, stats, c);
    match p_unary(args, stats, c) {
        Parsed::Node(e, act, c1) => if c.pos < c1.pos <= args.len() {
            lemma_any_single(e);
            lemma_and_tail_action(args, stats, seq![e], act, c1);
        },
        _ => {},
    }
}

proof fn lemma_list_tail_action(args: Seq<String>, stats: Seq<RefStat>, acc: Seq<ExprView>, act: bool, c: Cursor)
    requires
        acc.len() >= 1,
        act == any_has_action(acc),
    ensures
        p_list_tail(args, stats, acc, act, c) matches Parsed::Node(e, a, _) ==> a == spec_has_action(e),
    decreases args.len() - c.pos, 7nat,
{
    if c.pos < 0 || c.pos > args.len() {
    } else if c.pos < args.len() && args[c.pos]@ == ","@ {
        lemma_and_action(args, stats, at(c, c.pos + 1));
        match p_and(args, stats, at(c, c.pos + 1)) {
            Parsed::Node(e, a, c2) => if c.pos < c2.pos <= args.len() {
                lemma_any_has_action_push(acc, e);
                lemma_list_tail_action(args, stats, acc.push(e), act || a, c2);
            },
            _ => {},
        }
    } else {
        lemma_gather_action(acc, 1);
    }
}

proof fn lemma_list_action(args: Seq<String>, stats: Seq<RefStat>, c: Cursor)
    ensures
        p_list(args, stats, c) matches Parsed::Node(e, act, _) ==> act == spec_has_action(e),
    decreases args.len() - c.pos, 3nat,
{
    lemma_and_action(args, stats, c);
    match p_and(args, stats, c) {
        Parsed::Node(e, act, c1) => if c.pos < c1.pos <= args.len() {
            lemma_any_single(e);
            lemma_list_tail_action(args, stats, seq![e], act, c1);
        },
        _ => {},
    }
}

proof fn lemma_or_tail_action(args: Seq<String>, stats: Seq<RefStat>, acc: Seq<ExprView>, act: bool, c: Cursor)
    requires
        acc.len() >= 1,
        act == any_has_action(acc),
    ensures
        p_or_tail(args, stats, acc, act, c) matches Parsed::Node(e, a, _) ==> a == spec_has_action(e),
    decreases args.len() - c.pos, 5nat,
{
    if c.pos < 0 || c.pos > args.len() {
    } else if c.pos < args.len() && (args[c.pos]@ == "-o"@ || args[c.pos]@ == "-or"@) {
        lemma_list_action(args, stats, at(c, c.pos + 1));
        match p_list(args, stats, at(c, c.pos + 1)) {
            Parsed::Node(e, a, c2) => if c.pos < c2.pos <= args.len() {
                lemma_any_has_action_push(acc, e);
                lemma_or_tail_action(args, stats, acc.push(e), act || a, c2);
            },
            _ => {},
        }
    } else {
        lemma_gather_action(acc, 2);
    }
}

/// The flag the parser returns with a whole expression tells whether the
/// expression holds an action.
pub proof fn lemma_or_action(args: Seq<String>, stats: Seq<RefStat>, c: Cursor)
    ensures
        p_or(args, stats, c) matches Parsed::Node(e, act, _) ==> act == spec_has_action(e),
    decreases args.len() - c.pos, 4nat,
{
    lemma_list_action(args, stats, c);
    match p_list(args, stats, c) {
        Parsed::Node(e, act, c1) => if c.pos < c1.pos <= args.len() {
            lemma_any_single(e);
            lemma_or_tail_action(args, stats, seq![e], act, c1);
        },
        _ => {},
    }
}

/// Every command line that parses yields an expression holding an action:
/// an expression without one is combined with `-print` (and no expression at
/// all is `-print`), so every match is acted upon.
pub proof fn lemma_parsed_expression_acts(args: Seq<String>, stats: Seq<RefStat>)
    ensures
        spec_parse(args, stats) matches TopParsed::Config(c) ==> spec_has_action(c.expr),
{
    let (p0, mode) = leading_options(args, 0, SymlinkMode::Never);
    let p1 = paths_end(args, p0);
    let paths = if p1 > p0 {
        strings_view(args.subrange(p0, p1))
    } else {
        seq![seq!['.']]
    };
    let cfg0 = ConfigView { paths, symlink_mode: mode, ..default_config_view() };
    if p1 < args.len() {
        lemma_or_action(args, stats, Cursor { pos: p1, used: 0, cfg: cfg0 });
        match p_or(args, stats, Cursor { pos: p1, used: 0, cfg: cfg0 }) {
            Parsed::Node(e, act, c) => {
                if !act {
                    let s = seq![e, ExprView::Print];
                    lemma_any_has_action(s);
                    assert(spec_has_action(s[1]));
                }
            },
            _ => {},
        }
    }
}

/// Whether the expression holds `-delete`.
pub open spec fn holds_delete(e: ExprView) -> bool
    decreases e,
{
    match e {
        ExprView::And(s) => any_holds_delete(s),
        ExprView::Or(s) => any_holds_delete(s),
        ExprView::List(s) => any_holds_delete(s),
        ExprView::Not(b) => holds_delete(*b),
        ExprView::Delete => true,
        _ => false,
    }
}

/// Whether some expression of the sequence holds `-delete`.
pub open spec fn any_holds_delete(s: Seq<ExprView>) -> bool
    decreases s,
{
    if s.len() == 0 {
        false
    } else {
        holds_delete(s[0]) || any_holds_delete(s.drop_first())
    }
}

proof fn lemma_any_holds_delete_push(s: Seq<ExprView>, e: ExprView)
    ensures
        any_holds_delete(s.push(e)) == (any_holds_delete(s) || holds_delete(e)),
    decreases s.len(),
{
    assert(!any_holds_delete(Seq::<ExprView>::empty()));
    if s.len() == 0 {
        assert(s.push(e).drop_first() =~= Seq::<ExprView>::empty());
        assert(s.push(e)[0] == e);
    } else {
        lemma_any_holds_delete_push(s.drop_first(), e);
        assert(s.push(e).drop_first() =~= s.drop_first().push(e));
        assert(s.push(e)[0] == s[0]);
    }
}

proof fn lemma_gather_delete(acc: Seq<ExprView>, which: int)
    requires
        acc.len() >= 1,
    ensures
        holds_delete(gather(acc, which)) == any_holds_delete(acc),
{
    if acc.len() == 1 {
        assert(acc.drop_first() =~= Seq::<ExprView>::empty());
        assert(!any_holds_delete(Seq::<ExprView>::empty()));
    }
}

/// What parsing a piece keeps: `-depth` once set stays set, and a piece
/// holding `-delete` leaves it set.
spec fn depth_kept(c: Cursor, p: Parsed) -> bool {
    p matches Parsed::Node(e, _, c2) ==> (c.cfg.depth_first ==> c2.cfg.depth_first) && (holds_delete(e)
        ==> c2.cfg.depth_first) && c2.cfg.paths == c.cfg.paths
}

spec fn depth_kept_opt(c: Cursor, p: Option<Parsed>) -> bool {
    p matches Some(x) ==> depth_kept(c, x)
}

proof fn lemma_primary_depth(args: Seq<String>, stats: Seq<RefStat>, c: Cursor)
    ensures
        depth_kept(c, p_primary(args, stats, c)),
{
    if 0 <= c.pos < args.len() {
        let a = args[c.pos]@;
        let c1 = at(c, c.pos + 1);
        assert(depth_kept_opt(c, p_options(args, a, c1))) by {
            reveal(p_options);
        }
        assert(depth_kept_opt(c, p_text_tests(args, a, c1))) by {
            reveal(p_text_tests);
        }
        assert(depth_kept_opt(c, p_numeric_tests(args, a, c1))) by {
            reveal(p_numeric_tests);
        }
        assert(depth_kept_opt(c, p_reference_tests(args, stats, a, c1))) by {
            reveal(p_reference_tests);
            reveal(p_reference);
        }
        assert(depth_kept_opt(c, p_actions(args, a, c1))) by {
            reveal(p_actions);
        }
        assert(depth_kept_opt(c, p_commands(args, a, c1))) by {
            reveal(p_commands);
        }
    }
}

proof fn lemma_unary_depth(args: Seq<String>, stats: Seq<RefStat>, c: Cursor)
    ensures
        depth_kept(c, p_unary(args, stats, c)),
    decreases args.len() - c.pos, 1nat,
{
    if c.pos < 0 || c.pos >= args.len() {
    } else if args[c.pos]@ == "!"@ || args[c.pos]@ == "-not"@ {
        lemma_unary_depth(args, stats, at(c, c.pos + 1));
    } else if args[c.pos]@ == "("@ {
        lemma_or_depth(args, stats, at(c, c.pos + 1));
    } else {
        lemma_primary_depth(args, stats, c);
    }
}

proof fn lemma_and_tail_depth(args: Seq<String>, stats: Seq<RefStat>, acc: Seq<ExprView>, act: bool, c: Cursor, c0: Cursor)
    requires
        acc.len() >= 1,
        c0.cfg.depth_first ==> c.cfg.depth_first,
        any_holds_delete(acc) ==> c.cfg.depth_first,
        c.cfg.paths == c0.cfg.paths,
    ensures
        depth_kept(c0, p_and_tail(args, stats, acc, act, c)),
    decreases args.len() - c.pos, 6nat,
{
    if c.pos < 0 || c.pos > args.len() {
    } else {
        let p1 = if c.pos < args.len() && (args[c.pos]@ == "-a"@ || args[c.pos]@ == "-and"@) {
            c.pos + 1
        } else {
            c.pos
        };
        let c1 = at(c, p1);
        if p1 >= args.len() || ends_and(args[p1]@) {
            lemma_gather_delete(acc, 0);
        } else {
            lemma_unary_depth(args, stats, c1);
            match p_unary(args, stats, c1) {
                Parsed::Node(e, a, c2) => if p1 < c2.pos <= args.len() {
                    lemma_any_holds_delete_push(acc, e);
                    lemma_and_tail_depth(args, stats, acc.push(e), act || a, c2, c0);
                },
                _ => {},
            }
        }
    }
}

proof fn lemma_and_depth(args: Seq<String>, stats: Seq<RefStat>, c: Cursor)
    ensures
        depth_kept(c, p_and(args, stats, c)),
    decreases args.len() - c.pos, 2nat,
{
    lemma_unary_depth(args, stats, c);
    match p_unary(args, stats, c) {
        Parsed::Node(e, act, c1) => if c.pos < c1.pos <= args.len() {
            lemma_any_holds_delete_push(Seq::empty(), e);
            assert(Seq::<ExprView>::empty().push(e) =~= seq![e]);
            lemma_and_tail_depth(args, stats, seq![e], act, c1, c);
        },
        _ => {},
    }
}

proof fn lemma_list_tail_depth(args: Seq<String>, stats: Seq<RefStat>, acc: Seq<ExprView>, act: bool, c: Cursor, c0: Cursor)
    requires
        acc.len() >= 1,
        c0.cfg.depth_first ==> c.cfg.depth_first,
        any_holds_delete(acc) ==> c.cfg.depth_first,
        c.cfg.paths == c0.cfg.paths,
    ensures
        depth_kept(c0, p_list_tail(args, stats, acc, act, c)),
    decreases args.len() - c.pos, 7nat,
{
    if c.pos < 0 || c.pos > args.len() {
    } else if c.pos < args.len() && args[c.pos]@ == ","@ {
        lemma_and_depth(args, stats, at(c, c.pos + 1));
        match p_and(args, stats, at(c, c.pos + 1)) {
            Parsed::Node(e, a, c2) => if c.pos < c2.pos <= args.len() {
                lemma_any_holds_delete_push(acc, e);
                lemma_list_tail_depth(args, stats, acc.push(e), act || a, c2, c0);
            },
            _ => {},
        }
    } else {
        lemma_gather_delete(acc, 1);
    }
}

proof fn lemma_list_depth(args: Seq<String>, stats: Seq<RefStat>, c: Cursor)
    ensures
        depth_kept(c, p_list(args, stats, c)),
    decreases args.len() - c.pos, 3nat,
{
    lemma_and_depth(args, stats, c);
    match p_and(args, stats, c) {
        Parsed::Node(e, act, c1) => if c.pos < c1.pos <= args.len() {
            lemma_any_holds_delete_push(Seq::empty(), e);
            assert(Seq::<ExprView>::empty().push(e) =~= seq![e]);
            lemma_list_tail_depth(args, stats, seq![e], act, c1, c);
        },
        _ => {},
    }
}

proof fn lemma_or_tail_depth(args: Seq<String>, stats: Seq<RefStat>, acc: Seq<ExprView>, act: bool, c: Cursor, c0: Cursor)
    requires
        acc.len() >= 1,
        c0.cfg.depth_first ==> c.cfg.depth_first,
        any_holds_delete(acc) ==> c.cfg.depth_first,
        c.cfg.paths == c0.cfg.paths,
    ensures
        depth_kept(c0, p_or_tail(args, stats, acc, act, c)),
    decreases args.len() - c.pos, 5nat,
{
    if c.pos < 0 || c.pos > args.len() {
    } else if c.pos < args.len() && (args[c.pos]@ == "-o"@ || args[c.pos]@ == "-or"@) {
        lemma_list_depth(args, stats, at(c, c.pos + 1));
        match p_list(args, stats, at(c, c.pos + 1)) {
            Parsed::Node(e, a, c2) => if c.pos < c2.pos <= args.len() {
                lemma_any_holds_delete_push(acc, e);
                lemma_or_tail_depth(args, stats, acc.push(e), act || a, c2, c0);
            },
            _ => {},
        }
    } else {
        lemma_gather_delete(acc, 2);
    }
}

proof fn lemma_or_depth(args: Seq<String>, stats: Seq<RefStat>, c: Cursor)
    ensures
        depth_kept(c, p_or(args, stats, c)),
    decreases args.len() - c.pos, 4nat,
{
    lemma_list_depth(args, stats, c);
    match p_list(args, stats, c) {
        Parsed::Node(e, act, c1) => if c.pos < c1.pos <= args.len() {
            lemma_any_holds_delete_push(Seq::empty(), e);
            assert(Seq::<ExprView>::empty().push(e) =~= seq![e]);
            lemma_or_tail_depth(args, stats, seq![e], act, c1, c);
        },
        _ => {},
    }
}

/// `-delete` implies `-depth`: a command line that parses to an expression
/// holding `-delete` processes directory contents before the directory.
pub proof fn lemma_delete_implies_depth(args: Seq<String>, stats: Seq<RefStat>)
    ensures
        spec_parse(args, stats) matches TopParsed::Config(c) ==> (holds_delete(c.expr) ==> c.depth_first),
{
    let (p0, mode) = leading_options(args, 0, SymlinkMode::Never);
    let p1 = paths_end(args, p0);
    let paths = if p1 > p0 {
        strings_view(args.subrange(p0, p1))
    } else {
        seq![seq!['.']]
    };
    let cfg0 = ConfigView { paths, symlink_mode: mode, ..default_config_view() };
    if p1 < args.len() {
        lemma_or_depth(args, stats, Cursor { pos: p1, used: 0, cfg: cfg0 });
        match p_or(args, stats, Cursor { pos: p1, used: 0, cfg: cfg0 }) {
            Parsed::Node(e, act, c) => {
                if !act {
                    let s = seq![e, ExprView::Print];
                    assert(s.drop_first() =~= seq![ExprView::Print]);
                    assert(s.drop_first().drop_first() =~= Seq::<ExprView>::empty());
                    assert(!any_holds_delete(Seq::<ExprView>::empty()));
                    assert(!holds_delete(ExprView::Print));
                    assert(any_holds_delete(s.drop_first()) == false);
                    assert(any_holds_delete(s) == holds_delete(e));
                }
            },
            _ => {},
        }
    }
}

/// The paths a command line names: the arguments after the leading
/// `-H`/`-L`/`-P` up to the expression, or `.` when there are none.
pub open spec fn command_paths(args: Seq<String>) -> Seq<Seq<char>> {
    let (p0, _) = leading_options(args, 0, SymlinkMode::Never);
    let p1 = paths_end(args, p0);
    if p1 > p0 {
        strings_view(args.subrange(p0, p1))
    } else {
        seq![seq!['.']]
    }
}

/// Where the expression of a command line starts.
pub open spec fn expression_start(args: Seq<String>) -> int {
    paths_end(args, leading_options(args, 0, SymlinkMode::Never).0)
}

/// The configuration the expression is parsed from.
pub open spec fn start_config(args: Seq<String>) -> ConfigView {
    ConfigView {
        paths: command_paths(args),
        symlink_mode: leading_options(args, 0, SymlinkMode::Never).1,
        ..default_config_view()
    }
}

/// The shape of a parsed command line: the paths are those named before the
/// expression (`.` for none), whatever options the expression holds; with no
/// expression the expression is `-print`; else it is the parsed expression,
/// AND-ed with `-print` when it holds no action.
pub proof fn lemma_parse_shape(args: Seq<String>, stats: Seq<RefStat>)
    ensures
        spec_parse(args, stats) matches TopParsed::Config(c) ==> {
            &&& c.paths == command_paths(args)
            &&& expression_start(args) >= args.len() ==> c.expr == ExprView::Print
            &&& expression_start(args) < args.len() ==> (p_or(
                args,
                stats,
                Cursor { pos: expression_start(args), used: 0, cfg: start_config(args) },
            ) matches Parsed::Node(e, _, _) && c.expr == (if spec_has_action(e) {
                e
            } else {
                ExprView::And(seq![e, ExprView::Print])
            }))
        },
{
    let c0 = Cursor { pos: expression_start(args), used: 0, cfg: start_config(args) };
    if expression_start(args) < args.len() {
        lemma_or_depth(args, stats, c0);
        lemma_or_action(args, stats, c0);
    }
}

/// One of the leading symlink options.
pub open spec fn is_symlink_option(a: Seq<char>) -> bool {
    a == "-H"@ || a == "-L"@ || a == "-P"@
}

proof fn lemma_leading_options(args: Seq<String>, pos: int, mode: SymlinkMode)
    requires
        0 <= pos <= args.len(),
    ensures
        pos <= leading_options(args, pos, mode).0 <= args.len(),
        forall|i: int| pos <= i < leading_options(args, pos, mode).0 ==> is_symlink_option(#[trigger] args[i]@),
        leading_options(args, pos, mode).0 < args.len() ==> !is_symlink_option(
            args[leading_options(args, pos, mode).0]@,
        ),
    decreases args.len() - pos,
{
    if pos < args.len() && is_symlink_option(args[pos]@) {
        let m = if args[pos]@ == "-H"@ {
            SymlinkMode::CommandLine
        } else if args[pos]@ == "-L"@ {
            SymlinkMode::Always
        } else {
            SymlinkMode::Never
        };
        lemma_leading_options(args, pos + 1, m);
    }
}

proof fn lemma_paths_end(args: Seq<String>, pos: int)
    requires
        0 <= pos <= args.len(),
    ensures
        pos <= paths_end(args, pos) <= args.len(),
        forall|i: int| pos <= i < paths_end(args, pos) ==> is_path_arg(#[trigger] args[i]@),
        paths_end(args, pos) < args.len() ==> !is_path_arg(args[paths_end(args, pos)]@),
    decreases args.len() - pos,
{
    if pos < args.len() && is_path_arg(args[pos]@) {
        lemma_paths_end(args, pos + 1);
    }
}

/// How a command line splits: first the leading `-H`/`-L`/`-P` options, then
/// the paths (arguments that do not start with `-` and are not `(`, `)`, `!`
/// or `,`), then the expression, which starts with the first argument that is
/// not a path. The paths of the configuration (`lemma_parse_shape`) are those
/// arguments, or `.` when there are none.
pub proof fn lemma_command_split(args: Seq<String>)
    ensures
        ({
            let p0 = leading_options(args, 0, SymlinkMode::Never).0;
            let p1 = expression_start(args);
            &&& 0 <= p0 <= p1 <= args.len()
            &&& forall|i: int| 0 <= i < p0 ==> is_symlink_option(#[trigger] args[i]@)
            &&& p0 < args.len() ==> !is_symlink_option(args[p0]@)
            &&& forall|i: int| p0 <= i < p1 ==> is_path_arg(#[trigger] args[i]@)
            &&& p1 < args.len() ==> !is_path_arg(args[p1]@)
            &&& command_paths(args) == (if p1 > p0 {
                strings_view(args.subrange(p0, p1))
            } else {
                seq![seq!['.']]
            })
        }),
{
    lemma_leading_options(args, 0, SymlinkMode::Never);
    let p0 = leading_options(args, 0, SymlinkMode::Never).0;
    lemma_paths_end(args, p0);
}

} // verus!
