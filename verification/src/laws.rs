//! What the operations of the library are for, stated over all inputs:
//! evaluation of tests and actions, `-printf` numbers, the parsing of numeric
//! tests and the depths the walk evaluates at.
use vstd::prelude::*;

use crate::eval::{Answer, EntryType, Meta, OutputView, RequestView};
use crate::eval_spec::{Env, EvalState, Res, TokOut, ev, mode_string, printf_token, replace_braces};
use crate::expr::{ArgView, Cmp, ConfigView, ExprView, FileType, PermMatch, SizeUnit, Timestamp, TokenView};
use crate::grammar::{Cursor, Parsed, at, is_newer_xy, numeric_test_index, p_actions, p_reference_tests, p_numeric_tests, p_options, p_primary, p_text_tests};
use crate::parser::{RefStat, spec_parse_perm, spec_parse_size};
use crate::text::{spec_decimal_int, spec_parse_unsigned, u64_wrap};
use crate::expr::spec_parse_cmp;

verus! {

/// The permission bits of a mode (the file-type bits taken away).
pub open spec fn permission_bits(mode: u32) -> u32 {
    mode & 0o7777u32
}

/// `-perm`, with the metadata already read: `-perm MODE` holds exactly when
/// the permission bits equal MODE; `-perm -MODE` exactly when every bit of
/// MODE is set among them (a file lacking one never matches); `-perm /MODE`
/// exactly when some bit of MODE is set among them (always, for MODE 0).
/// Nothing is asked and nothing changes.
pub proof fn law_perm(env: Env, st: EvalState, m: Meta, mode: u32)
    requires
        !st.quit,
        st.meta == Some(m),
    ensures
        ev(ExprView::Perm { mode, match_type: PermMatch::Exact }, env, st) == (st, Res::Val(
            permission_bits(m.mode) == mode,
        )),
        ev(ExprView::Perm { mode, match_type: PermMatch::All }, env, st) == (st, Res::Val(
            permission_bits(m.mode) & mode == mode,
        )),
        ev(ExprView::Perm { mode, match_type: PermMatch::Any }, env, st) == (st, Res::Val(
            mode == 0 || permission_bits(m.mode) & mode != 0,
        )),
        forall|b: u32| #![trigger permission_bits(m.mode) & b]
            (b & mode == b && b != 0 && permission_bits(m.mode) & b == 0) ==> ev(
                ExprView::Perm { mode, match_type: PermMatch::All },
                env,
                st,
            ) == (st, Res::Val(false)),
{
    reveal(crate::eval_spec::ev_meta_test);
    let fm = permission_bits(m.mode);
    assert forall|b: u32| #![trigger permission_bits(m.mode) & b]
        (b & mode == b && b != 0 && permission_bits(m.mode) & b == 0) implies !(fm & mode == mode) by {
        assert((b & mode == b && b != 0 && fm & b == 0) ==> fm & mode != mode) by (bit_vector);
    }
}

/// `-perm` when the metadata is read from the next answer: the same value,
/// and the metadata is kept for later tests.
pub proof fn law_perm_reads_metadata(env: Env, st: EvalState, m: Meta, mode: u32)
    requires
        !st.quit,
        st.meta is None,
        0 <= st.pos < env.answers.len(),
        env.answers[st.pos] == Answer::Meta(Ok(m)),
    ensures
        ev(ExprView::Perm { mode, match_type: PermMatch::All }, env, st) == (
            EvalState { meta: Some(m), pos: st.pos + 1, ..st },
            Res::Val(permission_bits(m.mode) & mode == mode),
        ),
{
    reveal(crate::eval_spec::ev_meta_test);
}

/// Counts and ids against the metadata already read: `-links`, `-inum`,
/// `-uid`, `-gid` compare the link count, inode number, owner and group with
/// the number (`+n` more, `-n` fewer, `n` exactly); `-samefile` holds for the
/// same device and inode; `-empty` on a file holds for size 0.
pub proof fn law_metadata_tests(env: Env, st: EvalState, m: Meta, t: u64, dev: u64, ino: u64)
    requires
        !st.quit,
        st.meta == Some(m),
    ensures
        ev(ExprView::Links(Cmp::Greater, t), env, st) == (st, Res::Val(m.nlink > t)),
        ev(ExprView::Links(Cmp::Less, t), env, st) == (st, Res::Val(m.nlink < t)),
        ev(ExprView::Links(Cmp::Equal, t), env, st) == (st, Res::Val(m.nlink == t)),
        ev(ExprView::Inum(Cmp::Greater, t), env, st) == (st, Res::Val(m.ino > t)),
        ev(ExprView::Inum(Cmp::Less, t), env, st) == (st, Res::Val(m.ino < t)),
        ev(ExprView::Inum(Cmp::Equal, t), env, st) == (st, Res::Val(m.ino == t)),
        ev(ExprView::Uid(Cmp::Greater, t), env, st) == (st, Res::Val(m.uid > t)),
        ev(ExprView::Uid(Cmp::Less, t), env, st) == (st, Res::Val(m.uid < t)),
        ev(ExprView::Uid(Cmp::Equal, t), env, st) == (st, Res::Val(m.uid == t)),
        ev(ExprView::Gid(Cmp::Greater, t), env, st) == (st, Res::Val(m.gid > t)),
        ev(ExprView::Gid(Cmp::Less, t), env, st) == (st, Res::Val(m.gid < t)),
        ev(ExprView::Gid(Cmp::Equal, t), env, st) == (st, Res::Val(m.gid == t)),
        ev(ExprView::SameFile { dev, ino }, env, st) == (st, Res::Val(m.dev == dev && m.ino == ino)),
        !env.entry.is_dir ==> ev(ExprView::Empty, env, st) == (st, Res::Val(m.len == 0)),
{
    reveal(crate::eval_spec::ev_meta_test);
}

/// `-exec COMMAND ;` and `-execdir COMMAND ;` with a command: the command is
/// asked to run; once it has run, the test is true exactly when it exited
/// successfully (a failing command makes it false).
pub proof fn law_exec_value(env: Env, st: EvalState, args: Seq<ArgView>, b: bool)
    requires
        !st.quit,
        args.len() > 0,
    ensures
        ({
            let r1 = ev(ExprView::Exec { args, batch: false }, env, st);
            let r2 = ev(ExprView::ExecDir { args, batch: false }, env, st);
            &&& (0 <= st.pos < env.answers.len() && env.answers[st.pos] == Answer::Ran(Ok(b))) ==> r1
                == (EvalState { pos: st.pos + 1, ..st }, Res::Val(b)) && r2 == (
                EvalState { pos: st.pos + 1, ..st },
                Res::Val(b),
            )
            &&& (st.pos == env.answers.len()) ==> r1.0 == st && r2.0 == st
            &&& (st.pos == env.answers.len()) ==> (r1.1 matches Res::Need(RequestView::Run(c)) && c.args.len()
                == args.len() - 1)
            &&& (st.pos == env.answers.len()) ==> (r2.1 matches Res::Need(RequestView::Run(c)) && c.args.len()
                == args.len() - 1)
        }),
{
    reveal(crate::eval_spec::ev_action);
}

/// The numbers `-printf` prints from the metadata already read: `%s` the
/// size in bytes, `%k` the disk usage in 1K blocks (half the 512-byte block
/// count), `%b` the 512-byte block count, `%n` the link count, `%U` and `%G`
/// the owner and group ids, `%i` the inode and `%D` the device, in decimal.
pub proof fn law_printf_numbers(env: Env, st: EvalState, m: Meta)
    requires
        st.meta == Some(m),
    ensures
        printf_token(TokenView::Size, env, st) == (st, TokOut::Text(spec_decimal_int(m.len as int))),
        printf_token(TokenView::SizeInBlocks, env, st) == (st, TokOut::Text(
            spec_decimal_int(m.blocks as int / 2),
        )),
        printf_token(TokenView::BlockSize, env, st) == (st, TokOut::Text(
            spec_decimal_int(m.blocks as int),
        )),
        printf_token(TokenView::Nlinks, env, st) == (st, TokOut::Text(spec_decimal_int(m.nlink as int))),
        printf_token(TokenView::Uid, env, st) == (st, TokOut::Text(spec_decimal_int(m.uid as int))),
        printf_token(TokenView::Gid, env, st) == (st, TokOut::Text(spec_decimal_int(m.gid as int))),
        printf_token(TokenView::Inode, env, st) == (st, TokOut::Text(spec_decimal_int(m.ino as int))),
        printf_token(TokenView::DeviceNumber, env, st) == (st, TokOut::Text(
            spec_decimal_int(m.dev as int),
        )),
{
    reveal(crate::eval_spec::printf_token);
}


/// The numeric tests parse to their own tests: `-uid`, `-gid`, `-links`,
/// `-inum` (the count taken as `u64`), `-mtime`, `-mmin`, `-atime`, `-amin`,
/// `-ctime`, `-cmin` and `-used`, each followed by `+N`, `-N` or `N`, give the
/// test of that name with the comparison and count of the argument, and hold
/// no action; parsing goes on after the argument.
pub proof fn law_numeric_tests(args: Seq<String>, stats: Seq<RefStat>, c: Cursor, k: Cmp, n: i64)
    requires
        0 <= c.pos,
        c.pos + 1 < args.len(),
        spec_parse_cmp(args[c.pos + 1]@) == Ok::<(Cmp, i64), Seq<char>>((k, n)),
    ensures
        args[c.pos]@ == "-uid"@ ==> p_primary(args, stats, c) == Parsed::Node(
            ExprView::Uid(k, u64_wrap(n)),
            false,
            at(c, c.pos + 2),
        ),
        args[c.pos]@ == "-gid"@ ==> p_primary(args, stats, c) == Parsed::Node(
            ExprView::Gid(k, u64_wrap(n)),
            false,
            at(c, c.pos + 2),
        ),
        args[c.pos]@ == "-links"@ ==> p_primary(args, stats, c) == Parsed::Node(
            ExprView::Links(k, u64_wrap(n)),
            false,
            at(c, c.pos + 2),
        ),
        args[c.pos]@ == "-inum"@ ==> p_primary(args, stats, c) == Parsed::Node(
            ExprView::Inum(k, u64_wrap(n)),
            false,
            at(c, c.pos + 2),
        ),
        args[c.pos]@ == "-mtime"@ ==> p_primary(args, stats, c) == Parsed::Node(
            ExprView::MTime(k, n),
            false,
            at(c, c.pos + 2),
        ),
        args[c.pos]@ == "-mmin"@ ==> p_primary(args, stats, c) == Parsed::Node(
            ExprView::MMin(k, n),
            false,
            at(c, c.pos + 2),
        ),
        args[c.pos]@ == "-atime"@ ==> p_primary(args, stats, c) == Parsed::Node(
            ExprView::ATime(k, n),
            false,
            at(c, c.pos + 2),
        ),
        args[c.pos]@ == "-amin"@ ==> p_primary(args, stats, c) == Parsed::Node(
            ExprView::AMin(k, n),
            false,
            at(c, c.pos + 2),
        ),
        args[c.pos]@ == "-ctime"@ ==> p_primary(args, stats, c) == Parsed::Node(
            ExprView::CTime(k, n),
            false,
            at(c, c.pos + 2),
        ),
        args[c.pos]@ == "-cmin"@ ==> p_primary(args, stats, c) == Parsed::Node(
            ExprView::CMin(k, n),
            false,
            at(c, c.pos + 2),
        ),
        args[c.pos]@ == "-used"@ ==> p_primary(args, stats, c) == Parsed::Node(
            ExprView::Used(k, n),
            false,
            at(c, c.pos + 2),
        ),
{
    let c1 = at(c, c.pos + 1);
    reveal(p_numeric_tests);
    lemma_option_uid(args, c1);
    lemma_option_gid(args, c1);
    lemma_option_links(args, c1);
    lemma_option_inum(args, c1);
    lemma_option_mtime(args, c1);
    lemma_option_mmin(args, c1);
    lemma_option_atime(args, c1);
    lemma_option_amin(args, c1);
    lemma_option_ctime(args, c1);
    lemma_option_cmin(args, c1);
    lemma_option_used(args, c1);
}

/// `-uid` is the numeric test number 0 and no other option.
proof fn lemma_option_uid(args: Seq<String>, c1: Cursor)
    ensures
        numeric_test_index("-uid"@) == Some(0int),
        p_options(args, "-uid"@, c1) is None,
        p_text_tests(args, "-uid"@, c1) is None,
        "-uid"@ != "--version"@ && "-uid"@ != "-version"@ && "-uid"@ != "--help"@ && "-uid"@ != "-help"@,
{
    assert("-uid"@ != "-maxdepth"@) by {
        reveal_strlit("-uid");
        reveal_strlit("-maxdepth");
        lemma_differ("-uid"@, "-maxdepth"@, 0);
    }
    assert("-uid"@ != "-mindepth"@) by {
        reveal_strlit("-uid");
        reveal_strlit("-mindepth");
        lemma_differ("-uid"@, "-mindepth"@, 0);
    }
    assert("-uid"@ != "-depth"@) by {
        reveal_strlit("-uid");
        reveal_strlit("-depth");
        lemma_differ("-uid"@, "-depth"@, 0);
    }
    assert("-uid"@ != "-d"@) by {
        reveal_strlit("-uid");
        reveal_strlit("-d");
        lemma_differ("-uid"@, "-d"@, 0);
    }
    assert("-uid"@ != "-xdev"@) by {
        reveal_strlit("-uid");
        reveal_strlit("-xdev");
        lemma_differ("-uid"@, "-xdev"@, 0);
    }
    assert("-uid"@ != "-mount"@) by {
        reveal_strlit("-uid");
        reveal_strlit("-mount");
        lemma_differ("-uid"@, "-mount"@, 0);
    }
    assert("-uid"@ != "-noleaf"@) by {
        reveal_strlit("-uid");
        reveal_strlit("-noleaf");
        lemma_differ("-uid"@, "-noleaf"@, 0);
    }
    assert("-uid"@ != "-daystart"@) by {
        reveal_strlit("-uid");
        reveal_strlit("-daystart");
        lemma_differ("-uid"@, "-daystart"@, 0);
    }
    assert("-uid"@ != "-warn"@) by {
        reveal_strlit("-uid");
        reveal_strlit("-warn");
        lemma_differ("-uid"@, "-warn"@, 0);
    }
    assert("-uid"@ != "-nowarn"@) by {
        reveal_strlit("-uid");
        reveal_strlit("-nowarn");
        lemma_differ("-uid"@, "-nowarn"@, 0);
    }
    assert("-uid"@ != "-ignore_readdir_race"@) by {
        reveal_strlit("-uid");
        reveal_strlit("-ignore_readdir_race");
        lemma_differ("-uid"@, "-ignore_readdir_race"@, 0);
    }
    assert("-uid"@ != "-noignore_readdir_race"@) by {
        reveal_strlit("-uid");
        reveal_strlit("-noignore_readdir_race");
        lemma_differ("-uid"@, "-noignore_readdir_race"@, 0);
    }
    assert("-uid"@ != "-regextype"@) by {
        reveal_strlit("-uid");
        reveal_strlit("-regextype");
        lemma_differ("-uid"@, "-regextype"@, 0);
    }
    assert("-uid"@ != "-true"@) by {
        reveal_strlit("-uid");
        reveal_strlit("-true");
        lemma_differ("-uid"@, "-true"@, 0);
    }
    assert("-uid"@ != "-false"@) by {
        reveal_strlit("-uid");
        reveal_strlit("-false");
        lemma_differ("-uid"@, "-false"@, 0);
    }
    assert("-uid"@ != "-name"@) by {
        reveal_strlit("-uid");
        reveal_strlit("-name");
        lemma_differ("-uid"@, "-name"@, 0);
    }
    assert("-uid"@ != "-iname"@) by {
        reveal_strlit("-uid");
        reveal_strlit("-iname");
        lemma_differ("-uid"@, "-iname"@, 0);
    }
    assert("-uid"@ != "-path"@) by {
        reveal_strlit("-uid");
        reveal_strlit("-path");
        lemma_differ("-uid"@, "-path"@, 0);
    }
    assert("-uid"@ != "-wholename"@) by {
        reveal_strlit("-uid");
        reveal_strlit("-wholename");
        lemma_differ("-uid"@, "-wholename"@, 0);
    }
    assert("-uid"@ != "-ipath"@) by {
        reveal_strlit("-uid");
        reveal_strlit("-ipath");
        lemma_differ("-uid"@, "-ipath"@, 0);
    }
    assert("-uid"@ != "-iwholename"@) by {
        reveal_strlit("-uid");
        reveal_strlit("-iwholename");
        lemma_differ("-uid"@, "-iwholename"@, 0);
    }
    assert("-uid"@ != "-lname"@) by {
        reveal_strlit("-uid");
        reveal_strlit("-lname");
        lemma_differ("-uid"@, "-lname"@, 0);
    }
    assert("-uid"@ != "-ilname"@) by {
        reveal_strlit("-uid");
        reveal_strlit("-ilname");
        lemma_differ("-uid"@, "-ilname"@, 0);
    }
    assert("-uid"@ != "-regex"@) by {
        reveal_strlit("-uid");
        reveal_strlit("-regex");
        lemma_differ("-uid"@, "-regex"@, 0);
    }
    assert("-uid"@ != "-iregex"@) by {
        reveal_strlit("-uid");
        reveal_strlit("-iregex");
        lemma_differ("-uid"@, "-iregex"@, 0);
    }
    assert("-uid"@ != "-type"@) by {
        reveal_strlit("-uid");
        reveal_strlit("-type");
        lemma_differ("-uid"@, "-type"@, 0);
    }
    assert("-uid"@ != "-xtype"@) by {
        reveal_strlit("-uid");
        reveal_strlit("-xtype");
        lemma_differ("-uid"@, "-xtype"@, 0);
    }
    assert("-uid"@ != "-empty"@) by {
        reveal_strlit("-uid");
        reveal_strlit("-empty");
        lemma_differ("-uid"@, "-empty"@, 0);
    }
    assert("-uid"@ != "-size"@) by {
        reveal_strlit("-uid");
        reveal_strlit("-size");
        lemma_differ("-uid"@, "-size"@, 0);
    }
    assert("-uid"@ != "-perm"@) by {
        reveal_strlit("-uid");
        reveal_strlit("-perm");
        lemma_differ("-uid"@, "-perm"@, 0);
    }
    assert("-uid"@ != "-user"@) by {
        reveal_strlit("-uid");
        reveal_strlit("-user");
        lemma_differ("-uid"@, "-user"@, 0);
    }
    assert("-uid"@ != "-group"@) by {
        reveal_strlit("-uid");
        reveal_strlit("-group");
        lemma_differ("-uid"@, "-group"@, 0);
    }
    assert("-uid"@ != "-nouser"@) by {
        reveal_strlit("-uid");
        reveal_strlit("-nouser");
        lemma_differ("-uid"@, "-nouser"@, 0);
    }
    assert("-uid"@ != "-nogroup"@) by {
        reveal_strlit("-uid");
        reveal_strlit("-nogroup");
        lemma_differ("-uid"@, "-nogroup"@, 0);
    }
    assert("-uid"@ != "-readable"@) by {
        reveal_strlit("-uid");
        reveal_strlit("-readable");
        lemma_differ("-uid"@, "-readable"@, 0);
    }
    assert("-uid"@ != "-writable"@) by {
        reveal_strlit("-uid");
        reveal_strlit("-writable");
        lemma_differ("-uid"@, "-writable"@, 0);
    }
    assert("-uid"@ != "-executable"@) by {
        reveal_strlit("-uid");
        reveal_strlit("-executable");
        lemma_differ("-uid"@, "-executable"@, 0);
    }
    assert("-uid"@ != "-fstype"@) by {
        reveal_strlit("-uid");
        reveal_strlit("-fstype");
        lemma_differ("-uid"@, "-fstype"@, 0);
    }
    assert("-uid"@ != "--version"@) by {
        reveal_strlit("-uid");
        reveal_strlit("--version");
        lemma_differ("-uid"@, "--version"@, 0);
    }
    assert("-uid"@ != "-version"@) by {
        reveal_strlit("-uid");
        reveal_strlit("-version");
        lemma_differ("-uid"@, "-version"@, 0);
    }
    assert("-uid"@ != "--help"@) by {
        reveal_strlit("-uid");
        reveal_strlit("--help");
        lemma_differ("-uid"@, "--help"@, 0);
    }
    assert("-uid"@ != "-help"@) by {
        reveal_strlit("-uid");
        reveal_strlit("-help");
        lemma_differ("-uid"@, "-help"@, 0);
    }
    reveal(p_options);
    reveal(p_text_tests);
}

/// `-gid` is the numeric test number 1 and no other option.
proof fn lemma_option_gid(args: Seq<String>, c1: Cursor)
    ensures
        numeric_test_index("-gid"@) == Some(1int),
        p_options(args, "-gid"@, c1) is None,
        p_text_tests(args, "-gid"@, c1) is None,
        "-gid"@ != "--version"@ && "-gid"@ != "-version"@ && "-gid"@ != "--help"@ && "-gid"@ != "-help"@,
{
    assert("-gid"@ != "-uid"@) by {
        reveal_strlit("-gid");
        reveal_strlit("-uid");
        lemma_differ("-gid"@, "-uid"@, 1);
    }
    assert("-gid"@ != "-maxdepth"@) by {
        reveal_strlit("-gid");
        reveal_strlit("-maxdepth");
        lemma_differ("-gid"@, "-maxdepth"@, 0);
    }
    assert("-gid"@ != "-mindepth"@) by {
        reveal_strlit("-gid");
        reveal_strlit("-mindepth");
        lemma_differ("-gid"@, "-mindepth"@, 0);
    }
    assert("-gid"@ != "-depth"@) by {
        reveal_strlit("-gid");
        reveal_strlit("-depth");
        lemma_differ("-gid"@, "-depth"@, 0);
    }
    assert("-gid"@ != "-d"@) by {
        reveal_strlit("-gid");
        reveal_strlit("-d");
        lemma_differ("-gid"@, "-d"@, 0);
    }
    assert("-gid"@ != "-xdev"@) by {
        reveal_strlit("-gid");
        reveal_strlit("-xdev");
        lemma_differ("-gid"@, "-xdev"@, 0);
    }
    assert("-gid"@ != "-mount"@) by {
        reveal_strlit("-gid");
        reveal_strlit("-mount");
        lemma_differ("-gid"@, "-mount"@, 0);
    }
    assert("-gid"@ != "-noleaf"@) by {
        reveal_strlit("-gid");
        reveal_strlit("-noleaf");
        lemma_differ("-gid"@, "-noleaf"@, 0);
    }
    assert("-gid"@ != "-daystart"@) by {
        reveal_strlit("-gid");
        reveal_strlit("-daystart");
        lemma_differ("-gid"@, "-daystart"@, 0);
    }
    assert("-gid"@ != "-warn"@) by {
        reveal_strlit("-gid");
        reveal_strlit("-warn");
        lemma_differ("-gid"@, "-warn"@, 0);
    }
    assert("-gid"@ != "-nowarn"@) by {
        reveal_strlit("-gid");
        reveal_strlit("-nowarn");
        lemma_differ("-gid"@, "-nowarn"@, 0);
    }
    assert("-gid"@ != "-ignore_readdir_race"@) by {
        reveal_strlit("-gid");
        reveal_strlit("-ignore_readdir_race");
        lemma_differ("-gid"@, "-ignore_readdir_race"@, 0);
    }
    assert("-gid"@ != "-noignore_readdir_race"@) by {
        reveal_strlit("-gid");
        reveal_strlit("-noignore_readdir_race");
        lemma_differ("-gid"@, "-noignore_readdir_race"@, 0);
    }
    assert("-gid"@ != "-regextype"@) by {
        reveal_strlit("-gid");
        reveal_strlit("-regextype");
        lemma_differ("-gid"@, "-regextype"@, 0);
    }
    assert("-gid"@ != "-true"@) by {
        reveal_strlit("-gid");
        reveal_strlit("-true");
        lemma_differ("-gid"@, "-true"@, 0);
    }
    assert("-gid"@ != "-false"@) by {
        reveal_strlit("-gid");
        reveal_strlit("-false");
        lemma_differ("-gid"@, "-false"@, 0);
    }
    assert("-gid"@ != "-name"@) by {
        reveal_strlit("-gid");
        reveal_strlit("-name");
        lemma_differ("-gid"@, "-name"@, 0);
    }
    assert("-gid"@ != "-iname"@) by {
        reveal_strlit("-gid");
        reveal_strlit("-iname");
        lemma_differ("-gid"@, "-iname"@, 0);
    }
    assert("-gid"@ != "-path"@) by {
        reveal_strlit("-gid");
        reveal_strlit("-path");
        lemma_differ("-gid"@, "-path"@, 0);
    }
    assert("-gid"@ != "-wholename"@) by {
        reveal_strlit("-gid");
        reveal_strlit("-wholename");
        lemma_differ("-gid"@, "-wholename"@, 0);
    }
    assert("-gid"@ != "-ipath"@) by {
        reveal_strlit("-gid");
        reveal_strlit("-ipath");
        lemma_differ("-gid"@, "-ipath"@, 0);
    }
    assert("-gid"@ != "-iwholename"@) by {
        reveal_strlit("-gid");
        reveal_strlit("-iwholename");
        lemma_differ("-gid"@, "-iwholename"@, 0);
    }
    assert("-gid"@ != "-lname"@) by {
        reveal_strlit("-gid");
        reveal_strlit("-lname");
        lemma_differ("-gid"@, "-lname"@, 0);
    }
    assert("-gid"@ != "-ilname"@) by {
        reveal_strlit("-gid");
        reveal_strlit("-ilname");
        lemma_differ("-gid"@, "-ilname"@, 0);
    }
    assert("-gid"@ != "-regex"@) by {
        reveal_strlit("-gid");
        reveal_strlit("-regex");
        lemma_differ("-gid"@, "-regex"@, 0);
    }
    assert("-gid"@ != "-iregex"@) by {
        reveal_strlit("-gid");
        reveal_strlit("-iregex");
        lemma_differ("-gid"@, "-iregex"@, 0);
    }
    assert("-gid"@ != "-type"@) by {
        reveal_strlit("-gid");
        reveal_strlit("-type");
        lemma_differ("-gid"@, "-type"@, 0);
    }
    assert("-gid"@ != "-xtype"@) by {
        reveal_strlit("-gid");
        reveal_strlit("-xtype");
        lemma_differ("-gid"@, "-xtype"@, 0);
    }
    assert("-gid"@ != "-empty"@) by {
        reveal_strlit("-gid");
        reveal_strlit("-empty");
        lemma_differ("-gid"@, "-empty"@, 0);
    }
    assert("-gid"@ != "-size"@) by {
        reveal_strlit("-gid");
        reveal_strlit("-size");
        lemma_differ("-gid"@, "-size"@, 0);
    }
    assert("-gid"@ != "-perm"@) by {
        reveal_strlit("-gid");
        reveal_strlit("-perm");
        lemma_differ("-gid"@, "-perm"@, 0);
    }
    assert("-gid"@ != "-user"@) by {
        reveal_strlit("-gid");
        reveal_strlit("-user");
        lemma_differ("-gid"@, "-user"@, 0);
    }
    assert("-gid"@ != "-group"@) by {
        reveal_strlit("-gid");
        reveal_strlit("-group");
        lemma_differ("-gid"@, "-group"@, 0);
    }
    assert("-gid"@ != "-nouser"@) by {
        reveal_strlit("-gid");
        reveal_strlit("-nouser");
        lemma_differ("-gid"@, "-nouser"@, 0);
    }
    assert("-gid"@ != "-nogroup"@) by {
        reveal_strlit("-gid");
        reveal_strlit("-nogroup");
        lemma_differ("-gid"@, "-nogroup"@, 0);
    }
    assert("-gid"@ != "-readable"@) by {
        reveal_strlit("-gid");
        reveal_strlit("-readable");
        lemma_differ("-gid"@, "-readable"@, 0);
    }
    assert("-gid"@ != "-writable"@) by {
        reveal_strlit("-gid");
        reveal_strlit("-writable");
        lemma_differ("-gid"@, "-writable"@, 0);
    }
    assert("-gid"@ != "-executable"@) by {
        reveal_strlit("-gid");
        reveal_strlit("-executable");
        lemma_differ("-gid"@, "-executable"@, 0);
    }
    assert("-gid"@ != "-fstype"@) by {
        reveal_strlit("-gid");
        reveal_strlit("-fstype");
        lemma_differ("-gid"@, "-fstype"@, 0);
    }
    assert("-gid"@ != "--version"@) by {
        reveal_strlit("-gid");
        reveal_strlit("--version");
        lemma_differ("-gid"@, "--version"@, 0);
    }
    assert("-gid"@ != "-version"@) by {
        reveal_strlit("-gid");
        reveal_strlit("-version");
        lemma_differ("-gid"@, "-version"@, 0);
    }
    assert("-gid"@ != "--help"@) by {
        reveal_strlit("-gid");
        reveal_strlit("--help");
        lemma_differ("-gid"@, "--help"@, 0);
    }
    assert("-gid"@ != "-help"@) by {
        reveal_strlit("-gid");
        reveal_strlit("-help");
        lemma_differ("-gid"@, "-help"@, 0);
    }
    reveal(p_options);
    reveal(p_text_tests);
}

/// `-links` is the numeric test number 2 and no other option.
proof fn lemma_option_links(args: Seq<String>, c1: Cursor)
    ensures
        numeric_test_index("-links"@) == Some(2int),
        p_options(args, "-links"@, c1) is None,
        p_text_tests(args, "-links"@, c1) is None,
        "-links"@ != "--version"@ && "-links"@ != "-version"@ && "-links"@ != "--help"@ && "-links"@ != "-help"@,
{
    assert("-links"@ != "-uid"@) by {
        reveal_strlit("-links");
        reveal_strlit("-uid");
        lemma_differ("-links"@, "-uid"@, 0);
    }
    assert("-links"@ != "-gid"@) by {
        reveal_strlit("-links");
        reveal_strlit("-gid");
        lemma_differ("-links"@, "-gid"@, 0);
    }
    assert("-links"@ != "-maxdepth"@) by {
        reveal_strlit("-links");
        reveal_strlit("-maxdepth");
        lemma_differ("-links"@, "-maxdepth"@, 0);
    }
    assert("-links"@ != "-mindepth"@) by {
        reveal_strlit("-links");
        reveal_strlit("-mindepth");
        lemma_differ("-links"@, "-mindepth"@, 0);
    }
    assert("-links"@ != "-depth"@) by {
        reveal_strlit("-links");
        reveal_strlit("-depth");
        lemma_differ("-links"@, "-depth"@, 1);
    }
    assert("-links"@ != "-d"@) by {
        reveal_strlit("-links");
        reveal_strlit("-d");
        lemma_differ("-links"@, "-d"@, 0);
    }
    assert("-links"@ != "-xdev"@) by {
        reveal_strlit("-links");
        reveal_strlit("-xdev");
        lemma_differ("-links"@, "-xdev"@, 0);
    }
    assert("-links"@ != "-mount"@) by {
        reveal_strlit("-links");
        reveal_strlit("-mount");
        lemma_differ("-links"@, "-mount"@, 1);
    }
    assert("-links"@ != "-noleaf"@) by {
        reveal_strlit("-links");
        reveal_strlit("-noleaf");
        lemma_differ("-links"@, "-noleaf"@, 0);
    }
    assert("-links"@ != "-daystart"@) by {
        reveal_strlit("-links");
        reveal_strlit("-daystart");
        lemma_differ("-links"@, "-daystart"@, 0);
    }
    assert("-links"@ != "-warn"@) by {
        reveal_strlit("-links");
        reveal_strlit("-warn");
        lemma_differ("-links"@, "-warn"@, 0);
    }
    assert("-links"@ != "-nowarn"@) by {
        reveal_strlit("-links");
        reveal_strlit("-nowarn");
        lemma_differ("-links"@, "-nowarn"@, 0);
    }
    assert("-links"@ != "-ignore_readdir_race"@) by {
        reveal_strlit("-links");
        reveal_strlit("-ignore_readdir_race");
        lemma_differ("-links"@, "-ignore_readdir_race"@, 0);
    }
    assert("-links"@ != "-noignore_readdir_race"@) by {
        reveal_strlit("-links");
        reveal_strlit("-noignore_readdir_race");
        lemma_differ("-links"@, "-noignore_readdir_race"@, 0);
    }
    assert("-links"@ != "-regextype"@) by {
        reveal_strlit("-links");
        reveal_strlit("-regextype");
        lemma_differ("-links"@, "-regextype"@, 0);
    }
    assert("-links"@ != "-true"@) by {
        reveal_strlit("-links");
        reveal_strlit("-true");
        lemma_differ("-links"@, "-true"@, 0);
    }
    assert("-links"@ != "-false"@) by {
        reveal_strlit("-links");
        reveal_strlit("-false");
        lemma_differ("-links"@, "-false"@, 1);
    }
    assert("-links"@ != "-name"@) by {
        reveal_strlit("-links");
        reveal_strlit("-name");
        lemma_differ("-links"@, "-name"@, 0);
    }
    assert("-links"@ != "-iname"@) by {
        reveal_strlit("-links");
        reveal_strlit("-iname");
        lemma_differ("-links"@, "-iname"@, 1);
    }
    assert("-links"@ != "-path"@) by {
        reveal_strlit("-links");
        reveal_strlit("-path");
        lemma_differ("-links"@, "-path"@, 0);
    }
    assert("-links"@ != "-wholename"@) by {
        reveal_strlit("-links");
        reveal_strlit("-wholename");
        lemma_differ("-links"@, "-wholename"@, 0);
    }
    assert("-links"@ != "-ipath"@) by {
        reveal_strlit("-links");
        reveal_strlit("-ipath");
        lemma_differ("-links"@, "-ipath"@, 1);
    }
    assert("-links"@ != "-iwholename"@) by {
        reveal_strlit("-links");
        reveal_strlit("-iwholename");
        lemma_differ("-links"@, "-iwholename"@, 0);
    }
    assert("-links"@ != "-lname"@) by {
        reveal_strlit("-links");
        reveal_strlit("-lname");
        lemma_differ("-links"@, "-lname"@, 2);
    }
    assert("-links"@ != "-ilname"@) by {
        reveal_strlit("-links");
        reveal_strlit("-ilname");
        lemma_differ("-links"@, "-ilname"@, 0);
    }
    assert("-links"@ != "-regex"@) by {
        reveal_strlit("-links");
        reveal_strlit("-regex");
        lemma_differ("-links"@, "-regex"@, 1);
    }
    assert("-links"@ != "-iregex"@) by {
        reveal_strlit("-links");
        reveal_strlit("-iregex");
        lemma_differ("-links"@, "-iregex"@, 0);
    }
    assert("-links"@ != "-type"@) by {
        reveal_strlit("-links");
        reveal_strlit("-type");
        lemma_differ("-links"@, "-type"@, 0);
    }
    assert("-links"@ != "-xtype"@) by {
        reveal_strlit("-links");
        reveal_strlit("-xtype");
        lemma_differ("-links"@, "-xtype"@, 1);
    }
    assert("-links"@ != "-empty"@) by {
        reveal_strlit("-links");
        reveal_strlit("-empty");
        lemma_differ("-links"@, "-empty"@, 1);
    }
    assert("-links"@ != "-size"@) by {
        reveal_strlit("-links");
        reveal_strlit("-size");
        lemma_differ("-links"@, "-size"@, 0);
    }
    assert("-links"@ != "-perm"@) by {
        reveal_strlit("-links");
        reveal_strlit("-perm");
        lemma_differ("-links"@, "-perm"@, 0);
    }
    assert("-links"@ != "-user"@) by {
        reveal_strlit("-links");
        reveal_strlit("-user");
        lemma_differ("-links"@, "-user"@, 0);
    }
    assert("-links"@ != "-group"@) by {
        reveal_strlit("-links");
        reveal_strlit("-group");
        lemma_differ("-links"@, "-group"@, 1);
    }
    assert("-links"@ != "-nouser"@) by {
        reveal_strlit("-links");
        reveal_strlit("-nouser");
        lemma_differ("-links"@, "-nouser"@, 0);
    }
    assert("-links"@ != "-nogroup"@) by {
        reveal_strlit("-links");
        reveal_strlit("-nogroup");
        lemma_differ("-links"@, "-nogroup"@, 0);
    }
    assert("-links"@ != "-readable"@) by {
        reveal_strlit("-links");
        reveal_strlit("-readable");
        lemma_differ("-links"@, "-readable"@, 0);
    }
    assert("-links"@ != "-writable"@) by {
        reveal_strlit("-links");
        reveal_strlit("-writable");
        lemma_differ("-links"@, "-writable"@, 0);
    }
    assert("-links"@ != "-executable"@) by {
        reveal_strlit("-links");
        reveal_strlit("-executable");
        lemma_differ("-links"@, "-executable"@, 0);
    }
    assert("-links"@ != "-fstype"@) by {
        reveal_strlit("-links");
        reveal_strlit("-fstype");
        lemma_differ("-links"@, "-fstype"@, 0);
    }
    assert("-links"@ != "--version"@) by {
        reveal_strlit("-links");
        reveal_strlit("--version");
        lemma_differ("-links"@, "--version"@, 0);
    }
    assert("-links"@ != "-version"@) by {
        reveal_strlit("-links");
        reveal_strlit("-version");
        lemma_differ("-links"@, "-version"@, 0);
    }
    assert("-links"@ != "--help"@) by {
        reveal_strlit("-links");
        reveal_strlit("--help");
        lemma_differ("-links"@, "--help"@, 1);
    }
    assert("-links"@ != "-help"@) by {
        reveal_strlit("-links");
        reveal_strlit("-help");
        lemma_differ("-links"@, "-help"@, 0);
    }
    reveal(p_options);
    reveal(p_text_tests);
}

/// `-inum` is the numeric test number 3 and no other option.
proof fn lemma_option_inum(args: Seq<String>, c1: Cursor)
    ensures
        numeric_test_index("-inum"@) == Some(3int),
        p_options(args, "-inum"@, c1) is None,
        p_text_tests(args, "-inum"@, c1) is None,
        "-inum"@ != "--version"@ && "-inum"@ != "-version"@ && "-inum"@ != "--help"@ && "-inum"@ != "-help"@,
{
    assert("-inum"@ != "-uid"@) by {
        reveal_strlit("-inum");
        reveal_strlit("-uid");
        lemma_differ("-inum"@, "-uid"@, 0);
    }
    assert("-inum"@ != "-gid"@) by {
        reveal_strlit("-inum");
        reveal_strlit("-gid");
        lemma_differ("-inum"@, "-gid"@, 0);
    }
    assert("-inum"@ != "-links"@) by {
        reveal_strlit("-inum");
        reveal_strlit("-links");
        lemma_differ("-inum"@, "-links"@, 0);
    }
    assert("-inum"@ != "-maxdepth"@) by {
        reveal_strlit("-inum");
        reveal_strlit("-maxdepth");
        lemma_differ("-inum"@, "-maxdepth"@, 0);
    }
    assert("-inum"@ != "-mindepth"@) by {
        reveal_strlit("-inum");
        reveal_strlit("-mindepth");
        lemma_differ("-inum"@, "-mindepth"@, 0);
    }
    assert("-inum"@ != "-depth"@) by {
        reveal_strlit("-inum");
        reveal_strlit("-depth");
        lemma_differ("-inum"@, "-depth"@, 0);
    }
    assert("-inum"@ != "-d"@) by {
        reveal_strlit("-inum");
        reveal_strlit("-d");
        lemma_differ("-inum"@, "-d"@, 0);
    }
    assert("-inum"@ != "-xdev"@) by {
        reveal_strlit("-inum");
        reveal_strlit("-xdev");
        lemma_differ("-inum"@, "-xdev"@, 1);
    }
    assert("-inum"@ != "-mount"@) by {
        reveal_strlit("-inum");
        reveal_strlit("-mount");
        lemma_differ("-inum"@, "-mount"@, 0);
    }
    assert("-inum"@ != "-noleaf"@) by {
        reveal_strlit("-inum");
        reveal_strlit("-noleaf");
        lemma_differ("-inum"@, "-noleaf"@, 0);
    }
    assert("-inum"@ != "-daystart"@) by {
        reveal_strlit("-inum");
        reveal_strlit("-daystart");
        lemma_differ("-inum"@, "-daystart"@, 0);
    }
    assert("-inum"@ != "-warn"@) by {
        reveal_strlit("-inum");
        reveal_strlit("-warn");
        lemma_differ("-inum"@, "-warn"@, 1);
    }
    assert("-inum"@ != "-nowarn"@) by {
        reveal_strlit("-inum");
        reveal_strlit("-nowarn");
        lemma_differ("-inum"@, "-nowarn"@, 0);
    }
    assert("-inum"@ != "-ignore_readdir_race"@) by {
        reveal_strlit("-inum");
        reveal_strlit("-ignore_readdir_race");
        lemma_differ("-inum"@, "-ignore_readdir_race"@, 0);
    }
    assert("-inum"@ != "-noignore_readdir_race"@) by {
        reveal_strlit("-inum");
        reveal_strlit("-noignore_readdir_race");
        lemma_differ("-inum"@, "-noignore_readdir_race"@, 0);
    }
    assert("-inum"@ != "-regextype"@) by {
        reveal_strlit("-inum");
        reveal_strlit("-regextype");
        lemma_differ("-inum"@, "-regextype"@, 0);
    }
    assert("-inum"@ != "-true"@) by {
        reveal_strlit("-inum");
        reveal_strlit("-true");
        lemma_differ("-inum"@, "-true"@, 1);
    }
    assert("-inum"@ != "-false"@) by {
        reveal_strlit("-inum");
        reveal_strlit("-false");
        lemma_differ("-inum"@, "-false"@, 0);
    }
    assert("-inum"@ != "-name"@) by {
        reveal_strlit("-inum");
        reveal_strlit("-name");
        lemma_differ("-inum"@, "-name"@, 1);
    }
    assert("-inum"@ != "-iname"@) by {
        reveal_strlit("-inum");
        reveal_strlit("-iname");
        lemma_differ("-inum"@, "-iname"@, 0);
    }
    assert("-inum"@ != "-path"@) by {
        reveal_strlit("-inum");
        reveal_strlit("-path");
        lemma_differ("-inum"@, "-path"@, 1);
    }
    assert("-inum"@ != "-wholename"@) by {
        reveal_strlit("-inum");
        reveal_strlit("-wholename");
        lemma_differ("-inum"@, "-wholename"@, 0);
    }
    assert("-inum"@ != "-ipath"@) by {
        reveal_strlit("-inum");
        reveal_strlit("-ipath");
        lemma_differ("-inum"@, "-ipath"@, 0);
    }
    assert("-inum"@ != "-iwholename"@) by {
        reveal_strlit("-inum");
        reveal_strlit("-iwholename");
        lemma_differ("-inum"@, "-iwholename"@, 0);
    }
    assert("-inum"@ != "-lname"@) by {
        reveal_strlit("-inum");
        reveal_strlit("-lname");
        lemma_differ("-inum"@, "-lname"@, 0);
    }
    assert("-inum"@ != "-ilname"@) by {
        reveal_strlit("-inum");
        reveal_strlit("-ilname");
        lemma_differ("-inum"@, "-ilname"@, 0);
    }
    assert("-inum"@ != "-regex"@) by {
        reveal_strlit("-inum");
        reveal_strlit("-regex");
        lemma_differ("-inum"@, "-regex"@, 0);
    }
    assert("-inum"@ != "-iregex"@) by {
        reveal_strlit("-inum");
        reveal_strlit("-iregex");
        lemma_differ("-inum"@, "-iregex"@, 0);
    }
    assert("-inum"@ != "-type"@) by {
        reveal_strlit("-inum");
        reveal_strlit("-type");
        lemma_differ("-inum"@, "-type"@, 1);
    }
    assert("-inum"@ != "-xtype"@) by {
        reveal_strlit("-inum");
        reveal_strlit("-xtype");
        lemma_differ("-inum"@, "-xtype"@, 0);
    }
    assert("-inum"@ != "-empty"@) by {
        reveal_strlit("-inum");
        reveal_strlit("-empty");
        lemma_differ("-inum"@, "-empty"@, 0);
    }
    assert("-inum"@ != "-size"@) by {
        reveal_strlit("-inum");
        reveal_strlit("-size");
        lemma_differ("-inum"@, "-size"@, 1);
    }
    assert("-inum"@ != "-perm"@) by {
        reveal_strlit("-inum");
        reveal_strlit("-perm");
        lemma_differ("-inum"@, "-perm"@, 1);
    }
    assert("-inum"@ != "-user"@) by {
        reveal_strlit("-inum");
        reveal_strlit("-user");
        lemma_differ("-inum"@, "-user"@, 1);
    }
    assert("-inum"@ != "-group"@) by {
        reveal_strlit("-inum");
        reveal_strlit("-group");
        lemma_differ("-inum"@, "-group"@, 0);
    }
    assert("-inum"@ != "-nouser"@) by {
        reveal_strlit("-inum");
        reveal_strlit("-nouser");
        lemma_differ("-inum"@, "-nouser"@, 0);
    }
    assert("-inum"@ != "-nogroup"@) by {
        reveal_strlit("-inum");
        reveal_strlit("-nogroup");
        lemma_differ("-inum"@, "-nogroup"@, 0);
    }
    assert("-inum"@ != "-readable"@) by {
        reveal_strlit("-inum");
        reveal_strlit("-readable");
        lemma_differ("-inum"@, "-readable"@, 0);
    }
    assert("-inum"@ != "-writable"@) by {
        reveal_strlit("-inum");
        reveal_strlit("-writable");
        lemma_differ("-inum"@, "-writable"@, 0);
    }
    assert("-inum"@ != "-executable"@) by {
        reveal_strlit("-inum");
        reveal_strlit("-executable");
        lemma_differ("-inum"@, "-executable"@, 0);
    }
    assert("-inum"@ != "-fstype"@) by {
        reveal_strlit("-inum");
        reveal_strlit("-fstype");
        lemma_differ("-inum"@, "-fstype"@, 0);
    }
    assert("-inum"@ != "--version"@) by {
        reveal_strlit("-inum");
        reveal_strlit("--version");
        lemma_differ("-inum"@, "--version"@, 0);
    }
    assert("-inum"@ != "-version"@) by {
        reveal_strlit("-inum");
        reveal_strlit("-version");
        lemma_differ("-inum"@, "-version"@, 0);
    }
    assert("-inum"@ != "--help"@) by {
        reveal_strlit("-inum");
        reveal_strlit("--help");
        lemma_differ("-inum"@, "--help"@, 0);
    }
    assert("-inum"@ != "-help"@) by {
        reveal_strlit("-inum");
        reveal_strlit("-help");
        lemma_differ("-inum"@, "-help"@, 1);
    }
    reveal(p_options);
    reveal(p_text_tests);
}

/// `-mtime` is the numeric test number 4 and no other option.
proof fn lemma_option_mtime(args: Seq<String>, c1: Cursor)
    ensures
        numeric_test_index("-mtime"@) == Some(4int),
        p_options(args, "-mtime"@, c1) is None,
        p_text_tests(args, "-mtime"@, c1) is None,
        "-mtime"@ != "--version"@ && "-mtime"@ != "-version"@ && "-mtime"@ != "--help"@ && "-mtime"@ != "-help"@,
{
    assert("-mtime"@ != "-uid"@) by {
        reveal_strlit("-mtime");
        reveal_strlit("-uid");
        lemma_differ("-mtime"@, "-uid"@, 0);
    }
    assert("-mtime"@ != "-gid"@) by {
        reveal_strlit("-mtime");
        reveal_strlit("-gid");
        lemma_differ("-mtime"@, "-gid"@, 0);
    }
    assert("-mtime"@ != "-links"@) by {
        reveal_strlit("-mtime");
        reveal_strlit("-links");
        lemma_differ("-mtime"@, "-links"@, 1);
    }
    assert("-mtime"@ != "-inum"@) by {
        reveal_strlit("-mtime");
        reveal_strlit("-inum");
        lemma_differ("-mtime"@, "-inum"@, 0);
    }
    assert("-mtime"@ != "-maxdepth"@) by {
        reveal_strlit("-mtime");
        reveal_strlit("-maxdepth");
        lemma_differ("-mtime"@, "-maxdepth"@, 0);
    }
    assert("-mtime"@ != "-mindepth"@) by {
        reveal_strlit("-mtime");
        reveal_strlit("-mindepth");
        lemma_differ("-mtime"@, "-mindepth"@, 0);
    }
    assert("-mtime"@ != "-depth"@) by {
        reveal_strlit("-mtime");
        reveal_strlit("-depth");
        lemma_differ("-mtime"@, "-depth"@, 1);
    }
    assert("-mtime"@ != "-d"@) by {
        reveal_strlit("-mtime");
        reveal_strlit("-d");
        lemma_differ("-mtime"@, "-d"@, 0);
    }
    assert("-mtime"@ != "-xdev"@) by {
        reveal_strlit("-mtime");
        reveal_strlit("-xdev");
        lemma_differ("-mtime"@, "-xdev"@, 0);
    }
    assert("-mtime"@ != "-mount"@) by {
        reveal_strlit("-mtime");
        reveal_strlit("-mount");
        lemma_differ("-mtime"@, "-mount"@, 2);
    }
    assert("-mtime"@ != "-noleaf"@) by {
        reveal_strlit("-mtime");
        reveal_strlit("-noleaf");
        lemma_differ("-mtime"@, "-noleaf"@, 0);
    }
    assert("-mtime"@ != "-daystart"@) by {
        reveal_strlit("-mtime");
        reveal_strlit("-daystart");
        lemma_differ("-mtime"@, "-daystart"@, 0);
    }
    assert("-mtime"@ != "-warn"@) by {
        reveal_strlit("-mtime");
        reveal_strlit("-warn");
        lemma_differ("-mtime"@, "-warn"@, 0);
    }
    assert("-mtime"@ != "-nowarn"@) by {
        reveal_strlit("-mtime");
        reveal_strlit("-nowarn");
        lemma_differ("-mtime"@, "-nowarn"@, 0);
    }
    assert("-mtime"@ != "-ignore_readdir_race"@) by {
        reveal_strlit("-mtime");
        reveal_strlit("-ignore_readdir_race");
        lemma_differ("-mtime"@, "-ignore_readdir_race"@, 0);
    }
    assert("-mtime"@ != "-noignore_readdir_race"@) by {
        reveal_strlit("-mtime");
        reveal_strlit("-noignore_readdir_race");
        lemma_differ("-mtime"@, "-noignore_readdir_race"@, 0);
    }
    assert("-mtime"@ != "-regextype"@) by {
        reveal_strlit("-mtime");
        reveal_strlit("-regextype");
        lemma_differ("-mtime"@, "-regextype"@, 0);
    }
    assert("-mtime"@ != "-true"@) by {
        reveal_strlit("-mtime");
        reveal_strlit("-true");
        lemma_differ("-mtime"@, "-true"@, 0);
    }
    assert("-mtime"@ != "-false"@) by {
        reveal_strlit("-mtime");
        reveal_strlit("-false");
        lemma_differ("-mtime"@, "-false"@, 1);
    }
    assert("-mtime"@ != "-name"@) by {
        reveal_strlit("-mtime");
        reveal_strlit("-name");
        lemma_differ("-mtime"@, "-name"@, 0);
    }
    assert("-mtime"@ != "-iname"@) by {
        reveal_strlit("-mtime");
        reveal_strlit("-iname");
        lemma_differ("-mtime"@, "-iname"@, 1);
    }
    assert("-mtime"@ != "-path"@) by {
        reveal_strlit("-mtime");
        reveal_strlit("-path");
        lemma_differ("-mtime"@, "-path"@, 0);
    }
    assert("-mtime"@ != "-wholename"@) by {
        reveal_strlit("-mtime");
        reveal_strlit("-wholename");
        lemma_differ("-mtime"@, "-wholename"@, 0);
    }
    assert("-mtime"@ != "-ipath"@) by {
        reveal_strlit("-mtime");
        reveal_strlit("-ipath");
        lemma_differ("-mtime"@, "-ipath"@, 1);
    }
    assert("-mtime"@ != "-iwholename"@) by {
        reveal_strlit("-mtime");
        reveal_strlit("-iwholename");
        lemma_differ("-mtime"@, "-iwholename"@, 0);
    }
    assert("-mtime"@ != "-lname"@) by {
        reveal_strlit("-mtime");
        reveal_strlit("-lname");
        lemma_differ("-mtime"@, "-lname"@, 1);
    }
    assert("-mtime"@ != "-ilname"@) by {
        reveal_strlit("-mtime");
        reveal_strlit("-ilname");
        lemma_differ("-mtime"@, "-ilname"@, 0);
    }
    assert("-mtime"@ != "-regex"@) by {
        reveal_strlit("-mtime");
        reveal_strlit("-regex");
        lemma_differ("-mtime"@, "-regex"@, 1);
    }
    assert("-mtime"@ != "-iregex"@) by {
        reveal_strlit("-mtime");
        reveal_strlit("-iregex");
        lemma_differ("-mtime"@, "-iregex"@, 0);
    }
    assert("-mtime"@ != "-type"@) by {
        reveal_strlit("-mtime");
        reveal_strlit("-type");
        lemma_differ("-mtime"@, "-type"@, 0);
    }
    assert("-mtime"@ != "-xtype"@) by {
        reveal_strlit("-mtime");
        reveal_strlit("-xtype");
        lemma_differ("-mtime"@, "-xtype"@, 1);
    }
    assert("-mtime"@ != "-empty"@) by {
        reveal_strlit("-mtime");
        reveal_strlit("-empty");
        lemma_differ("-mtime"@, "-empty"@, 1);
    }
    assert("-mtime"@ != "-size"@) by {
        reveal_strlit("-mtime");
        reveal_strlit("-size");
        lemma_differ("-mtime"@, "-size"@, 0);
    }
    assert("-mtime"@ != "-perm"@) by {
        reveal_strlit("-mtime");
        reveal_strlit("-perm");
        lemma_differ("-mtime"@, "-perm"@, 0);
    }
    assert("-mtime"@ != "-user"@) by {
        reveal_strlit("-mtime");
        reveal_strlit("-user");
        lemma_differ("-mtime"@, "-user"@, 0);
    }
    assert("-mtime"@ != "-group"@) by {
        reveal_strlit("-mtime");
        reveal_strlit("-group");
        lemma_differ("-mtime"@, "-group"@, 1);
    }
    assert("-mtime"@ != "-nouser"@) by {
        reveal_strlit("-mtime");
        reveal_strlit("-nouser");
        lemma_differ("-mtime"@, "-nouser"@, 0);
    }
    assert("-mtime"@ != "-nogroup"@) by {
        reveal_strlit("-mtime");
        reveal_strlit("-nogroup");
        lemma_differ("-mtime"@, "-nogroup"@, 0);
    }
    assert("-mtime"@ != "-readable"@) by {
        reveal_strlit("-mtime");
        reveal_strlit("-readable");
        lemma_differ("-mtime"@, "-readable"@, 0);
    }
    assert("-mtime"@ != "-writable"@) by {
        reveal_strlit("-mtime");
        reveal_strlit("-writable");
        lemma_differ("-mtime"@, "-writable"@, 0);
    }
    assert("-mtime"@ != "-executable"@) by {
        reveal_strlit("-mtime");
        reveal_strlit("-executable");
        lemma_differ("-mtime"@, "-executable"@, 0);
    }
    assert("-mtime"@ != "-fstype"@) by {
        reveal_strlit("-mtime");
        reveal_strlit("-fstype");
        lemma_differ("-mtime"@, "-fstype"@, 0);
    }
    assert("-mtime"@ != "--version"@) by {
        reveal_strlit("-mtime");
        reveal_strlit("--version");
        lemma_differ("-mtime"@, "--version"@, 0);
    }
    assert("-mtime"@ != "-version"@) by {
        reveal_strlit("-mtime");
        reveal_strlit("-version");
        lemma_differ("-mtime"@, "-version"@, 0);
    }
    assert("-mtime"@ != "--help"@) by {
        reveal_strlit("-mtime");
        reveal_strlit("--help");
        lemma_differ("-mtime"@, "--help"@, 1);
    }
    assert("-mtime"@ != "-help"@) by {
        reveal_strlit("-mtime");
        reveal_strlit("-help");
        lemma_differ("-mtime"@, "-help"@, 0);
    }
    reveal(p_options);
    reveal(p_text_tests);
}

/// `-mmin` is the numeric test number 5 and no other option.
proof fn lemma_option_mmin(args: Seq<String>, c1: Cursor)
    ensures
        numeric_test_index("-mmin"@) == Some(5int),
        p_options(args, "-mmin"@, c1) is None,
        p_text_tests(args, "-mmin"@, c1) is None,
        "-mmin"@ != "--version"@ && "-mmin"@ != "-version"@ && "-mmin"@ != "--help"@ && "-mmin"@ != "-help"@,
{
    assert("-mmin"@ != "-uid"@) by {
        reveal_strlit("-mmin");
        reveal_strlit("-uid");
        lemma_differ("-mmin"@, "-uid"@, 0);
    }
    assert("-mmin"@ != "-gid"@) by {
        reveal_strlit("-mmin");
        reveal_strlit("-gid");
        lemma_differ("-mmin"@, "-gid"@, 0);
    }
    assert("-mmin"@ != "-links"@) by {
        reveal_strlit("-mmin");
        reveal_strlit("-links");
        lemma_differ("-mmin"@, "-links"@, 0);
    }
    assert("-mmin"@ != "-inum"@) by {
        reveal_strlit("-mmin");
        reveal_strlit("-inum");
        lemma_differ("-mmin"@, "-inum"@, 1);
    }
    assert("-mmin"@ != "-mtime"@) by {
        reveal_strlit("-mmin");
        reveal_strlit("-mtime");
        lemma_differ("-mmin"@, "-mtime"@, 0);
    }
    assert("-mmin"@ != "-maxdepth"@) by {
        reveal_strlit("-mmin");
        reveal_strlit("-maxdepth");
        lemma_differ("-mmin"@, "-maxdepth"@, 0);
    }
    assert("-mmin"@ != "-mindepth"@) by {
        reveal_strlit("-mmin");
        reveal_strlit("-mindepth");
        lemma_differ("-mmin"@, "-mindepth"@, 0);
    }
    assert("-mmin"@ != "-depth"@) by {
        reveal_strlit("-mmin");
        reveal_strlit("-depth");
        lemma_differ("-mmin"@, "-depth"@, 0);
    }
    assert("-mmin"@ != "-d"@) by {
        reveal_strlit("-mmin");
        reveal_strlit("-d");
        lemma_differ("-mmin"@, "-d"@, 0);
    }
    assert("-mmin"@ != "-xdev"@) by {
        reveal_strlit("-mmin");
        reveal_strlit("-xdev");
        lemma_differ("-mmin"@, "-xdev"@, 1);
    }
    assert("-mmin"@ != "-mount"@) by {
        reveal_strlit("-mmin");
        reveal_strlit("-mount");
        lemma_differ("-mmin"@, "-mount"@, 0);
    }
    assert("-mmin"@ != "-noleaf"@) by {
        reveal_strlit("-mmin");
        reveal_strlit("-noleaf");
        lemma_differ("-mmin"@, "-noleaf"@, 0);
    }
    assert("-mmin"@ != "-daystart"@) by {
        reveal_strlit("-mmin");
        reveal_strlit("-daystart");
        lemma_differ("-mmin"@, "-daystart"@, 0);
    }
    assert("-mmin"@ != "-warn"@) by {
        reveal_strlit("-mmin");
        reveal_strlit("-warn");
        lemma_differ("-mmin"@, "-warn"@, 1);
    }
    assert("-mmin"@ != "-nowarn"@) by {
        reveal_strlit("-mmin");
        reveal_strlit("-nowarn");
        lemma_differ("-mmin"@, "-nowarn"@, 0);
    }
    assert("-mmin"@ != "-ignore_readdir_race"@) by {
        reveal_strlit("-mmin");
        reveal_strlit("-ignore_readdir_race");
        lemma_differ("-mmin"@, "-ignore_readdir_race"@, 0);
    }
    assert("-mmin"@ != "-noignore_readdir_race"@) by {
        reveal_strlit("-mmin");
        reveal_strlit("-noignore_readdir_race");
        lemma_differ("-mmin"@, "-noignore_readdir_race"@, 0);
    }
    assert("-mmin"@ != "-regextype"@) by {
        reveal_strlit("-mmin");
        reveal_strlit("-regextype");
        lemma_differ("-mmin"@, "-regextype"@, 0);
    }
    assert("-mmin"@ != "-true"@) by {
        reveal_strlit("-mmin");
        reveal_strlit("-true");
        lemma_differ("-mmin"@, "-true"@, 1);
    }
    assert("-mmin"@ != "-false"@) by {
        reveal_strlit("-mmin");
        reveal_strlit("-false");
        lemma_differ("-mmin"@, "-false"@, 0);
    }
    assert("-mmin"@ != "-name"@) by {
        reveal_strlit("-mmin");
        reveal_strlit("-name");
        lemma_differ("-mmin"@, "-name"@, 1);
    }
    assert("-mmin"@ != "-iname"@) by {
        reveal_strlit("-mmin");
        reveal_strlit("-iname");
        lemma_differ("-mmin"@, "-iname"@, 0);
    }
    assert("-mmin"@ != "-path"@) by {
        reveal_strlit("-mmin");
        reveal_strlit("-path");
        lemma_differ("-mmin"@, "-path"@, 1);
    }
    assert("-mmin"@ != "-wholename"@) by {
        reveal_strlit("-mmin");
        reveal_strlit("-wholename");
        lemma_differ("-mmin"@, "-wholename"@, 0);
    }
    assert("-mmin"@ != "-ipath"@) by {
        reveal_strlit("-mmin");
        reveal_strlit("-ipath");
        lemma_differ("-mmin"@, "-ipath"@, 0);
    }
    assert("-mmin"@ != "-iwholename"@) by {
        reveal_strlit("-mmin");
        reveal_strlit("-iwholename");
        lemma_differ("-mmin"@, "-iwholename"@, 0);
    }
    assert("-mmin"@ != "-lname"@) by {
        reveal_strlit("-mmin");
        reveal_strlit("-lname");
        lemma_differ("-mmin"@, "-lname"@, 0);
    }
    assert("-mmin"@ != "-ilname"@) by {
        reveal_strlit("-mmin");
        reveal_strlit("-ilname");
        lemma_differ("-mmin"@, "-ilname"@, 0);
    }
    assert("-mmin"@ != "-regex"@) by {
        reveal_strlit("-mmin");
        reveal_strlit("-regex");
        lemma_differ("-mmin"@, "-regex"@, 0);
    }
    assert("-mmin"@ != "-iregex"@) by {
        reveal_strlit("-mmin");
        reveal_strlit("-iregex");
        lemma_differ("-mmin"@, "-iregex"@, 0);
    }
    assert("-mmin"@ != "-type"@) by {
        reveal_strlit("-mmin");
        reveal_strlit("-type");
        lemma_differ("-mmin"@, "-type"@, 1);
    }
    assert("-mmin"@ != "-xtype"@) by {
        reveal_strlit("-mmin");
        reveal_strlit("-xtype");
        lemma_differ("-mmin"@, "-xtype"@, 0);
    }
    assert("-mmin"@ != "-empty"@) by {
        reveal_strlit("-mmin");
        reveal_strlit("-empty");
        lemma_differ("-mmin"@, "-empty"@, 0);
    }
    assert("-mmin"@ != "-size"@) by {
        reveal_strlit("-mmin");
        reveal_strlit("-size");
        lemma_differ("-mmin"@, "-size"@, 1);
    }
    assert("-mmin"@ != "-perm"@) by {
        reveal_strlit("-mmin");
        reveal_strlit("-perm");
        lemma_differ("-mmin"@, "-perm"@, 1);
    }
    assert("-mmin"@ != "-user"@) by {
        reveal_strlit("-mmin");
        reveal_strlit("-user");
        lemma_differ("-mmin"@, "-user"@, 1);
    }
    assert("-mmin"@ != "-group"@) by {
        reveal_strlit("-mmin");
        reveal_strlit("-group");
        lemma_differ("-mmin"@, "-group"@, 0);
    }
    assert("-mmin"@ != "-nouser"@) by {
        reveal_strlit("-mmin");
        reveal_strlit("-nouser");
        lemma_differ("-mmin"@, "-nouser"@, 0);
    }
    assert("-mmin"@ != "-nogroup"@) by {
        reveal_strlit("-mmin");
        reveal_strlit("-nogroup");
        lemma_differ("-mmin"@, "-nogroup"@, 0);
    }
    assert("-mmin"@ != "-readable"@) by {
        reveal_strlit("-mmin");
        reveal_strlit("-readable");
        lemma_differ("-mmin"@, "-readable"@, 0);
    }
    assert("-mmin"@ != "-writable"@) by {
        reveal_strlit("-mmin");
        reveal_strlit("-writable");
        lemma_differ("-mmin"@, "-writable"@, 0);
    }
    assert("-mmin"@ != "-executable"@) by {
        reveal_strlit("-mmin");
        reveal_strlit("-executable");
        lemma_differ("-mmin"@, "-executable"@, 0);
    }
    assert("-mmin"@ != "-fstype"@) by {
        reveal_strlit("-mmin");
        reveal_strlit("-fstype");
        lemma_differ("-mmin"@, "-fstype"@, 0);
    }
    assert("-mmin"@ != "--version"@) by {
        reveal_strlit("-mmin");
        reveal_strlit("--version");
        lemma_differ("-mmin"@, "--version"@, 0);
    }
    assert("-mmin"@ != "-version"@) by {
        reveal_strlit("-mmin");
        reveal_strlit("-version");
        lemma_differ("-mmin"@, "-version"@, 0);
    }
    assert("-mmin"@ != "--help"@) by {
        reveal_strlit("-mmin");
        reveal_strlit("--help");
        lemma_differ("-mmin"@, "--help"@, 0);
    }
    assert("-mmin"@ != "-help"@) by {
        reveal_strlit("-mmin");
        reveal_strlit("-help");
        lemma_differ("-mmin"@, "-help"@, 1);
    }
    reveal(p_options);
    reveal(p_text_tests);
}

/// `-atime` is the numeric test number 6 and no other option.
proof fn lemma_option_atime(args: Seq<String>, c1: Cursor)
    ensures
        numeric_test_index("-atime"@) == Some(6int),
        p_options(args, "-atime"@, c1) is None,
        p_text_tests(args, "-atime"@, c1) is None,
        "-atime"@ != "--version"@ && "-atime"@ != "-version"@ && "-atime"@ != "--help"@ && "-atime"@ != "-help"@,
{
    assert("-atime"@ != "-uid"@) by {
        reveal_strlit("-atime");
        reveal_strlit("-uid");
        lemma_differ("-atime"@, "-uid"@, 0);
    }
    assert("-atime"@ != "-gid"@) by {
        reveal_strlit("-atime");
        reveal_strlit("-gid");
        lemma_differ("-atime"@, "-gid"@, 0);
    }
    assert("-atime"@ != "-links"@) by {
        reveal_strlit("-atime");
        reveal_strlit("-links");
        lemma_differ("-atime"@, "-links"@, 1);
    }
    assert("-atime"@ != "-inum"@) by {
        reveal_strlit("-atime");
        reveal_strlit("-inum");
        lemma_differ("-atime"@, "-inum"@, 0);
    }
    assert("-atime"@ != "-mtime"@) by {
        reveal_strlit("-atime");
        reveal_strlit("-mtime");
        lemma_differ("-atime"@, "-mtime"@, 1);
    }
    assert("-atime"@ != "-mmin"@) by {
        reveal_strlit("-atime");
        reveal_strlit("-mmin");
        lemma_differ("-atime"@, "-mmin"@, 0);
    }
    assert("-atime"@ != "-maxdepth"@) by {
        reveal_strlit("-atime");
        reveal_strlit("-maxdepth");
        lemma_differ("-atime"@, "-maxdepth"@, 0);
    }
    assert("-atime"@ != "-mindepth"@) by {
        reveal_strlit("-atime");
        reveal_strlit("-mindepth");
        lemma_differ("-atime"@, "-mindepth"@, 0);
    }
    assert("-atime"@ != "-depth"@) by {
        reveal_strlit("-atime");
        reveal_strlit("-depth");
        lemma_differ("-atime"@, "-depth"@, 1);
    }
    assert("-atime"@ != "-d"@) by {
        reveal_strlit("-atime");
        reveal_strlit("-d");
        lemma_differ("-atime"@, "-d"@, 0);
    }
    assert("-atime"@ != "-xdev"@) by {
        reveal_strlit("-atime");
        reveal_strlit("-xdev");
        lemma_differ("-atime"@, "-xdev"@, 0);
    }
    assert("-atime"@ != "-mount"@) by {
        reveal_strlit("-atime");
        reveal_strlit("-mount");
        lemma_differ("-atime"@, "-mount"@, 1);
    }
    assert("-atime"@ != "-noleaf"@) by {
        reveal_strlit("-atime");
        reveal_strlit("-noleaf");
        lemma_differ("-atime"@, "-noleaf"@, 0);
    }
    assert("-atime"@ != "-daystart"@) by {
        reveal_strlit("-atime");
        reveal_strlit("-daystart");
        lemma_differ("-atime"@, "-daystart"@, 0);
    }
    assert("-atime"@ != "-warn"@) by {
        reveal_strlit("-atime");
        reveal_strlit("-warn");
        lemma_differ("-atime"@, "-warn"@, 0);
    }
    assert("-atime"@ != "-nowarn"@) by {
        reveal_strlit("-atime");
        reveal_strlit("-nowarn");
        lemma_differ("-atime"@, "-nowarn"@, 0);
    }
    assert("-atime"@ != "-ignore_readdir_race"@) by {
        reveal_strlit("-atime");
        reveal_strlit("-ignore_readdir_race");
        lemma_differ("-atime"@, "-ignore_readdir_race"@, 0);
    }
    assert("-atime"@ != "-noignore_readdir_race"@) by {
        reveal_strlit("-atime");
        reveal_strlit("-noignore_readdir_race");
        lemma_differ("-atime"@, "-noignore_readdir_race"@, 0);
    }
    assert("-atime"@ != "-regextype"@) by {
        reveal_strlit("-atime");
        reveal_strlit("-regextype");
        lemma_differ("-atime"@, "-regextype"@, 0);
    }
    assert("-atime"@ != "-true"@) by {
        reveal_strlit("-atime");
        reveal_strlit("-true");
        lemma_differ("-atime"@, "-true"@, 0);
    }
    assert("-atime"@ != "-false"@) by {
        reveal_strlit("-atime");
        reveal_strlit("-false");
        lemma_differ("-atime"@, "-false"@, 1);
    }
    assert("-atime"@ != "-name"@) by {
        reveal_strlit("-atime");
        reveal_strlit("-name");
        lemma_differ("-atime"@, "-name"@, 0);
    }
    assert("-atime"@ != "-iname"@) by {
        reveal_strlit("-atime");
        reveal_strlit("-iname");
        lemma_differ("-atime"@, "-iname"@, 1);
    }
    assert("-atime"@ != "-path"@) by {
        reveal_strlit("-atime");
        reveal_strlit("-path");
        lemma_differ("-atime"@, "-path"@, 0);
    }
    assert("-atime"@ != "-wholename"@) by {
        reveal_strlit("-atime");
        reveal_strlit("-wholename");
        lemma_differ("-atime"@, "-wholename"@, 0);
    }
    assert("-atime"@ != "-ipath"@) by {
        reveal_strlit("-atime");
        reveal_strlit("-ipath");
        lemma_differ("-atime"@, "-ipath"@, 1);
    }
    assert("-atime"@ != "-iwholename"@) by {
        reveal_strlit("-atime");
        reveal_strlit("-iwholename");
        lemma_differ("-atime"@, "-iwholename"@, 0);
    }
    assert("-atime"@ != "-lname"@) by {
        reveal_strlit("-atime");
        reveal_strlit("-lname");
        lemma_differ("-atime"@, "-lname"@, 1);
    }
    assert("-atime"@ != "-ilname"@) by {
        reveal_strlit("-atime");
        reveal_strlit("-ilname");
        lemma_differ("-atime"@, "-ilname"@, 0);
    }
    assert("-atime"@ != "-regex"@) by {
        reveal_strlit("-atime");
        reveal_strlit("-regex");
        lemma_differ("-atime"@, "-regex"@, 1);
    }
    assert("-atime"@ != "-iregex"@) by {
        reveal_strlit("-atime");
        reveal_strlit("-iregex");
        lemma_differ("-atime"@, "-iregex"@, 0);
    }
    assert("-atime"@ != "-type"@) by {
        reveal_strlit("-atime");
        reveal_strlit("-type");
        lemma_differ("-atime"@, "-type"@, 0);
    }
    assert("-atime"@ != "-xtype"@) by {
        reveal_strlit("-atime");
        reveal_strlit("-xtype");
        lemma_differ("-atime"@, "-xtype"@, 1);
    }
    assert("-atime"@ != "-empty"@) by {
        reveal_strlit("-atime");
        reveal_strlit("-empty");
        lemma_differ("-atime"@, "-empty"@, 1);
    }
    assert("-atime"@ != "-size"@) by {
        reveal_strlit("-atime");
        reveal_strlit("-size");
        lemma_differ("-atime"@, "-size"@, 0);
    }
    assert("-atime"@ != "-perm"@) by {
        reveal_strlit("-atime");
        reveal_strlit("-perm");
        lemma_differ("-atime"@, "-perm"@, 0);
    }
    assert("-atime"@ != "-user"@) by {
        reveal_strlit("-atime");
        reveal_strlit("-user");
        lemma_differ("-atime"@, "-user"@, 0);
    }
    assert("-atime"@ != "-group"@) by {
        reveal_strlit("-atime");
        reveal_strlit("-group");
        lemma_differ("-atime"@, "-group"@, 1);
    }
    assert("-atime"@ != "-nouser"@) by {
        reveal_strlit("-atime");
        reveal_strlit("-nouser");
        lemma_differ("-atime"@, "-nouser"@, 0);
    }
    assert("-atime"@ != "-nogroup"@) by {
        reveal_strlit("-atime");
        reveal_strlit("-nogroup");
        lemma_differ("-atime"@, "-nogroup"@, 0);
    }
    assert("-atime"@ != "-readable"@) by {
        reveal_strlit("-atime");
        reveal_strlit("-readable");
        lemma_differ("-atime"@, "-readable"@, 0);
    }
    assert("-atime"@ != "-writable"@) by {
        reveal_strlit("-atime");
        reveal_strlit("-writable");
        lemma_differ("-atime"@, "-writable"@, 0);
    }
    assert("-atime"@ != "-executable"@) by {
        reveal_strlit("-atime");
        reveal_strlit("-executable");
        lemma_differ("-atime"@, "-executable"@, 0);
    }
    assert("-atime"@ != "-fstype"@) by {
        reveal_strlit("-atime");
        reveal_strlit("-fstype");
        lemma_differ("-atime"@, "-fstype"@, 0);
    }
    assert("-atime"@ != "--version"@) by {
        reveal_strlit("-atime");
        reveal_strlit("--version");
        lemma_differ("-atime"@, "--version"@, 0);
    }
    assert("-atime"@ != "-version"@) by {
        reveal_strlit("-atime");
        reveal_strlit("-version");
        lemma_differ("-atime"@, "-version"@, 0);
    }
    assert("-atime"@ != "--help"@) by {
        reveal_strlit("-atime");
        reveal_strlit("--help");
        lemma_differ("-atime"@, "--help"@, 1);
    }
    assert("-atime"@ != "-help"@) by {
        reveal_strlit("-atime");
        reveal_strlit("-help");
        lemma_differ("-atime"@, "-help"@, 0);
    }
    reveal(p_options);
    reveal(p_text_tests);
}

/// `-amin` is the numeric test number 7 and no other option.
proof fn lemma_option_amin(args: Seq<String>, c1: Cursor)
    ensures
        numeric_test_index("-amin"@) == Some(7int),
        p_options(args, "-amin"@, c1) is None,
        p_text_tests(args, "-amin"@, c1) is None,
        "-amin"@ != "--version"@ && "-amin"@ != "-version"@ && "-amin"@ != "--help"@ && "-amin"@ != "-help"@,
{
    assert("-amin"@ != "-uid"@) by {
        reveal_strlit("-amin");
        reveal_strlit("-uid");
        lemma_differ("-amin"@, "-uid"@, 0);
    }
    assert("-amin"@ != "-gid"@) by {
        reveal_strlit("-amin");
        reveal_strlit("-gid");
        lemma_differ("-amin"@, "-gid"@, 0);
    }
    assert("-amin"@ != "-links"@) by {
        reveal_strlit("-amin");
        reveal_strlit("-links");
        lemma_differ("-amin"@, "-links"@, 0);
    }
    assert("-amin"@ != "-inum"@) by {
        reveal_strlit("-amin");
        reveal_strlit("-inum");
        lemma_differ("-amin"@, "-inum"@, 1);
    }
    assert("-amin"@ != "-mtime"@) by {
        reveal_strlit("-amin");
        reveal_strlit("-mtime");
        lemma_differ("-amin"@, "-mtime"@, 0);
    }
    assert("-amin"@ != "-mmin"@) by {
        reveal_strlit("-amin");
        reveal_strlit("-mmin");
        lemma_differ("-amin"@, "-mmin"@, 1);
    }
    assert("-amin"@ != "-atime"@) by {
        reveal_strlit("-amin");
        reveal_strlit("-atime");
        lemma_differ("-amin"@, "-atime"@, 0);
    }
    assert("-amin"@ != "-maxdepth"@) by {
        reveal_strlit("-amin");
        reveal_strlit("-maxdepth");
        lemma_differ("-amin"@, "-maxdepth"@, 0);
    }
    assert("-amin"@ != "-mindepth"@) by {
        reveal_strlit("-amin");
        reveal_strlit("-mindepth");
        lemma_differ("-amin"@, "-mindepth"@, 0);
    }
    assert("-amin"@ != "-depth"@) by {
        reveal_strlit("-amin");
        reveal_strlit("-depth");
        lemma_differ("-amin"@, "-depth"@, 0);
    }
    assert("-amin"@ != "-d"@) by {
        reveal_strlit("-amin");
        reveal_strlit("-d");
        lemma_differ("-amin"@, "-d"@, 0);
    }
    assert("-amin"@ != "-xdev"@) by {
        reveal_strlit("-amin");
        reveal_strlit("-xdev");
        lemma_differ("-amin"@, "-xdev"@, 1);
    }
    assert("-amin"@ != "-mount"@) by {
        reveal_strlit("-amin");
        reveal_strlit("-mount");
        lemma_differ("-amin"@, "-mount"@, 0);
    }
    assert("-amin"@ != "-noleaf"@) by {
        reveal_strlit("-amin");
        reveal_strlit("-noleaf");
        lemma_differ("-amin"@, "-noleaf"@, 0);
    }
    assert("-amin"@ != "-daystart"@) by {
        reveal_strlit("-amin");
        reveal_strlit("-daystart");
        lemma_differ("-amin"@, "-daystart"@, 0);
    }
    assert("-amin"@ != "-warn"@) by {
        reveal_strlit("-amin");
        reveal_strlit("-warn");
        lemma_differ("-amin"@, "-warn"@, 1);
    }
    assert("-amin"@ != "-nowarn"@) by {
        reveal_strlit("-amin");
        reveal_strlit("-nowarn");
        lemma_differ("-amin"@, "-nowarn"@, 0);
    }
    assert("-amin"@ != "-ignore_readdir_race"@) by {
        reveal_strlit("-amin");
        reveal_strlit("-ignore_readdir_race");
        lemma_differ("-amin"@, "-ignore_readdir_race"@, 0);
    }
    assert("-amin"@ != "-noignore_readdir_race"@) by {
        reveal_strlit("-amin");
        reveal_strlit("-noignore_readdir_race");
        lemma_differ("-amin"@, "-noignore_readdir_race"@, 0);
    }
    assert("-amin"@ != "-regextype"@) by {
        reveal_strlit("-amin");
        reveal_strlit("-regextype");
        lemma_differ("-amin"@, "-regextype"@, 0);
    }
    assert("-amin"@ != "-true"@) by {
        reveal_strlit("-amin");
        reveal_strlit("-true");
        lemma_differ("-amin"@, "-true"@, 1);
    }
    assert("-amin"@ != "-false"@) by {
        reveal_strlit("-amin");
        reveal_strlit("-false");
        lemma_differ("-amin"@, "-false"@, 0);
    }
    assert("-amin"@ != "-name"@) by {
        reveal_strlit("-amin");
        reveal_strlit("-name");
        lemma_differ("-amin"@, "-name"@, 1);
    }
    assert("-amin"@ != "-iname"@) by {
        reveal_strlit("-amin");
        reveal_strlit("-iname");
        lemma_differ("-amin"@, "-iname"@, 0);
    }
    assert("-amin"@ != "-path"@) by {
        reveal_strlit("-amin");
        reveal_strlit("-path");
        lemma_differ("-amin"@, "-path"@, 1);
    }
    assert("-amin"@ != "-wholename"@) by {
        reveal_strlit("-amin");
        reveal_strlit("-wholename");
        lemma_differ("-amin"@, "-wholename"@, 0);
    }
    assert("-amin"@ != "-ipath"@) by {
        reveal_strlit("-amin");
        reveal_strlit("-ipath");
        lemma_differ("-amin"@, "-ipath"@, 0);
    }
    assert("-amin"@ != "-iwholename"@) by {
        reveal_strlit("-amin");
        reveal_strlit("-iwholename");
        lemma_differ("-amin"@, "-iwholename"@, 0);
    }
    assert("-amin"@ != "-lname"@) by {
        reveal_strlit("-amin");
        reveal_strlit("-lname");
        lemma_differ("-amin"@, "-lname"@, 0);
    }
    assert("-amin"@ != "-ilname"@) by {
        reveal_strlit("-amin");
        reveal_strlit("-ilname");
        lemma_differ("-amin"@, "-ilname"@, 0);
    }
    assert("-amin"@ != "-regex"@) by {
        reveal_strlit("-amin");
        reveal_strlit("-regex");
        lemma_differ("-amin"@, "-regex"@, 0);
    }
    assert("-amin"@ != "-iregex"@) by {
        reveal_strlit("-amin");
        reveal_strlit("-iregex");
        lemma_differ("-amin"@, "-iregex"@, 0);
    }
    assert("-amin"@ != "-type"@) by {
        reveal_strlit("-amin");
        reveal_strlit("-type");
        lemma_differ("-amin"@, "-type"@, 1);
    }
    assert("-amin"@ != "-xtype"@) by {
        reveal_strlit("-amin");
        reveal_strlit("-xtype");
        lemma_differ("-amin"@, "-xtype"@, 0);
    }
    assert("-amin"@ != "-empty"@) by {
        reveal_strlit("-amin");
        reveal_strlit("-empty");
        lemma_differ("-amin"@, "-empty"@, 0);
    }
    assert("-amin"@ != "-size"@) by {
        reveal_strlit("-amin");
        reveal_strlit("-size");
        lemma_differ("-amin"@, "-size"@, 1);
    }
    assert("-amin"@ != "-perm"@) by {
        reveal_strlit("-amin");
        reveal_strlit("-perm");
        lemma_differ("-amin"@, "-perm"@, 1);
    }
    assert("-amin"@ != "-user"@) by {
        reveal_strlit("-amin");
        reveal_strlit("-user");
        lemma_differ("-amin"@, "-user"@, 1);
    }
    assert("-amin"@ != "-group"@) by {
        reveal_strlit("-amin");
        reveal_strlit("-group");
        lemma_differ("-amin"@, "-group"@, 0);
    }
    assert("-amin"@ != "-nouser"@) by {
        reveal_strlit("-amin");
        reveal_strlit("-nouser");
        lemma_differ("-amin"@, "-nouser"@, 0);
    }
    assert("-amin"@ != "-nogroup"@) by {
        reveal_strlit("-amin");
        reveal_strlit("-nogroup");
        lemma_differ("-amin"@, "-nogroup"@, 0);
    }
    assert("-amin"@ != "-readable"@) by {
        reveal_strlit("-amin");
        reveal_strlit("-readable");
        lemma_differ("-amin"@, "-readable"@, 0);
    }
    assert("-amin"@ != "-writable"@) by {
        reveal_strlit("-amin");
        reveal_strlit("-writable");
        lemma_differ("-amin"@, "-writable"@, 0);
    }
    assert("-amin"@ != "-executable"@) by {
        reveal_strlit("-amin");
        reveal_strlit("-executable");
        lemma_differ("-amin"@, "-executable"@, 0);
    }
    assert("-amin"@ != "-fstype"@) by {
        reveal_strlit("-amin");
        reveal_strlit("-fstype");
        lemma_differ("-amin"@, "-fstype"@, 0);
    }
    assert("-amin"@ != "--version"@) by {
        reveal_strlit("-amin");
        reveal_strlit("--version");
        lemma_differ("-amin"@, "--version"@, 0);
    }
    assert("-amin"@ != "-version"@) by {
        reveal_strlit("-amin");
        reveal_strlit("-version");
        lemma_differ("-amin"@, "-version"@, 0);
    }
    assert("-amin"@ != "--help"@) by {
        reveal_strlit("-amin");
        reveal_strlit("--help");
        lemma_differ("-amin"@, "--help"@, 0);
    }
    assert("-amin"@ != "-help"@) by {
        reveal_strlit("-amin");
        reveal_strlit("-help");
        lemma_differ("-amin"@, "-help"@, 1);
    }
    reveal(p_options);
    reveal(p_text_tests);
}

/// `-ctime` is the numeric test number 8 and no other option.
proof fn lemma_option_ctime(args: Seq<String>, c1: Cursor)
    ensures
        numeric_test_index("-ctime"@) == Some(8int),
        p_options(args, "-ctime"@, c1) is None,
        p_text_tests(args, "-ctime"@, c1) is None,
        "-ctime"@ != "--version"@ && "-ctime"@ != "-version"@ && "-ctime"@ != "--help"@ && "-ctime"@ != "-help"@,
{
    assert("-ctime"@ != "-uid"@) by {
        reveal_strlit("-ctime");
        reveal_strlit("-uid");
        lemma_differ("-ctime"@, "-uid"@, 0);
    }
    assert("-ctime"@ != "-gid"@) by {
        reveal_strlit("-ctime");
        reveal_strlit("-gid");
        lemma_differ("-ctime"@, "-gid"@, 0);
    }
    assert("-ctime"@ != "-links"@) by {
        reveal_strlit("-ctime");
        reveal_strlit("-links");
        lemma_differ("-ctime"@, "-links"@, 1);
    }
    assert("-ctime"@ != "-inum"@) by {
        reveal_strlit("-ctime");
        reveal_strlit("-inum");
        lemma_differ("-ctime"@, "-inum"@, 0);
    }
    assert("-ctime"@ != "-mtime"@) by {
        reveal_strlit("-ctime");
        reveal_strlit("-mtime");
        lemma_differ("-ctime"@, "-mtime"@, 1);
    }
    assert("-ctime"@ != "-mmin"@) by {
        reveal_strlit("-ctime");
        reveal_strlit("-mmin");
        lemma_differ("-ctime"@, "-mmin"@, 0);
    }
    assert("-ctime"@ != "-atime"@) by {
        reveal_strlit("-ctime");
        reveal_strlit("-atime");
        lemma_differ("-ctime"@, "-atime"@, 1);
    }
    assert("-ctime"@ != "-amin"@) by {
        reveal_strlit("-ctime");
        reveal_strlit("-amin");
        lemma_differ("-ctime"@, "-amin"@, 0);
    }
    assert("-ctime"@ != "-maxdepth"@) by {
        reveal_strlit("-ctime");
        reveal_strlit("-maxdepth");
        lemma_differ("-ctime"@, "-maxdepth"@, 0);
    }
    assert("-ctime"@ != "-mindepth"@) by {
        reveal_strlit("-ctime");
        reveal_strlit("-mindepth");
        lemma_differ("-ctime"@, "-mindepth"@, 0);
    }
    assert("-ctime"@ != "-depth"@) by {
        reveal_strlit("-ctime");
        reveal_strlit("-depth");
        lemma_differ("-ctime"@, "-depth"@, 1);
    }
    assert("-ctime"@ != "-d"@) by {
        reveal_strlit("-ctime");
        reveal_strlit("-d");
        lemma_differ("-ctime"@, "-d"@, 0);
    }
    assert("-ctime"@ != "-xdev"@) by {
        reveal_strlit("-ctime");
        reveal_strlit("-xdev");
        lemma_differ("-ctime"@, "-xdev"@, 0);
    }
    assert("-ctime"@ != "-mount"@) by {
        reveal_strlit("-ctime");
        reveal_strlit("-mount");
        lemma_differ("-ctime"@, "-mount"@, 1);
    }
    assert("-ctime"@ != "-noleaf"@) by {
        reveal_strlit("-ctime");
        reveal_strlit("-noleaf");
        lemma_differ("-ctime"@, "-noleaf"@, 0);
    }
    assert("-ctime"@ != "-daystart"@) by {
        reveal_strlit("-ctime");
        reveal_strlit("-daystart");
        lemma_differ("-ctime"@, "-daystart"@, 0);
    }
    assert("-ctime"@ != "-warn"@) by {
        reveal_strlit("-ctime");
        reveal_strlit("-warn");
        lemma_differ("-ctime"@, "-warn"@, 0);
    }
    assert("-ctime"@ != "-nowarn"@) by {
        reveal_strlit("-ctime");
        reveal_strlit("-nowarn");
        lemma_differ("-ctime"@, "-nowarn"@, 0);
    }
    assert("-ctime"@ != "-ignore_readdir_race"@) by {
        reveal_strlit("-ctime");
        reveal_strlit("-ignore_readdir_race");
        lemma_differ("-ctime"@, "-ignore_readdir_race"@, 0);
    }
    assert("-ctime"@ != "-noignore_readdir_race"@) by {
        reveal_strlit("-ctime");
        reveal_strlit("-noignore_readdir_race");
        lemma_differ("-ctime"@, "-noignore_readdir_race"@, 0);
    }
    assert("-ctime"@ != "-regextype"@) by {
        reveal_strlit("-ctime");
        reveal_strlit("-regextype");
        lemma_differ("-ctime"@, "-regextype"@, 0);
    }
    assert("-ctime"@ != "-true"@) by {
        reveal_strlit("-ctime");
        reveal_strlit("-true");
        lemma_differ("-ctime"@, "-true"@, 0);
    }
    assert("-ctime"@ != "-false"@) by {
        reveal_strlit("-ctime");
        reveal_strlit("-false");
        lemma_differ("-ctime"@, "-false"@, 1);
    }
    assert("-ctime"@ != "-name"@) by {
        reveal_strlit("-ctime");
        reveal_strlit("-name");
        lemma_differ("-ctime"@, "-name"@, 0);
    }
    assert("-ctime"@ != "-iname"@) by {
        reveal_strlit("-ctime");
        reveal_strlit("-iname");
        lemma_differ("-ctime"@, "-iname"@, 1);
    }
    assert("-ctime"@ != "-path"@) by {
        reveal_strlit("-ctime");
        reveal_strlit("-path");
        lemma_differ("-ctime"@, "-path"@, 0);
    }
    assert("-ctime"@ != "-wholename"@) by {
        reveal_strlit("-ctime");
        reveal_strlit("-wholename");
        lemma_differ("-ctime"@, "-wholename"@, 0);
    }
    assert("-ctime"@ != "-ipath"@) by {
        reveal_strlit("-ctime");
        reveal_strlit("-ipath");
        lemma_differ("-ctime"@, "-ipath"@, 1);
    }
    assert("-ctime"@ != "-iwholename"@) by {
        reveal_strlit("-ctime");
        reveal_strlit("-iwholename");
        lemma_differ("-ctime"@, "-iwholename"@, 0);
    }
    assert("-ctime"@ != "-lname"@) by {
        reveal_strlit("-ctime");
        reveal_strlit("-lname");
        lemma_differ("-ctime"@, "-lname"@, 1);
    }
    assert("-ctime"@ != "-ilname"@) by {
        reveal_strlit("-ctime");
        reveal_strlit("-ilname");
        lemma_differ("-ctime"@, "-ilname"@, 0);
    }
    assert("-ctime"@ != "-regex"@) by {
        reveal_strlit("-ctime");
        reveal_strlit("-regex");
        lemma_differ("-ctime"@, "-regex"@, 1);
    }
    assert("-ctime"@ != "-iregex"@) by {
        reveal_strlit("-ctime");
        reveal_strlit("-iregex");
        lemma_differ("-ctime"@, "-iregex"@, 0);
    }
    assert("-ctime"@ != "-type"@) by {
        reveal_strlit("-ctime");
        reveal_strlit("-type");
        lemma_differ("-ctime"@, "-type"@, 0);
    }
    assert("-ctime"@ != "-xtype"@) by {
        reveal_strlit("-ctime");
        reveal_strlit("-xtype");
        lemma_differ("-ctime"@, "-xtype"@, 1);
    }
    assert("-ctime"@ != "-empty"@) by {
        reveal_strlit("-ctime");
        reveal_strlit("-empty");
        lemma_differ("-ctime"@, "-empty"@, 1);
    }
    assert("-ctime"@ != "-size"@) by {
        reveal_strlit("-ctime");
        reveal_strlit("-size");
        lemma_differ("-ctime"@, "-size"@, 0);
    }
    assert("-ctime"@ != "-perm"@) by {
        reveal_strlit("-ctime");
        reveal_strlit("-perm");
        lemma_differ("-ctime"@, "-perm"@, 0);
    }
    assert("-ctime"@ != "-user"@) by {
        reveal_strlit("-ctime");
        reveal_strlit("-user");
        lemma_differ("-ctime"@, "-user"@, 0);
    }
    assert("-ctime"@ != "-group"@) by {
        reveal_strlit("-ctime");
        reveal_strlit("-group");
        lemma_differ("-ctime"@, "-group"@, 1);
    }
    assert("-ctime"@ != "-nouser"@) by {
        reveal_strlit("-ctime");
        reveal_strlit("-nouser");
        lemma_differ("-ctime"@, "-nouser"@, 0);
    }
    assert("-ctime"@ != "-nogroup"@) by {
        reveal_strlit("-ctime");
        reveal_strlit("-nogroup");
        lemma_differ("-ctime"@, "-nogroup"@, 0);
    }
    assert("-ctime"@ != "-readable"@) by {
        reveal_strlit("-ctime");
        reveal_strlit("-readable");
        lemma_differ("-ctime"@, "-readable"@, 0);
    }
    assert("-ctime"@ != "-writable"@) by {
        reveal_strlit("-ctime");
        reveal_strlit("-writable");
        lemma_differ("-ctime"@, "-writable"@, 0);
    }
    assert("-ctime"@ != "-executable"@) by {
        reveal_strlit("-ctime");
        reveal_strlit("-executable");
        lemma_differ("-ctime"@, "-executable"@, 0);
    }
    assert("-ctime"@ != "-fstype"@) by {
        reveal_strlit("-ctime");
        reveal_strlit("-fstype");
        lemma_differ("-ctime"@, "-fstype"@, 0);
    }
    assert("-ctime"@ != "--version"@) by {
        reveal_strlit("-ctime");
        reveal_strlit("--version");
        lemma_differ("-ctime"@, "--version"@, 0);
    }
    assert("-ctime"@ != "-version"@) by {
        reveal_strlit("-ctime");
        reveal_strlit("-version");
        lemma_differ("-ctime"@, "-version"@, 0);
    }
    assert("-ctime"@ != "--help"@) by {
        reveal_strlit("-ctime");
        reveal_strlit("--help");
        lemma_differ("-ctime"@, "--help"@, 1);
    }
    assert("-ctime"@ != "-help"@) by {
        reveal_strlit("-ctime");
        reveal_strlit("-help");
        lemma_differ("-ctime"@, "-help"@, 0);
    }
    reveal(p_options);
    reveal(p_text_tests);
}

/// `-cmin` is the numeric test number 9 and no other option.
proof fn lemma_option_cmin(args: Seq<String>, c1: Cursor)
    ensures
        numeric_test_index("-cmin"@) == Some(9int),
        p_options(args, "-cmin"@, c1) is None,
        p_text_tests(args, "-cmin"@, c1) is None,
        "-cmin"@ != "--version"@ && "-cmin"@ != "-version"@ && "-cmin"@ != "--help"@ && "-cmin"@ != "-help"@,
{
    assert("-cmin"@ != "-uid"@) by {
        reveal_strlit("-cmin");
        reveal_strlit("-uid");
        lemma_differ("-cmin"@, "-uid"@, 0);
    }
    assert("-cmin"@ != "-gid"@) by {
        reveal_strlit("-cmin");
        reveal_strlit("-gid");
        lemma_differ("-cmin"@, "-gid"@, 0);
    }
    assert("-cmin"@ != "-links"@) by {
        reveal_strlit("-cmin");
        reveal_strlit("-links");
        lemma_differ("-cmin"@, "-links"@, 0);
    }
    assert("-cmin"@ != "-inum"@) by {
        reveal_strlit("-cmin");
        reveal_strlit("-inum");
        lemma_differ("-cmin"@, "-inum"@, 1);
    }
    assert("-cmin"@ != "-mtime"@) by {
        reveal_strlit("-cmin");
        reveal_strlit("-mtime");
        lemma_differ("-cmin"@, "-mtime"@, 0);
    }
    assert("-cmin"@ != "-mmin"@) by {
        reveal_strlit("-cmin");
        reveal_strlit("-mmin");
        lemma_differ("-cmin"@, "-mmin"@, 1);
    }
    assert("-cmin"@ != "-atime"@) by {
        reveal_strlit("-cmin");
        reveal_strlit("-atime");
        lemma_differ("-cmin"@, "-atime"@, 0);
    }
    assert("-cmin"@ != "-amin"@) by {
        reveal_strlit("-cmin");
        reveal_strlit("-amin");
        lemma_differ("-cmin"@, "-amin"@, 1);
    }
    assert("-cmin"@ != "-ctime"@) by {
        reveal_strlit("-cmin");
        reveal_strlit("-ctime");
        lemma_differ("-cmin"@, "-ctime"@, 0);
    }
    assert("-cmin"@ != "-maxdepth"@) by {
        reveal_strlit("-cmin");
        reveal_strlit("-maxdepth");
        lemma_differ("-cmin"@, "-maxdepth"@, 0);
    }
    assert("-cmin"@ != "-mindepth"@) by {
        reveal_strlit("-cmin");
        reveal_strlit("-mindepth");
        lemma_differ("-cmin"@, "-mindepth"@, 0);
    }
    assert("-cmin"@ != "-depth"@) by {
        reveal_strlit("-cmin");
        reveal_strlit("-depth");
        lemma_differ("-cmin"@, "-depth"@, 0);
    }
    assert("-cmin"@ != "-d"@) by {
        reveal_strlit("-cmin");
        reveal_strlit("-d");
        lemma_differ("-cmin"@, "-d"@, 0);
    }
    assert("-cmin"@ != "-xdev"@) by {
        reveal_strlit("-cmin");
        reveal_strlit("-xdev");
        lemma_differ("-cmin"@, "-xdev"@, 1);
    }
    assert("-cmin"@ != "-mount"@) by {
        reveal_strlit("-cmin");
        reveal_strlit("-mount");
        lemma_differ("-cmin"@, "-mount"@, 0);
    }
    assert("-cmin"@ != "-noleaf"@) by {
        reveal_strlit("-cmin");
        reveal_strlit("-noleaf");
        lemma_differ("-cmin"@, "-noleaf"@, 0);
    }
    assert("-cmin"@ != "-daystart"@) by {
        reveal_strlit("-cmin");
        reveal_strlit("-daystart");
        lemma_differ("-cmin"@, "-daystart"@, 0);
    }
    assert("-cmin"@ != "-warn"@) by {
        reveal_strlit("-cmin");
        reveal_strlit("-warn");
        lemma_differ("-cmin"@, "-warn"@, 1);
    }
    assert("-cmin"@ != "-nowarn"@) by {
        reveal_strlit("-cmin");
        reveal_strlit("-nowarn");
        lemma_differ("-cmin"@, "-nowarn"@, 0);
    }
    assert("-cmin"@ != "-ignore_readdir_race"@) by {
        reveal_strlit("-cmin");
        reveal_strlit("-ignore_readdir_race");
        lemma_differ("-cmin"@, "-ignore_readdir_race"@, 0);
    }
    assert("-cmin"@ != "-noignore_readdir_race"@) by {
        reveal_strlit("-cmin");
        reveal_strlit("-noignore_readdir_race");
        lemma_differ("-cmin"@, "-noignore_readdir_race"@, 0);
    }
    assert("-cmin"@ != "-regextype"@) by {
        reveal_strlit("-cmin");
        reveal_strlit("-regextype");
        lemma_differ("-cmin"@, "-regextype"@, 0);
    }
    assert("-cmin"@ != "-true"@) by {
        reveal_strlit("-cmin");
        reveal_strlit("-true");
        lemma_differ("-cmin"@, "-true"@, 1);
    }
    assert("-cmin"@ != "-false"@) by {
        reveal_strlit("-cmin");
        reveal_strlit("-false");
        lemma_differ("-cmin"@, "-false"@, 0);
    }
    assert("-cmin"@ != "-name"@) by {
        reveal_strlit("-cmin");
        reveal_strlit("-name");
        lemma_differ("-cmin"@, "-name"@, 1);
    }
    assert("-cmin"@ != "-iname"@) by {
        reveal_strlit("-cmin");
        reveal_strlit("-iname");
        lemma_differ("-cmin"@, "-iname"@, 0);
    }
    assert("-cmin"@ != "-path"@) by {
        reveal_strlit("-cmin");
        reveal_strlit("-path");
        lemma_differ("-cmin"@, "-path"@, 1);
    }
    assert("-cmin"@ != "-wholename"@) by {
        reveal_strlit("-cmin");
        reveal_strlit("-wholename");
        lemma_differ("-cmin"@, "-wholename"@, 0);
    }
    assert("-cmin"@ != "-ipath"@) by {
        reveal_strlit("-cmin");
        reveal_strlit("-ipath");
        lemma_differ("-cmin"@, "-ipath"@, 0);
    }
    assert("-cmin"@ != "-iwholename"@) by {
        reveal_strlit("-cmin");
        reveal_strlit("-iwholename");
        lemma_differ("-cmin"@, "-iwholename"@, 0);
    }
    assert("-cmin"@ != "-lname"@) by {
        reveal_strlit("-cmin");
        reveal_strlit("-lname");
        lemma_differ("-cmin"@, "-lname"@, 0);
    }
    assert("-cmin"@ != "-ilname"@) by {
        reveal_strlit("-cmin");
        reveal_strlit("-ilname");
        lemma_differ("-cmin"@, "-ilname"@, 0);
    }
    assert("-cmin"@ != "-regex"@) by {
        reveal_strlit("-cmin");
        reveal_strlit("-regex");
        lemma_differ("-cmin"@, "-regex"@, 0);
    }
    assert("-cmin"@ != "-iregex"@) by {
        reveal_strlit("-cmin");
        reveal_strlit("-iregex");
        lemma_differ("-cmin"@, "-iregex"@, 0);
    }
    assert("-cmin"@ != "-type"@) by {
        reveal_strlit("-cmin");
        reveal_strlit("-type");
        lemma_differ("-cmin"@, "-type"@, 1);
    }
    assert("-cmin"@ != "-xtype"@) by {
        reveal_strlit("-cmin");
        reveal_strlit("-xtype");
        lemma_differ("-cmin"@, "-xtype"@, 0);
    }
    assert("-cmin"@ != "-empty"@) by {
        reveal_strlit("-cmin");
        reveal_strlit("-empty");
        lemma_differ("-cmin"@, "-empty"@, 0);
    }
    assert("-cmin"@ != "-size"@) by {
        reveal_strlit("-cmin");
        reveal_strlit("-size");
        lemma_differ("-cmin"@, "-size"@, 1);
    }
    assert("-cmin"@ != "-perm"@) by {
        reveal_strlit("-cmin");
        reveal_strlit("-perm");
        lemma_differ("-cmin"@, "-perm"@, 1);
    }
    assert("-cmin"@ != "-user"@) by {
        reveal_strlit("-cmin");
        reveal_strlit("-user");
        lemma_differ("-cmin"@, "-user"@, 1);
    }
    assert("-cmin"@ != "-group"@) by {
        reveal_strlit("-cmin");
        reveal_strlit("-group");
        lemma_differ("-cmin"@, "-group"@, 0);
    }
    assert("-cmin"@ != "-nouser"@) by {
        reveal_strlit("-cmin");
        reveal_strlit("-nouser");
        lemma_differ("-cmin"@, "-nouser"@, 0);
    }
    assert("-cmin"@ != "-nogroup"@) by {
        reveal_strlit("-cmin");
        reveal_strlit("-nogroup");
        lemma_differ("-cmin"@, "-nogroup"@, 0);
    }
    assert("-cmin"@ != "-readable"@) by {
        reveal_strlit("-cmin");
        reveal_strlit("-readable");
        lemma_differ("-cmin"@, "-readable"@, 0);
    }
    assert("-cmin"@ != "-writable"@) by {
        reveal_strlit("-cmin");
        reveal_strlit("-writable");
        lemma_differ("-cmin"@, "-writable"@, 0);
    }
    assert("-cmin"@ != "-executable"@) by {
        reveal_strlit("-cmin");
        reveal_strlit("-executable");
        lemma_differ("-cmin"@, "-executable"@, 0);
    }
    assert("-cmin"@ != "-fstype"@) by {
        reveal_strlit("-cmin");
        reveal_strlit("-fstype");
        lemma_differ("-cmin"@, "-fstype"@, 0);
    }
    assert("-cmin"@ != "--version"@) by {
        reveal_strlit("-cmin");
        reveal_strlit("--version");
        lemma_differ("-cmin"@, "--version"@, 0);
    }
    assert("-cmin"@ != "-version"@) by {
        reveal_strlit("-cmin");
        reveal_strlit("-version");
        lemma_differ("-cmin"@, "-version"@, 0);
    }
    assert("-cmin"@ != "--help"@) by {
        reveal_strlit("-cmin");
        reveal_strlit("--help");
        lemma_differ("-cmin"@, "--help"@, 0);
    }
    assert("-cmin"@ != "-help"@) by {
        reveal_strlit("-cmin");
        reveal_strlit("-help");
        lemma_differ("-cmin"@, "-help"@, 1);
    }
    reveal(p_options);
    reveal(p_text_tests);
}

/// `-used` is the numeric test number 10 and no other option.
proof fn lemma_option_used(args: Seq<String>, c1: Cursor)
    ensures
        numeric_test_index("-used"@) == Some(10int),
        p_options(args, "-used"@, c1) is None,
        p_text_tests(args, "-used"@, c1) is None,
        "-used"@ != "--version"@ && "-used"@ != "-version"@ && "-used"@ != "--help"@ && "-used"@ != "-help"@,
{
    assert("-used"@ != "-uid"@) by {
        reveal_strlit("-used");
        reveal_strlit("-uid");
        lemma_differ("-used"@, "-uid"@, 0);
    }
    assert("-used"@ != "-gid"@) by {
        reveal_strlit("-used");
        reveal_strlit("-gid");
        lemma_differ("-used"@, "-gid"@, 0);
    }
    assert("-used"@ != "-links"@) by {
        reveal_strlit("-used");
        reveal_strlit("-links");
        lemma_differ("-used"@, "-links"@, 0);
    }
    assert("-used"@ != "-inum"@) by {
        reveal_strlit("-used");
        reveal_strlit("-inum");
        lemma_differ("-used"@, "-inum"@, 1);
    }
    assert("-used"@ != "-mtime"@) by {
        reveal_strlit("-used");
        reveal_strlit("-mtime");
        lemma_differ("-used"@, "-mtime"@, 0);
    }
    assert("-used"@ != "-mmin"@) by {
        reveal_strlit("-used");
        reveal_strlit("-mmin");
        lemma_differ("-used"@, "-mmin"@, 1);
    }
    assert("-used"@ != "-atime"@) by {
        reveal_strlit("-used");
        reveal_strlit("-atime");
        lemma_differ("-used"@, "-atime"@, 0);
    }
    assert("-used"@ != "-amin"@) by {
        reveal_strlit("-used");
        reveal_strlit("-amin");
        lemma_differ("-used"@, "-amin"@, 1);
    }
    assert("-used"@ != "-ctime"@) by {
        reveal_strlit("-used");
        reveal_strlit("-ctime");
        lemma_differ("-used"@, "-ctime"@, 0);
    }
    assert("-used"@ != "-cmin"@) by {
        reveal_strlit("-used");
        reveal_strlit("-cmin");
        lemma_differ("-used"@, "-cmin"@, 1);
    }
    assert("-used"@ != "-maxdepth"@) by {
        reveal_strlit("-used");
        reveal_strlit("-maxdepth");
        lemma_differ("-used"@, "-maxdepth"@, 0);
    }
    assert("-used"@ != "-mindepth"@) by {
        reveal_strlit("-used");
        reveal_strlit("-mindepth");
        lemma_differ("-used"@, "-mindepth"@, 0);
    }
    assert("-used"@ != "-depth"@) by {
        reveal_strlit("-used");
        reveal_strlit("-depth");
        lemma_differ("-used"@, "-depth"@, 0);
    }
    assert("-used"@ != "-d"@) by {
        reveal_strlit("-used");
        reveal_strlit("-d");
        lemma_differ("-used"@, "-d"@, 0);
    }
    assert("-used"@ != "-xdev"@) by {
        reveal_strlit("-used");
        reveal_strlit("-xdev");
        lemma_differ("-used"@, "-xdev"@, 1);
    }
    assert("-used"@ != "-mount"@) by {
        reveal_strlit("-used");
        reveal_strlit("-mount");
        lemma_differ("-used"@, "-mount"@, 0);
    }
    assert("-used"@ != "-noleaf"@) by {
        reveal_strlit("-used");
        reveal_strlit("-noleaf");
        lemma_differ("-used"@, "-noleaf"@, 0);
    }
    assert("-used"@ != "-daystart"@) by {
        reveal_strlit("-used");
        reveal_strlit("-daystart");
        lemma_differ("-used"@, "-daystart"@, 0);
    }
    assert("-used"@ != "-warn"@) by {
        reveal_strlit("-used");
        reveal_strlit("-warn");
        lemma_differ("-used"@, "-warn"@, 1);
    }
    assert("-used"@ != "-nowarn"@) by {
        reveal_strlit("-used");
        reveal_strlit("-nowarn");
        lemma_differ("-used"@, "-nowarn"@, 0);
    }
    assert("-used"@ != "-ignore_readdir_race"@) by {
        reveal_strlit("-used");
        reveal_strlit("-ignore_readdir_race");
        lemma_differ("-used"@, "-ignore_readdir_race"@, 0);
    }
    assert("-used"@ != "-noignore_readdir_race"@) by {
        reveal_strlit("-used");
        reveal_strlit("-noignore_readdir_race");
        lemma_differ("-used"@, "-noignore_readdir_race"@, 0);
    }
    assert("-used"@ != "-regextype"@) by {
        reveal_strlit("-used");
        reveal_strlit("-regextype");
        lemma_differ("-used"@, "-regextype"@, 0);
    }
    assert("-used"@ != "-true"@) by {
        reveal_strlit("-used");
        reveal_strlit("-true");
        lemma_differ("-used"@, "-true"@, 1);
    }
    assert("-used"@ != "-false"@) by {
        reveal_strlit("-used");
        reveal_strlit("-false");
        lemma_differ("-used"@, "-false"@, 0);
    }
    assert("-used"@ != "-name"@) by {
        reveal_strlit("-used");
        reveal_strlit("-name");
        lemma_differ("-used"@, "-name"@, 1);
    }
    assert("-used"@ != "-iname"@) by {
        reveal_strlit("-used");
        reveal_strlit("-iname");
        lemma_differ("-used"@, "-iname"@, 0);
    }
    assert("-used"@ != "-path"@) by {
        reveal_strlit("-used");
        reveal_strlit("-path");
        lemma_differ("-used"@, "-path"@, 1);
    }
    assert("-used"@ != "-wholename"@) by {
        reveal_strlit("-used");
        reveal_strlit("-wholename");
        lemma_differ("-used"@, "-wholename"@, 0);
    }
    assert("-used"@ != "-ipath"@) by {
        reveal_strlit("-used");
        reveal_strlit("-ipath");
        lemma_differ("-used"@, "-ipath"@, 0);
    }
    assert("-used"@ != "-iwholename"@) by {
        reveal_strlit("-used");
        reveal_strlit("-iwholename");
        lemma_differ("-used"@, "-iwholename"@, 0);
    }
    assert("-used"@ != "-lname"@) by {
        reveal_strlit("-used");
        reveal_strlit("-lname");
        lemma_differ("-used"@, "-lname"@, 0);
    }
    assert("-used"@ != "-ilname"@) by {
        reveal_strlit("-used");
        reveal_strlit("-ilname");
        lemma_differ("-used"@, "-ilname"@, 0);
    }
    assert("-used"@ != "-regex"@) by {
        reveal_strlit("-used");
        reveal_strlit("-regex");
        lemma_differ("-used"@, "-regex"@, 0);
    }
    assert("-used"@ != "-iregex"@) by {
        reveal_strlit("-used");
        reveal_strlit("-iregex");
        lemma_differ("-used"@, "-iregex"@, 0);
    }
    assert("-used"@ != "-type"@) by {
        reveal_strlit("-used");
        reveal_strlit("-type");
        lemma_differ("-used"@, "-type"@, 1);
    }
    assert("-used"@ != "-xtype"@) by {
        reveal_strlit("-used");
        reveal_strlit("-xtype");
        lemma_differ("-used"@, "-xtype"@, 0);
    }
    assert("-used"@ != "-empty"@) by {
        reveal_strlit("-used");
        reveal_strlit("-empty");
        lemma_differ("-used"@, "-empty"@, 0);
    }
    assert("-used"@ != "-size"@) by {
        reveal_strlit("-used");
        reveal_strlit("-size");
        lemma_differ("-used"@, "-size"@, 1);
    }
    assert("-used"@ != "-perm"@) by {
        reveal_strlit("-used");
        reveal_strlit("-perm");
        lemma_differ("-used"@, "-perm"@, 1);
    }
    assert("-used"@ != "-user"@) by {
        reveal_strlit("-used");
        reveal_strlit("-user");
        lemma_differ("-used"@, "-user"@, 4);
    }
    assert("-used"@ != "-group"@) by {
        reveal_strlit("-used");
        reveal_strlit("-group");
        lemma_differ("-used"@, "-group"@, 0);
    }
    assert("-used"@ != "-nouser"@) by {
        reveal_strlit("-used");
        reveal_strlit("-nouser");
        lemma_differ("-used"@, "-nouser"@, 0);
    }
    assert("-used"@ != "-nogroup"@) by {
        reveal_strlit("-used");
        reveal_strlit("-nogroup");
        lemma_differ("-used"@, "-nogroup"@, 0);
    }
    assert("-used"@ != "-readable"@) by {
        reveal_strlit("-used");
        reveal_strlit("-readable");
        lemma_differ("-used"@, "-readable"@, 0);
    }
    assert("-used"@ != "-writable"@) by {
        reveal_strlit("-used");
        reveal_strlit("-writable");
        lemma_differ("-used"@, "-writable"@, 0);
    }
    assert("-used"@ != "-executable"@) by {
        reveal_strlit("-used");
        reveal_strlit("-executable");
        lemma_differ("-used"@, "-executable"@, 0);
    }
    assert("-used"@ != "-fstype"@) by {
        reveal_strlit("-used");
        reveal_strlit("-fstype");
        lemma_differ("-used"@, "-fstype"@, 0);
    }
    assert("-used"@ != "--version"@) by {
        reveal_strlit("-used");
        reveal_strlit("--version");
        lemma_differ("-used"@, "--version"@, 0);
    }
    assert("-used"@ != "-version"@) by {
        reveal_strlit("-used");
        reveal_strlit("-version");
        lemma_differ("-used"@, "-version"@, 0);
    }
    assert("-used"@ != "--help"@) by {
        reveal_strlit("-used");
        reveal_strlit("--help");
        lemma_differ("-used"@, "--help"@, 0);
    }
    assert("-used"@ != "-help"@) by {
        reveal_strlit("-used");
        reveal_strlit("-help");
        lemma_differ("-used"@, "-help"@, 1);
    }
    reveal(p_options);
    reveal(p_text_tests);
}

/// Two texts of different lengths, or that differ at some position, differ.
proof fn lemma_differ(a: Seq<char>, b: Seq<char>, k: int)
    requires
        a.len() != b.len() || (0 <= k < a.len() && k < b.len() && a[k] != b[k]),
    ensures
        a != b,
{
}

/// `-size N[unit]` with the metadata read: the size in units (rounded up,
/// for every unit but bytes: `w` two bytes, `b` 512, `k` 1024, `M` 1024², `G`
/// 1024³) is more than (`+N`), less than (`-N`) or exactly (`N`) the count.
pub proof fn law_size(env: Env, st: EvalState, m: Meta, size: u64)
    requires
        !st.quit,
        st.meta == Some(m),
    ensures
        ev(ExprView::Size { cmp: Cmp::Greater, size, unit: SizeUnit::Bytes }, env, st) == (st, Res::Val(m.len > size)),
        ev(ExprView::Size { cmp: Cmp::Less, size, unit: SizeUnit::Bytes }, env, st) == (st, Res::Val(m.len < size)),
        ev(ExprView::Size { cmp: Cmp::Equal, size, unit: SizeUnit::Bytes }, env, st) == (st, Res::Val(m.len == size)),
        ev(ExprView::Size { cmp: Cmp::Greater, size, unit: SizeUnit::Words }, env, st) == (st, Res::Val((m.len + 1) / 2 > size)),
        ev(ExprView::Size { cmp: Cmp::Less, size, unit: SizeUnit::Words }, env, st) == (st, Res::Val((m.len + 1) / 2 < size)),
        ev(ExprView::Size { cmp: Cmp::Equal, size, unit: SizeUnit::Words }, env, st) == (st, Res::Val((m.len + 1) / 2 == size)),
        ev(ExprView::Size { cmp: Cmp::Greater, size, unit: SizeUnit::Blocks512 }, env, st) == (st, Res::Val((m.len + 511) / 512 > size)),
        ev(ExprView::Size { cmp: Cmp::Less, size, unit: SizeUnit::Blocks512 }, env, st) == (st, Res::Val((m.len + 511) / 512 < size)),
        ev(ExprView::Size { cmp: Cmp::Equal, size, unit: SizeUnit::Blocks512 }, env, st) == (st, Res::Val((m.len + 511) / 512 == size)),
        ev(ExprView::Size { cmp: Cmp::Greater, size, unit: SizeUnit::Kilobytes }, env, st) == (st, Res::Val((m.len + 1023) / 1024 > size)),
        ev(ExprView::Size { cmp: Cmp::Less, size, unit: SizeUnit::Kilobytes }, env, st) == (st, Res::Val((m.len + 1023) / 1024 < size)),
        ev(ExprView::Size { cmp: Cmp::Equal, size, unit: SizeUnit::Kilobytes }, env, st) == (st, Res::Val((m.len + 1023) / 1024 == size)),
        ev(ExprView::Size { cmp: Cmp::Greater, size, unit: SizeUnit::Megabytes }, env, st) == (st, Res::Val((m.len + 1048575) / 1048576 > size)),
        ev(ExprView::Size { cmp: Cmp::Less, size, unit: SizeUnit::Megabytes }, env, st) == (st, Res::Val((m.len + 1048575) / 1048576 < size)),
        ev(ExprView::Size { cmp: Cmp::Equal, size, unit: SizeUnit::Megabytes }, env, st) == (st, Res::Val((m.len + 1048575) / 1048576 == size)),
        ev(ExprView::Size { cmp: Cmp::Greater, size, unit: SizeUnit::Gigabytes }, env, st) == (st, Res::Val((m.len + 1073741823) / 1073741824 > size)),
        ev(ExprView::Size { cmp: Cmp::Less, size, unit: SizeUnit::Gigabytes }, env, st) == (st, Res::Val((m.len + 1073741823) / 1073741824 < size)),
        ev(ExprView::Size { cmp: Cmp::Equal, size, unit: SizeUnit::Gigabytes }, env, st) == (st, Res::Val((m.len + 1073741823) / 1073741824 == size)),
{
    reveal(crate::eval_spec::ev_meta_test);
}

/// `-type` with one letter holds exactly for entries of that type; it asks
/// nothing.
pub proof fn law_type(env: Env, st: EvalState)
    requires
        !st.quit,
    ensures
        ev(ExprView::Type(seq![FileType::File]), env, st) == (st, Res::Val(env.entry.file_type == EntryType::File)),
        ev(ExprView::Type(seq![FileType::Directory]), env, st) == (st, Res::Val(env.entry.file_type == EntryType::Directory)),
        ev(ExprView::Type(seq![FileType::Symlink]), env, st) == (st, Res::Val(env.entry.file_type == EntryType::Symlink)),
        ev(ExprView::Type(seq![FileType::BlockDevice]), env, st) == (st, Res::Val(env.entry.file_type == EntryType::BlockDevice)),
        ev(ExprView::Type(seq![FileType::CharDevice]), env, st) == (st, Res::Val(env.entry.file_type == EntryType::CharDevice)),
        ev(ExprView::Type(seq![FileType::Pipe]), env, st) == (st, Res::Val(env.entry.file_type == EntryType::Pipe)),
        ev(ExprView::Type(seq![FileType::Socket]), env, st) == (st, Res::Val(env.entry.file_type == EntryType::Socket)),
{
    reveal(crate::eval_spec::ev_path_test);
    assert(seq![FileType::File][0] == FileType::File);
    assert(seq![FileType::Directory][0] == FileType::Directory);
    assert(seq![FileType::Symlink][0] == FileType::Symlink);
    assert(seq![FileType::BlockDevice][0] == FileType::BlockDevice);
    assert(seq![FileType::CharDevice][0] == FileType::CharDevice);
    assert(seq![FileType::Pipe][0] == FileType::Pipe);
    assert(seq![FileType::Socket][0] == FileType::Socket);
}

/// `!`: the opposite value of the operand, after the same requests and
/// changes; a request or an error is passed on.
pub proof fn law_not(b: ExprView, env: Env, st: EvalState)
    requires
        !st.quit,
    ensures
        ({
            let (s1, r) = ev(b, env, st);
            &&& (r matches Res::Val(v) ==> ev(ExprView::Not(Box::new(b)), env, st) == (s1, Res::Val(!v)))
            &&& (!(r is Val) ==> ev(ExprView::Not(Box::new(b)), env, st) == (s1, r))
        }),
{
}

/// `-print` writes the path and a newline to standard output, `-print0` the
/// path and a NUL, `-fprint FILE` the path and a newline to FILE: each asks
/// for that write, is true once it is done and fails with the write's error.
pub proof fn law_print(env: Env, st: EvalState, file: Seq<char>, e: String)
    requires
        !st.quit,
    ensures
        st.pos == env.answers.len() ==> ev(ExprView::Print, env, st) == (st, Res::Need(
            RequestView::Write(OutputView::Stdout, env.entry.path@.push(10u8)),
        )),
        st.pos == env.answers.len() ==> ev(ExprView::Print0, env, st) == (st, Res::Need(
            RequestView::Write(OutputView::Stdout, env.entry.path@.push(0u8)),
        )),
        st.pos == env.answers.len() ==> ev(ExprView::FPrint(file), env, st) == (st, Res::Need(
            RequestView::Write(OutputView::Append(file), env.entry.path@.push(10u8)),
        )),
        (0 <= st.pos < env.answers.len() && env.answers[st.pos] == Answer::Status(Ok(()))) ==> ev(
            ExprView::Print,
            env,
            st,
        ) == (EvalState { pos: st.pos + 1, ..st }, Res::Val(true)),
        (0 <= st.pos < env.answers.len() && env.answers[st.pos] == Answer::Status(Err(e))) ==> ev(
            ExprView::Print,
            env,
            st,
        ) == (EvalState { pos: st.pos + 1, ..st }, Res::Fail(e@)),
{
    reveal(crate::eval_spec::ev_action);
}

/// `-prune` is true and marks the entry as pruned; `-delete` asks for the
/// entry (a directory or not) to be removed.
pub proof fn law_prune_delete(env: Env, st: EvalState)
    requires
        !st.quit,
    ensures
        ev(ExprView::Prune, env, st) == (EvalState { prune: true, ..st }, Res::Val(true)),
        st.pos == env.answers.len() ==> ev(ExprView::Delete, env, st) == (st, Res::Need(
            RequestView::Remove(env.entry.is_dir),
        )),
        (0 <= st.pos < env.answers.len() && env.answers[st.pos] == Answer::Status(Ok(()))) ==> ev(
            ExprView::Delete,
            env,
            st,
        ) == (EvalState { pos: st.pos + 1, ..st }, Res::Val(true)),
{
    reveal(crate::eval_spec::ev_action);
}

/// `-printf` directives that need nothing read: `%d` the depth in decimal,
/// `%%` a percent sign, `\n` a newline, `\t` a tab, `\0` a NUL, `\\` a
/// backslash, and literal text itself.
pub proof fn law_printf_plain(env: Env, st: EvalState, text: Seq<char>)
    ensures
        printf_token(TokenView::Depth, env, st) == (st, TokOut::Text(
            spec_decimal_int(env.entry.depth as int),
        )),
        printf_token(TokenView::Percent, env, st) == (st, TokOut::Text(seq!['%'])),
        printf_token(TokenView::Newline, env, st) == (st, TokOut::Text(seq!['\n'])),
        printf_token(TokenView::Tab, env, st) == (st, TokOut::Text(seq!['\t'])),
        printf_token(TokenView::NullChar, env, st) == (st, TokOut::Text(seq!['\0'])),
        printf_token(TokenView::Backslash, env, st) == (st, TokOut::Text(seq!['\\'])),
        printf_token(TokenView::Literal(text), env, st) == (st, TokOut::Text(text)),
{
    reveal(crate::eval_spec::printf_token);
    reveal_strlit("%");
    reveal_strlit("\n");
    reveal_strlit("\t");
    reveal_strlit("\\");
    assert("%"@ =~= seq!['%']);
    assert("\n"@ =~= seq!['\n']);
    assert("\t"@ =~= seq!['\t']);
    assert("\\"@ =~= seq!['\\']);
}

/// The time an age is measured from: the start of today with `-daystart`,
/// else now.
pub open spec fn age_from(env: Env) -> Timestamp {
    if env.ctx.daystart {
        env.ctx.daystart_time
    } else {
        env.ctx.now
    }
}

/// The whole seconds from `t` to `r` (none when `t` is later), counted from
/// the times in nanoseconds.
pub open spec fn whole_seconds(r: Timestamp, t: Timestamp) -> int {
    if r.secs as int * 1_000_000_000 + r.nanos as int >= t.secs as int * 1_000_000_000 + t.nanos as int {
        ((r.secs as int * 1_000_000_000 + r.nanos as int) - (t.secs as int * 1_000_000_000
            + t.nanos as int)) / 1_000_000_000
    } else {
        0
    }
}

/// The age tests against the modification time read: `-mtime N` compares
/// the age in whole days (86400 seconds) and `-mmin N` the age in whole
/// minutes (60 seconds) with N (`+N` more, `-N` less, `N` exactly); `-newer`
/// holds when the modification time is strictly later than the reference.
pub proof fn law_modification_age(env: Env, st: EvalState, m: Meta, t: Timestamp, n: i64, r: Timestamp)
    requires
        !st.quit,
        st.meta == Some(m),
        m.modified == Ok::<Timestamp, String>(t),
    ensures
        ev(ExprView::MTime(Cmp::Greater, n), env, st) == (st, Res::Val(
            whole_seconds(age_from(env), t) / 86400 > n,
        )),
        ev(ExprView::MTime(Cmp::Less, n), env, st) == (st, Res::Val(
            whole_seconds(age_from(env), t) / 86400 < n,
        )),
        ev(ExprView::MTime(Cmp::Equal, n), env, st) == (st, Res::Val(
            whole_seconds(age_from(env), t) / 86400 == n,
        )),
        ev(ExprView::MMin(Cmp::Greater, n), env, st) == (st, Res::Val(
            whole_seconds(age_from(env), t) / 60 > n,
        )),
        ev(ExprView::MMin(Cmp::Less, n), env, st) == (st, Res::Val(
            whole_seconds(age_from(env), t) / 60 < n,
        )),
        ev(ExprView::MMin(Cmp::Equal, n), env, st) == (st, Res::Val(
            whole_seconds(age_from(env), t) / 60 == n,
        )),
        ev(ExprView::Newer(r), env, st) == (st, Res::Val(
            t.secs > r.secs || (t.secs == r.secs && t.nanos > r.nanos),
        )),
{
    reveal(crate::eval_spec::ev_time_test);
}

/// The age tests against the access time read: `-atime N` in whole days,
/// `-amin N` in whole minutes.
pub proof fn law_access_age(env: Env, st: EvalState, m: Meta, t: Timestamp, n: i64)
    requires
        !st.quit,
        st.meta == Some(m),
        m.accessed == Ok::<Timestamp, String>(t),
    ensures
        ev(ExprView::ATime(Cmp::Equal, n), env, st) == (st, Res::Val(
            whole_seconds(age_from(env), t) / 86400 == n,
        )),
        ev(ExprView::AMin(Cmp::Equal, n), env, st) == (st, Res::Val(
            whole_seconds(age_from(env), t) / 60 == n,
        )),
{
    reveal(crate::eval_spec::ev_time_test);
}

/// The age tests against the change time: `-ctime N` in whole days and
/// `-cmin N` in whole minutes from the change time (in whole seconds); a
/// change time before the epoch is an error.
pub proof fn law_change_age(env: Env, st: EvalState, m: Meta, n: i64)
    requires
        !st.quit,
        st.meta == Some(m),
    ensures
        m.ctime >= 0 ==> ev(ExprView::CTime(Cmp::Equal, n), env, st) == (st, Res::Val(
            whole_seconds(age_from(env), Timestamp { secs: m.ctime, nanos: 0 }) / 86400 == n,
        )),
        m.ctime >= 0 ==> ev(ExprView::CMin(Cmp::Equal, n), env, st) == (st, Res::Val(
            whole_seconds(age_from(env), Timestamp { secs: m.ctime, nanos: 0 }) / 60 == n,
        )),
        m.ctime < 0 ==> ev(ExprView::CTime(Cmp::Equal, n), env, st).1 is Fail,
{
    reveal(crate::eval_spec::ev_time_test);
}


/// The actions without arguments parse to themselves: `-print`, `-print0`,
/// `-ls`, `-quit` and `-delete` hold an action, `-prune` does not; `-delete`
/// also turns on `-depth`. Parsing goes on after the word.
pub proof fn law_actions_parse(args: Seq<String>, stats: Seq<RefStat>, c: Cursor)
    requires
        0 <= c.pos < args.len(),
    ensures
        args[c.pos]@ == "-print"@ ==> p_primary(args, stats, c) == Parsed::Node(ExprView::Print, true, at(c, c.pos + 1)),
        args[c.pos]@ == "-print0"@ ==> p_primary(args, stats, c) == Parsed::Node(ExprView::Print0, true, at(c, c.pos + 1)),
        args[c.pos]@ == "-ls"@ ==> p_primary(args, stats, c) == Parsed::Node(ExprView::Ls, true, at(c, c.pos + 1)),
        args[c.pos]@ == "-prune"@ ==> p_primary(args, stats, c) == Parsed::Node(ExprView::Prune, false, at(c, c.pos + 1)),
        args[c.pos]@ == "-quit"@ ==> p_primary(args, stats, c) == Parsed::Node(ExprView::Quit, true, at(c, c.pos + 1)),
        args[c.pos]@ == "-delete"@ ==> p_primary(args, stats, c) == Parsed::Node(ExprView::Delete, true, Cursor { cfg: ConfigView { depth_first: true, ..at(c, c.pos + 1).cfg }, ..at(c, c.pos + 1) }),
{
    let c1 = at(c, c.pos + 1);
    lemma_action_print(args, stats, c1);
    lemma_action_print0(args, stats, c1);
    lemma_action_ls(args, stats, c1);
    lemma_action_prune(args, stats, c1);
    lemma_action_quit(args, stats, c1);
    lemma_action_delete(args, stats, c1);
}

/// `-print` is the action of that name and no other option.
proof fn lemma_action_print(args: Seq<String>, stats: Seq<RefStat>, c1: Cursor)
    ensures
        p_options(args, "-print"@, c1) is None,
        p_text_tests(args, "-print"@, c1) is None,
        p_numeric_tests(args, "-print"@, c1) is None,
        p_reference_tests(args, stats, "-print"@, c1) is None,
        p_actions(args, "-print"@, c1) == Some(Parsed::Node(ExprView::Print, true, c1)),
        "-print"@ != "--version"@ && "-print"@ != "-version"@ && "-print"@ != "--help"@ && "-print"@ != "-help"@,
{
    assert("-print"@ != "-maxdepth"@) by {
        reveal_strlit("-print");
        reveal_strlit("-maxdepth");
        lemma_differ("-print"@, "-maxdepth"@, 0);
    }
    assert("-print"@ != "-mindepth"@) by {
        reveal_strlit("-print");
        reveal_strlit("-mindepth");
        lemma_differ("-print"@, "-mindepth"@, 0);
    }
    assert("-print"@ != "-depth"@) by {
        reveal_strlit("-print");
        reveal_strlit("-depth");
        lemma_differ("-print"@, "-depth"@, 1);
    }
    assert("-print"@ != "-d"@) by {
        reveal_strlit("-print");
        reveal_strlit("-d");
        lemma_differ("-print"@, "-d"@, 0);
    }
    assert("-print"@ != "-xdev"@) by {
        reveal_strlit("-print");
        reveal_strlit("-xdev");
        lemma_differ("-print"@, "-xdev"@, 0);
    }
    assert("-print"@ != "-mount"@) by {
        reveal_strlit("-print");
        reveal_strlit("-mount");
        lemma_differ("-print"@, "-mount"@, 1);
    }
    assert("-print"@ != "-noleaf"@) by {
        reveal_strlit("-print");
        reveal_strlit("-noleaf");
        lemma_differ("-print"@, "-noleaf"@, 0);
    }
    assert("-print"@ != "-daystart"@) by {
        reveal_strlit("-print");
        reveal_strlit("-daystart");
        lemma_differ("-print"@, "-daystart"@, 0);
    }
    assert("-print"@ != "-warn"@) by {
        reveal_strlit("-print");
        reveal_strlit("-warn");
        lemma_differ("-print"@, "-warn"@, 0);
    }
    assert("-print"@ != "-nowarn"@) by {
        reveal_strlit("-print");
        reveal_strlit("-nowarn");
        lemma_differ("-print"@, "-nowarn"@, 0);
    }
    assert("-print"@ != "-ignore_readdir_race"@) by {
        reveal_strlit("-print");
        reveal_strlit("-ignore_readdir_race");
        lemma_differ("-print"@, "-ignore_readdir_race"@, 0);
    }
    assert("-print"@ != "-noignore_readdir_race"@) by {
        reveal_strlit("-print");
        reveal_strlit("-noignore_readdir_race");
        lemma_differ("-print"@, "-noignore_readdir_race"@, 0);
    }
    assert("-print"@ != "-regextype"@) by {
        reveal_strlit("-print");
        reveal_strlit("-regextype");
        lemma_differ("-print"@, "-regextype"@, 0);
    }
    assert("-print"@ != "-true"@) by {
        reveal_strlit("-print");
        reveal_strlit("-true");
        lemma_differ("-print"@, "-true"@, 0);
    }
    assert("-print"@ != "-false"@) by {
        reveal_strlit("-print");
        reveal_strlit("-false");
        lemma_differ("-print"@, "-false"@, 1);
    }
    assert("-print"@ != "-name"@) by {
        reveal_strlit("-print");
        reveal_strlit("-name");
        lemma_differ("-print"@, "-name"@, 0);
    }
    assert("-print"@ != "-iname"@) by {
        reveal_strlit("-print");
        reveal_strlit("-iname");
        lemma_differ("-print"@, "-iname"@, 1);
    }
    assert("-print"@ != "-path"@) by {
        reveal_strlit("-print");
        reveal_strlit("-path");
        lemma_differ("-print"@, "-path"@, 0);
    }
    assert("-print"@ != "-wholename"@) by {
        reveal_strlit("-print");
        reveal_strlit("-wholename");
        lemma_differ("-print"@, "-wholename"@, 0);
    }
    assert("-print"@ != "-ipath"@) by {
        reveal_strlit("-print");
        reveal_strlit("-ipath");
        lemma_differ("-print"@, "-ipath"@, 1);
    }
    assert("-print"@ != "-iwholename"@) by {
        reveal_strlit("-print");
        reveal_strlit("-iwholename");
        lemma_differ("-print"@, "-iwholename"@, 0);
    }
    assert("-print"@ != "-lname"@) by {
        reveal_strlit("-print");
        reveal_strlit("-lname");
        lemma_differ("-print"@, "-lname"@, 1);
    }
    assert("-print"@ != "-ilname"@) by {
        reveal_strlit("-print");
        reveal_strlit("-ilname");
        lemma_differ("-print"@, "-ilname"@, 0);
    }
    assert("-print"@ != "-regex"@) by {
        reveal_strlit("-print");
        reveal_strlit("-regex");
        lemma_differ("-print"@, "-regex"@, 1);
    }
    assert("-print"@ != "-iregex"@) by {
        reveal_strlit("-print");
        reveal_strlit("-iregex");
        lemma_differ("-print"@, "-iregex"@, 0);
    }
    assert("-print"@ != "-type"@) by {
        reveal_strlit("-print");
        reveal_strlit("-type");
        lemma_differ("-print"@, "-type"@, 0);
    }
    assert("-print"@ != "-xtype"@) by {
        reveal_strlit("-print");
        reveal_strlit("-xtype");
        lemma_differ("-print"@, "-xtype"@, 1);
    }
    assert("-print"@ != "-empty"@) by {
        reveal_strlit("-print");
        reveal_strlit("-empty");
        lemma_differ("-print"@, "-empty"@, 1);
    }
    assert("-print"@ != "-size"@) by {
        reveal_strlit("-print");
        reveal_strlit("-size");
        lemma_differ("-print"@, "-size"@, 0);
    }
    assert("-print"@ != "-perm"@) by {
        reveal_strlit("-print");
        reveal_strlit("-perm");
        lemma_differ("-print"@, "-perm"@, 0);
    }
    assert("-print"@ != "-user"@) by {
        reveal_strlit("-print");
        reveal_strlit("-user");
        lemma_differ("-print"@, "-user"@, 0);
    }
    assert("-print"@ != "-group"@) by {
        reveal_strlit("-print");
        reveal_strlit("-group");
        lemma_differ("-print"@, "-group"@, 1);
    }
    assert("-print"@ != "-nouser"@) by {
        reveal_strlit("-print");
        reveal_strlit("-nouser");
        lemma_differ("-print"@, "-nouser"@, 0);
    }
    assert("-print"@ != "-nogroup"@) by {
        reveal_strlit("-print");
        reveal_strlit("-nogroup");
        lemma_differ("-print"@, "-nogroup"@, 0);
    }
    assert("-print"@ != "-readable"@) by {
        reveal_strlit("-print");
        reveal_strlit("-readable");
        lemma_differ("-print"@, "-readable"@, 0);
    }
    assert("-print"@ != "-writable"@) by {
        reveal_strlit("-print");
        reveal_strlit("-writable");
        lemma_differ("-print"@, "-writable"@, 0);
    }
    assert("-print"@ != "-executable"@) by {
        reveal_strlit("-print");
        reveal_strlit("-executable");
        lemma_differ("-print"@, "-executable"@, 0);
    }
    assert("-print"@ != "-fstype"@) by {
        reveal_strlit("-print");
        reveal_strlit("-fstype");
        lemma_differ("-print"@, "-fstype"@, 0);
    }
    assert("-print"@ != "-uid"@) by {
        reveal_strlit("-print");
        reveal_strlit("-uid");
        lemma_differ("-print"@, "-uid"@, 0);
    }
    assert("-print"@ != "-gid"@) by {
        reveal_strlit("-print");
        reveal_strlit("-gid");
        lemma_differ("-print"@, "-gid"@, 0);
    }
    assert("-print"@ != "-links"@) by {
        reveal_strlit("-print");
        reveal_strlit("-links");
        lemma_differ("-print"@, "-links"@, 1);
    }
    assert("-print"@ != "-inum"@) by {
        reveal_strlit("-print");
        reveal_strlit("-inum");
        lemma_differ("-print"@, "-inum"@, 0);
    }
    assert("-print"@ != "-mtime"@) by {
        reveal_strlit("-print");
        reveal_strlit("-mtime");
        lemma_differ("-print"@, "-mtime"@, 1);
    }
    assert("-print"@ != "-mmin"@) by {
        reveal_strlit("-print");
        reveal_strlit("-mmin");
        lemma_differ("-print"@, "-mmin"@, 0);
    }
    assert("-print"@ != "-atime"@) by {
        reveal_strlit("-print");
        reveal_strlit("-atime");
        lemma_differ("-print"@, "-atime"@, 1);
    }
    assert("-print"@ != "-amin"@) by {
        reveal_strlit("-print");
        reveal_strlit("-amin");
        lemma_differ("-print"@, "-amin"@, 0);
    }
    assert("-print"@ != "-ctime"@) by {
        reveal_strlit("-print");
        reveal_strlit("-ctime");
        lemma_differ("-print"@, "-ctime"@, 1);
    }
    assert("-print"@ != "-cmin"@) by {
        reveal_strlit("-print");
        reveal_strlit("-cmin");
        lemma_differ("-print"@, "-cmin"@, 0);
    }
    assert("-print"@ != "-used"@) by {
        reveal_strlit("-print");
        reveal_strlit("-used");
        lemma_differ("-print"@, "-used"@, 0);
    }
    assert("-print"@ != "-samefile"@) by {
        reveal_strlit("-print");
        reveal_strlit("-samefile");
        lemma_differ("-print"@, "-samefile"@, 0);
    }
    assert("-print"@ != "-newer"@) by {
        reveal_strlit("-print");
        reveal_strlit("-newer");
        lemma_differ("-print"@, "-newer"@, 1);
    }
    assert("-print"@ != "-anewer"@) by {
        reveal_strlit("-print");
        reveal_strlit("-anewer");
        lemma_differ("-print"@, "-anewer"@, 0);
    }
    assert("-print"@ != "-cnewer"@) by {
        reveal_strlit("-print");
        reveal_strlit("-cnewer");
        lemma_differ("-print"@, "-cnewer"@, 0);
    }
    assert("-print"@ != "--version"@) by {
        reveal_strlit("-print");
        reveal_strlit("--version");
        lemma_differ("-print"@, "--version"@, 0);
    }
    assert("-print"@ != "-version"@) by {
        reveal_strlit("-print");
        reveal_strlit("-version");
        lemma_differ("-print"@, "-version"@, 0);
    }
    assert("-print"@ != "--help"@) by {
        reveal_strlit("-print");
        reveal_strlit("--help");
        lemma_differ("-print"@, "--help"@, 1);
    }
    assert("-print"@ != "-help"@) by {
        reveal_strlit("-print");
        reveal_strlit("-help");
        lemma_differ("-print"@, "-help"@, 0);
    }
    reveal_strlit("-print");
    reveal_strlit("-newer");
    assert(!is_newer_xy("-print"@));
    reveal(p_options);
    reveal(p_text_tests);
    reveal(p_numeric_tests);
    reveal(p_reference_tests);
    reveal(p_actions);
}

/// `-print0` is the action of that name and no other option.
proof fn lemma_action_print0(args: Seq<String>, stats: Seq<RefStat>, c1: Cursor)
    ensures
        p_options(args, "-print0"@, c1) is None,
        p_text_tests(args, "-print0"@, c1) is None,
        p_numeric_tests(args, "-print0"@, c1) is None,
        p_reference_tests(args, stats, "-print0"@, c1) is None,
        p_actions(args, "-print0"@, c1) == Some(Parsed::Node(ExprView::Print0, true, c1)),
        "-print0"@ != "--version"@ && "-print0"@ != "-version"@ && "-print0"@ != "--help"@ && "-print0"@ != "-help"@,
{
    assert("-print0"@ != "-maxdepth"@) by {
        reveal_strlit("-print0");
        reveal_strlit("-maxdepth");
        lemma_differ("-print0"@, "-maxdepth"@, 0);
    }
    assert("-print0"@ != "-mindepth"@) by {
        reveal_strlit("-print0");
        reveal_strlit("-mindepth");
        lemma_differ("-print0"@, "-mindepth"@, 0);
    }
    assert("-print0"@ != "-depth"@) by {
        reveal_strlit("-print0");
        reveal_strlit("-depth");
        lemma_differ("-print0"@, "-depth"@, 0);
    }
    assert("-print0"@ != "-d"@) by {
        reveal_strlit("-print0");
        reveal_strlit("-d");
        lemma_differ("-print0"@, "-d"@, 0);
    }
    assert("-print0"@ != "-xdev"@) by {
        reveal_strlit("-print0");
        reveal_strlit("-xdev");
        lemma_differ("-print0"@, "-xdev"@, 0);
    }
    assert("-print0"@ != "-mount"@) by {
        reveal_strlit("-print0");
        reveal_strlit("-mount");
        lemma_differ("-print0"@, "-mount"@, 0);
    }
    assert("-print0"@ != "-noleaf"@) by {
        reveal_strlit("-print0");
        reveal_strlit("-noleaf");
        lemma_differ("-print0"@, "-noleaf"@, 1);
    }
    assert("-print0"@ != "-daystart"@) by {
        reveal_strlit("-print0");
        reveal_strlit("-daystart");
        lemma_differ("-print0"@, "-daystart"@, 0);
    }
    assert("-print0"@ != "-warn"@) by {
        reveal_strlit("-print0");
        reveal_strlit("-warn");
        lemma_differ("-print0"@, "-warn"@, 0);
    }
    assert("-print0"@ != "-nowarn"@) by {
        reveal_strlit("-print0");
        reveal_strlit("-nowarn");
        lemma_differ("-print0"@, "-nowarn"@, 1);
    }
    assert("-print0"@ != "-ignore_readdir_race"@) by {
        reveal_strlit("-print0");
        reveal_strlit("-ignore_readdir_race");
        lemma_differ("-print0"@, "-ignore_readdir_race"@, 0);
    }
    assert("-print0"@ != "-noignore_readdir_race"@) by {
        reveal_strlit("-print0");
        reveal_strlit("-noignore_readdir_race");
        lemma_differ("-print0"@, "-noignore_readdir_race"@, 0);
    }
    assert("-print0"@ != "-regextype"@) by {
        reveal_strlit("-print0");
        reveal_strlit("-regextype");
        lemma_differ("-print0"@, "-regextype"@, 0);
    }
    assert("-print0"@ != "-true"@) by {
        reveal_strlit("-print0");
        reveal_strlit("-true");
        lemma_differ("-print0"@, "-true"@, 0);
    }
    assert("-print0"@ != "-false"@) by {
        reveal_strlit("-print0");
        reveal_strlit("-false");
        lemma_differ("-print0"@, "-false"@, 0);
    }
    assert("-print0"@ != "-name"@) by {
        reveal_strlit("-print0");
        reveal_strlit("-name");
        lemma_differ("-print0"@, "-name"@, 0);
    }
    assert("-print0"@ != "-iname"@) by {
        reveal_strlit("-print0");
        reveal_strlit("-iname");
        lemma_differ("-print0"@, "-iname"@, 0);
    }
    assert("-print0"@ != "-path"@) by {
        reveal_strlit("-print0");
        reveal_strlit("-path");
        lemma_differ("-print0"@, "-path"@, 0);
    }
    assert("-print0"@ != "-wholename"@) by {
        reveal_strlit("-print0");
        reveal_strlit("-wholename");
        lemma_differ("-print0"@, "-wholename"@, 0);
    }
    assert("-print0"@ != "-ipath"@) by {
        reveal_strlit("-print0");
        reveal_strlit("-ipath");
        lemma_differ("-print0"@, "-ipath"@, 0);
    }
    assert("-print0"@ != "-iwholename"@) by {
        reveal_strlit("-print0");
        reveal_strlit("-iwholename");
        lemma_differ("-print0"@, "-iwholename"@, 0);
    }
    assert("-print0"@ != "-lname"@) by {
        reveal_strlit("-print0");
        reveal_strlit("-lname");
        lemma_differ("-print0"@, "-lname"@, 0);
    }
    assert("-print0"@ != "-ilname"@) by {
        reveal_strlit("-print0");
        reveal_strlit("-ilname");
        lemma_differ("-print0"@, "-ilname"@, 1);
    }
    assert("-print0"@ != "-regex"@) by {
        reveal_strlit("-print0");
        reveal_strlit("-regex");
        lemma_differ("-print0"@, "-regex"@, 0);
    }
    assert("-print0"@ != "-iregex"@) by {
        reveal_strlit("-print0");
        reveal_strlit("-iregex");
        lemma_differ("-print0"@, "-iregex"@, 1);
    }
    assert("-print0"@ != "-type"@) by {
        reveal_strlit("-print0");
        reveal_strlit("-type");
        lemma_differ("-print0"@, "-type"@, 0);
    }
    assert("-print0"@ != "-xtype"@) by {
        reveal_strlit("-print0");
        reveal_strlit("-xtype");
        lemma_differ("-print0"@, "-xtype"@, 0);
    }
    assert("-print0"@ != "-empty"@) by {
        reveal_strlit("-print0");
        reveal_strlit("-empty");
        lemma_differ("-print0"@, "-empty"@, 0);
    }
    assert("-print0"@ != "-size"@) by {
        reveal_strlit("-print0");
        reveal_strlit("-size");
        lemma_differ("-print0"@, "-size"@, 0);
    }
    assert("-print0"@ != "-perm"@) by {
        reveal_strlit("-print0");
        reveal_strlit("-perm");
        lemma_differ("-print0"@, "-perm"@, 0);
    }
    assert("-print0"@ != "-user"@) by {
        reveal_strlit("-print0");
        reveal_strlit("-user");
        lemma_differ("-print0"@, "-user"@, 0);
    }
    assert("-print0"@ != "-group"@) by {
        reveal_strlit("-print0");
        reveal_strlit("-group");
        lemma_differ("-print0"@, "-group"@, 0);
    }
    assert("-print0"@ != "-nouser"@) by {
        reveal_strlit("-print0");
        reveal_strlit("-nouser");
        lemma_differ("-print0"@, "-nouser"@, 1);
    }
    assert("-print0"@ != "-nogroup"@) by {
        reveal_strlit("-print0");
        reveal_strlit("-nogroup");
        lemma_differ("-print0"@, "-nogroup"@, 0);
    }
    assert("-print0"@ != "-readable"@) by {
        reveal_strlit("-print0");
        reveal_strlit("-readable");
        lemma_differ("-print0"@, "-readable"@, 0);
    }
    assert("-print0"@ != "-writable"@) by {
        reveal_strlit("-print0");
        reveal_strlit("-writable");
        lemma_differ("-print0"@, "-writable"@, 0);
    }
    assert("-print0"@ != "-executable"@) by {
        reveal_strlit("-print0");
        reveal_strlit("-executable");
        lemma_differ("-print0"@, "-executable"@, 0);
    }
    assert("-print0"@ != "-fstype"@) by {
        reveal_strlit("-print0");
        reveal_strlit("-fstype");
        lemma_differ("-print0"@, "-fstype"@, 1);
    }
    assert("-print0"@ != "-uid"@) by {
        reveal_strlit("-print0");
        reveal_strlit("-uid");
        lemma_differ("-print0"@, "-uid"@, 0);
    }
    assert("-print0"@ != "-gid"@) by {
        reveal_strlit("-print0");
        reveal_strlit("-gid");
        lemma_differ("-print0"@, "-gid"@, 0);
    }
    assert("-print0"@ != "-links"@) by {
        reveal_strlit("-print0");
        reveal_strlit("-links");
        lemma_differ("-print0"@, "-links"@, 0);
    }
    assert("-print0"@ != "-inum"@) by {
        reveal_strlit("-print0");
        reveal_strlit("-inum");
        lemma_differ("-print0"@, "-inum"@, 0);
    }
    assert("-print0"@ != "-mtime"@) by {
        reveal_strlit("-print0");
        reveal_strlit("-mtime");
        lemma_differ("-print0"@, "-mtime"@, 0);
    }
    assert("-print0"@ != "-mmin"@) by {
        reveal_strlit("-print0");
        reveal_strlit("-mmin");
        lemma_differ("-print0"@, "-mmin"@, 0);
    }
    assert("-print0"@ != "-atime"@) by {
        reveal_strlit("-print0");
        reveal_strlit("-atime");
        lemma_differ("-print0"@, "-atime"@, 0);
    }
    assert("-print0"@ != "-amin"@) by {
        reveal_strlit("-print0");
        reveal_strlit("-amin");
        lemma_differ("-print0"@, "-amin"@, 0);
    }
    assert("-print0"@ != "-ctime"@) by {
        reveal_strlit("-print0");
        reveal_strlit("-ctime");
        lemma_differ("-print0"@, "-ctime"@, 0);
    }
    assert("-print0"@ != "-cmin"@) by {
        reveal_strlit("-print0");
        reveal_strlit("-cmin");
        lemma_differ("-print0"@, "-cmin"@, 0);
    }
    assert("-print0"@ != "-used"@) by {
        reveal_strlit("-print0");
        reveal_strlit("-used");
        lemma_differ("-print0"@, "-used"@, 0);
    }
    assert("-print0"@ != "-samefile"@) by {
        reveal_strlit("-print0");
        reveal_strlit("-samefile");
        lemma_differ("-print0"@, "-samefile"@, 0);
    }
    assert("-print0"@ != "-newer"@) by {
        reveal_strlit("-print0");
        reveal_strlit("-newer");
        lemma_differ("-print0"@, "-newer"@, 0);
    }
    assert("-print0"@ != "-anewer"@) by {
        reveal_strlit("-print0");
        reveal_strlit("-anewer");
        lemma_differ("-print0"@, "-anewer"@, 1);
    }
    assert("-print0"@ != "-cnewer"@) by {
        reveal_strlit("-print0");
        reveal_strlit("-cnewer");
        lemma_differ("-print0"@, "-cnewer"@, 1);
    }
    assert("-print0"@ != "-print"@) by {
        reveal_strlit("-print0");
        reveal_strlit("-print");
        lemma_differ("-print0"@, "-print"@, 0);
    }
    assert("-print0"@ != "--version"@) by {
        reveal_strlit("-print0");
        reveal_strlit("--version");
        lemma_differ("-print0"@, "--version"@, 0);
    }
    assert("-print0"@ != "-version"@) by {
        reveal_strlit("-print0");
        reveal_strlit("-version");
        lemma_differ("-print0"@, "-version"@, 0);
    }
    assert("-print0"@ != "--help"@) by {
        reveal_strlit("-print0");
        reveal_strlit("--help");
        lemma_differ("-print0"@, "--help"@, 0);
    }
    assert("-print0"@ != "-help"@) by {
        reveal_strlit("-print0");
        reveal_strlit("-help");
        lemma_differ("-print0"@, "-help"@, 0);
    }
    reveal_strlit("-print0");
    reveal_strlit("-newer");
    assert(!is_newer_xy("-print0"@));
    reveal(p_options);
    reveal(p_text_tests);
    reveal(p_numeric_tests);
    reveal(p_reference_tests);
    reveal(p_actions);
}

/// `-ls` is the action of that name and no other option.
proof fn lemma_action_ls(args: Seq<String>, stats: Seq<RefStat>, c1: Cursor)
    ensures
        p_options(args, "-ls"@, c1) is None,
        p_text_tests(args, "-ls"@, c1) is None,
        p_numeric_tests(args, "-ls"@, c1) is None,
        p_reference_tests(args, stats, "-ls"@, c1) is None,
        p_actions(args, "-ls"@, c1) == Some(Parsed::Node(ExprView::Ls, true, c1)),
        "-ls"@ != "--version"@ && "-ls"@ != "-version"@ && "-ls"@ != "--help"@ && "-ls"@ != "-help"@,
{
    assert("-ls"@ != "-maxdepth"@) by {
        reveal_strlit("-ls");
        reveal_strlit("-maxdepth");
        lemma_differ("-ls"@, "-maxdepth"@, 0);
    }
    assert("-ls"@ != "-mindepth"@) by {
        reveal_strlit("-ls");
        reveal_strlit("-mindepth");
        lemma_differ("-ls"@, "-mindepth"@, 0);
    }
    assert("-ls"@ != "-depth"@) by {
        reveal_strlit("-ls");
        reveal_strlit("-depth");
        lemma_differ("-ls"@, "-depth"@, 0);
    }
    assert("-ls"@ != "-d"@) by {
        reveal_strlit("-ls");
        reveal_strlit("-d");
        lemma_differ("-ls"@, "-d"@, 0);
    }
    assert("-ls"@ != "-xdev"@) by {
        reveal_strlit("-ls");
        reveal_strlit("-xdev");
        lemma_differ("-ls"@, "-xdev"@, 0);
    }
    assert("-ls"@ != "-mount"@) by {
        reveal_strlit("-ls");
        reveal_strlit("-mount");
        lemma_differ("-ls"@, "-mount"@, 0);
    }
    assert("-ls"@ != "-noleaf"@) by {
        reveal_strlit("-ls");
        reveal_strlit("-noleaf");
        lemma_differ("-ls"@, "-noleaf"@, 0);
    }
    assert("-ls"@ != "-daystart"@) by {
        reveal_strlit("-ls");
        reveal_strlit("-daystart");
        lemma_differ("-ls"@, "-daystart"@, 0);
    }
    assert("-ls"@ != "-warn"@) by {
        reveal_strlit("-ls");
        reveal_strlit("-warn");
        lemma_differ("-ls"@, "-warn"@, 0);
    }
    assert("-ls"@ != "-nowarn"@) by {
        reveal_strlit("-ls");
        reveal_strlit("-nowarn");
        lemma_differ("-ls"@, "-nowarn"@, 0);
    }
    assert("-ls"@ != "-ignore_readdir_race"@) by {
        reveal_strlit("-ls");
        reveal_strlit("-ignore_readdir_race");
        lemma_differ("-ls"@, "-ignore_readdir_race"@, 0);
    }
    assert("-ls"@ != "-noignore_readdir_race"@) by {
        reveal_strlit("-ls");
        reveal_strlit("-noignore_readdir_race");
        lemma_differ("-ls"@, "-noignore_readdir_race"@, 0);
    }
    assert("-ls"@ != "-regextype"@) by {
        reveal_strlit("-ls");
        reveal_strlit("-regextype");
        lemma_differ("-ls"@, "-regextype"@, 0);
    }
    assert("-ls"@ != "-true"@) by {
        reveal_strlit("-ls");
        reveal_strlit("-true");
        lemma_differ("-ls"@, "-true"@, 0);
    }
    assert("-ls"@ != "-false"@) by {
        reveal_strlit("-ls");
        reveal_strlit("-false");
        lemma_differ("-ls"@, "-false"@, 0);
    }
    assert("-ls"@ != "-name"@) by {
        reveal_strlit("-ls");
        reveal_strlit("-name");
        lemma_differ("-ls"@, "-name"@, 0);
    }
    assert("-ls"@ != "-iname"@) by {
        reveal_strlit("-ls");
        reveal_strlit("-iname");
        lemma_differ("-ls"@, "-iname"@, 0);
    }
    assert("-ls"@ != "-path"@) by {
        reveal_strlit("-ls");
        reveal_strlit("-path");
        lemma_differ("-ls"@, "-path"@, 0);
    }
    assert("-ls"@ != "-wholename"@) by {
        reveal_strlit("-ls");
        reveal_strlit("-wholename");
        lemma_differ("-ls"@, "-wholename"@, 0);
    }
    assert("-ls"@ != "-ipath"@) by {
        reveal_strlit("-ls");
        reveal_strlit("-ipath");
        lemma_differ("-ls"@, "-ipath"@, 0);
    }
    assert("-ls"@ != "-iwholename"@) by {
        reveal_strlit("-ls");
        reveal_strlit("-iwholename");
        lemma_differ("-ls"@, "-iwholename"@, 0);
    }
    assert("-ls"@ != "-lname"@) by {
        reveal_strlit("-ls");
        reveal_strlit("-lname");
        lemma_differ("-ls"@, "-lname"@, 0);
    }
    assert("-ls"@ != "-ilname"@) by {
        reveal_strlit("-ls");
        reveal_strlit("-ilname");
        lemma_differ("-ls"@, "-ilname"@, 0);
    }
    assert("-ls"@ != "-regex"@) by {
        reveal_strlit("-ls");
        reveal_strlit("-regex");
        lemma_differ("-ls"@, "-regex"@, 0);
    }
    assert("-ls"@ != "-iregex"@) by {
        reveal_strlit("-ls");
        reveal_strlit("-iregex");
        lemma_differ("-ls"@, "-iregex"@, 0);
    }
    assert("-ls"@ != "-type"@) by {
        reveal_strlit("-ls");
        reveal_strlit("-type");
        lemma_differ("-ls"@, "-type"@, 0);
    }
    assert("-ls"@ != "-xtype"@) by {
        reveal_strlit("-ls");
        reveal_strlit("-xtype");
        lemma_differ("-ls"@, "-xtype"@, 0);
    }
    assert("-ls"@ != "-empty"@) by {
        reveal_strlit("-ls");
        reveal_strlit("-empty");
        lemma_differ("-ls"@, "-empty"@, 0);
    }
    assert("-ls"@ != "-size"@) by {
        reveal_strlit("-ls");
        reveal_strlit("-size");
        lemma_differ("-ls"@, "-size"@, 0);
    }
    assert("-ls"@ != "-perm"@) by {
        reveal_strlit("-ls");
        reveal_strlit("-perm");
        lemma_differ("-ls"@, "-perm"@, 0);
    }
    assert("-ls"@ != "-user"@) by {
        reveal_strlit("-ls");
        reveal_strlit("-user");
        lemma_differ("-ls"@, "-user"@, 0);
    }
    assert("-ls"@ != "-group"@) by {
        reveal_strlit("-ls");
        reveal_strlit("-group");
        lemma_differ("-ls"@, "-group"@, 0);
    }
    assert("-ls"@ != "-nouser"@) by {
        reveal_strlit("-ls");
        reveal_strlit("-nouser");
        lemma_differ("-ls"@, "-nouser"@, 0);
    }
    assert("-ls"@ != "-nogroup"@) by {
        reveal_strlit("-ls");
        reveal_strlit("-nogroup");
        lemma_differ("-ls"@, "-nogroup"@, 0);
    }
    assert("-ls"@ != "-readable"@) by {
        reveal_strlit("-ls");
        reveal_strlit("-readable");
        lemma_differ("-ls"@, "-readable"@, 0);
    }
    assert("-ls"@ != "-writable"@) by {
        reveal_strlit("-ls");
        reveal_strlit("-writable");
        lemma_differ("-ls"@, "-writable"@, 0);
    }
    assert("-ls"@ != "-executable"@) by {
        reveal_strlit("-ls");
        reveal_strlit("-executable");
        lemma_differ("-ls"@, "-executable"@, 0);
    }
    assert("-ls"@ != "-fstype"@) by {
        reveal_strlit("-ls");
        reveal_strlit("-fstype");
        lemma_differ("-ls"@, "-fstype"@, 0);
    }
    assert("-ls"@ != "-uid"@) by {
        reveal_strlit("-ls");
        reveal_strlit("-uid");
        lemma_differ("-ls"@, "-uid"@, 0);
    }
    assert("-ls"@ != "-gid"@) by {
        reveal_strlit("-ls");
        reveal_strlit("-gid");
        lemma_differ("-ls"@, "-gid"@, 0);
    }
    assert("-ls"@ != "-links"@) by {
        reveal_strlit("-ls");
        reveal_strlit("-links");
        lemma_differ("-ls"@, "-links"@, 0);
    }
    assert("-ls"@ != "-inum"@) by {
        reveal_strlit("-ls");
        reveal_strlit("-inum");
        lemma_differ("-ls"@, "-inum"@, 0);
    }
    assert("-ls"@ != "-mtime"@) by {
        reveal_strlit("-ls");
        reveal_strlit("-mtime");
        lemma_differ("-ls"@, "-mtime"@, 0);
    }
    assert("-ls"@ != "-mmin"@) by {
        reveal_strlit("-ls");
        reveal_strlit("-mmin");
        lemma_differ("-ls"@, "-mmin"@, 0);
    }
    assert("-ls"@ != "-atime"@) by {
        reveal_strlit("-ls");
        reveal_strlit("-atime");
        lemma_differ("-ls"@, "-atime"@, 0);
    }
    assert("-ls"@ != "-amin"@) by {
        reveal_strlit("-ls");
        reveal_strlit("-amin");
        lemma_differ("-ls"@, "-amin"@, 0);
    }
    assert("-ls"@ != "-ctime"@) by {
        reveal_strlit("-ls");
        reveal_strlit("-ctime");
        lemma_differ("-ls"@, "-ctime"@, 0);
    }
    assert("-ls"@ != "-cmin"@) by {
        reveal_strlit("-ls");
        reveal_strlit("-cmin");
        lemma_differ("-ls"@, "-cmin"@, 0);
    }
    assert("-ls"@ != "-used"@) by {
        reveal_strlit("-ls");
        reveal_strlit("-used");
        lemma_differ("-ls"@, "-used"@, 0);
    }
    assert("-ls"@ != "-samefile"@) by {
        reveal_strlit("-ls");
        reveal_strlit("-samefile");
        lemma_differ("-ls"@, "-samefile"@, 0);
    }
    assert("-ls"@ != "-newer"@) by {
        reveal_strlit("-ls");
        reveal_strlit("-newer");
        lemma_differ("-ls"@, "-newer"@, 0);
    }
    assert("-ls"@ != "-anewer"@) by {
        reveal_strlit("-ls");
        reveal_strlit("-anewer");
        lemma_differ("-ls"@, "-anewer"@, 0);
    }
    assert("-ls"@ != "-cnewer"@) by {
        reveal_strlit("-ls");
        reveal_strlit("-cnewer");
        lemma_differ("-ls"@, "-cnewer"@, 0);
    }
    assert("-ls"@ != "-print"@) by {
        reveal_strlit("-ls");
        reveal_strlit("-print");
        lemma_differ("-ls"@, "-print"@, 0);
    }
    assert("-ls"@ != "-print0"@) by {
        reveal_strlit("-ls");
        reveal_strlit("-print0");
        lemma_differ("-ls"@, "-print0"@, 0);
    }
    assert("-ls"@ != "-printf"@) by {
        reveal_strlit("-ls");
        reveal_strlit("-printf");
        lemma_differ("-ls"@, "-printf"@, 0);
    }
    assert("-ls"@ != "--version"@) by {
        reveal_strlit("-ls");
        reveal_strlit("--version");
        lemma_differ("-ls"@, "--version"@, 0);
    }
    assert("-ls"@ != "-version"@) by {
        reveal_strlit("-ls");
        reveal_strlit("-version");
        lemma_differ("-ls"@, "-version"@, 0);
    }
    assert("-ls"@ != "--help"@) by {
        reveal_strlit("-ls");
        reveal_strlit("--help");
        lemma_differ("-ls"@, "--help"@, 0);
    }
    assert("-ls"@ != "-help"@) by {
        reveal_strlit("-ls");
        reveal_strlit("-help");
        lemma_differ("-ls"@, "-help"@, 0);
    }
    reveal_strlit("-ls");
    reveal_strlit("-newer");
    assert(!is_newer_xy("-ls"@));
    reveal(p_options);
    reveal(p_text_tests);
    reveal(p_numeric_tests);
    reveal(p_reference_tests);
    reveal(p_actions);
}

/// `-prune` is the action of that name and no other option.
proof fn lemma_action_prune(args: Seq<String>, stats: Seq<RefStat>, c1: Cursor)
    ensures
        p_options(args, "-prune"@, c1) is None,
        p_text_tests(args, "-prune"@, c1) is None,
        p_numeric_tests(args, "-prune"@, c1) is None,
        p_reference_tests(args, stats, "-prune"@, c1) is None,
        p_actions(args, "-prune"@, c1) == Some(Parsed::Node(ExprView::Prune, false, c1)),
        "-prune"@ != "--version"@ && "-prune"@ != "-version"@ && "-prune"@ != "--help"@ && "-prune"@ != "-help"@,
{
    assert("-prune"@ != "-maxdepth"@) by {
        reveal_strlit("-prune");
        reveal_strlit("-maxdepth");
        lemma_differ("-prune"@, "-maxdepth"@, 0);
    }
    assert("-prune"@ != "-mindepth"@) by {
        reveal_strlit("-prune");
        reveal_strlit("-mindepth");
        lemma_differ("-prune"@, "-mindepth"@, 0);
    }
    assert("-prune"@ != "-depth"@) by {
        reveal_strlit("-prune");
        reveal_strlit("-depth");
        lemma_differ("-prune"@, "-depth"@, 1);
    }
    assert("-prune"@ != "-d"@) by {
        reveal_strlit("-prune");
        reveal_strlit("-d");
        lemma_differ("-prune"@, "-d"@, 0);
    }
    assert("-prune"@ != "-xdev"@) by {
        reveal_strlit("-prune");
        reveal_strlit("-xdev");
        lemma_differ("-prune"@, "-xdev"@, 0);
    }
    assert("-prune"@ != "-mount"@) by {
        reveal_strlit("-prune");
        reveal_strlit("-mount");
        lemma_differ("-prune"@, "-mount"@, 1);
    }
    assert("-prune"@ != "-noleaf"@) by {
        reveal_strlit("-prune");
        reveal_strlit("-noleaf");
        lemma_differ("-prune"@, "-noleaf"@, 0);
    }
    assert("-prune"@ != "-daystart"@) by {
        reveal_strlit("-prune");
        reveal_strlit("-daystart");
        lemma_differ("-prune"@, "-daystart"@, 0);
    }
    assert("-prune"@ != "-warn"@) by {
        reveal_strlit("-prune");
        reveal_strlit("-warn");
        lemma_differ("-prune"@, "-warn"@, 0);
    }
    assert("-prune"@ != "-nowarn"@) by {
        reveal_strlit("-prune");
        reveal_strlit("-nowarn");
        lemma_differ("-prune"@, "-nowarn"@, 0);
    }
    assert("-prune"@ != "-ignore_readdir_race"@) by {
        reveal_strlit("-prune");
        reveal_strlit("-ignore_readdir_race");
        lemma_differ("-prune"@, "-ignore_readdir_race"@, 0);
    }
    assert("-prune"@ != "-noignore_readdir_race"@) by {
        reveal_strlit("-prune");
        reveal_strlit("-noignore_readdir_race");
        lemma_differ("-prune"@, "-noignore_readdir_race"@, 0);
    }
    assert("-prune"@ != "-regextype"@) by {
        reveal_strlit("-prune");
        reveal_strlit("-regextype");
        lemma_differ("-prune"@, "-regextype"@, 0);
    }
    assert("-prune"@ != "-true"@) by {
        reveal_strlit("-prune");
        reveal_strlit("-true");
        lemma_differ("-prune"@, "-true"@, 0);
    }
    assert("-prune"@ != "-false"@) by {
        reveal_strlit("-prune");
        reveal_strlit("-false");
        lemma_differ("-prune"@, "-false"@, 1);
    }
    assert("-prune"@ != "-name"@) by {
        reveal_strlit("-prune");
        reveal_strlit("-name");
        lemma_differ("-prune"@, "-name"@, 0);
    }
    assert("-prune"@ != "-iname"@) by {
        reveal_strlit("-prune");
        reveal_strlit("-iname");
        lemma_differ("-prune"@, "-iname"@, 1);
    }
    assert("-prune"@ != "-path"@) by {
        reveal_strlit("-prune");
        reveal_strlit("-path");
        lemma_differ("-prune"@, "-path"@, 0);
    }
    assert("-prune"@ != "-wholename"@) by {
        reveal_strlit("-prune");
        reveal_strlit("-wholename");
        lemma_differ("-prune"@, "-wholename"@, 0);
    }
    assert("-prune"@ != "-ipath"@) by {
        reveal_strlit("-prune");
        reveal_strlit("-ipath");
        lemma_differ("-prune"@, "-ipath"@, 1);
    }
    assert("-prune"@ != "-iwholename"@) by {
        reveal_strlit("-prune");
        reveal_strlit("-iwholename");
        lemma_differ("-prune"@, "-iwholename"@, 0);
    }
    assert("-prune"@ != "-lname"@) by {
        reveal_strlit("-prune");
        reveal_strlit("-lname");
        lemma_differ("-prune"@, "-lname"@, 1);
    }
    assert("-prune"@ != "-ilname"@) by {
        reveal_strlit("-prune");
        reveal_strlit("-ilname");
        lemma_differ("-prune"@, "-ilname"@, 0);
    }
    assert("-prune"@ != "-regex"@) by {
        reveal_strlit("-prune");
        reveal_strlit("-regex");
        lemma_differ("-prune"@, "-regex"@, 1);
    }
    assert("-prune"@ != "-iregex"@) by {
        reveal_strlit("-prune");
        reveal_strlit("-iregex");
        lemma_differ("-prune"@, "-iregex"@, 0);
    }
    assert("-prune"@ != "-type"@) by {
        reveal_strlit("-prune");
        reveal_strlit("-type");
        lemma_differ("-prune"@, "-type"@, 0);
    }
    assert("-prune"@ != "-xtype"@) by {
        reveal_strlit("-prune");
        reveal_strlit("-xtype");
        lemma_differ("-prune"@, "-xtype"@, 1);
    }
    assert("-prune"@ != "-empty"@) by {
        reveal_strlit("-prune");
        reveal_strlit("-empty");
        lemma_differ("-prune"@, "-empty"@, 1);
    }
    assert("-prune"@ != "-size"@) by {
        reveal_strlit("-prune");
        reveal_strlit("-size");
        lemma_differ("-prune"@, "-size"@, 0);
    }
    assert("-prune"@ != "-perm"@) by {
        reveal_strlit("-prune");
        reveal_strlit("-perm");
        lemma_differ("-prune"@, "-perm"@, 0);
    }
    assert("-prune"@ != "-user"@) by {
        reveal_strlit("-prune");
        reveal_strlit("-user");
        lemma_differ("-prune"@, "-user"@, 0);
    }
    assert("-prune"@ != "-group"@) by {
        reveal_strlit("-prune");
        reveal_strlit("-group");
        lemma_differ("-prune"@, "-group"@, 1);
    }
    assert("-prune"@ != "-nouser"@) by {
        reveal_strlit("-prune");
        reveal_strlit("-nouser");
        lemma_differ("-prune"@, "-nouser"@, 0);
    }
    assert("-prune"@ != "-nogroup"@) by {
        reveal_strlit("-prune");
        reveal_strlit("-nogroup");
        lemma_differ("-prune"@, "-nogroup"@, 0);
    }
    assert("-prune"@ != "-readable"@) by {
        reveal_strlit("-prune");
        reveal_strlit("-readable");
        lemma_differ("-prune"@, "-readable"@, 0);
    }
    assert("-prune"@ != "-writable"@) by {
        reveal_strlit("-prune");
        reveal_strlit("-writable");
        lemma_differ("-prune"@, "-writable"@, 0);
    }
    assert("-prune"@ != "-executable"@) by {
        reveal_strlit("-prune");
        reveal_strlit("-executable");
        lemma_differ("-prune"@, "-executable"@, 0);
    }
    assert("-prune"@ != "-fstype"@) by {
        reveal_strlit("-prune");
        reveal_strlit("-fstype");
        lemma_differ("-prune"@, "-fstype"@, 0);
    }
    assert("-prune"@ != "-uid"@) by {
        reveal_strlit("-prune");
        reveal_strlit("-uid");
        lemma_differ("-prune"@, "-uid"@, 0);
    }
    assert("-prune"@ != "-gid"@) by {
        reveal_strlit("-prune");
        reveal_strlit("-gid");
        lemma_differ("-prune"@, "-gid"@, 0);
    }
    assert("-prune"@ != "-links"@) by {
        reveal_strlit("-prune");
        reveal_strlit("-links");
        lemma_differ("-prune"@, "-links"@, 1);
    }
    assert("-prune"@ != "-inum"@) by {
        reveal_strlit("-prune");
        reveal_strlit("-inum");
        lemma_differ("-prune"@, "-inum"@, 0);
    }
    assert("-prune"@ != "-mtime"@) by {
        reveal_strlit("-prune");
        reveal_strlit("-mtime");
        lemma_differ("-prune"@, "-mtime"@, 1);
    }
    assert("-prune"@ != "-mmin"@) by {
        reveal_strlit("-prune");
        reveal_strlit("-mmin");
        lemma_differ("-prune"@, "-mmin"@, 0);
    }
    assert("-prune"@ != "-atime"@) by {
        reveal_strlit("-prune");
        reveal_strlit("-atime");
        lemma_differ("-prune"@, "-atime"@, 1);
    }
    assert("-prune"@ != "-amin"@) by {
        reveal_strlit("-prune");
        reveal_strlit("-amin");
        lemma_differ("-prune"@, "-amin"@, 0);
    }
    assert("-prune"@ != "-ctime"@) by {
        reveal_strlit("-prune");
        reveal_strlit("-ctime");
        lemma_differ("-prune"@, "-ctime"@, 1);
    }
    assert("-prune"@ != "-cmin"@) by {
        reveal_strlit("-prune");
        reveal_strlit("-cmin");
        lemma_differ("-prune"@, "-cmin"@, 0);
    }
    assert("-prune"@ != "-used"@) by {
        reveal_strlit("-prune");
        reveal_strlit("-used");
        lemma_differ("-prune"@, "-used"@, 0);
    }
    assert("-prune"@ != "-samefile"@) by {
        reveal_strlit("-prune");
        reveal_strlit("-samefile");
        lemma_differ("-prune"@, "-samefile"@, 0);
    }
    assert("-prune"@ != "-newer"@) by {
        reveal_strlit("-prune");
        reveal_strlit("-newer");
        lemma_differ("-prune"@, "-newer"@, 1);
    }
    assert("-prune"@ != "-anewer"@) by {
        reveal_strlit("-prune");
        reveal_strlit("-anewer");
        lemma_differ("-prune"@, "-anewer"@, 0);
    }
    assert("-prune"@ != "-cnewer"@) by {
        reveal_strlit("-prune");
        reveal_strlit("-cnewer");
        lemma_differ("-prune"@, "-cnewer"@, 0);
    }
    assert("-prune"@ != "-print"@) by {
        reveal_strlit("-prune");
        reveal_strlit("-print");
        lemma_differ("-prune"@, "-print"@, 3);
    }
    assert("-prune"@ != "-print0"@) by {
        reveal_strlit("-prune");
        reveal_strlit("-print0");
        lemma_differ("-prune"@, "-print0"@, 0);
    }
    assert("-prune"@ != "-printf"@) by {
        reveal_strlit("-prune");
        reveal_strlit("-printf");
        lemma_differ("-prune"@, "-printf"@, 0);
    }
    assert("-prune"@ != "-ls"@) by {
        reveal_strlit("-prune");
        reveal_strlit("-ls");
        lemma_differ("-prune"@, "-ls"@, 0);
    }
    assert("-prune"@ != "-fprint"@) by {
        reveal_strlit("-prune");
        reveal_strlit("-fprint");
        lemma_differ("-prune"@, "-fprint"@, 0);
    }
    assert("-prune"@ != "-fprint0"@) by {
        reveal_strlit("-prune");
        reveal_strlit("-fprint0");
        lemma_differ("-prune"@, "-fprint0"@, 0);
    }
    assert("-prune"@ != "-fls"@) by {
        reveal_strlit("-prune");
        reveal_strlit("-fls");
        lemma_differ("-prune"@, "-fls"@, 0);
    }
    assert("-prune"@ != "-fprintf"@) by {
        reveal_strlit("-prune");
        reveal_strlit("-fprintf");
        lemma_differ("-prune"@, "-fprintf"@, 0);
    }
    assert("-prune"@ != "-delete"@) by {
        reveal_strlit("-prune");
        reveal_strlit("-delete");
        lemma_differ("-prune"@, "-delete"@, 0);
    }
    assert("-prune"@ != "--version"@) by {
        reveal_strlit("-prune");
        reveal_strlit("--version");
        lemma_differ("-prune"@, "--version"@, 0);
    }
    assert("-prune"@ != "-version"@) by {
        reveal_strlit("-prune");
        reveal_strlit("-version");
        lemma_differ("-prune"@, "-version"@, 0);
    }
    assert("-prune"@ != "--help"@) by {
        reveal_strlit("-prune");
        reveal_strlit("--help");
        lemma_differ("-prune"@, "--help"@, 1);
    }
    assert("-prune"@ != "-help"@) by {
        reveal_strlit("-prune");
        reveal_strlit("-help");
        lemma_differ("-prune"@, "-help"@, 0);
    }
    reveal_strlit("-prune");
    reveal_strlit("-newer");
    assert(!is_newer_xy("-prune"@));
    reveal(p_options);
    reveal(p_text_tests);
    reveal(p_numeric_tests);
    reveal(p_reference_tests);
    reveal(p_actions);
}

/// `-quit` is the action of that name and no other option.
proof fn lemma_action_quit(args: Seq<String>, stats: Seq<RefStat>, c1: Cursor)
    ensures
        p_options(args, "-quit"@, c1) is None,
        p_text_tests(args, "-quit"@, c1) is None,
        p_numeric_tests(args, "-quit"@, c1) is None,
        p_reference_tests(args, stats, "-quit"@, c1) is None,
        p_actions(args, "-quit"@, c1) == Some(Parsed::Node(ExprView::Quit, true, c1)),
        "-quit"@ != "--version"@ && "-quit"@ != "-version"@ && "-quit"@ != "--help"@ && "-quit"@ != "-help"@,
{
    assert("-quit"@ != "-maxdepth"@) by {
        reveal_strlit("-quit");
        reveal_strlit("-maxdepth");
        lemma_differ("-quit"@, "-maxdepth"@, 0);
    }
    assert("-quit"@ != "-mindepth"@) by {
        reveal_strlit("-quit");
        reveal_strlit("-mindepth");
        lemma_differ("-quit"@, "-mindepth"@, 0);
    }
    assert("-quit"@ != "-depth"@) by {
        reveal_strlit("-quit");
        reveal_strlit("-depth");
        lemma_differ("-quit"@, "-depth"@, 0);
    }
    assert("-quit"@ != "-d"@) by {
        reveal_strlit("-quit");
        reveal_strlit("-d");
        lemma_differ("-quit"@, "-d"@, 0);
    }
    assert("-quit"@ != "-xdev"@) by {
        reveal_strlit("-quit");
        reveal_strlit("-xdev");
        lemma_differ("-quit"@, "-xdev"@, 1);
    }
    assert("-quit"@ != "-mount"@) by {
        reveal_strlit("-quit");
        reveal_strlit("-mount");
        lemma_differ("-quit"@, "-mount"@, 0);
    }
    assert("-quit"@ != "-noleaf"@) by {
        reveal_strlit("-quit");
        reveal_strlit("-noleaf");
        lemma_differ("-quit"@, "-noleaf"@, 0);
    }
    assert("-quit"@ != "-daystart"@) by {
        reveal_strlit("-quit");
        reveal_strlit("-daystart");
        lemma_differ("-quit"@, "-daystart"@, 0);
    }
    assert("-quit"@ != "-warn"@) by {
        reveal_strlit("-quit");
        reveal_strlit("-warn");
        lemma_differ("-quit"@, "-warn"@, 1);
    }
    assert("-quit"@ != "-nowarn"@) by {
        reveal_strlit("-quit");
        reveal_strlit("-nowarn");
        lemma_differ("-quit"@, "-nowarn"@, 0);
    }
    assert("-quit"@ != "-ignore_readdir_race"@) by {
        reveal_strlit("-quit");
        reveal_strlit("-ignore_readdir_race");
        lemma_differ("-quit"@, "-ignore_readdir_race"@, 0);
    }
    assert("-quit"@ != "-noignore_readdir_race"@) by {
        reveal_strlit("-quit");
        reveal_strlit("-noignore_readdir_race");
        lemma_differ("-quit"@, "-noignore_readdir_race"@, 0);
    }
    assert("-quit"@ != "-regextype"@) by {
        reveal_strlit("-quit");
        reveal_strlit("-regextype");
        lemma_differ("-quit"@, "-regextype"@, 0);
    }
    assert("-quit"@ != "-true"@) by {
        reveal_strlit("-quit");
        reveal_strlit("-true");
        lemma_differ("-quit"@, "-true"@, 1);
    }
    assert("-quit"@ != "-false"@) by {
        reveal_strlit("-quit");
        reveal_strlit("-false");
        lemma_differ("-quit"@, "-false"@, 0);
    }
    assert("-quit"@ != "-name"@) by {
        reveal_strlit("-quit");
        reveal_strlit("-name");
        lemma_differ("-quit"@, "-name"@, 1);
    }
    assert("-quit"@ != "-iname"@) by {
        reveal_strlit("-quit");
        reveal_strlit("-iname");
        lemma_differ("-quit"@, "-iname"@, 0);
    }
    assert("-quit"@ != "-path"@) by {
        reveal_strlit("-quit");
        reveal_strlit("-path");
        lemma_differ("-quit"@, "-path"@, 1);
    }
    assert("-quit"@ != "-wholename"@) by {
        reveal_strlit("-quit");
        reveal_strlit("-wholename");
        lemma_differ("-quit"@, "-wholename"@, 0);
    }
    assert("-quit"@ != "-ipath"@) by {
        reveal_strlit("-quit");
        reveal_strlit("-ipath");
        lemma_differ("-quit"@, "-ipath"@, 0);
    }
    assert("-quit"@ != "-iwholename"@) by {
        reveal_strlit("-quit");
        reveal_strlit("-iwholename");
        lemma_differ("-quit"@, "-iwholename"@, 0);
    }
    assert("-quit"@ != "-lname"@) by {
        reveal_strlit("-quit");
        reveal_strlit("-lname");
        lemma_differ("-quit"@, "-lname"@, 0);
    }
    assert("-quit"@ != "-ilname"@) by {
        reveal_strlit("-quit");
        reveal_strlit("-ilname");
        lemma_differ("-quit"@, "-ilname"@, 0);
    }
    assert("-quit"@ != "-regex"@) by {
        reveal_strlit("-quit");
        reveal_strlit("-regex");
        lemma_differ("-quit"@, "-regex"@, 0);
    }
    assert("-quit"@ != "-iregex"@) by {
        reveal_strlit("-quit");
        reveal_strlit("-iregex");
        lemma_differ("-quit"@, "-iregex"@, 0);
    }
    assert("-quit"@ != "-type"@) by {
        reveal_strlit("-quit");
        reveal_strlit("-type");
        lemma_differ("-quit"@, "-type"@, 1);
    }
    assert("-quit"@ != "-xtype"@) by {
        reveal_strlit("-quit");
        reveal_strlit("-xtype");
        lemma_differ("-quit"@, "-xtype"@, 0);
    }
    assert("-quit"@ != "-empty"@) by {
        reveal_strlit("-quit");
        reveal_strlit("-empty");
        lemma_differ("-quit"@, "-empty"@, 0);
    }
    assert("-quit"@ != "-size"@) by {
        reveal_strlit("-quit");
        reveal_strlit("-size");
        lemma_differ("-quit"@, "-size"@, 1);
    }
    assert("-quit"@ != "-perm"@) by {
        reveal_strlit("-quit");
        reveal_strlit("-perm");
        lemma_differ("-quit"@, "-perm"@, 1);
    }
    assert("-quit"@ != "-user"@) by {
        reveal_strlit("-quit");
        reveal_strlit("-user");
        lemma_differ("-quit"@, "-user"@, 1);
    }
    assert("-quit"@ != "-group"@) by {
        reveal_strlit("-quit");
        reveal_strlit("-group");
        lemma_differ("-quit"@, "-group"@, 0);
    }
    assert("-quit"@ != "-nouser"@) by {
        reveal_strlit("-quit");
        reveal_strlit("-nouser");
        lemma_differ("-quit"@, "-nouser"@, 0);
    }
    assert("-quit"@ != "-nogroup"@) by {
        reveal_strlit("-quit");
        reveal_strlit("-nogroup");
        lemma_differ("-quit"@, "-nogroup"@, 0);
    }
    assert("-quit"@ != "-readable"@) by {
        reveal_strlit("-quit");
        reveal_strlit("-readable");
        lemma_differ("-quit"@, "-readable"@, 0);
    }
    assert("-quit"@ != "-writable"@) by {
        reveal_strlit("-quit");
        reveal_strlit("-writable");
        lemma_differ("-quit"@, "-writable"@, 0);
    }
    assert("-quit"@ != "-executable"@) by {
        reveal_strlit("-quit");
        reveal_strlit("-executable");
        lemma_differ("-quit"@, "-executable"@, 0);
    }
    assert("-quit"@ != "-fstype"@) by {
        reveal_strlit("-quit");
        reveal_strlit("-fstype");
        lemma_differ("-quit"@, "-fstype"@, 0);
    }
    assert("-quit"@ != "-uid"@) by {
        reveal_strlit("-quit");
        reveal_strlit("-uid");
        lemma_differ("-quit"@, "-uid"@, 0);
    }
    assert("-quit"@ != "-gid"@) by {
        reveal_strlit("-quit");
        reveal_strlit("-gid");
        lemma_differ("-quit"@, "-gid"@, 0);
    }
    assert("-quit"@ != "-links"@) by {
        reveal_strlit("-quit");
        reveal_strlit("-links");
        lemma_differ("-quit"@, "-links"@, 0);
    }
    assert("-quit"@ != "-inum"@) by {
        reveal_strlit("-quit");
        reveal_strlit("-inum");
        lemma_differ("-quit"@, "-inum"@, 1);
    }
    assert("-quit"@ != "-mtime"@) by {
        reveal_strlit("-quit");
        reveal_strlit("-mtime");
        lemma_differ("-quit"@, "-mtime"@, 0);
    }
    assert("-quit"@ != "-mmin"@) by {
        reveal_strlit("-quit");
        reveal_strlit("-mmin");
        lemma_differ("-quit"@, "-mmin"@, 1);
    }
    assert("-quit"@ != "-atime"@) by {
        reveal_strlit("-quit");
        reveal_strlit("-atime");
        lemma_differ("-quit"@, "-atime"@, 0);
    }
    assert("-quit"@ != "-amin"@) by {
        reveal_strlit("-quit");
        reveal_strlit("-amin");
        lemma_differ("-quit"@, "-amin"@, 1);
    }
    assert("-quit"@ != "-ctime"@) by {
        reveal_strlit("-quit");
        reveal_strlit("-ctime");
        lemma_differ("-quit"@, "-ctime"@, 0);
    }
    assert("-quit"@ != "-cmin"@) by {
        reveal_strlit("-quit");
        reveal_strlit("-cmin");
        lemma_differ("-quit"@, "-cmin"@, 1);
    }
    assert("-quit"@ != "-used"@) by {
        reveal_strlit("-quit");
        reveal_strlit("-used");
        lemma_differ("-quit"@, "-used"@, 1);
    }
    assert("-quit"@ != "-samefile"@) by {
        reveal_strlit("-quit");
        reveal_strlit("-samefile");
        lemma_differ("-quit"@, "-samefile"@, 0);
    }
    assert("-quit"@ != "-newer"@) by {
        reveal_strlit("-quit");
        reveal_strlit("-newer");
        lemma_differ("-quit"@, "-newer"@, 0);
    }
    assert("-quit"@ != "-anewer"@) by {
        reveal_strlit("-quit");
        reveal_strlit("-anewer");
        lemma_differ("-quit"@, "-anewer"@, 0);
    }
    assert("-quit"@ != "-cnewer"@) by {
        reveal_strlit("-quit");
        reveal_strlit("-cnewer");
        lemma_differ("-quit"@, "-cnewer"@, 0);
    }
    assert("-quit"@ != "-print"@) by {
        reveal_strlit("-quit");
        reveal_strlit("-print");
        lemma_differ("-quit"@, "-print"@, 0);
    }
    assert("-quit"@ != "-print0"@) by {
        reveal_strlit("-quit");
        reveal_strlit("-print0");
        lemma_differ("-quit"@, "-print0"@, 0);
    }
    assert("-quit"@ != "-printf"@) by {
        reveal_strlit("-quit");
        reveal_strlit("-printf");
        lemma_differ("-quit"@, "-printf"@, 0);
    }
    assert("-quit"@ != "-ls"@) by {
        reveal_strlit("-quit");
        reveal_strlit("-ls");
        lemma_differ("-quit"@, "-ls"@, 0);
    }
    assert("-quit"@ != "-fprint"@) by {
        reveal_strlit("-quit");
        reveal_strlit("-fprint");
        lemma_differ("-quit"@, "-fprint"@, 0);
    }
    assert("-quit"@ != "-fprint0"@) by {
        reveal_strlit("-quit");
        reveal_strlit("-fprint0");
        lemma_differ("-quit"@, "-fprint0"@, 0);
    }
    assert("-quit"@ != "-fls"@) by {
        reveal_strlit("-quit");
        reveal_strlit("-fls");
        lemma_differ("-quit"@, "-fls"@, 0);
    }
    assert("-quit"@ != "-fprintf"@) by {
        reveal_strlit("-quit");
        reveal_strlit("-fprintf");
        lemma_differ("-quit"@, "-fprintf"@, 0);
    }
    assert("-quit"@ != "-delete"@) by {
        reveal_strlit("-quit");
        reveal_strlit("-delete");
        lemma_differ("-quit"@, "-delete"@, 0);
    }
    assert("-quit"@ != "-prune"@) by {
        reveal_strlit("-quit");
        reveal_strlit("-prune");
        lemma_differ("-quit"@, "-prune"@, 0);
    }
    assert("-quit"@ != "--version"@) by {
        reveal_strlit("-quit");
        reveal_strlit("--version");
        lemma_differ("-quit"@, "--version"@, 0);
    }
    assert("-quit"@ != "-version"@) by {
        reveal_strlit("-quit");
        reveal_strlit("-version");
        lemma_differ("-quit"@, "-version"@, 0);
    }
    assert("-quit"@ != "--help"@) by {
        reveal_strlit("-quit");
        reveal_strlit("--help");
        lemma_differ("-quit"@, "--help"@, 0);
    }
    assert("-quit"@ != "-help"@) by {
        reveal_strlit("-quit");
        reveal_strlit("-help");
        lemma_differ("-quit"@, "-help"@, 1);
    }
    reveal_strlit("-quit");
    reveal_strlit("-newer");
    assert(!is_newer_xy("-quit"@));
    reveal(p_options);
    reveal(p_text_tests);
    reveal(p_numeric_tests);
    reveal(p_reference_tests);
    reveal(p_actions);
}

/// `-delete` is the action of that name and no other option.
proof fn lemma_action_delete(args: Seq<String>, stats: Seq<RefStat>, c1: Cursor)
    ensures
        p_options(args, "-delete"@, c1) is None,
        p_text_tests(args, "-delete"@, c1) is None,
        p_numeric_tests(args, "-delete"@, c1) is None,
        p_reference_tests(args, stats, "-delete"@, c1) is None,
        p_actions(args, "-delete"@, c1) == Some(Parsed::Node(ExprView::Delete, true, Cursor { cfg: ConfigView { depth_first: true, ..c1.cfg }, ..c1 })),
        "-delete"@ != "--version"@ && "-delete"@ != "-version"@ && "-delete"@ != "--help"@ && "-delete"@ != "-help"@,
{
    assert("-delete"@ != "-maxdepth"@) by {
        reveal_strlit("-delete");
        reveal_strlit("-maxdepth");
        lemma_differ("-delete"@, "-maxdepth"@, 0);
    }
    assert("-delete"@ != "-mindepth"@) by {
        reveal_strlit("-delete");
        reveal_strlit("-mindepth");
        lemma_differ("-delete"@, "-mindepth"@, 0);
    }
    assert("-delete"@ != "-depth"@) by {
        reveal_strlit("-delete");
        reveal_strlit("-depth");
        lemma_differ("-delete"@, "-depth"@, 0);
    }
    assert("-delete"@ != "-d"@) by {
        reveal_strlit("-delete");
        reveal_strlit("-d");
        lemma_differ("-delete"@, "-d"@, 0);
    }
    assert("-delete"@ != "-xdev"@) by {
        reveal_strlit("-delete");
        reveal_strlit("-xdev");
        lemma_differ("-delete"@, "-xdev"@, 0);
    }
    assert("-delete"@ != "-mount"@) by {
        reveal_strlit("-delete");
        reveal_strlit("-mount");
        lemma_differ("-delete"@, "-mount"@, 0);
    }
    assert("-delete"@ != "-noleaf"@) by {
        reveal_strlit("-delete");
        reveal_strlit("-noleaf");
        lemma_differ("-delete"@, "-noleaf"@, 1);
    }
    assert("-delete"@ != "-daystart"@) by {
        reveal_strlit("-delete");
        reveal_strlit("-daystart");
        lemma_differ("-delete"@, "-daystart"@, 0);
    }
    assert("-delete"@ != "-warn"@) by {
        reveal_strlit("-delete");
        reveal_strlit("-warn");
        lemma_differ("-delete"@, "-warn"@, 0);
    }
    assert("-delete"@ != "-nowarn"@) by {
        reveal_strlit("-delete");
        reveal_strlit("-nowarn");
        lemma_differ("-delete"@, "-nowarn"@, 1);
    }
    assert("-delete"@ != "-ignore_readdir_race"@) by {
        reveal_strlit("-delete");
        reveal_strlit("-ignore_readdir_race");
        lemma_differ("-delete"@, "-ignore_readdir_race"@, 0);
    }
    assert("-delete"@ != "-noignore_readdir_race"@) by {
        reveal_strlit("-delete");
        reveal_strlit("-noignore_readdir_race");
        lemma_differ("-delete"@, "-noignore_readdir_race"@, 0);
    }
    assert("-delete"@ != "-regextype"@) by {
        reveal_strlit("-delete");
        reveal_strlit("-regextype");
        lemma_differ("-delete"@, "-regextype"@, 0);
    }
    assert("-delete"@ != "-true"@) by {
        reveal_strlit("-delete");
        reveal_strlit("-true");
        lemma_differ("-delete"@, "-true"@, 0);
    }
    assert("-delete"@ != "-false"@) by {
        reveal_strlit("-delete");
        reveal_strlit("-false");
        lemma_differ("-delete"@, "-false"@, 0);
    }
    assert("-delete"@ != "-name"@) by {
        reveal_strlit("-delete");
        reveal_strlit("-name");
        lemma_differ("-delete"@, "-name"@, 0);
    }
    assert("-delete"@ != "-iname"@) by {
        reveal_strlit("-delete");
        reveal_strlit("-iname");
        lemma_differ("-delete"@, "-iname"@, 0);
    }
    assert("-delete"@ != "-path"@) by {
        reveal_strlit("-delete");
        reveal_strlit("-path");
        lemma_differ("-delete"@, "-path"@, 0);
    }
    assert("-delete"@ != "-wholename"@) by {
        reveal_strlit("-delete");
        reveal_strlit("-wholename");
        lemma_differ("-delete"@, "-wholename"@, 0);
    }
    assert("-delete"@ != "-ipath"@) by {
        reveal_strlit("-delete");
        reveal_strlit("-ipath");
        lemma_differ("-delete"@, "-ipath"@, 0);
    }
    assert("-delete"@ != "-iwholename"@) by {
        reveal_strlit("-delete");
        reveal_strlit("-iwholename");
        lemma_differ("-delete"@, "-iwholename"@, 0);
    }
    assert("-delete"@ != "-lname"@) by {
        reveal_strlit("-delete");
        reveal_strlit("-lname");
        lemma_differ("-delete"@, "-lname"@, 0);
    }
    assert("-delete"@ != "-ilname"@) by {
        reveal_strlit("-delete");
        reveal_strlit("-ilname");
        lemma_differ("-delete"@, "-ilname"@, 1);
    }
    assert("-delete"@ != "-regex"@) by {
        reveal_strlit("-delete");
        reveal_strlit("-regex");
        lemma_differ("-delete"@, "-regex"@, 0);
    }
    assert("-delete"@ != "-iregex"@) by {
        reveal_strlit("-delete");
        reveal_strlit("-iregex");
        lemma_differ("-delete"@, "-iregex"@, 1);
    }
    assert("-delete"@ != "-type"@) by {
        reveal_strlit("-delete");
        reveal_strlit("-type");
        lemma_differ("-delete"@, "-type"@, 0);
    }
    assert("-delete"@ != "-xtype"@) by {
        reveal_strlit("-delete");
        reveal_strlit("-xtype");
        lemma_differ("-delete"@, "-xtype"@, 0);
    }
    assert("-delete"@ != "-empty"@) by {
        reveal_strlit("-delete");
        reveal_strlit("-empty");
        lemma_differ("-delete"@, "-empty"@, 0);
    }
    assert("-delete"@ != "-size"@) by {
        reveal_strlit("-delete");
        reveal_strlit("-size");
        lemma_differ("-delete"@, "-size"@, 0);
    }
    assert("-delete"@ != "-perm"@) by {
        reveal_strlit("-delete");
        reveal_strlit("-perm");
        lemma_differ("-delete"@, "-perm"@, 0);
    }
    assert("-delete"@ != "-user"@) by {
        reveal_strlit("-delete");
        reveal_strlit("-user");
        lemma_differ("-delete"@, "-user"@, 0);
    }
    assert("-delete"@ != "-group"@) by {
        reveal_strlit("-delete");
        reveal_strlit("-group");
        lemma_differ("-delete"@, "-group"@, 0);
    }
    assert("-delete"@ != "-nouser"@) by {
        reveal_strlit("-delete");
        reveal_strlit("-nouser");
        lemma_differ("-delete"@, "-nouser"@, 1);
    }
    assert("-delete"@ != "-nogroup"@) by {
        reveal_strlit("-delete");
        reveal_strlit("-nogroup");
        lemma_differ("-delete"@, "-nogroup"@, 0);
    }
    assert("-delete"@ != "-readable"@) by {
        reveal_strlit("-delete");
        reveal_strlit("-readable");
        lemma_differ("-delete"@, "-readable"@, 0);
    }
    assert("-delete"@ != "-writable"@) by {
        reveal_strlit("-delete");
        reveal_strlit("-writable");
        lemma_differ("-delete"@, "-writable"@, 0);
    }
    assert("-delete"@ != "-executable"@) by {
        reveal_strlit("-delete");
        reveal_strlit("-executable");
        lemma_differ("-delete"@, "-executable"@, 0);
    }
    assert("-delete"@ != "-fstype"@) by {
        reveal_strlit("-delete");
        reveal_strlit("-fstype");
        lemma_differ("-delete"@, "-fstype"@, 1);
    }
    assert("-delete"@ != "-uid"@) by {
        reveal_strlit("-delete");
        reveal_strlit("-uid");
        lemma_differ("-delete"@, "-uid"@, 0);
    }
    assert("-delete"@ != "-gid"@) by {
        reveal_strlit("-delete");
        reveal_strlit("-gid");
        lemma_differ("-delete"@, "-gid"@, 0);
    }
    assert("-delete"@ != "-links"@) by {
        reveal_strlit("-delete");
        reveal_strlit("-links");
        lemma_differ("-delete"@, "-links"@, 0);
    }
    assert("-delete"@ != "-inum"@) by {
        reveal_strlit("-delete");
        reveal_strlit("-inum");
        lemma_differ("-delete"@, "-inum"@, 0);
    }
    assert("-delete"@ != "-mtime"@) by {
        reveal_strlit("-delete");
        reveal_strlit("-mtime");
        lemma_differ("-delete"@, "-mtime"@, 0);
    }
    assert("-delete"@ != "-mmin"@) by {
        reveal_strlit("-delete");
        reveal_strlit("-mmin");
        lemma_differ("-delete"@, "-mmin"@, 0);
    }
    assert("-delete"@ != "-atime"@) by {
        reveal_strlit("-delete");
        reveal_strlit("-atime");
        lemma_differ("-delete"@, "-atime"@, 0);
    }
    assert("-delete"@ != "-amin"@) by {
        reveal_strlit("-delete");
        reveal_strlit("-amin");
        lemma_differ("-delete"@, "-amin"@, 0);
    }
    assert("-delete"@ != "-ctime"@) by {
        reveal_strlit("-delete");
        reveal_strlit("-ctime");
        lemma_differ("-delete"@, "-ctime"@, 0);
    }
    assert("-delete"@ != "-cmin"@) by {
        reveal_strlit("-delete");
        reveal_strlit("-cmin");
        lemma_differ("-delete"@, "-cmin"@, 0);
    }
    assert("-delete"@ != "-used"@) by {
        reveal_strlit("-delete");
        reveal_strlit("-used");
        lemma_differ("-delete"@, "-used"@, 0);
    }
    assert("-delete"@ != "-samefile"@) by {
        reveal_strlit("-delete");
        reveal_strlit("-samefile");
        lemma_differ("-delete"@, "-samefile"@, 0);
    }
    assert("-delete"@ != "-newer"@) by {
        reveal_strlit("-delete");
        reveal_strlit("-newer");
        lemma_differ("-delete"@, "-newer"@, 0);
    }
    assert("-delete"@ != "-anewer"@) by {
        reveal_strlit("-delete");
        reveal_strlit("-anewer");
        lemma_differ("-delete"@, "-anewer"@, 1);
    }
    assert("-delete"@ != "-cnewer"@) by {
        reveal_strlit("-delete");
        reveal_strlit("-cnewer");
        lemma_differ("-delete"@, "-cnewer"@, 1);
    }
    assert("-delete"@ != "-print"@) by {
        reveal_strlit("-delete");
        reveal_strlit("-print");
        lemma_differ("-delete"@, "-print"@, 0);
    }
    assert("-delete"@ != "-print0"@) by {
        reveal_strlit("-delete");
        reveal_strlit("-print0");
        lemma_differ("-delete"@, "-print0"@, 1);
    }
    assert("-delete"@ != "-printf"@) by {
        reveal_strlit("-delete");
        reveal_strlit("-printf");
        lemma_differ("-delete"@, "-printf"@, 1);
    }
    assert("-delete"@ != "-ls"@) by {
        reveal_strlit("-delete");
        reveal_strlit("-ls");
        lemma_differ("-delete"@, "-ls"@, 0);
    }
    assert("-delete"@ != "-fprint"@) by {
        reveal_strlit("-delete");
        reveal_strlit("-fprint");
        lemma_differ("-delete"@, "-fprint"@, 1);
    }
    assert("-delete"@ != "-fprint0"@) by {
        reveal_strlit("-delete");
        reveal_strlit("-fprint0");
        lemma_differ("-delete"@, "-fprint0"@, 0);
    }
    assert("-delete"@ != "-fls"@) by {
        reveal_strlit("-delete");
        reveal_strlit("-fls");
        lemma_differ("-delete"@, "-fls"@, 0);
    }
    assert("-delete"@ != "-fprintf"@) by {
        reveal_strlit("-delete");
        reveal_strlit("-fprintf");
        lemma_differ("-delete"@, "-fprintf"@, 0);
    }
    assert("-delete"@ != "--version"@) by {
        reveal_strlit("-delete");
        reveal_strlit("--version");
        lemma_differ("-delete"@, "--version"@, 0);
    }
    assert("-delete"@ != "-version"@) by {
        reveal_strlit("-delete");
        reveal_strlit("-version");
        lemma_differ("-delete"@, "-version"@, 0);
    }
    assert("-delete"@ != "--help"@) by {
        reveal_strlit("-delete");
        reveal_strlit("--help");
        lemma_differ("-delete"@, "--help"@, 0);
    }
    assert("-delete"@ != "-help"@) by {
        reveal_strlit("-delete");
        reveal_strlit("-help");
        lemma_differ("-delete"@, "-help"@, 0);
    }
    reveal_strlit("-delete");
    reveal_strlit("-newer");
    assert(!is_newer_xy("-delete"@));
    reveal(p_options);
    reveal(p_text_tests);
    reveal(p_numeric_tests);
    reveal(p_reference_tests);
    reveal(p_actions);
}

/// `-perm` arguments: `-MODE` asks for all of the bits, `/MODE` for any of
/// them and a bare `MODE` for exactly them, the mode read in octal the same
/// way in each.
pub proof fn law_parse_perm(d: Seq<char>, n: u32)
    requires
        spec_parse_unsigned(d, 8, u32::MAX as nat) == Some(n as nat),
    ensures
        spec_parse_perm(seq!['-'] + d) == Ok::<(u32, PermMatch), Seq<char>>((n, PermMatch::All)),
        spec_parse_perm(seq!['/'] + d) == Ok::<(u32, PermMatch), Seq<char>>((n, PermMatch::Any)),
        (d.len() > 0 && d[0] != '-' && d[0] != '/') ==> spec_parse_perm(d) == Ok::<(u32, PermMatch), Seq<char>>(
            (n, PermMatch::Exact),
        ),
{
    assert((seq!['-'] + d).drop_first() =~= d);
    assert((seq!['/'] + d).drop_first() =~= d);
}

/// `-size` arguments: `+N` more than N units, `-N` fewer, `N` exactly, the
/// unit given by the letter: `c` bytes, `w` two-byte words, `b` 512-byte
/// blocks, `k` kibibytes, `M` mebibytes, `G` gibibytes.
pub proof fn law_parse_size(d: Seq<char>, n: u64)
    requires
        spec_parse_unsigned(d, 10, u64::MAX as nat) == Some(n as nat),
    ensures
        spec_parse_size(seq!['+'] + d + seq!['c']) == Ok::<(Cmp, u64, SizeUnit), Seq<char>>((Cmp::Greater, n, SizeUnit::Bytes)),
        spec_parse_size(seq!['-'] + d + seq!['c']) == Ok::<(Cmp, u64, SizeUnit), Seq<char>>((Cmp::Less, n, SizeUnit::Bytes)),
        (d.len() > 0 && d[0] != '+' && d[0] != '-') ==> spec_parse_size(d + seq!['c']) == Ok::<(Cmp, u64, SizeUnit), Seq<char>>((Cmp::Equal, n, SizeUnit::Bytes)),
        spec_parse_size(seq!['+'] + d + seq!['w']) == Ok::<(Cmp, u64, SizeUnit), Seq<char>>((Cmp::Greater, n, SizeUnit::Words)),
        spec_parse_size(seq!['-'] + d + seq!['w']) == Ok::<(Cmp, u64, SizeUnit), Seq<char>>((Cmp::Less, n, SizeUnit::Words)),
        (d.len() > 0 && d[0] != '+' && d[0] != '-') ==> spec_parse_size(d + seq!['w']) == Ok::<(Cmp, u64, SizeUnit), Seq<char>>((Cmp::Equal, n, SizeUnit::Words)),
        spec_parse_size(seq!['+'] + d + seq!['b']) == Ok::<(Cmp, u64, SizeUnit), Seq<char>>((Cmp::Greater, n, SizeUnit::Blocks512)),
        spec_parse_size(seq!['-'] + d + seq!['b']) == Ok::<(Cmp, u64, SizeUnit), Seq<char>>((Cmp::Less, n, SizeUnit::Blocks512)),
        (d.len() > 0 && d[0] != '+' && d[0] != '-') ==> spec_parse_size(d + seq!['b']) == Ok::<(Cmp, u64, SizeUnit), Seq<char>>((Cmp::Equal, n, SizeUnit::Blocks512)),
        spec_parse_size(seq!['+'] + d + seq!['k']) == Ok::<(Cmp, u64, SizeUnit), Seq<char>>((Cmp::Greater, n, SizeUnit::Kilobytes)),
        spec_parse_size(seq!['-'] + d + seq!['k']) == Ok::<(Cmp, u64, SizeUnit), Seq<char>>((Cmp::Less, n, SizeUnit::Kilobytes)),
        (d.len() > 0 && d[0] != '+' && d[0] != '-') ==> spec_parse_size(d + seq!['k']) == Ok::<(Cmp, u64, SizeUnit), Seq<char>>((Cmp::Equal, n, SizeUnit::Kilobytes)),
        spec_parse_size(seq!['+'] + d + seq!['M']) == Ok::<(Cmp, u64, SizeUnit), Seq<char>>((Cmp::Greater, n, SizeUnit::Megabytes)),
        spec_parse_size(seq!['-'] + d + seq!['M']) == Ok::<(Cmp, u64, SizeUnit), Seq<char>>((Cmp::Less, n, SizeUnit::Megabytes)),
        (d.len() > 0 && d[0] != '+' && d[0] != '-') ==> spec_parse_size(d + seq!['M']) == Ok::<(Cmp, u64, SizeUnit), Seq<char>>((Cmp::Equal, n, SizeUnit::Megabytes)),
        spec_parse_size(seq!['+'] + d + seq!['G']) == Ok::<(Cmp, u64, SizeUnit), Seq<char>>((Cmp::Greater, n, SizeUnit::Gigabytes)),
        spec_parse_size(seq!['-'] + d + seq!['G']) == Ok::<(Cmp, u64, SizeUnit), Seq<char>>((Cmp::Less, n, SizeUnit::Gigabytes)),
        (d.len() > 0 && d[0] != '+' && d[0] != '-') ==> spec_parse_size(d + seq!['G']) == Ok::<(Cmp, u64, SizeUnit), Seq<char>>((Cmp::Equal, n, SizeUnit::Gigabytes)),
{
    assert((seq!['+'] + d + seq!['c']).drop_first().drop_last() =~= d);
    assert((seq!['-'] + d + seq!['c']).drop_first().drop_last() =~= d);
    assert((d + seq!['c']).drop_last() =~= d);
    assert((seq!['+'] + d + seq!['c']).drop_first().last() == 'c');
    assert((seq!['-'] + d + seq!['c']).drop_first().last() == 'c');
    assert((d + seq!['c']).last() == 'c');
    assert((seq!['+'] + d + seq!['w']).drop_first().drop_last() =~= d);
    assert((seq!['-'] + d + seq!['w']).drop_first().drop_last() =~= d);
    assert((d + seq!['w']).drop_last() =~= d);
    assert((seq!['+'] + d + seq!['w']).drop_first().last() == 'w');
    assert((seq!['-'] + d + seq!['w']).drop_first().last() == 'w');
    assert((d + seq!['w']).last() == 'w');
    assert((seq!['+'] + d + seq!['b']).drop_first().drop_last() =~= d);
    assert((seq!['-'] + d + seq!['b']).drop_first().drop_last() =~= d);
    assert((d + seq!['b']).drop_last() =~= d);
    assert((seq!['+'] + d + seq!['b']).drop_first().last() == 'b');
    assert((seq!['-'] + d + seq!['b']).drop_first().last() == 'b');
    assert((d + seq!['b']).last() == 'b');
    assert((seq!['+'] + d + seq!['k']).drop_first().drop_last() =~= d);
    assert((seq!['-'] + d + seq!['k']).drop_first().drop_last() =~= d);
    assert((d + seq!['k']).drop_last() =~= d);
    assert((seq!['+'] + d + seq!['k']).drop_first().last() == 'k');
    assert((seq!['-'] + d + seq!['k']).drop_first().last() == 'k');
    assert((d + seq!['k']).last() == 'k');
    assert((seq!['+'] + d + seq!['M']).drop_first().drop_last() =~= d);
    assert((seq!['-'] + d + seq!['M']).drop_first().drop_last() =~= d);
    assert((d + seq!['M']).drop_last() =~= d);
    assert((seq!['+'] + d + seq!['M']).drop_first().last() == 'M');
    assert((seq!['-'] + d + seq!['M']).drop_first().last() == 'M');
    assert((d + seq!['M']).last() == 'M');
    assert((seq!['+'] + d + seq!['G']).drop_first().drop_last() =~= d);
    assert((seq!['-'] + d + seq!['G']).drop_first().drop_last() =~= d);
    assert((d + seq!['G']).drop_last() =~= d);
    assert((seq!['+'] + d + seq!['G']).drop_first().last() == 'G');
    assert((seq!['-'] + d + seq!['G']).drop_first().last() == 'G');
    assert((d + seq!['G']).last() == 'G');
}

/// The `ls`-style permission string of a mode (`-ls`, `%M`): ten letters; the
/// first `d` exactly for a directory, `l` for a symbolic link and `-` for a
/// regular file; then `r`, `w` and the execute position for owner, group and
/// others, each set exactly when its bit is; the execute position shows `s`
/// (`t` for others) or `S` (`T`) exactly when the set-id (sticky) bit is set,
/// lower case exactly when the execute bit is set too.
pub proof fn law_mode_string(mode: u32)
    ensures
        ({
            let t = mode_string(mode);
            &&& t.len() == 10
            &&& (t[0] == 'd') == (mode & 0o170000 == 0o040000)
            &&& (t[0] == 'l') == (mode & 0o170000 == 0o120000)
            &&& (mode & 0o170000 == 0o100000) ==> t[0] == '-'
            &&& (t[1] == 'r') == (mode & 0o400 != 0)
            &&& (t[2] == 'w') == (mode & 0o200 != 0)
            &&& (t[3] == 'x' || t[3] == 's') == (mode & 0o100 != 0)
            &&& (t[3] == 's' || t[3] == 'S') == (mode & 0o4000 != 0)
            &&& (t[4] == 'r') == (mode & 0o040 != 0)
            &&& (t[5] == 'w') == (mode & 0o020 != 0)
            &&& (t[6] == 'x' || t[6] == 's') == (mode & 0o010 != 0)
            &&& (t[6] == 's' || t[6] == 'S') == (mode & 0o2000 != 0)
            &&& (t[7] == 'r') == (mode & 0o004 != 0)
            &&& (t[8] == 'w') == (mode & 0o002 != 0)
            &&& (t[9] == 'x' || t[9] == 't') == (mode & 0o001 != 0)
            &&& (t[9] == 't' || t[9] == 'T') == (mode & 0o1000 != 0)
        }),
{
}

/// `-exec COMMAND {} +` and `-execdir COMMAND {} +` collect the entry for one
/// batched command and are true at once: nothing is asked, nothing else
/// changes, and the one path added is the entry's (for `-execdir`, to be run
/// in its directory).
pub proof fn law_batched_exec(env: Env, st: EvalState, args: Seq<ArgView>)
    requires
        !st.quit,
    ensures
        ({
            let (s1, r) = ev(ExprView::Exec { args, batch: true }, env, st);
            let (s2, r2) = ev(ExprView::ExecDir { args, batch: true }, env, st);
            &&& r == Res::Val(true) && r2 == Res::Val(true)
            &&& s1.pos == st.pos && s1.meta == st.meta && s1.prune == st.prune && s1.quit == st.quit
            &&& s1.pushes.len() == st.pushes.len() + 1 && s1.pushes.drop_last() == st.pushes
            &&& s1.pushes.last().args == args && s1.pushes.last().item.path == env.entry.path@
                && !s1.pushes.last().in_dir
            &&& s2.pushes.len() == st.pushes.len() + 1 && s2.pushes.drop_last() == st.pushes
            &&& s2.pushes.last().args == args && s2.pushes.last().item.path == env.entry.path@
                && s2.pushes.last().in_dir
        }),
{
    reveal(crate::eval_spec::ev_action);
    let (s1, r) = ev(ExprView::Exec { args, batch: true }, env, st);
    let (s2, r2) = ev(ExprView::ExecDir { args, batch: true }, env, st);
    assert(s1.pushes.drop_last() =~= st.pushes);
    assert(s2.pushes.drop_last() =~= st.pushes);
}

/// `-readable`, `-writable` and `-executable` ask `access` with read (4),
/// write (2) and execute (1) permission and hold exactly when it allows it;
/// `-empty` on a directory asks whether it is empty and holds exactly then.
pub proof fn law_access_and_empty_dir(env: Env, st: EvalState, b: bool)
    requires
        !st.quit,
    ensures
        st.pos == env.answers.len() ==> ev(ExprView::Readable, env, st) == (st, Res::Need(RequestView::Access(4))),
        st.pos == env.answers.len() ==> ev(ExprView::Writable, env, st) == (st, Res::Need(RequestView::Access(2))),
        st.pos == env.answers.len() ==> ev(ExprView::Executable, env, st) == (st, Res::Need(
            RequestView::Access(1),
        )),
        st.pos == env.answers.len() && env.entry.is_dir ==> ev(ExprView::Empty, env, st) == (st, Res::Need(
            RequestView::DirIsEmpty,
        )),
        (0 <= st.pos < env.answers.len() && env.answers[st.pos] == Answer::Flag(b)) ==> {
            &&& ev(ExprView::Readable, env, st) == (EvalState { pos: st.pos + 1, ..st }, Res::Val(b))
            &&& ev(ExprView::Writable, env, st) == (EvalState { pos: st.pos + 1, ..st }, Res::Val(b))
            &&& ev(ExprView::Executable, env, st) == (EvalState { pos: st.pos + 1, ..st }, Res::Val(b))
            &&& env.entry.is_dir ==> ev(ExprView::Empty, env, st) == (EvalState { pos: st.pos + 1, ..st }, Res::Val(b))
        },
{
    reveal(crate::eval_spec::ev_path_test);
    reveal(crate::eval_spec::ev_meta_test);
}

/// A word with no `{` is passed to the command as it is.
pub proof fn law_word_without_braces(w: Seq<char>, path_text: Seq<char>)
    requires
        !w.contains('{'),
    ensures
        replace_braces(w, path_text) == w,
    decreases w.len(),
{
    if w.len() > 0 {
        assert(!w.drop_first().contains('{')) by {
            if w.drop_first().contains('{') {
                let k = choose|k: int| 0 <= k < w.drop_first().len() && w.drop_first()[k] == '{';
                assert(w[k + 1] == '{');
            }
        }
        assert(w[0] != '{');
        law_word_without_braces(w.drop_first(), path_text);
        assert(seq![w[0]] + w.drop_first() =~= w);
    }
}

/// `{}` in a word stands for the path: the word before it (without `{`) is
/// kept, the `{}` becomes the path's text, and the rest of the word is
/// treated the same way.
pub proof fn law_braces_replaced(x: Seq<char>, y: Seq<char>, path_text: Seq<char>)
    requires
        !x.contains('{'),
    ensures
        replace_braces(x + seq!['{', '}'] + y, path_text) == x + path_text + replace_braces(y, path_text),
    decreases x.len(),
{
    let w = x + seq!['{', '}'] + y;
    if x.len() == 0 {
        assert(w =~= seq!['{', '}'] + y);
        assert(w.skip(2) =~= y);
        assert(x + path_text =~= path_text);
    } else {
        assert(w[0] == x[0]);
        assert(x[0] != '{');
        assert(!x.drop_first().contains('{')) by {
            if x.drop_first().contains('{') {
                let k = choose|k: int| 0 <= k < x.drop_first().len() && x.drop_first()[k] == '{';
                assert(x[k + 1] == '{');
            }
        }
        assert(w.drop_first() =~= x.drop_first() + seq!['{', '}'] + y);
        law_braces_replaced(x.drop_first(), y, path_text);
        assert(seq![x[0]] + (x.drop_first() + path_text + replace_braces(y, path_text)) =~= x + path_text
            + replace_braces(y, path_text));
    }
}

} // verus!
