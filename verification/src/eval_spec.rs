//! What evaluating an expression against an entry does, as spec functions: the
//! value, the requests made and the answers read, step by step.
use vstd::prelude::*;
use vstd::utf8::encode_utf8;

use crate::chrono_format::{civil_from_days, month_abbr_of, trunc_div};
use crate::eval::{
    Answer, BatchPathView, CommandView, EntryInfo, EntryType, EvalContext, Meta, OutputView, Push,
    RequestView, change_reading, exec_dir, opt_bytes, spec_check_time_days, spec_check_time_mins,
    spec_file_type_from_metadata, spec_time_ref,
};
use crate::expr::{
    ArgView, Cmp, ExprView, FileType, GlobView, PermMatch, SizeUnit, Timestamp, TokenView,
    regex_is_match,
};
use crate::text::{
    lossy_utf8, lowercase, pad_left, pad_right, spec_decimal, spec_decimal_int, spec_octal,
    spec_parse_unsigned, spec_trim, text_or_empty,
};

verus! {

/// What an evaluation reads: the entry, the context, and the answers so far.
pub struct Env {
    pub entry: EntryInfo,
    pub ctx: EvalContext,
    pub answers: Seq<Answer>,
}

/// What an evaluation changes as it goes: the entry's cached metadata, its
/// prune flag, the quit flag, how many answers it has read, and the paths it
/// has added to batched commands.
pub struct EvalState {
    pub meta: Option<Meta>,
    pub prune: bool,
    pub quit: bool,
    pub pos: int,
    pub pushes: Seq<Push>,
}

/// Where an evaluation ended: with a value, at a request that has no answer
/// yet, or with an error.
pub enum Res {
    Val(bool),
    Need(RequestView),
    Fail(Seq<char>),
}

/// The message for an answer of the wrong kind.
pub open spec fn unexpected() -> Seq<char> {
    "unexpected answer"@
}

/// The next answer, if there is one.
pub open spec fn answer_at(env: Env, st: EvalState) -> Option<Answer> {
    if 0 <= st.pos < env.answers.len() {
        Some(env.answers[st.pos])
    } else {
        None
    }
}

/// The state after reading one answer.
pub open spec fn advance(st: EvalState) -> EvalState {
    EvalState { pos: st.pos + 1, ..st }
}

/// Make request `q`: its answer, or where evaluation stops (at `q` itself when
/// it has no answer yet).
pub open spec fn ask(env: Env, st: EvalState, q: RequestView) -> (EvalState, Result<Answer, Res>) {
    match answer_at(env, st) {
        Some(a) => (advance(st), Ok(a)),
        None => (st, Err(Res::Need(q))),
    }
}

/// The entry's metadata: cached, or read (and cached) from the next answer.
/// A failure is not cached.
pub open spec fn fetch_meta(env: Env, st: EvalState) -> (EvalState, Result<Meta, Res>) {
    match st.meta {
        Some(m) => (st, Ok(m)),
        None => match answer_at(env, st) {
            None => (st, Err(Res::Need(RequestView::Metadata))),
            Some(Answer::Meta(Ok(m))) => (EvalState { meta: Some(m), ..advance(st) }, Ok(m)),
            Some(Answer::Meta(Err(e))) => (advance(st), Err(Res::Fail(e@))),
            Some(_) => (advance(st), Err(Res::Fail(unexpected()))),
        },
    }
}

pub open spec fn flag_of(a: Answer) -> bool {
    match a {
        Answer::Flag(b) => b,
        _ => false,
    }
}

pub open spec fn link_of(a: Answer) -> Option<Seq<u8>> {
    match a {
        Answer::Link(Some(t)) => Some(t@),
        _ => None,
    }
}

pub open spec fn id_of(a: Answer) -> Option<u32> {
    match a {
        Answer::Id(x) => x,
        _ => None,
    }
}

pub open spec fn name_of(a: Answer) -> Option<Seq<char>> {
    match a {
        Answer::Name(Some(n)) => Some(n@),
        _ => None,
    }
}

pub open spec fn number_of(a: Answer) -> Result<i64, Seq<char>> {
    match a {
        Answer::Number(Ok(n)) => Ok(n),
        Answer::Number(Err(e)) => Err(e@),
        _ => Err(unexpected()),
    }
}

pub open spec fn time_of(a: Answer) -> i64 {
    match a {
        Answer::Time(t) => t,
        _ => 0,
    }
}

pub open spec fn status_of(a: Answer) -> Result<(), Seq<char>> {
    match a {
        Answer::Status(Ok(())) => Ok(()),
        Answer::Status(Err(e)) => Err(e@),
        _ => Err(unexpected()),
    }
}

pub open spec fn ran_of(a: Answer) -> Result<bool, Seq<char>> {
    match a {
        Answer::Ran(Ok(b)) => Ok(b),
        Answer::Ran(Err(e)) => Err(e@),
        _ => Err(unexpected()),
    }
}

pub open spec fn line_of(a: Answer) -> Result<Seq<char>, Seq<char>> {
    match a {
        Answer::Line(Ok(l)) => Ok(l@),
        Answer::Line(Err(e)) => Err(e@),
        _ => Err(unexpected()),
    }
}

pub open spec fn follow_of(a: Answer) -> Option<Meta> {
    match a {
        Answer::Meta(Ok(m)) => Some(m),
        _ => None,
    }
}

// ---------------------------------------------------------------------------
// Text of numbers, modes, dates
// ---------------------------------------------------------------------------

pub open spec fn dec(n: int) -> Seq<char> {
    spec_decimal_int(n)
}

/// `{:>w}`: right-aligned in `w` columns.
pub open spec fn right(s: Seq<char>, w: nat) -> Seq<char> {
    pad_left(s, w, ' ')
}

/// `{:02}`: two digits at least.
pub open spec fn two_digits(n: int) -> Seq<char> {
    pad_left(dec(n), 2, '0')
}

/// The letter of the file type in a permission string (`-` for a regular
/// file and unknown types).
pub open spec fn type_letter(mode: u32) -> char {
    let t = mode & 0o170000;
    if t == 0o040000 {
        'd'
    } else if t == 0o120000 {
        'l'
    } else if t == 0o060000 {
        'b'
    } else if t == 0o020000 {
        'c'
    } else if t == 0o010000 {
        'p'
    } else if t == 0o140000 {
        's'
    } else {
        '-'
    }
}

/// `c` when the bit is set, else `-`.
pub open spec fn bit_letter(mode: u32, bit: u32, c: char) -> char {
    if mode & bit != 0 {
        c
    } else {
        '-'
    }
}

/// The execute position with a special bit: `set_exec` / `set_plain` when the
/// special bit is set (with or without the execute bit), else `x` or `-`.
pub open spec fn special_letter(mode: u32, special: u32, exec: u32, set_exec: char, set_plain: char) -> char {
    if mode & special != 0 {
        if mode & exec != 0 {
            set_exec
        } else {
            set_plain
        }
    } else if mode & exec != 0 {
        'x'
    } else {
        '-'
    }
}

/// `ls`-style permission string of a mode: the type letter, then `rwx` for
/// owner, group and others, with `s`/`S` for set-uid and set-gid and `t`/`T`
/// for the sticky bit.
pub open spec fn mode_string(mode: u32) -> Seq<char> {
    seq![
        type_letter(mode),
        bit_letter(mode, 0o400, 'r'),
        bit_letter(mode, 0o200, 'w'),
        special_letter(mode, 0o4000, 0o100, 's', 'S'),
        bit_letter(mode, 0o040, 'r'),
        bit_letter(mode, 0o020, 'w'),
        special_letter(mode, 0o2000, 0o010, 's', 'S'),
        bit_letter(mode, 0o004, 'r'),
        bit_letter(mode, 0o002, 'w'),
        special_letter(mode, 0o1000, 0o001, 't', 'T'),
    ]
}

/// The name of a Linux filesystem type number (`statfs`'s `f_type`).
pub open spec fn fstype_name(f: i64) -> Seq<char> {
    if f == 0x9123683E {
        "btrfs"@
    } else if f == 0xEF53 {
        "ext2/ext3/ext4"@
    } else if f == 0x6969 {
        "nfs"@
    } else if f == 0x01021994 {
        "tmpfs"@
    } else if f == 0x58465342 {
        "xfs"@
    } else if f == 0x2FC12FC1 {
        "zfs"@
    } else if f == 0x9FA0 {
        "proc"@
    } else if f == 0x62656572 {
        "sysfs"@
    } else if f == 0x64626720 {
        "debugfs"@
    } else if f == 0x1CD1 {
        "devpts"@
    } else if f == 0x794C7630 {
        "overlayfs"@
    } else if f == 0x61756673 {
        "aufs"@
    } else if f == 0xCAFE001 {
        "cifs"@
    } else if f == 0xFF534D42 {
        "cifs"@
    } else {
        "unknown"@
    }
}

/// The broken-down UTC time of `secs` (as `from_timestamp` computes it):
/// year, month abbreviation, day, hour, minute, second.
pub open spec fn date_parts(secs: int) -> (int, Seq<char>, int, int, int, int) {
    let (y, m, d) = civil_from_days(trunc_div(secs, 86400) + 719468);
    let tod = secs % 86400;
    (y, month_abbr_of(m - 1), d, tod / 3600, (tod % 3600) / 60, tod % 60)
}

/// `%A+`, `%T+`, `%C+`: the ISO 8601 date and time, GNU style:
/// `YYYY-MM-DD+HH:MM:SS.0000000000`.
pub open spec fn iso_date(secs: int) -> Seq<char> {
    let (y, m, d) = civil_from_days(trunc_div(secs, 86400) + 719468);
    let tod = secs % 86400;
    dec(y) + "-"@ + two_digits(m) + "-"@ + two_digits(d) + "+"@ + two_digits(tod / 3600) + ":"@
        + two_digits((tod % 3600) / 60) + ":"@ + two_digits(tod % 60) + ".0000000000"@
}

/// `%a`, `%t`, `%c`: `Mon DD HH:MM:SS.0000000000 YYYY`.
pub open spec fn printf_date(secs: int) -> Seq<char> {
    let (y, mon, d, h, mi, s) = date_parts(secs);
    mon + " "@ + right(dec(d), 2) + " "@ + two_digits(h) + ":"@ + two_digits(mi) + ":"@
        + two_digits(s) + ".0000000000 "@ + dec(y)
}

/// The date column of `-ls`: the year for times more than about six months
/// (180 days) from now, else the time of day.
pub open spec fn ls_date(secs: int, now: int) -> Seq<char> {
    let (y, mon, d, h, mi, s) = date_parts(secs);
    let age = if now - secs < 0 {
        secs - now
    } else {
        now - secs
    };
    if age > 180 * 86400 {
        mon + " "@ + right(dec(d), 2) + "  "@ + dec(y)
    } else {
        mon + " "@ + right(dec(d), 2) + " "@ + two_digits(h) + ":"@ + two_digits(mi)
    }
}

// ---------------------------------------------------------------------------
// Tests that read the path, the link target, or permissions
// ---------------------------------------------------------------------------

/// The entry's file name bytes (empty when it has none).
pub open spec fn name_bytes(en: EntryInfo) -> Seq<u8> {
    match en.name {
        Some(n) => n@,
        None => Seq::empty(),
    }
}

/// Whether a type of the list matches.
pub open spec fn any_type(t: EntryType, ts: Seq<FileType>) -> bool {
    exists|k: int| 0 <= k < ts.len() && t.spec_matches(#[trigger] ts[k])
}

/// Tests of the entry's name, path, type, link target, access and filesystem.
#[verifier::opaque]
pub open spec fn ev_path_test(e: ExprView, env: Env, st: EvalState) -> (EvalState, Res) {
    let en = env.entry;
    match e {
        ExprView::True => (st, Res::Val(true)),
        ExprView::False => (st, Res::Val(false)),
        ExprView::Name(g) => (st, Res::Val(g.matches_bytes(name_bytes(en)))),
        ExprView::IName(g) => (st, Res::Val(g.matches_bytes(name_bytes(en)))),
        ExprView::Path(g) => (st, Res::Val(g.matches_bytes(en.path@))),
        ExprView::IPath(g) => (st, Res::Val(g.matches_bytes(en.path@))),
        ExprView::Regex(src) => (st, Res::Val(regex_is_match(src, text_or_empty(en.path@)))),
        ExprView::IRegex(src) => (st, Res::Val(regex_is_match(src, text_or_empty(en.path@)))),
        ExprView::Type(ts) => (st, Res::Val(any_type(en.file_type, ts))),
        ExprView::XType(ts) => if en.file_type == EntryType::Symlink {
            let (s1, a) = ask(env, st, RequestView::FollowMetadata);
            match a {
                Err(r) => (s1, r),
                Ok(a) => (s1, Res::Val(match follow_of(a) {
                    Some(m) => any_type(spec_file_type_from_metadata(m), ts),
                    None => false,
                })),
            }
        } else {
            (st, Res::Val(any_type(en.file_type, ts)))
        },
        ExprView::LName(g) => link_test(g, env, st),
        ExprView::ILName(g) => link_test(g, env, st),
        ExprView::Readable => access_test(4, env, st),
        ExprView::Writable => access_test(2, env, st),
        ExprView::Executable => access_test(1, env, st),
        ExprView::FsType(expected) => {
            let (s1, a) = ask(env, st, RequestView::FsType);
            match a {
                Err(r) => (s1, r),
                Ok(a) => match number_of(a) {
                    Ok(f) => (s1, Res::Val(fstype_name(f) == expected)),
                    Err(m) => (s1, Res::Fail(m)),
                },
            }
        },
        _ => (st, Res::Val(false)),
    }
}

/// `-lname`: a symlink whose target (read as UTF-8, else empty) matches.
pub open spec fn link_test(g: GlobView, env: Env, st: EvalState) -> (EvalState, Res) {
    if env.entry.file_type != EntryType::Symlink {
        (st, Res::Val(false))
    } else {
        let (s1, a) = ask(env, st, RequestView::ReadLink);
        match a {
            Err(r) => (s1, r),
            Ok(a) => (s1, Res::Val(match link_of(a) {
                Some(t) => g.matches_text(text_or_empty(t)),
                None => false,
            })),
        }
    }
}

/// `-readable` and the like: whether `access` allows it.
pub open spec fn access_test(mode: i32, env: Env, st: EvalState) -> (EvalState, Res) {
    let (s1, a) = ask(env, st, RequestView::Access(mode));
    match a {
        Err(r) => (s1, r),
        Ok(a) => (s1, Res::Val(flag_of(a))),
    }
}

// ---------------------------------------------------------------------------
// Tests that read the metadata
// ---------------------------------------------------------------------------

/// The file size in units, rounded up for every unit but bytes.
pub open spec fn size_in_units(len: u64, unit: SizeUnit) -> int {
    if unit == SizeUnit::Bytes {
        len as int
    } else {
        (len + unit.spec_bytes() - 1) / (unit.spec_bytes() as int)
    }
}

/// `-perm`: exactly these bits, all of them, or any of them (any with no
/// bits always holds), among the permission bits.
pub open spec fn perm_matches(file_mode: u32, mode: u32, mt: PermMatch) -> bool {
    let fm = file_mode & 0o7777;
    match mt {
        PermMatch::Exact => fm == mode,
        PermMatch::All => fm & mode == mode,
        PermMatch::Any => mode == 0 || fm & mode != 0,
    }
}

/// `-user` / `-group`: the id the name stands for, a number or the name of a
/// user (group) looked up; an unknown name is an error.
pub open spec fn owner_test(
    name: Seq<char>,
    id: u32,
    user: bool,
    env: Env,
    st: EvalState,
) -> (EvalState, Res) {
    match spec_parse_unsigned(name, 10, u32::MAX as nat) {
        Some(t) => (st, Res::Val(id == t)),
        None => {
            let (s1, a) = ask(
                env,
                st,
                if user {
                    RequestView::UserId(name)
                } else {
                    RequestView::GroupId(name)
                },
            );
            match a {
                Err(r) => (s1, r),
                Ok(a) => match id_of(a) {
                    Some(t) => (s1, Res::Val(id == t)),
                    None => (s1, Res::Fail(
                        if user {
                            "-user: `"@ + name + "` is not the name of a known user"@
                        } else {
                            "-group: `"@ + name + "` is not the name of a known group"@
                        },
                    )),
                },
            }
        },
    }
}

/// `-size`: the size in units compared with the count.
pub open spec fn size_test(k: Cmp, len: u64, size: u64, unit: SizeUnit) -> bool {
    k.spec_matches(size_in_units(len, unit), size as int)
}

/// `-uid`, `-gid`: the id compared with the number.
pub open spec fn id_test(k: Cmp, id: u32, t: u64) -> bool {
    k.spec_matches(id as int, t as int)
}

/// `-links`, `-inum`: the count compared with the number.
pub open spec fn count_test(k: Cmp, v: u64, t: u64) -> bool {
    k.spec_matches(v as int, t as int)
}

/// `-used`: whole days (rounded toward zero) from the change time to the
/// access time, compared with `n`.
pub open spec fn used_test(k: Cmp, m: Meta, n: i64) -> bool {
    k.spec_matches(trunc_div(m.atime - m.ctime, 86400), n as int)
}

/// Tests of sizes, permissions, owners, links and inodes.
#[verifier::opaque]
pub open spec fn ev_meta_test(e: ExprView, env: Env, st: EvalState) -> (EvalState, Res) {
    if e == ExprView::Empty && env.entry.is_dir {
        let (s1, a) = ask(env, st, RequestView::DirIsEmpty);
        match a {
            Err(r) => (s1, r),
            Ok(a) => (s1, Res::Val(flag_of(a))),
        }
    } else {
        let (s1, fm) = fetch_meta(env, st);
        match fm {
            Err(r) => (s1, r),
            Ok(m) => match e {
                ExprView::Size { cmp: k, size, unit } => (s1, Res::Val(size_test(k, m.len, size, unit))),
                ExprView::Empty => (s1, Res::Val(m.len == 0)),
                ExprView::Perm { mode, match_type } => (s1, Res::Val(
                    perm_matches(m.mode, mode, match_type),
                )),
                ExprView::User(name) => owner_test(name, m.uid, true, env, s1),
                ExprView::Group(name) => owner_test(name, m.gid, false, env, s1),
                ExprView::Uid(k, t) => (s1, Res::Val(id_test(k, m.uid, t))),
                ExprView::Gid(k, t) => (s1, Res::Val(id_test(k, m.gid, t))),
                ExprView::NoUser => {
                    let (s2, a) = ask(env, s1, RequestView::UserName(m.uid));
                    match a {
                        Err(r) => (s2, r),
                        Ok(a) => (s2, Res::Val(name_of(a) is None)),
                    }
                },
                ExprView::NoGroup => {
                    let (s2, a) = ask(env, s1, RequestView::GroupName(m.gid));
                    match a {
                        Err(r) => (s2, r),
                        Ok(a) => (s2, Res::Val(name_of(a) is None)),
                    }
                },
                ExprView::Links(k, t) => (s1, Res::Val(count_test(k, m.nlink, t))),
                ExprView::Inum(k, t) => (s1, Res::Val(count_test(k, m.ino, t))),
                ExprView::SameFile { dev, ino } => (s1, Res::Val(m.dev == dev && m.ino == ino)),
                ExprView::Used(k, n) => (s1, Res::Val(used_test(k, m, n))),
                _ => (s1, Res::Val(false)),
            },
        }
    }
}

/// A time read from the metadata, then tested.
pub open spec fn time_test(
    t: Result<Timestamp, Seq<char>>,
    test: spec_fn(Timestamp) -> bool,
    st: EvalState,
) -> (EvalState, Res) {
    match t {
        Ok(x) => (st, Res::Val(test(x))),
        Err(e) => (st, Res::Fail(e)),
    }
}

/// Tests of the modification, access and change times.
#[verifier::opaque]
pub open spec fn ev_time_test(e: ExprView, env: Env, st: EvalState) -> (EvalState, Res) {
    let ctx = env.ctx;
    let (s1, fm) = fetch_meta(env, st);
    match fm {
        Err(r) => (s1, r),
        Ok(m) => match e {
            ExprView::MTime(k, n) => time_test(
                spec_time_ref(m, crate::expr::TimeRef::Modify),
                |t: Timestamp| spec_check_time_days(t, k, n, ctx),
                s1,
            ),
            ExprView::MMin(k, n) => time_test(
                spec_time_ref(m, crate::expr::TimeRef::Modify),
                |t: Timestamp| spec_check_time_mins(t, k, n, ctx),
                s1,
            ),
            ExprView::ATime(k, n) => time_test(
                spec_time_ref(m, crate::expr::TimeRef::Access),
                |t: Timestamp| spec_check_time_days(t, k, n, ctx),
                s1,
            ),
            ExprView::AMin(k, n) => time_test(
                spec_time_ref(m, crate::expr::TimeRef::Access),
                |t: Timestamp| spec_check_time_mins(t, k, n, ctx),
                s1,
            ),
            ExprView::CTime(k, n) => time_test(
                change_reading(m),
                |t: Timestamp| spec_check_time_days(t, k, n, ctx),
                s1,
            ),
            ExprView::CMin(k, n) => time_test(
                change_reading(m),
                |t: Timestamp| spec_check_time_mins(t, k, n, ctx),
                s1,
            ),
            ExprView::Newer(r) => time_test(
                spec_time_ref(m, crate::expr::TimeRef::Modify),
                |t: Timestamp| t.spec_after(r),
                s1,
            ),
            ExprView::ANewerM(r) => time_test(
                spec_time_ref(m, crate::expr::TimeRef::Access),
                |t: Timestamp| t.spec_after(r),
                s1,
            ),
            ExprView::CNewerM(r) => time_test(change_reading(m), |t: Timestamp| t.spec_after(r), s1),
            ExprView::NewerXY { x, reference, .. } => time_test(
                spec_time_ref(m, x),
                |t: Timestamp| t.spec_after(reference),
                s1,
            ),
            _ => (s1, Res::Val(false)),
        },
    }
}

// ---------------------------------------------------------------------------
// -printf
// ---------------------------------------------------------------------------

/// The text of one `-printf` token, or where evaluation stops.
pub enum TokOut {
    Text(Seq<char>),
    Stop(Res),
}

/// The text of a number read from the metadata: `which` 0 size, 1 1K
/// blocks, 2 blocks, 3 links, 4 uid, 5 gid, 6 inode, 7 device, 8 the octal
/// permissions, 9 the permission string.
pub open spec fn number_text(which: int, m: Meta) -> Seq<char> {
    if which == 0 {
        dec(m.len as int)
    } else if which == 1 {
        dec(m.blocks as int / 2)
    } else if which == 2 {
        dec(m.blocks as int)
    } else if which == 3 {
        dec(m.nlink as int)
    } else if which == 4 {
        dec(m.uid as int)
    } else if which == 5 {
        dec(m.gid as int)
    } else if which == 6 {
        dec(m.ino as int)
    } else if which == 7 {
        dec(m.dev as int)
    } else if which == 8 {
        pad_left(spec_octal((m.mode & 0o7777) as nat), 4, '0')
    } else {
        mode_string(m.mode)
    }
}

/// What such a token prints when the metadata cannot be read.
pub open spec fn number_fallback(which: int) -> Seq<char> {
    if which <= 3 {
        "0"@
    } else if which <= 7 {
        Seq::empty()
    } else if which == 8 {
        "0000"@
    } else {
        "----------"@
    }
}

/// A token printing a number from the metadata, or its fallback when the
/// metadata cannot be read; a request stops.
pub open spec fn number_token(which: int, env: Env, st: EvalState) -> (EvalState, TokOut) {
    let (s1, fm) = fetch_meta(env, st);
    match fm {
        Ok(m) => (s1, TokOut::Text(number_text(which, m))),
        Err(Res::Need(q)) => (s1, TokOut::Stop(Res::Need(q))),
        Err(_) => (s1, TokOut::Text(number_fallback(which))),
    }
}

/// The text of a time read from the metadata: the date (`which` 0), the
/// seconds (1) or the ISO 8601 date and time (2) of the access (`t` 0),
/// modification (1) or change (2) time.
pub open spec fn time_text(which: int, t: int, m: Meta) -> Seq<char> {
    let secs = if t == 0 {
        m.atime
    } else if t == 1 {
        m.mtime
    } else {
        m.ctime
    };
    if which == 0 {
        printf_date(secs as int)
    } else if which == 2 {
        iso_date(secs as int)
    } else {
        dec(secs as int)
    }
}

/// How a time token with a format letter prints: `+` as the ISO 8601 date
/// and time, any other letter as the seconds.
pub open spec fn fmt_which(f: Seq<char>) -> int {
    if f == "+"@ {
        2
    } else {
        1
    }
}

/// A token printing a time: the metadata must be read, an error stops.
pub open spec fn time_token(which: int, t: int, env: Env, st: EvalState) -> (EvalState, TokOut) {
    let (s1, fm) = fetch_meta(env, st);
    match fm {
        Ok(m) => (s1, TokOut::Text(time_text(which, t, m))),
        Err(r) => (s1, TokOut::Stop(r)),
    }
}

/// `%u` / `%g`: the owner's name, else its number (nothing when the metadata
/// cannot be read).
pub open spec fn owner_name(env: Env, st: EvalState, user: bool) -> (EvalState, TokOut) {
    let (s1, fm) = fetch_meta(env, st);
    match fm {
        Err(Res::Need(q)) => (s1, TokOut::Stop(Res::Need(q))),
        Err(_) => (s1, TokOut::Text(Seq::empty())),
        Ok(m) => {
            let id = if user {
                m.uid
            } else {
                m.gid
            };
            let (s2, a) = ask(
                env,
                s1,
                if user {
                    RequestView::UserName(id)
                } else {
                    RequestView::GroupName(id)
                },
            );
            match a {
                Err(r) => (s2, TokOut::Stop(r)),
                Ok(a) => (s2, TokOut::Text(
                    match name_of(a) {
                        Some(n) => n,
                        None => dec(id as int),
                    },
                )),
            }
        },
    }
}

/// The text of one token.
#[verifier::opaque]
pub open spec fn printf_token(t: TokenView, env: Env, st: EvalState) -> (EvalState, TokOut) {
    let en = env.entry;
    match t {
        TokenView::Literal(s) => (st, TokOut::Text(s)),
        TokenView::Percent => (st, TokOut::Text("%"@)),
        TokenView::Path => (st, TokOut::Text(lossy_utf8(en.path@))),
        TokenView::Filename => (st, TokOut::Text(
            text_or_empty(
                match en.name {
                    Some(n) => n@,
                    None => en.path@,
                },
            ),
        )),
        TokenView::ParentDir => (st, TokOut::Text(
            lossy_utf8(
                match en.parent {
                    Some(p) => p@,
                    None => en.path@,
                },
            ),
        )),
        TokenView::Depth => (st, TokOut::Text(dec(en.depth as int))),
        TokenView::Size => number_token(0, env, st),
        TokenView::SizeInBlocks => number_token(1, env, st),
        TokenView::BlockSize => number_token(2, env, st),
        TokenView::Permissions => number_token(8, env, st),
        TokenView::PermSymbolic => number_token(9, env, st),
        TokenView::Nlinks => number_token(3, env, st),
        TokenView::User => owner_name(env, st, true),
        TokenView::Group => owner_name(env, st, false),
        TokenView::Uid => number_token(4, env, st),
        TokenView::Gid => number_token(5, env, st),
        TokenView::Inode => number_token(6, env, st),
        TokenView::DeviceNumber => number_token(7, env, st),
        TokenView::Type => (st, TokOut::Text(seq![en.file_type.spec_to_char()])),
        TokenView::LinkTarget => if en.file_type == EntryType::Symlink {
            let (s1, a) = ask(env, st, RequestView::ReadLink);
            match a {
                Err(r) => (s1, TokOut::Stop(r)),
                Ok(a) => (s1, TokOut::Text(
                    match link_of(a) {
                        Some(l) => lossy_utf8(l),
                        None => Seq::empty(),
                    },
                )),
            }
        } else {
            (st, TokOut::Text(Seq::empty()))
        },
        TokenView::Newline => (st, TokOut::Text("\n"@)),
        TokenView::Tab => (st, TokOut::Text("\t"@)),
        TokenView::NullChar => (st, TokOut::Text(seq!['\0'])),
        TokenView::Backslash => (st, TokOut::Text("\\"@)),
        TokenView::TimeAccess => time_token(0, 0, env, st),
        TokenView::TimeModify => time_token(0, 1, env, st),
        TokenView::TimeChange => time_token(0, 2, env, st),
        TokenView::TimeAccessSecs => time_token(1, 0, env, st),
        TokenView::TimeModifySecs => time_token(1, 1, env, st),
        TokenView::TimeChangeSecs => time_token(1, 2, env, st),
        TokenView::TimeAccessFmt(f) => time_token(fmt_which(f), 0, env, st),
        TokenView::TimeModifyFmt(f) => time_token(fmt_which(f), 1, env, st),
        TokenView::TimeChangeFmt(f) => time_token(fmt_which(f), 2, env, st),
        TokenView::SparseName => (st, TokOut::Text(
            lossy_utf8(
                match en.relative {
                    Some(r) => r@,
                    None => en.path@,
                },
            ),
        )),
        TokenView::StartingPoint => (st, TokOut::Text(lossy_utf8(env.ctx.starting_point@))),
    }
}

/// The text of a `-printf` format: all of it, or the text before the token
/// where evaluation stopped, and why.
pub enum PfOut {
    Done(Seq<char>),
    Stop(Res, Seq<char>),
}

pub open spec fn printf_text(toks: Seq<TokenView>, env: Env, st: EvalState, acc: Seq<char>) -> (
    EvalState,
    PfOut,
)
    decreases toks.len(),
{
    if toks.len() == 0 {
        (st, PfOut::Done(acc))
    } else {
        let (s1, r) = printf_token(toks[0], env, st);
        match r {
            TokOut::Text(t) => printf_text(toks.drop_first(), env, s1, acc + t),
            TokOut::Stop(res) => (s1, PfOut::Stop(res, acc)),
        }
    }
}

/// Write bytes: true once written, else the write's error.
pub open spec fn write_out(env: Env, st: EvalState, out: OutputView, bytes: Seq<u8>) -> (
    EvalState,
    Res,
) {
    let (s1, a) = ask(env, st, RequestView::Write(out, bytes));
    match a {
        Err(r) => (s1, r),
        Ok(a) => match status_of(a) {
            Ok(()) => (s1, Res::Val(true)),
            Err(e) => (s1, Res::Fail(e)),
        },
    }
}

/// Open where output goes: nothing to do for standard output; a file is
/// opened for appending (created if need be) by an empty write.
pub open spec fn open_output(out: OutputView, env: Env, st: EvalState) -> (EvalState, Res) {
    match out {
        OutputView::Stdout => (st, Res::Val(true)),
        OutputView::Append(_) => write_out(env, st, out, Seq::empty()),
    }
}

/// `-printf` / `-fprintf`: the output opened, then the text written.
pub open spec fn printf_action(toks: Seq<TokenView>, out: OutputView, env: Env, st: EvalState) -> (
    EvalState,
    Res,
) {
    let (s0, o) = open_output(out, env, st);
    match o {
        Res::Val(_) => printf_write(toks, out, env, s0),
        other => (s0, other),
    }
}

/// The text of a `-printf` format written; when a token stops evaluation
/// with an error, the text before it is written first.
pub open spec fn printf_write(toks: Seq<TokenView>, out: OutputView, env: Env, st: EvalState) -> (
    EvalState,
    Res,
) {
    let (s1, r) = printf_text(toks, env, st, Seq::empty());
    match r {
        PfOut::Done(text) => write_out(env, s1, out, encode_utf8(text)),
        PfOut::Stop(Res::Fail(e), text) => {
            let (s2, w) = write_out(env, s1, out, encode_utf8(text));
            match w {
                Res::Val(_) => (s2, Res::Fail(e)),
                other => (s2, other),
            }
        },
        PfOut::Stop(res, _) => (s1, res),
    }
}

// ---------------------------------------------------------------------------
// -ls
// ---------------------------------------------------------------------------

/// An owner's name from an answer, else its number.
pub open spec fn name_or_number(a: Answer, id: u32) -> Seq<char> {
    match name_of(a) {
        Some(n) => n,
        None => dec(id as int),
    }
}

/// The `-ls` line before the link target: inode, 1K blocks, permissions,
/// links, user, group, size, date, path.
pub open spec fn ls_fields(m: Meta, user: Seq<char>, group: Seq<char>, now: i64, path: Seq<u8>) -> Seq<char> {
    right(dec(m.ino as int), 7) + " "@ + right(dec(m.blocks as int / 2), 4) + " "@ + mode_string(m.mode)
        + " "@ + right(dec(m.nlink as int), 3) + " "@ + pad_right(user, 8) + " "@ + pad_right(
        group,
        8,
    ) + " "@ + right(dec(m.len as int), 8) + " "@ + ls_date(m.mtime as int, now as int) + " "@
        + lossy_utf8(path)
}

/// The `-ls` line of the entry, or where evaluation stops.
pub open spec fn ls_line(env: Env, st: EvalState) -> (EvalState, Result<Seq<char>, Res>) {
    let en = env.entry;
    let (s1, fm) = fetch_meta(env, st);
    match fm {
        Err(r) => (s1, Err(r)),
        Ok(m) => {
            let (s2, ua) = ask(env, s1, RequestView::UserName(m.uid));
            match ua {
                Err(r) => (s2, Err(r)),
                Ok(ua) => {
                    let (s3, ga) = ask(env, s2, RequestView::GroupName(m.gid));
                    match ga {
                        Err(r) => (s3, Err(r)),
                        Ok(ga) => {
                            let (s4, na) = ask(env, s3, RequestView::Now);
                            match na {
                                Err(r) => (s4, Err(r)),
                                Ok(na) => {
                                    let line = ls_fields(
                                        m,
                                        name_or_number(ua, m.uid),
                                        name_or_number(ga, m.gid),
                                        time_of(na),
                                        en.path@,
                                    );
                                    if en.file_type == EntryType::Symlink {
                                        let (s5, la) = ask(env, s4, RequestView::ReadLink);
                                        match la {
                                            Err(r) => (s5, Err(r)),
                                            Ok(la) => (s5, Ok(
                                                match link_of(la) {
                                                    Some(t) => line + " -> "@ + lossy_utf8(t),
                                                    None => line,
                                                } + "\n"@,
                                            )),
                                        }
                                    } else {
                                        (s4, Ok(line + "\n"@))
                                    }
                                },
                            }
                        },
                    }
                },
            }
        },
    }
}

/// `-ls` / `-fls`: the output opened, then the line written.
pub open spec fn ls_action(out: OutputView, env: Env, st: EvalState) -> (EvalState, Res) {
    let (s0, o) = open_output(out, env, st);
    match o {
        Res::Val(_) => ls_write(out, env, s0),
        other => (s0, other),
    }
}

/// The `-ls` line written.
pub open spec fn ls_write(out: OutputView, env: Env, st: EvalState) -> (EvalState, Res) {
    let (s1, r) = ls_line(env, st);
    match r {
        Err(res) => (s1, res),
        Ok(line) => write_out(env, s1, out, encode_utf8(line)),
    }
}

// ---------------------------------------------------------------------------
// Commands
// ---------------------------------------------------------------------------

/// A word with every `{}` in it, from left to right, replaced by `path_text`.
pub open spec fn replace_braces(w: Seq<char>, path_text: Seq<char>) -> Seq<char>
    decreases w.len(),
{
    if w.len() == 0 {
        Seq::empty()
    } else if w.len() >= 2 && w[0] == '{' && w[1] == '}' {
        path_text + replace_braces(w.skip(2), path_text)
    } else {
        seq![w[0]] + replace_braces(w.drop_first(), path_text)
    }
}

/// The words of a command: a `{}` argument becomes the path's text, and
/// every `{}` inside another argument is replaced by it.
pub open spec fn command_words(args: Seq<ArgView>, path_text: Seq<char>) -> Seq<Seq<char>> {
    Seq::new(
        args.len(),
        |i: int|
            match args[i] {
                ArgView::Literal(s) => replace_braces(s, path_text),
                ArgView::Placeholder => path_text,
            },
    )
}

/// Words joined with single spaces.
pub open spec fn join_words(words: Seq<Seq<char>>) -> Seq<char>
    decreases words.len(),
{
    if words.len() == 0 {
        Seq::empty()
    } else if words.len() == 1 {
        words[0]
    } else {
        join_words(words.drop_last()) + " "@ + words.last()
    }
}

/// The message printed when a command cannot be started.
pub open spec fn spawn_failure(program: Seq<char>, e: Seq<char>) -> Seq<char> {
    "find: `"@ + program + "`: "@ + e
}

/// Run a command: false without words; else whether it succeeded, or false
/// (after a message) when it could not be started.
pub open spec fn run_command(words: Seq<Seq<char>>, dir: Option<Seq<u8>>, env: Env, st: EvalState) -> (
    EvalState,
    Res,
) {
    if words.len() == 0 {
        (st, Res::Val(false))
    } else {
        let c = CommandView { program: words[0], args: words.drop_first(), dir };
        let (s1, a) = ask(env, st, RequestView::Run(c));
        match a {
            Err(r) => (s1, r),
            Ok(a) => match ran_of(a) {
                Ok(b) => (s1, Res::Val(b)),
                Err(e) => {
                    let (s2, w) = ask(env, s1, RequestView::Warn(spawn_failure(words[0], e)));
                    match w {
                        Err(r) => (s2, r),
                        Ok(_) => (s2, Res::Val(false)),
                    }
                },
            },
        }
    }
}

/// The path `-execdir` / `-okdir` hand to the command: `./name`, or the whole
/// path when it has no file name.
pub open spec fn local_path(en: EntryInfo) -> Seq<u8> {
    match en.name {
        Some(n) => seq![46u8, 47u8] + n@,
        None => en.path@,
    }
}

/// The prompt of `-ok` / `-okdir`.
pub open spec fn ok_prompt(words: Seq<Seq<char>>, path: Seq<u8>) -> Seq<char> {
    "< "@ + join_words(words) + " ... "@ + lossy_utf8(path) + " > ? "@
}

/// Whether a reply to the prompt says yes: `y` or `yes`, whatever the case,
/// around whitespace.
pub open spec fn says_yes(line: Seq<char>) -> bool {
    let r = lowercase(spec_trim(line));
    r == "y"@ || r == "yes"@
}

/// `-ok` / `-okdir`: prompt, read a reply, and run the command on yes.
pub open spec fn ok_command(args: Seq<ArgView>, path: Seq<u8>, dir: Option<Seq<u8>>, env: Env, st: EvalState) -> (
    EvalState,
    Res,
) {
    let words = command_words(args, text_or_empty(path));
    let (s1, a) = ask(env, st, RequestView::Ask(ok_prompt(words, path)));
    match a {
        Err(r) => (s1, r),
        Ok(a) => match line_of(a) {
            Err(e) => (s1, Res::Fail(e)),
            Ok(l) => if says_yes(l) {
                run_command(words, dir, env, s1)
            } else {
                (s1, Res::Val(false))
            },
        },
    }
}

/// The entry as a path collected for a batched command.
pub open spec fn batch_item(en: EntryInfo) -> BatchPathView {
    BatchPathView { path: en.path@, parent: opt_bytes(en.parent), name: opt_bytes(en.name) }
}

/// Collect the entry for a batched command: true.
pub open spec fn push_batch(args: Seq<ArgView>, in_dir: bool, env: Env, st: EvalState) -> (
    EvalState,
    Res,
) {
    (
        EvalState {
            pushes: st.pushes.push(Push { args, item: batch_item(env.entry), in_dir }),
            ..st
        },
        Res::Val(true),
    )
}

/// The message printed when the entry cannot be removed.
pub open spec fn delete_failure(path: Seq<u8>, e: Seq<char>) -> Seq<char> {
    "find: cannot delete `"@ + lossy_utf8(path) + "`: "@ + e
}

/// Actions: output, commands, removal, pruning and quitting.
#[verifier::opaque]
pub open spec fn ev_action(e: ExprView, env: Env, st: EvalState) -> (EvalState, Res) {
    let en = env.entry;
    match e {
        ExprView::Print => write_out(env, st, OutputView::Stdout, en.path@.push(10u8)),
        ExprView::Print0 => write_out(env, st, OutputView::Stdout, en.path@.push(0u8)),
        ExprView::Printf(toks) => printf_action(toks, OutputView::Stdout, env, st),
        ExprView::Ls => ls_action(OutputView::Stdout, env, st),
        ExprView::FPrint(f) => write_out(env, st, OutputView::Append(f), en.path@.push(10u8)),
        ExprView::FPrint0(f) => write_out(env, st, OutputView::Append(f), en.path@.push(0u8)),
        ExprView::FPrintf(f, toks) => printf_action(toks, OutputView::Append(f), env, st),
        ExprView::FLs(f) => ls_action(OutputView::Append(f), env, st),
        ExprView::Exec { args, batch } => if batch {
            push_batch(args, false, env, st)
        } else {
            run_command(command_words(args, text_or_empty(en.path@)), None, env, st)
        },
        ExprView::ExecDir { args, batch } => if batch {
            push_batch(args, true, env, st)
        } else {
            run_command(
                command_words(args, text_or_empty(local_path(en))),
                exec_dir(opt_bytes(en.parent)),
                env,
                st,
            )
        },
        ExprView::OkPrompt { args } => ok_command(args, en.path@, None, env, st),
        ExprView::OkDir { args } => ok_command(args, local_path(en), exec_dir(opt_bytes(en.parent)), env, st),
        ExprView::Delete => {
            let (s1, a) = ask(env, st, RequestView::Remove(en.is_dir));
            match a {
                Err(r) => (s1, r),
                Ok(a) => match status_of(a) {
                    Ok(()) => (s1, Res::Val(true)),
                    Err(m) => {
                        let (s2, w) = ask(env, s1, RequestView::Warn(delete_failure(en.path@, m)));
                        match w {
                            Err(r) => (s2, r),
                            Ok(_) => (s2, Res::Val(false)),
                        }
                    },
                },
            }
        },
        ExprView::Prune => (EvalState { prune: true, ..st }, Res::Val(true)),
        ExprView::Quit => (EvalState { quit: true, ..st }, Res::Val(true)),
        _ => (st, Res::Val(false)),
    }
}

// ---------------------------------------------------------------------------
// Expressions
// ---------------------------------------------------------------------------

/// Which group of tests or actions an expression belongs to: 0 the path tests,
/// 1 the metadata tests, 2 the time tests, 3 the actions.
pub open spec fn leaf_group(e: ExprView) -> int {
    match e {
        ExprView::Size { .. } | ExprView::Empty | ExprView::Perm { .. } | ExprView::User(_)
        | ExprView::Group(_) | ExprView::Uid(_, _) | ExprView::Gid(_, _) | ExprView::NoUser
        | ExprView::NoGroup | ExprView::Links(_, _) | ExprView::Inum(_, _)
        | ExprView::SameFile { .. } | ExprView::Used(_, _) => 1,
        ExprView::MTime(_, _) | ExprView::MMin(_, _) | ExprView::ATime(_, _) | ExprView::AMin(_, _)
        | ExprView::CTime(_, _) | ExprView::CMin(_, _) | ExprView::Newer(_) | ExprView::ANewerM(_)
        | ExprView::CNewerM(_) | ExprView::NewerXY { .. } => 2,
        ExprView::Print | ExprView::Print0 | ExprView::Printf(_) | ExprView::Ls | ExprView::FPrint(_)
        | ExprView::FPrint0(_) | ExprView::FPrintf(_, _) | ExprView::FLs(_) | ExprView::Exec { .. }
        | ExprView::ExecDir { .. } | ExprView::OkPrompt { .. } | ExprView::OkDir { .. }
        | ExprView::Delete | ExprView::Prune | ExprView::Quit => 3,
        _ => 0,
    }
}

/// A test or an action.
pub open spec fn ev_leaf(e: ExprView, env: Env, st: EvalState) -> (EvalState, Res) {
    let g = leaf_group(e);
    if g == 1 {
        ev_meta_test(e, env, st)
    } else if g == 2 {
        ev_time_test(e, env, st)
    } else if g == 3 {
        ev_action(e, env, st)
    } else {
        ev_path_test(e, env, st)
    }
}

/// Evaluate an expression: false once `-quit` has been evaluated; operators
/// combine their operands left to right, stopping as soon as the value is
/// known; any other expression is a test or an action.
pub open spec fn ev(e: ExprView, env: Env, st: EvalState) -> (EvalState, Res)
    decreases e,
{
    if st.quit {
        (st, Res::Val(false))
    } else {
        match e {
            ExprView::And(es) => ev_and(es, env, st),
            ExprView::Or(es) => ev_or(es, env, st),
            ExprView::Not(b) => {
                let (s1, r) = ev(*b, env, st);
                match r {
                    Res::Val(v) => (s1, Res::Val(!v)),
                    other => (s1, other),
                }
            },
            ExprView::List(es) => ev_list(es, env, st, true),
            _ => ev_leaf(e, env, st),
        }
    }
}

/// AND: true unless an operand is false (the rest are then not evaluated).
pub open spec fn ev_and(es: Seq<ExprView>, env: Env, st: EvalState) -> (EvalState, Res)
    decreases es,
{
    if es.len() == 0 {
        (st, Res::Val(true))
    } else {
        let (s1, r) = ev(es[0], env, st);
        match r {
            Res::Val(true) => ev_and(es.drop_first(), env, s1),
            other => (s1, other),
        }
    }
}

/// OR: false unless an operand is true (the rest are then not evaluated).
pub open spec fn ev_or(es: Seq<ExprView>, env: Env, st: EvalState) -> (EvalState, Res)
    decreases es,
{
    if es.len() == 0 {
        (st, Res::Val(false))
    } else {
        let (s1, r) = ev(es[0], env, st);
        match r {
            Res::Val(false) => ev_or(es.drop_first(), env, s1),
            other => (s1, other),
        }
    }
}

/// Comma: every operand is evaluated; the value is the last one's (true for none).
pub open spec fn ev_list(es: Seq<ExprView>, env: Env, st: EvalState, last: bool) -> (EvalState, Res)
    decreases es,
{
    if es.len() == 0 {
        (st, Res::Val(last))
    } else {
        let (s1, r) = ev(es[0], env, st);
        match r {
            Res::Val(v) => ev_list(es.drop_first(), env, s1, v),
            other => (s1, other),
        }
    }
}

/// The state an evaluation starts from: what the entry and the context hold,
/// no answer read, nothing collected.
pub open spec fn initial_state(entry: EntryInfo, ctx: EvalContext) -> EvalState {
    EvalState {
        meta: entry.metadata,
        prune: entry.should_prune,
        quit: ctx.quit,
        pos: 0,
        pushes: Seq::empty(),
    }
}

/// Evaluating `e` against `entry` in `ctx` with these answers.
pub open spec fn spec_evaluate(e: ExprView, entry: EntryInfo, ctx: EvalContext, answers: Seq<Answer>) -> (
    EvalState,
    Res,
) {
    ev(e, Env { entry, ctx, answers }, initial_state(entry, ctx))
}

// ---------------------------------------------------------------------------
// What evaluation guarantees
// ---------------------------------------------------------------------------

/// Once `-quit` has been evaluated, every expression is false and evaluating
/// it does nothing: no request, no answer read, no change.
pub proof fn lemma_quit_stops(e: ExprView, env: Env, st: EvalState)
    requires
        st.quit,
    ensures
        ev(e, env, st) == (st, Res::Val(false)),
{
}

/// `-quit` is true and stops every later evaluation.
pub proof fn lemma_quit_sets_quit(env: Env, st: EvalState)
    requires
        !st.quit,
    ensures
        ev(ExprView::Quit, env, st) == (EvalState { quit: true, ..st }, Res::Val(true)),
{
    reveal(ev_action);
}

/// `-true` is always true and `-false` always false; neither makes a request
/// or changes anything.
pub proof fn lemma_true_false(env: Env, st: EvalState)
    ensures
        ev(ExprView::True, env, st) == (st, Res::Val(!st.quit)),
        ev(ExprView::False, env, st) == (st, Res::Val(false)),
{
    reveal(ev_path_test);
}

/// Short circuit: an AND whose first operand is false is false, and its
/// other operands are not evaluated (no request, no change beyond the first).
pub proof fn lemma_and_short_circuit(a: ExprView, rest: Seq<ExprView>, env: Env, st: EvalState)
    requires
        !st.quit,
        ev(a, env, st).1 == Res::Val(false),
    ensures
        ev(ExprView::And(seq![a] + rest), env, st) == ev(a, env, st),
{
    let es = seq![a] + rest;
    assert(es.len() > 0 && es[0] == a);
    assert(ev(ExprView::And(es), env, st) == ev_and(es, env, st));
}

/// Short circuit: an OR whose first operand is true is true, and its other
/// operands are not evaluated.
pub proof fn lemma_or_short_circuit(a: ExprView, rest: Seq<ExprView>, env: Env, st: EvalState)
    requires
        !st.quit,
        ev(a, env, st).1 == Res::Val(true),
    ensures
        ev(ExprView::Or(seq![a] + rest), env, st) == ev(a, env, st),
{
    let es = seq![a] + rest;
    assert(es.len() > 0 && es[0] == a);
    assert(ev(ExprView::Or(es), env, st) == ev_or(es, env, st));
}

// ---------------------------------------------------------------------------
// Replaying answers
// ---------------------------------------------------------------------------

/// The same entry and context, and the answers of `env1` are the first answers
/// of `env2`.
spec fn extends(env1: Env, env2: Env) -> bool {
    &&& env1.entry == env2.entry
    &&& env1.ctx == env2.ctx
    &&& env1.answers.len() <= env2.answers.len()
    &&& forall|k: int| 0 <= k < env1.answers.len() ==> #[trigger] env1.answers[k] == env2.answers[k]
}

/// An evaluation step with `n` answers either stops at a request after
/// reading all of them, or ends having read at most them, and then ends the
/// same way with more answers.
spec fn settled(x1: (EvalState, Res), x2: (EvalState, Res), n: int) -> bool {
    if x1.1 is Need {
        x1.0.pos == n
    } else {
        x2 == x1 && 0 <= x1.0.pos <= n
    }
}

spec fn settled_ask(x1: (EvalState, Result<Answer, Res>), x2: (EvalState, Result<Answer, Res>), n: int) -> bool {
    if x1.1 matches Err(Res::Need(_)) {
        x1.0.pos == n
    } else {
        x2 == x1 && 0 <= x1.0.pos <= n
    }
}

spec fn settled_meta(x1: (EvalState, Result<Meta, Res>), x2: (EvalState, Result<Meta, Res>), n: int) -> bool {
    if x1.1 matches Err(Res::Need(_)) {
        x1.0.pos == n
    } else {
        x2 == x1 && 0 <= x1.0.pos <= n
    }
}

spec fn settled_tok(x1: (EvalState, TokOut), x2: (EvalState, TokOut), n: int) -> bool {
    if x1.1 matches TokOut::Stop(Res::Need(_)) {
        x1.0.pos == n
    } else {
        x2 == x1 && 0 <= x1.0.pos <= n
    }
}

spec fn settled_text(x1: (EvalState, PfOut), x2: (EvalState, PfOut), n: int) -> bool {
    if x1.1 matches PfOut::Stop(Res::Need(_), _) {
        x1.0.pos == n
    } else {
        x2 == x1 && 0 <= x1.0.pos <= n
    }
}

spec fn settled_line(x1: (EvalState, Result<Seq<char>, Res>), x2: (EvalState, Result<Seq<char>, Res>), n: int) -> bool {
    if x1.1 matches Err(Res::Need(_)) {
        x1.0.pos == n
    } else {
        x2 == x1 && 0 <= x1.0.pos <= n
    }
}

spec fn pos_ok(st: EvalState, env: Env) -> bool {
    0 <= st.pos <= env.answers.len()
}

proof fn lemma_ask_settles(env1: Env, env2: Env)
    requires
        extends(env1, env2),
    ensures
        forall|st: EvalState, q: RequestView| #![trigger ask(env1, st, q)]
            pos_ok(st, env1) ==> settled_ask(ask(env1, st, q), ask(env2, st, q), env1.answers.len() as int),
{
    assert forall|st: EvalState, q: RequestView| #![trigger ask(env1, st, q)]
        pos_ok(st, env1) implies settled_ask(ask(env1, st, q), ask(env2, st, q), env1.answers.len() as int) by {
        if st.pos < env1.answers.len() {
            assert(env1.answers[st.pos] == env2.answers[st.pos]);
        }
    }
}

proof fn lemma_fetch_settles(env1: Env, env2: Env)
    requires
        extends(env1, env2),
    ensures
        forall|st: EvalState| #![trigger fetch_meta(env1, st)]
            pos_ok(st, env1) ==> settled_meta(fetch_meta(env1, st), fetch_meta(env2, st), env1.answers.len() as int),
{
    assert forall|st: EvalState| #![trigger fetch_meta(env1, st)]
        pos_ok(st, env1) implies settled_meta(fetch_meta(env1, st), fetch_meta(env2, st), env1.answers.len() as int) by {
        if st.pos < env1.answers.len() {
            assert(env1.answers[st.pos] == env2.answers[st.pos]);
        }
    }
}

proof fn lemma_path_test_settles(e: ExprView, env1: Env, env2: Env, st: EvalState)
    requires
        extends(env1, env2),
        pos_ok(st, env1),
    ensures
        settled(ev_path_test(e, env1, st), ev_path_test(e, env2, st), env1.answers.len() as int),
{
    reveal(ev_path_test);
    lemma_ask_settles(env1, env2);
}

#[verifier::rlimit(40)]
proof fn lemma_meta_test_settles(e: ExprView, env1: Env, env2: Env, st: EvalState)
    requires
        extends(env1, env2),
        pos_ok(st, env1),
    ensures
        settled(ev_meta_test(e, env1, st), ev_meta_test(e, env2, st), env1.answers.len() as int),
{
    reveal(ev_meta_test);
    lemma_ask_settles(env1, env2);
    lemma_fetch_settles(env1, env2);
}

proof fn lemma_time_test_settles(e: ExprView, env1: Env, env2: Env, st: EvalState)
    requires
        extends(env1, env2),
        pos_ok(st, env1),
    ensures
        settled(ev_time_test(e, env1, st), ev_time_test(e, env2, st), env1.answers.len() as int),
{
    reveal(ev_time_test);
    lemma_fetch_settles(env1, env2);
}

proof fn lemma_number_settles(which: int, env1: Env, env2: Env, st: EvalState)
    requires
        extends(env1, env2),
        pos_ok(st, env1),
    ensures
        settled_tok(number_token(which, env1, st), number_token(which, env2, st), env1.answers.len() as int),
{
    lemma_fetch_settles(env1, env2);
}

proof fn lemma_time_token_settles(which: int, t: int, env1: Env, env2: Env, st: EvalState)
    requires
        extends(env1, env2),
        pos_ok(st, env1),
    ensures
        settled_tok(time_token(which, t, env1, st), time_token(which, t, env2, st), env1.answers.len() as int),
{
    lemma_fetch_settles(env1, env2);
}

proof fn lemma_owner_name_settles(env1: Env, env2: Env, st: EvalState, user: bool)
    requires
        extends(env1, env2),
        pos_ok(st, env1),
    ensures
        settled_tok(owner_name(env1, st, user), owner_name(env2, st, user), env1.answers.len() as int),
{
    lemma_fetch_settles(env1, env2);
    lemma_ask_settles(env1, env2);
}

proof fn lemma_token_settles(t: TokenView, env1: Env, env2: Env, st: EvalState)
    requires
        extends(env1, env2),
        pos_ok(st, env1),
    ensures
        settled_tok(printf_token(t, env1, st), printf_token(t, env2, st), env1.answers.len() as int),
{
    reveal(printf_token);
    match t {
        TokenView::Size => lemma_number_settles(0, env1, env2, st),
        TokenView::SizeInBlocks => lemma_number_settles(1, env1, env2, st),
        TokenView::BlockSize => lemma_number_settles(2, env1, env2, st),
        TokenView::Permissions => lemma_number_settles(8, env1, env2, st),
        TokenView::PermSymbolic => lemma_number_settles(9, env1, env2, st),
        TokenView::Nlinks => lemma_number_settles(3, env1, env2, st),
        TokenView::Uid => lemma_number_settles(4, env1, env2, st),
        TokenView::Gid => lemma_number_settles(5, env1, env2, st),
        TokenView::Inode => lemma_number_settles(6, env1, env2, st),
        TokenView::DeviceNumber => lemma_number_settles(7, env1, env2, st),
        TokenView::User => lemma_owner_name_settles(env1, env2, st, true),
        TokenView::Group => lemma_owner_name_settles(env1, env2, st, false),
        TokenView::LinkTarget => lemma_ask_settles(env1, env2),
        TokenView::TimeAccess => lemma_time_token_settles(0, 0, env1, env2, st),
        TokenView::TimeModify => lemma_time_token_settles(0, 1, env1, env2, st),
        TokenView::TimeChange => lemma_time_token_settles(0, 2, env1, env2, st),
        TokenView::TimeAccessSecs => lemma_time_token_settles(1, 0, env1, env2, st),
        TokenView::TimeModifySecs => lemma_time_token_settles(1, 1, env1, env2, st),
        TokenView::TimeChangeSecs => lemma_time_token_settles(1, 2, env1, env2, st),
        TokenView::TimeAccessFmt(f) => lemma_time_token_settles(fmt_which(f), 0, env1, env2, st),
        TokenView::TimeModifyFmt(f) => lemma_time_token_settles(fmt_which(f), 1, env1, env2, st),
        TokenView::TimeChangeFmt(f) => lemma_time_token_settles(fmt_which(f), 2, env1, env2, st),
        _ => {},
    }
}

proof fn lemma_text_settles(toks: Seq<TokenView>, env1: Env, env2: Env, st: EvalState, acc: Seq<char>)
    requires
        extends(env1, env2),
        pos_ok(st, env1),
    ensures
        settled_text(printf_text(toks, env1, st, acc), printf_text(toks, env2, st, acc), env1.answers.len() as int),
    decreases toks.len(),
{
    if toks.len() > 0 {
        lemma_token_settles(toks[0], env1, env2, st);
        let (s1, r) = printf_token(toks[0], env1, st);
        match r {
            TokOut::Text(t) => lemma_text_settles(toks.drop_first(), env1, env2, s1, acc + t),
            TokOut::Stop(_) => {},
        }
    }
}

proof fn lemma_write_settles(env1: Env, env2: Env, st: EvalState, out: OutputView, bytes: Seq<u8>)
    requires
        extends(env1, env2),
        pos_ok(st, env1),
    ensures
        settled(write_out(env1, st, out, bytes), write_out(env2, st, out, bytes), env1.answers.len() as int),
{
    lemma_ask_settles(env1, env2);
}

proof fn lemma_open_settles(out: OutputView, env1: Env, env2: Env, st: EvalState)
    requires
        extends(env1, env2),
        pos_ok(st, env1),
    ensures
        settled(open_output(out, env1, st), open_output(out, env2, st), env1.answers.len() as int),
{
    if out is Append {
        lemma_write_settles(env1, env2, st, out, Seq::empty());
    }
}

proof fn lemma_printf_settles(toks: Seq<TokenView>, out: OutputView, env1: Env, env2: Env, st: EvalState)
    requires
        extends(env1, env2),
        pos_ok(st, env1),
    ensures
        settled(printf_action(toks, out, env1, st), printf_action(toks, out, env2, st), env1.answers.len() as int),
{
    lemma_open_settles(out, env1, env2, st);
    let (s0, o) = open_output(out, env1, st);
    if o is Val {
        lemma_printf_write_settles(toks, out, env1, env2, s0);
    }
}

proof fn lemma_printf_write_settles(toks: Seq<TokenView>, out: OutputView, env1: Env, env2: Env, st: EvalState)
    requires
        extends(env1, env2),
        pos_ok(st, env1),
    ensures
        settled(printf_write(toks, out, env1, st), printf_write(toks, out, env2, st), env1.answers.len() as int),
{
    lemma_text_settles(toks, env1, env2, st, Seq::empty());
    let (s1, r) = printf_text(toks, env1, st, Seq::empty());
    match r {
        PfOut::Done(text) => lemma_write_settles(env1, env2, s1, out, encode_utf8(text)),
        PfOut::Stop(Res::Fail(_), text) => lemma_write_settles(env1, env2, s1, out, encode_utf8(text)),
        PfOut::Stop(_, _) => {},
    }
}

proof fn lemma_ls_settles(out: OutputView, env1: Env, env2: Env, st: EvalState)
    requires
        extends(env1, env2),
        pos_ok(st, env1),
    ensures
        settled(ls_action(out, env1, st), ls_action(out, env2, st), env1.answers.len() as int),
{
    lemma_open_settles(out, env1, env2, st);
    let (s0, o) = open_output(out, env1, st);
    if o is Val {
        lemma_ls_write_settles(out, env1, env2, s0);
    }
}

proof fn lemma_ls_write_settles(out: OutputView, env1: Env, env2: Env, st: EvalState)
    requires
        extends(env1, env2),
        pos_ok(st, env1),
    ensures
        settled(ls_write(out, env1, st), ls_write(out, env2, st), env1.answers.len() as int),
{
    lemma_ask_settles(env1, env2);
    lemma_fetch_settles(env1, env2);
    assert(settled_line(ls_line(env1, st), ls_line(env2, st), env1.answers.len() as int));
    let (s1, r) = ls_line(env1, st);
    match r {
        Ok(line) => lemma_write_settles(env1, env2, s1, out, encode_utf8(line)),
        Err(_) => {},
    }
}

proof fn lemma_run_settles(words: Seq<Seq<char>>, dir: Option<Seq<u8>>, env1: Env, env2: Env, st: EvalState)
    requires
        extends(env1, env2),
        pos_ok(st, env1),
    ensures
        settled(run_command(words, dir, env1, st), run_command(words, dir, env2, st), env1.answers.len() as int),
{
    lemma_ask_settles(env1, env2);
}

proof fn lemma_ok_settles(args: Seq<ArgView>, path: Seq<u8>, dir: Option<Seq<u8>>, env1: Env, env2: Env, st: EvalState)
    requires
        extends(env1, env2),
        pos_ok(st, env1),
    ensures
        settled(ok_command(args, path, dir, env1, st), ok_command(args, path, dir, env2, st), env1.answers.len() as int),
{
    lemma_ask_settles(env1, env2);
    let words = command_words(args, text_or_empty(path));
    let (s1, a) = ask(env1, st, RequestView::Ask(ok_prompt(words, path)));
    if s1.pos <= env1.answers.len() {
        lemma_run_settles(words, dir, env1, env2, s1);
    }
}

proof fn lemma_action_settles(e: ExprView, env1: Env, env2: Env, st: EvalState)
    requires
        extends(env1, env2),
        pos_ok(st, env1),
    ensures
        settled(ev_action(e, env1, st), ev_action(e, env2, st), env1.answers.len() as int),
{
    reveal(ev_action);
    let en = env1.entry;
    lemma_ask_settles(env1, env2);
    match e {
        ExprView::Print => lemma_write_settles(env1, env2, st, OutputView::Stdout, en.path@.push(10u8)),
        ExprView::Print0 => lemma_write_settles(env1, env2, st, OutputView::Stdout, en.path@.push(0u8)),
        ExprView::Printf(toks) => lemma_printf_settles(toks, OutputView::Stdout, env1, env2, st),
        ExprView::Ls => lemma_ls_settles(OutputView::Stdout, env1, env2, st),
        ExprView::FPrint(f) => lemma_write_settles(env1, env2, st, OutputView::Append(f), en.path@.push(10u8)),
        ExprView::FPrint0(f) => lemma_write_settles(env1, env2, st, OutputView::Append(f), en.path@.push(0u8)),
        ExprView::FPrintf(f, toks) => lemma_printf_settles(toks, OutputView::Append(f), env1, env2, st),
        ExprView::FLs(f) => lemma_ls_settles(OutputView::Append(f), env1, env2, st),
        ExprView::Exec { args, batch } => if !batch {
            lemma_run_settles(command_words(args, text_or_empty(en.path@)), None, env1, env2, st);
        },
        ExprView::ExecDir { args, batch } => if !batch {
            lemma_run_settles(
                command_words(args, text_or_empty(local_path(en))),
                exec_dir(opt_bytes(en.parent)),
                env1,
                env2,
                st,
            );
        },
        ExprView::OkPrompt { args } => lemma_ok_settles(args, en.path@, None, env1, env2, st),
        ExprView::OkDir { args } => lemma_ok_settles(args, local_path(en), exec_dir(opt_bytes(en.parent)), env1, env2, st),
        _ => {},
    }
}

proof fn lemma_leaf_settles(e: ExprView, env1: Env, env2: Env, st: EvalState)
    requires
        extends(env1, env2),
        pos_ok(st, env1),
    ensures
        settled(ev_leaf(e, env1, st), ev_leaf(e, env2, st), env1.answers.len() as int),
{
    let g = leaf_group(e);
    if g == 1 {
        lemma_meta_test_settles(e, env1, env2, st);
    } else if g == 2 {
        lemma_time_test_settles(e, env1, env2, st);
    } else if g == 3 {
        lemma_action_settles(e, env1, env2, st);
    } else {
        lemma_path_test_settles(e, env1, env2, st);
    }
}

proof fn lemma_ev_settles(e: ExprView, env1: Env, env2: Env, st: EvalState)
    requires
        extends(env1, env2),
        pos_ok(st, env1),
    ensures
        settled(ev(e, env1, st), ev(e, env2, st), env1.answers.len() as int),
    decreases e,
{
    if !st.quit {
        match e {
            ExprView::And(es) => lemma_and_settles(es, env1, env2, st),
            ExprView::Or(es) => lemma_or_settles(es, env1, env2, st),
            ExprView::Not(b) => lemma_ev_settles(*b, env1, env2, st),
            ExprView::List(es) => lemma_list_settles(es, env1, env2, st, true),
            _ => lemma_leaf_settles(e, env1, env2, st),
        }
    }
}

proof fn lemma_and_settles(es: Seq<ExprView>, env1: Env, env2: Env, st: EvalState)
    requires
        extends(env1, env2),
        pos_ok(st, env1),
    ensures
        settled(ev_and(es, env1, st), ev_and(es, env2, st), env1.answers.len() as int),
    decreases es,
{
    if es.len() > 0 {
        lemma_ev_settles(es[0], env1, env2, st);
        let (s1, r) = ev(es[0], env1, st);
        if r == Res::Val(true) {
            lemma_and_settles(es.drop_first(), env1, env2, s1);
        }
    }
}

proof fn lemma_or_settles(es: Seq<ExprView>, env1: Env, env2: Env, st: EvalState)
    requires
        extends(env1, env2),
        pos_ok(st, env1),
    ensures
        settled(ev_or(es, env1, st), ev_or(es, env2, st), env1.answers.len() as int),
    decreases es,
{
    if es.len() > 0 {
        lemma_ev_settles(es[0], env1, env2, st);
        let (s1, r) = ev(es[0], env1, st);
        if r == Res::Val(false) {
            lemma_or_settles(es.drop_first(), env1, env2, s1);
        }
    }
}

proof fn lemma_list_settles(es: Seq<ExprView>, env1: Env, env2: Env, st: EvalState, last: bool)
    requires
        extends(env1, env2),
        pos_ok(st, env1),
    ensures
        settled(ev_list(es, env1, st, last), ev_list(es, env2, st, last), env1.answers.len() as int),
    decreases es,
{
    if es.len() > 0 {
        lemma_ev_settles(es[0], env1, env2, st);
        let (s1, r) = ev(es[0], env1, st);
        if let Res::Val(v) = r {
            lemma_list_settles(es.drop_first(), env1, env2, s1, v);
        }
    }
}

/// Replaying answers: evaluated with the answers given so far, an expression
/// either stops at a request after reading every one of them, or ends (true,
/// false or an error) having read no more than them; and then, evaluated again
/// with those answers followed by any others, it ends the same way, in the
/// same state.
pub proof fn lemma_replay(
    e: ExprView,
    entry: EntryInfo,
    ctx: EvalContext,
    answers: Seq<Answer>,
    more: Seq<Answer>,
)
    ensures
        ({
            let (st, res) = spec_evaluate(e, entry, ctx, answers);
            &&& res is Need ==> st.pos == answers.len()
            &&& !(res is Need) ==> st.pos <= answers.len() && spec_evaluate(
                e,
                entry,
                ctx,
                answers + more,
            ) == (st, res)
        }),
{
    let env1 = Env { entry, ctx, answers };
    let env2 = Env { entry, ctx, answers: answers + more };
    assert(extends(env1, env2));
    lemma_ev_settles(e, env1, env2, initial_state(entry, ctx));
}

} // verus!
