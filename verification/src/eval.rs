//! Evaluating an expression against one directory entry.
//!
//! Evaluation decides; it does not touch the filesystem. Every fact it needs
//! from outside (metadata, link targets, user names, the time) and every effect
//! it has (writing output, running a command, removing a file) is a
//! [`Request`]. The caller performs the request, appends the [`Answer`] to the
//! list of answers, and evaluates again: the evaluation replays the answers it
//! has and stops at the first request that has none.
use vstd::prelude::*;
use vstd::utf8::{decode_utf8, encode_utf8, valid_utf8};

use crate::chrono_format::{
    DateTime, civil_from_days, from_timestamp, month_abbr_of, trunc_div,
};
use crate::eval_spec::{
    Env, EvalState, Res, advance, answer_at, any_type, ask, count_test, ev_meta_test, ev_path_test,
    PfOut, TokOut, batch_item, delete_failure, ev, ev_action, ev_and, ev_leaf, ev_list, ev_or,
    leaf_group, spec_evaluate, command_words, replace_braces, join_words, local_path, ok_command, ok_prompt,
    push_batch, run_command, says_yes, spawn_failure, ls_action, ls_write, open_output, ls_fields, ls_line, name_or_number, bit_letter, printf_action, printf_write, printf_text, write_out, dec, ev_time_test, number_token, owner_name, printf_token, time_token, special_letter, type_letter, fstype_name, id_test, ls_date, mode_string, name_of, printf_date, iso_date, fmt_which, right,
    two_digits, owner_test, perm_matches, size_test, unexpected, used_test,
};
use crate::expr::{
    ArgView, Cmp, ExecArg, Expr, GlobPattern, RegexMatcher, regex_is_match, ExprView, FileType, PermMatch, PrintfToken, SizeUnit, TimeRef,
    Timestamp, TokenView, arg_view, args_view, expr_view, exprs_view, lemma_exprs_view,
    token_view, tokens_view,
};
use crate::text::{
    bytes_of, bytes_of_chars, chars_of, concat2, concat3, decimal, decimal_i64, lossy_text,
    lossy_utf8, pad_left, pad_right, padded_left, padded_right, parse_u32, push_all, push_decimal,
    push_octal, push_str, spec_decimal, spec_decimal_int, spec_octal, spec_parse_unsigned,
    spec_trim, str_eq, string_from_chars, text_or_empty, text_or_empty_of, to_lowercase, trim_chars,
    utf8_str,
};

verus! {

// ---------------------------------------------------------------------------
// Constants of the C library (Linux)
// ---------------------------------------------------------------------------

/// `libc::S_IFMT`: the mask of the file-type bits of a mode.
#[verifier::external_body]
fn s_ifmt() -> (r: u32)
    ensures
        r == 0o170000,
{
    libc::S_IFMT
}

/// `libc::S_IFREG`: the file-type bits of a regular file.
#[verifier::external_body]
fn s_ifreg() -> (r: u32)
    ensures
        r == 0o100000,
{
    libc::S_IFREG
}

/// `libc::S_IFDIR`: the file-type bits of a directory.
#[verifier::external_body]
fn s_ifdir() -> (r: u32)
    ensures
        r == 0o040000,
{
    libc::S_IFDIR
}

/// `libc::S_IFLNK`: the file-type bits of a symbolic link.
#[verifier::external_body]
fn s_iflnk() -> (r: u32)
    ensures
        r == 0o120000,
{
    libc::S_IFLNK
}

/// `libc::S_IFBLK`: the file-type bits of a block device.
#[verifier::external_body]
fn s_ifblk() -> (r: u32)
    ensures
        r == 0o060000,
{
    libc::S_IFBLK
}

/// `libc::S_IFCHR`: the file-type bits of a character device.
#[verifier::external_body]
fn s_ifchr() -> (r: u32)
    ensures
        r == 0o020000,
{
    libc::S_IFCHR
}

/// `libc::S_IFIFO`: the file-type bits of a named pipe.
#[verifier::external_body]
fn s_ififo() -> (r: u32)
    ensures
        r == 0o010000,
{
    libc::S_IFIFO
}

/// `libc::S_IFSOCK`: the file-type bits of a socket.
#[verifier::external_body]
fn s_ifsock() -> (r: u32)
    ensures
        r == 0o140000,
{
    libc::S_IFSOCK
}

/// `libc::S_ISUID`: the set-user-id bit.
#[verifier::external_body]
fn s_isuid() -> (r: u32)
    ensures
        r == 0o4000,
{
    libc::S_ISUID
}

/// `libc::S_ISGID`: the set-group-id bit.
#[verifier::external_body]
fn s_isgid() -> (r: u32)
    ensures
        r == 0o2000,
{
    libc::S_ISGID
}

/// `libc::S_ISVTX`: the sticky bit.
#[verifier::external_body]
fn s_isvtx() -> (r: u32)
    ensures
        r == 0o1000,
{
    libc::S_ISVTX
}

/// `libc::R_OK`: the mode `access` tests read permission with.
#[verifier::external_body]
fn r_ok() -> (r: i32)
    ensures
        r == 4,
{
    libc::R_OK
}

/// `libc::W_OK`: the mode `access` tests write permission with.
#[verifier::external_body]
fn w_ok() -> (r: i32)
    ensures
        r == 2,
{
    libc::W_OK
}

/// `libc::X_OK`: the mode `access` tests execute permission with.
#[verifier::external_body]
fn x_ok() -> (r: i32)
    ensures
        r == 1,
{
    libc::X_OK
}

// ---------------------------------------------------------------------------
// Entry types
// ---------------------------------------------------------------------------

#[derive(Debug, Clone, Copy, PartialEq, Eq, Structural)]
pub enum EntryType {
    File,
    Directory,
    Symlink,
    BlockDevice,
    CharDevice,
    Pipe,
    Socket,
    Unknown,
}

impl EntryType {
    /// Whether the entry is of the `-type` kind `ft` (an unknown entry is of none).
    pub open spec fn spec_matches(self, ft: FileType) -> bool {
        match (self, ft) {
            (EntryType::File, FileType::File) => true,
            (EntryType::Directory, FileType::Directory) => true,
            (EntryType::Symlink, FileType::Symlink) => true,
            (EntryType::BlockDevice, FileType::BlockDevice) => true,
            (EntryType::CharDevice, FileType::CharDevice) => true,
            (EntryType::Pipe, FileType::Pipe) => true,
            (EntryType::Socket, FileType::Socket) => true,
            _ => false,
        }
    }

    #[inline]
    pub fn matches(self, ft: FileType) -> (r: bool)
        ensures
            r == self.spec_matches(ft),
    {
        match (self, ft) {
            (EntryType::File, FileType::File) => true,
            (EntryType::Directory, FileType::Directory) => true,
            (EntryType::Symlink, FileType::Symlink) => true,
            (EntryType::BlockDevice, FileType::BlockDevice) => true,
            (EntryType::CharDevice, FileType::CharDevice) => true,
            (EntryType::Pipe, FileType::Pipe) => true,
            (EntryType::Socket, FileType::Socket) => true,
            _ => false,
        }
    }

    /// The `%y` letter of the type (`U` for unknown).
    pub open spec fn spec_to_char(self) -> char {
        match self {
            EntryType::File => 'f',
            EntryType::Directory => 'd',
            EntryType::Symlink => 'l',
            EntryType::BlockDevice => 'b',
            EntryType::CharDevice => 'c',
            EntryType::Pipe => 'p',
            EntryType::Socket => 's',
            EntryType::Unknown => 'U',
        }
    }

    pub fn to_char(self) -> (c: char)
        ensures
            c == self.spec_to_char(),
    {
        match self {
            EntryType::File => 'f',
            EntryType::Directory => 'd',
            EntryType::Symlink => 'l',
            EntryType::BlockDevice => 'b',
            EntryType::CharDevice => 'c',
            EntryType::Pipe => 'p',
            EntryType::Socket => 's',
            EntryType::Unknown => 'U',
        }
    }

    /// The type that the file-type bits of a mode give.
    pub open spec fn spec_from_mode(mode: u32) -> EntryType {
        let t = mode & 0o170000;
        if t == 0o100000 {
            EntryType::File
        } else if t == 0o040000 {
            EntryType::Directory
        } else if t == 0o120000 {
            EntryType::Symlink
        } else if t == 0o060000 {
            EntryType::BlockDevice
        } else if t == 0o020000 {
            EntryType::CharDevice
        } else if t == 0o010000 {
            EntryType::Pipe
        } else if t == 0o140000 {
            EntryType::Socket
        } else {
            EntryType::Unknown
        }
    }

    pub fn from_mode(mode: u32) -> (r: Self)
        ensures
            r == EntryType::spec_from_mode(mode),
    {
        let m = mode & s_ifmt();
        if m == s_ifreg() {
            EntryType::File
        } else if m == s_ifdir() {
            EntryType::Directory
        } else if m == s_iflnk() {
            EntryType::Symlink
        } else if m == s_ifblk() {
            EntryType::BlockDevice
        } else if m == s_ifchr() {
            EntryType::CharDevice
        } else if m == s_ififo() {
            EntryType::Pipe
        } else if m == s_ifsock() {
            EntryType::Socket
        } else {
            EntryType::Unknown
        }
    }
}

/// The type of a file from what `std::fs::FileType` says of it: regular file,
/// directory or symlink first, then the mode's type bits when there is a mode,
/// else unknown.
pub open spec fn spec_classify(is_file: bool, is_dir: bool, is_symlink: bool, mode: Option<u32>) -> EntryType {
    if is_file {
        EntryType::File
    } else if is_dir {
        EntryType::Directory
    } else if is_symlink {
        EntryType::Symlink
    } else {
        match mode {
            Some(m) => EntryType::spec_from_mode(m),
            None => EntryType::Unknown,
        }
    }
}

pub fn classify(is_file: bool, is_dir: bool, is_symlink: bool, mode: Option<u32>) -> (r: EntryType)
    ensures
        r == spec_classify(is_file, is_dir, is_symlink, mode),
{
    if is_file {
        EntryType::File
    } else if is_dir {
        EntryType::Directory
    } else if is_symlink {
        EntryType::Symlink
    } else {
        match mode {
            Some(m) => EntryType::from_mode(m),
            None => EntryType::Unknown,
        }
    }
}

// ---------------------------------------------------------------------------
// Metadata
// ---------------------------------------------------------------------------

/// What `std::fs::metadata` / `symlink_metadata` report of a file, as plain
/// values: the Unix fields, the three timestamps (or the error reading each),
/// and the file-type tests of `std::fs::FileType`.
pub struct Meta {
    pub len: u64,
    pub mode: u32,
    pub uid: u32,
    pub gid: u32,
    pub nlink: u64,
    pub ino: u64,
    pub dev: u64,
    pub blocks: u64,
    pub atime: i64,
    pub mtime: i64,
    pub ctime: i64,
    pub modified: Result<Timestamp, String>,
    pub accessed: Result<Timestamp, String>,
    pub created: Result<Timestamp, String>,
    pub is_file: bool,
    pub is_dir: bool,
    pub is_symlink: bool,
}

/// A well-formed time: fewer nanoseconds than a second.
pub open spec fn time_in_range(t: Timestamp) -> bool {
    t.wf()
}

/// A time reading that is either an error or a well-formed time.
pub open spec fn reading_in_range(r: Result<Timestamp, String>) -> bool {
    r matches Ok(t) ==> time_in_range(t)
}

impl Meta {
    /// The time readings are well formed.
    pub open spec fn wf(&self) -> bool {
        &&& reading_in_range(self.modified)
        &&& reading_in_range(self.accessed)
        &&& reading_in_range(self.created)
    }

    /// A copy of the metadata.
    pub fn copied(&self) -> (r: Meta)
        ensures
            r == *self,
    {
        Meta {
            len: self.len,
            mode: self.mode,
            uid: self.uid,
            gid: self.gid,
            nlink: self.nlink,
            ino: self.ino,
            dev: self.dev,
            blocks: self.blocks,
            atime: self.atime,
            mtime: self.mtime,
            ctime: self.ctime,
            modified: copy_reading(&self.modified),
            accessed: copy_reading(&self.accessed),
            created: copy_reading(&self.created),
            is_file: self.is_file,
            is_dir: self.is_dir,
            is_symlink: self.is_symlink,
        }
    }
}

fn copy_reading(r: &Result<Timestamp, String>) -> (c: Result<Timestamp, String>)
    ensures
        c == *r,
{
    match r {
        Ok(t) => Ok(*t),
        Err(e) => Err(e.clone()),
    }
}

/// The type of the file the metadata describes.
pub open spec fn spec_file_type_from_metadata(m: Meta) -> EntryType {
    spec_classify(m.is_file, m.is_dir, m.is_symlink, Some(m.mode))
}

pub fn file_type_from_metadata(meta: &Meta) -> (r: EntryType)
    ensures
        r == spec_file_type_from_metadata(*meta),
{
    classify(meta.is_file, meta.is_dir, meta.is_symlink, Some(meta.mode))
}

/// The change time as a point in time (whole seconds).
pub open spec fn change_time(m: Meta) -> Timestamp {
    Timestamp { secs: m.ctime, nanos: 0 }
}

/// The error for a change time before the epoch, which cannot be read as a
/// point in time.
pub open spec fn ctime_error() -> Seq<char> {
    "cannot get change time: it is before the epoch"@
}

/// The change time as a point in time, or the error reading it.
pub open spec fn change_reading(m: Meta) -> Result<Timestamp, Seq<char>> {
    if m.ctime >= 0 {
        Ok(change_time(m))
    } else {
        Err(ctime_error())
    }
}

/// The time a `-newerXY` letter reads from the metadata, or the error reading it.
pub open spec fn spec_time_ref(m: Meta, t: TimeRef) -> Result<Timestamp, Seq<char>> {
    match t {
        TimeRef::Modify => match m.modified {
            Ok(x) => Ok(x),
            Err(e) => Err(e@),
        },
        TimeRef::Access => match m.accessed {
            Ok(x) => Ok(x),
            Err(e) => Err(e@),
        },
        TimeRef::Change => change_reading(m),
        TimeRef::Birth => match m.created {
            Ok(x) => Ok(x),
            Err(e) => Err(e@),
        },
    }
}

fn get_time_ref(meta: &Meta, time_ref: TimeRef) -> (r: Result<Timestamp, String>)
    ensures
        r matches Ok(t) ==> spec_time_ref(*meta, time_ref) == Ok::<Timestamp, Seq<char>>(t),
        r matches Err(e) ==> spec_time_ref(*meta, time_ref) == Err::<Timestamp, Seq<char>>(e@),
{
    match time_ref {
        TimeRef::Modify => copy_reading(&meta.modified),
        TimeRef::Access => copy_reading(&meta.accessed),
        TimeRef::Change => change_reading_ex(meta),
        TimeRef::Birth => copy_reading(&meta.created),
    }
}

fn change_reading_ex(meta: &Meta) -> (r: Result<Timestamp, String>)
    ensures
        r matches Ok(t) ==> change_reading(*meta) == Ok::<Timestamp, Seq<char>>(t),
        r matches Err(e) ==> change_reading(*meta) == Err::<Timestamp, Seq<char>>(e@),
{
    if meta.ctime >= 0 {
        Ok(Timestamp { secs: meta.ctime, nanos: 0 })
    } else {
        let e = String::from_str("cannot get change time: it is before the epoch");
        proof {
            reveal_strlit("cannot get change time: it is before the epoch");
        }
        Err(e)
    }
}

// ---------------------------------------------------------------------------
// Time tests
// ---------------------------------------------------------------------------

/// Whole seconds from `earlier` to `later` (`duration_since(..).as_secs()`),
/// or 0 when `later` is not after `earlier` (`unwrap_or(Duration::ZERO)`).
pub open spec fn elapsed_secs(later: Timestamp, earlier: Timestamp) -> int {
    if later.total_nanos() >= earlier.total_nanos() {
        (later.total_nanos() - earlier.total_nanos()) / 1_000_000_000
    } else {
        0
    }
}

/// The seconds elapsed from `earlier` to `later`, as `elapsed_secs`.
fn elapsed(later: Timestamp, earlier: Timestamp) -> (r: u64)
    requires
        time_in_range(later),
        time_in_range(earlier),
    ensures
        r == elapsed_secs(later, earlier),
{
    if later.secs > earlier.secs || (later.secs == earlier.secs && later.nanos >= earlier.nanos) {
        let d: i128 = later.secs as i128 - earlier.secs as i128;
        if later.nanos >= earlier.nanos {
            assert((later.total_nanos() - earlier.total_nanos()) / 1_000_000_000 == d) by (nonlinear_arith)
                requires
                    later.total_nanos() - earlier.total_nanos() == d * 1_000_000_000 + (later.nanos - earlier.nanos),
                    0 <= later.nanos - earlier.nanos < 1_000_000_000,
            ;
            d as u64
        } else {
            assert((later.total_nanos() - earlier.total_nanos()) / 1_000_000_000 == d - 1) by (nonlinear_arith)
                requires
                    later.total_nanos() - earlier.total_nanos() == (d - 1) * 1_000_000_000 + (1_000_000_000 + later.nanos - earlier.nanos),
                    0 <= 1_000_000_000 + later.nanos - earlier.nanos < 1_000_000_000,
            ;
            (d - 1) as u64
        }
    } else {
        0
    }
}

/// The time ages are measured from: the start of today with `-daystart`,
/// else now.
pub open spec fn age_reference(ctx: EvalContext) -> Timestamp {
    if ctx.daystart {
        ctx.daystart_time
    } else {
        ctx.now
    }
}

/// A context whose times are within range.
pub open spec fn ctx_wf(ctx: EvalContext) -> bool {
    time_in_range(ctx.now) && time_in_range(ctx.daystart_time)
}

/// `-mtime`-style test: the file's age in whole days, compared with `n`.
pub open spec fn spec_check_time_days(file_time: Timestamp, k: Cmp, n: i64, ctx: EvalContext) -> bool {
    k.spec_matches(elapsed_secs(age_reference(ctx), file_time) / 86400, n as int)
}

/// `-mmin`-style test: the file's age in whole minutes, compared with `n`.
pub open spec fn spec_check_time_mins(file_time: Timestamp, k: Cmp, n: i64, ctx: EvalContext) -> bool {
    k.spec_matches(elapsed_secs(age_reference(ctx), file_time) / 60, n as int)
}

pub fn check_time_days(file_time: Timestamp, k: Cmp, n: i64, ctx: &EvalContext) -> (r: bool)
    requires
        time_in_range(file_time),
        ctx_wf(*ctx),
    ensures
        r == spec_check_time_days(file_time, k, n, *ctx),
{
    let reference = if ctx.daystart {
        ctx.daystart_time
    } else {
        ctx.now
    };
    let diff = elapsed(reference, file_time);
    let days = (diff / 86400) as i64;
    k.matches(days, n)
}

pub fn check_time_mins(file_time: Timestamp, k: Cmp, n: i64, ctx: &EvalContext) -> (r: bool)
    requires
        time_in_range(file_time),
        ctx_wf(*ctx),
    ensures
        r == spec_check_time_mins(file_time, k, n, *ctx),
{
    let reference = if ctx.daystart {
        ctx.daystart_time
    } else {
        ctx.now
    };
    let diff = elapsed(reference, file_time);
    let mins = (diff / 60) as i64;
    k.matches(mins, n)
}

// ---------------------------------------------------------------------------
// The evaluation context
// ---------------------------------------------------------------------------

/// A path collected for a batched `-exec ... +` / `-execdir ... +`, with its
/// parent directory and file name (`Path::parent`, `Path::file_name`).
pub struct BatchPath {
    pub path: Vec<u8>,
    pub parent: Option<Vec<u8>>,
    pub name: Option<Vec<u8>>,
}

/// A pending batched command: its arguments, the paths collected for it, and
/// whether it runs in each path's directory.
pub struct Batch {
    pub args: Vec<ExecArg>,
    pub paths: Vec<BatchPath>,
    pub in_dir: bool,
}

/// Context for expression evaluation
pub struct EvalContext {
    pub now: Timestamp,
    pub daystart: bool,
    pub daystart_time: Timestamp,
    pub starting_point: Vec<u8>,
    pub depth: usize,
    pub batch_exec: Vec<Batch>,
    /// Set once `-quit` has been evaluated: every evaluation is false from then on.
    pub quit: bool,
}

/// File entry information for evaluation: the path and what the walk knows
/// of it (`Path::file_name`, `Path::parent`, the path relative to the starting
/// point when it lies under it), its depth and type, its metadata when already
/// read, and whether `-prune` was evaluated for it.
pub struct EntryInfo {
    pub path: Vec<u8>,
    pub name: Option<Vec<u8>>,
    pub parent: Option<Vec<u8>>,
    pub relative: Option<Vec<u8>>,
    pub depth: usize,
    pub file_type: EntryType,
    pub metadata: Option<Meta>,
    pub is_dir: bool,
    pub should_prune: bool,
}

// ---------------------------------------------------------------------------
// Requests and answers
// ---------------------------------------------------------------------------

/// Where output goes: standard output, or a file opened for appending
/// (created when missing).
pub enum Output {
    Stdout,
    Append(String),
}

pub enum OutputView {
    Stdout,
    Append(Seq<char>),
}

impl View for Output {
    type V = OutputView;

    open spec fn view(&self) -> OutputView {
        match self {
            Output::Stdout => OutputView::Stdout,
            Output::Append(p) => OutputView::Append(p@),
        }
    }
}

/// A command to run: the program, its arguments, and the directory to run it
/// in (the current one when `None`).
pub struct CommandLine {
    pub program: String,
    pub args: Vec<String>,
    pub dir: Option<Vec<u8>>,
}

pub struct CommandView {
    pub program: Seq<char>,
    pub args: Seq<Seq<char>>,
    pub dir: Option<Seq<u8>>,
}

pub open spec fn opt_bytes(o: Option<Vec<u8>>) -> Option<Seq<u8>> {
    match o {
        Some(v) => Some(v@),
        None => None,
    }
}

/// The directory a command of `-execdir` / `-okdir` runs in: the entry's
/// parent directory, `.` when the path has no directory part.
pub open spec fn exec_dir(parent: Option<Seq<u8>>) -> Option<Seq<u8>> {
    match parent {
        Some(d) => if d.len() == 0 {
            Some(seq![46u8])
        } else {
            Some(d)
        },
        None => None,
    }
}

impl View for CommandLine {
    type V = CommandView;

    open spec fn view(&self) -> CommandView {
        CommandView {
            program: self.program@,
            args: crate::expr::strings_view(self.args@),
            dir: opt_bytes(self.dir),
        }
    }
}

/// What evaluation needs done before it can go on. Requests about "the entry"
/// concern the path of the entry being evaluated.
pub enum Request {
    /// `std::fs::symlink_metadata` of the entry.
    Metadata,
    /// `std::fs::metadata` of the entry (following a symlink).
    FollowMetadata,
    /// `std::fs::read_link` of the entry.
    ReadLink,
    /// Whether `std::fs::read_dir` of the entry succeeds and yields nothing.
    DirIsEmpty,
    /// Whether `libc::access` on the entry with this mode returns 0.
    Access(i32),
    /// The uid of the user with this name (`getpwnam`).
    UserId(String),
    /// The gid of the group with this name (`getgrnam`).
    GroupId(String),
    /// The name of the user with this uid (`getpwuid`).
    UserName(u32),
    /// The name of the group with this gid (`getgrgid`).
    GroupName(u32),
    /// The filesystem type number of the entry (`statfs`).
    FsType,
    /// The current time, in whole seconds since the epoch.
    Now,
    /// Write these bytes.
    Write(Output, Vec<u8>),
    /// Print this line on standard error.
    Warn(String),
    /// Run a command and wait for it.
    Run(CommandLine),
    /// Print this prompt on standard error and read a line from standard input.
    Ask(String),
    /// Remove the entry (`remove_dir` when true, else `remove_file`).
    Remove(bool),
}

pub enum RequestView {
    Metadata,
    FollowMetadata,
    ReadLink,
    DirIsEmpty,
    Access(i32),
    UserId(Seq<char>),
    GroupId(Seq<char>),
    UserName(u32),
    GroupName(u32),
    FsType,
    Now,
    Write(OutputView, Seq<u8>),
    Warn(Seq<char>),
    Run(CommandView),
    Ask(Seq<char>),
    Remove(bool),
}

impl View for Request {
    type V = RequestView;

    open spec fn view(&self) -> RequestView {
        match self {
            Request::Metadata => RequestView::Metadata,
            Request::FollowMetadata => RequestView::FollowMetadata,
            Request::ReadLink => RequestView::ReadLink,
            Request::DirIsEmpty => RequestView::DirIsEmpty,
            Request::Access(m) => RequestView::Access(*m),
            Request::UserId(n) => RequestView::UserId(n@),
            Request::GroupId(n) => RequestView::GroupId(n@),
            Request::UserName(u) => RequestView::UserName(*u),
            Request::GroupName(g) => RequestView::GroupName(*g),
            Request::FsType => RequestView::FsType,
            Request::Now => RequestView::Now,
            Request::Write(o, b) => RequestView::Write(o@, b@),
            Request::Warn(m) => RequestView::Warn(m@),
            Request::Run(c) => RequestView::Run(c@),
            Request::Ask(p) => RequestView::Ask(p@),
            Request::Remove(d) => RequestView::Remove(*d),
        }
    }
}

/// The outcome of a request, in the order the requests were made. Each request
/// has its kind of answer; an answer of another kind counts as a failure of the
/// operation (an error, a `false` test, a missing name).
pub enum Answer {
    /// `Metadata`, `FollowMetadata`.
    Meta(Result<Meta, String>),
    /// `ReadLink`: the target, or `None` on error.
    Link(Option<Vec<u8>>),
    /// `DirIsEmpty`, `Access`.
    Flag(bool),
    /// `UserId`, `GroupId`.
    Id(Option<u32>),
    /// `UserName`, `GroupName` (`None` also for names that are not UTF-8).
    Name(Option<String>),
    /// `FsType`.
    Number(Result<i64, String>),
    /// `Now`.
    Time(i64),
    /// `Write`, `Warn`, `Remove`.
    Status(Result<(), String>),
    /// `Run`: whether the command exited successfully, or why it could not run.
    Ran(Result<bool, String>),
    /// `Ask`: the line read.
    Line(Result<String, String>),
}

impl Answer {
    /// Well-formed metadata.
    pub open spec fn wf(&self) -> bool {
        match self {
            Answer::Meta(Ok(m)) => m.wf(),
            _ => true,
        }
    }
}

/// Every answer is well formed.
pub open spec fn answers_wf(answers: Seq<Answer>) -> bool {
    forall|k: int| 0 <= k < answers.len() ==> #[trigger] answers[k].wf()
}

/// A path collected for a batched command, as values.
pub struct BatchPathView {
    pub path: Seq<u8>,
    pub parent: Option<Seq<u8>>,
    pub name: Option<Seq<u8>>,
}

/// A path to add to the first pending batch of its kind (or to a new batch
/// with these arguments when there is none).
pub struct Push {
    pub args: Seq<ArgView>,
    pub item: BatchPathView,
    pub in_dir: bool,
}

// ---------------------------------------------------------------------------
// The evaluator
// ---------------------------------------------------------------------------

/// A path added to a batched command, with the command's arguments.
pub struct PushItem {
    pub args: Vec<ExecArg>,
    pub item: BatchPath,
    pub in_dir: bool,
}

pub open spec fn batch_path_view(b: BatchPath) -> BatchPathView {
    BatchPathView { path: b.path@, parent: opt_bytes(b.parent), name: opt_bytes(b.name) }
}

pub open spec fn push_view(p: PushItem) -> Push {
    Push { args: args_view(p.args@), item: batch_path_view(p.item), in_dir: p.in_dir }
}

pub open spec fn pushes_view(v: Seq<PushItem>) -> Seq<Push> {
    Seq::new(v.len(), |i: int| push_view(v[i]))
}

/// The evaluation state in executable form.
struct ExState {
    meta: Option<Meta>,
    prune: bool,
    quit: bool,
    pos: usize,
    pushes: Vec<PushItem>,
}

spec fn state_view(s: ExState) -> EvalState {
    EvalState {
        meta: s.meta,
        prune: s.prune,
        quit: s.quit,
        pos: s.pos as int,
        pushes: pushes_view(s.pushes@),
    }
}

/// The cached metadata is within range.
spec fn state_wf(s: ExState) -> bool {
    s.meta matches Some(m) ==> m.wf()
}

/// Where an evaluation step ended, in executable form.
enum ExRes {
    Val(bool),
    Need(Request),
    Fail(String),
}

spec fn res_view(r: ExRes) -> Res {
    match r {
        ExRes::Val(b) => Res::Val(b),
        ExRes::Need(q) => Res::Need(q@),
        ExRes::Fail(m) => Res::Fail(m@),
    }
}

/// What evaluation reads.
struct Inputs<'a> {
    entry: &'a EntryInfo,
    ctx: &'a EvalContext,
    answers: &'a Vec<Answer>,
}

impl<'a> Inputs<'a> {
    spec fn env(&self) -> Env {
        Env { entry: *self.entry, ctx: *self.ctx, answers: self.answers@ }
    }

    spec fn wf(&self) -> bool {
        answers_wf(self.answers@) && ctx_wf(*self.ctx)
    }
}

/// The next answer, if there is one (reading it).
fn next_answer<'a>(inp: &Inputs<'a>, st: &mut ExState) -> (r: Option<&'a Answer>)
    ensures
        r is Some <==> answer_at(inp.env(), state_view(*old(st))) is Some,
        r matches Some(a) ==> answer_at(inp.env(), state_view(*old(st))) == Some(*a)
            && state_view(*final(st)) == advance(state_view(*old(st))) && final(st).meta == old(st).meta,
        r is None ==> *final(st) == *old(st),
{
    if st.pos < inp.answers.len() {
        let a = &inp.answers[st.pos];
        st.pos += 1;
        Some(a)
    } else {
        None
    }
}

spec fn meta_result_view(r: Result<Meta, ExRes>) -> Result<Meta, Res> {
    match r {
        Ok(m) => Ok(m),
        Err(x) => Err(res_view(x)),
    }
}

/// The entry's metadata: cached, or read from the next answer and cached.
fn fetch_meta(inp: &Inputs, st: &mut ExState) -> (r: Result<Meta, ExRes>)
    requires
        inp.wf(),
        state_wf(*old(st)),
    ensures
        (state_view(*final(st)), meta_result_view(r)) == crate::eval_spec::fetch_meta(
            inp.env(),
            state_view(*old(st)),
        ),
        state_wf(*final(st)),
        r matches Ok(m) ==> m.wf(),
{
    match &st.meta {
        Some(m) => {
            return Ok(m.copied());
        },
        None => {},
    }
    let a = match next_answer(inp, st) {
        Some(a) => a,
        None => {
            return Err(ExRes::Need(Request::Metadata));
        },
    };
    assert(a.wf());
    match a {
        Answer::Meta(Ok(m)) => {
            st.meta = Some(m.copied());
            Ok(m.copied())
        },
        Answer::Meta(Err(e)) => Err(ExRes::Fail(e.clone())),
        _ => Err(ExRes::Fail(String::from_str("unexpected answer"))),
    }
}

/// Whether a type of the list matches.
fn any_type_matches(t: EntryType, ts: &Vec<FileType>) -> (r: bool)
    ensures
        r == any_type(t, ts@),
{
    let mut i: usize = 0;
    while i < ts.len()
        invariant
            i <= ts@.len(),
            forall|k: int| 0 <= k < i ==> !t.spec_matches(#[trigger] ts@[k]),
        decreases ts@.len() - i,
    {
        if t.matches(ts[i]) {
            assert(t.spec_matches(ts@[i as int]));
            return true;
        }
        i += 1;
    }
    false
}

/// The linux name of a filesystem type number.
pub fn linux_fstype_name(f_type: i64) -> (r: &'static str)
    ensures
        r@ == fstype_name(f_type),
{
    if f_type == 0x9123683E {
        "btrfs"
    } else if f_type == 0xEF53 {
        "ext2/ext3/ext4"
    } else if f_type == 0x6969 {
        "nfs"
    } else if f_type == 0x01021994 {
        "tmpfs"
    } else if f_type == 0x58465342 {
        "xfs"
    } else if f_type == 0x2FC12FC1 {
        "zfs"
    } else if f_type == 0x9FA0 {
        "proc"
    } else if f_type == 0x62656572 {
        "sysfs"
    } else if f_type == 0x64626720 {
        "debugfs"
    } else if f_type == 0x1CD1 {
        "devpts"
    } else if f_type == 0x794C7630 {
        "overlayfs"
    } else if f_type == 0x61756673 {
        "aufs"
    } else if f_type == 0xCAFE001 {
        "cifs"
    } else if f_type == 0xFF534D42 {
        "cifs"
    } else {
        "unknown"
    }
}

/// Whether a glob matches text given as bytes read as UTF-8 (empty when they
/// are not UTF-8).
fn glob_matches_text_of(g: &GlobPattern, b: &[u8]) -> (r: bool)
    ensures
        r == g@.matches_text(text_or_empty(b@)),
{
    proof {
        reveal_strlit("");
        assert(""@ =~= Seq::<char>::empty());
    }
    match utf8_str(b) {
        Some(s) => g.is_match(s),
        None => g.is_match(""),
    }
}

/// Whether a regex matches text given as bytes read as UTF-8 (empty when they
/// are not UTF-8).
fn regex_matches_text_of(re: &RegexMatcher, b: &[u8]) -> (r: bool)
    ensures
        r == regex_is_match(re@, text_or_empty(b@)),
{
    proof {
        reveal_strlit("");
        assert(""@ =~= Seq::<char>::empty());
    }
    match utf8_str(b) {
        Some(s) => re.is_match(s),
        None => re.is_match(""),
    }
}

/// Make a request: its answer, or the request itself when it has none yet.
fn ask_ex<'a>(inp: &Inputs<'a>, st: &mut ExState, q: Request) -> (r: Result<&'a Answer, ExRes>)
    ensures
        ({
            let (s1, a) = ask(inp.env(), state_view(*old(st)), q@);
            &&& state_view(*final(st)) == s1
            &&& final(st).meta == old(st).meta
            &&& (r matches Ok(x) ==> a == Ok::<Answer, Res>(*x))
            &&& (r matches Err(x) ==> a == Err::<Answer, Res>(res_view(x)))
        }),
{
    match next_answer(inp, st) {
        Some(a) => Ok(a),
        None => Err(ExRes::Need(q)),
    }
}

/// Tests of the entry's name, path, type, link target, access and filesystem.
fn path_test(e: &Expr, inp: &Inputs, st: &mut ExState) -> (r: ExRes)
    requires
        inp.wf(),
        state_wf(*old(st)),
    ensures
        (state_view(*final(st)), res_view(r)) == ev_path_test(e@, inp.env(), state_view(*old(st))),
        final(st).meta == old(st).meta,
{
    proof {
        reveal(ev_path_test);
    }
    let en = inp.entry;
    match e {
        Expr::True => ExRes::Val(true),
        Expr::False => ExRes::Val(false),
        Expr::Name(g) | Expr::IName(g) => {
            let empty: Vec<u8> = Vec::new();
            match &en.name {
                Some(n) => ExRes::Val(g.is_match_bytes(n.as_slice())),
                None => ExRes::Val(g.is_match_bytes(empty.as_slice())),
            }
        },
        Expr::Path(g) | Expr::IPath(g) => ExRes::Val(g.is_match_bytes(en.path.as_slice())),
        Expr::Regex(re) | Expr::IRegex(re) => ExRes::Val(
            regex_matches_text_of(re, en.path.as_slice()),
        ),
        Expr::Type(ts) => ExRes::Val(any_type_matches(en.file_type, ts)),
        Expr::XType(ts) => {
            if en.file_type == EntryType::Symlink {
                let a = match ask_ex(inp, st, Request::FollowMetadata) {
                    Ok(a) => a,
                    Err(r) => {
                        return r;
                    },
                };
                match a {
                    Answer::Meta(Ok(m)) => ExRes::Val(
                        any_type_matches(file_type_from_metadata(m), ts),
                    ),
                    _ => ExRes::Val(false),
                }
            } else {
                ExRes::Val(any_type_matches(en.file_type, ts))
            }
        },
        Expr::LName(g) | Expr::ILName(g) => {
            if en.file_type != EntryType::Symlink {
                return ExRes::Val(false);
            }
            let a = match ask_ex(inp, st, Request::ReadLink) {
                Ok(a) => a,
                Err(r) => {
                    return r;
                },
            };
            match a {
                Answer::Link(Some(t)) => ExRes::Val(glob_matches_text_of(g, t.as_slice())),
                _ => ExRes::Val(false),
            }
        },
        Expr::Readable | Expr::Writable | Expr::Executable => {
            let mode = match e {
                Expr::Readable => r_ok(),
                Expr::Writable => w_ok(),
                _ => x_ok(),
            };
            let a = match ask_ex(inp, st, Request::Access(mode)) {
                Ok(a) => a,
                Err(r) => {
                    return r;
                },
            };
            match a {
                Answer::Flag(b) => ExRes::Val(*b),
                _ => ExRes::Val(false),
            }
        },
        Expr::FsType(expected) => {
            let a = match ask_ex(inp, st, Request::FsType) {
                Ok(a) => a,
                Err(r) => {
                    return r;
                },
            };
            match a {
                Answer::Number(Ok(f)) => ExRes::Val(str_eq(linux_fstype_name(*f), expected.as_str())),
                Answer::Number(Err(m)) => ExRes::Fail(m.clone()),
                _ => ExRes::Fail(String::from_str("unexpected answer")),
            }
        },
        _ => ExRes::Val(false),
    }
}

fn size_test_ex(k: Cmp, len: u64, size: u64, unit: SizeUnit) -> (r: bool)
    ensures
        r == size_test(k, len, size, unit),
{
    let in_units = if unit == SizeUnit::Bytes {
        len
    } else {
        let b = unit.bytes();
        let q = len / b;
        let c = if len % b != 0 {
            q + 1
        } else {
            q
        };
        assert(c == (len + b - 1) / (b as int)) by (nonlinear_arith)
            requires
                b >= 1,
                q == len / b,
                len % b != 0 ==> c == q + 1,
                len % b == 0 ==> c == q,
        ;
        c
    };
    k.matches_u64(in_units, size)
}

fn id_test_ex(k: Cmp, id: u32, t: u64) -> (r: bool)
    ensures
        r == id_test(k, id, t),
{
    k.matches_u64(id as u64, t)
}

fn used_test_ex(k: Cmp, m: &Meta, n: i64) -> (r: bool)
    requires
        m.wf(),
    ensures
        r == used_test(k, *m, n),
{
    let d: i128 = m.atime as i128 - m.ctime as i128;
    let days: i128 = if d >= 0 {
        d / 86400
    } else {
        -((-d) / 86400)
    };
    k.matches(days as i64, n)
}

fn perm_matches_ex(file_mode: u32, mode: u32, mt: PermMatch) -> (r: bool)
    ensures
        r == perm_matches(file_mode, mode, mt),
{
    let fm = file_mode & 0o7777;
    match mt {
        PermMatch::Exact => fm == mode,
        PermMatch::All => fm & mode == mode,
        PermMatch::Any => {
            if mode == 0 {
                true
            } else {
                fm & mode != 0
            }
        },
    }
}

/// `-user` / `-group`.
fn owner_test_ex(name: &String, id: u32, user: bool, inp: &Inputs, st: &mut ExState) -> (r: ExRes)
    ensures
        (state_view(*final(st)), res_view(r)) == owner_test(
            name@,
            id,
            user,
            inp.env(),
            state_view(*old(st)),
        ),
        final(st).meta == old(st).meta,
{
    let cs = chars_of(name.as_str());
    match parse_u32(cs.as_slice()) {
        Some(t) => {
            return ExRes::Val(id == t);
        },
        None => {},
    }
    let q = if user {
        Request::UserId(name.clone())
    } else {
        Request::GroupId(name.clone())
    };
    let a = match ask_ex(inp, st, q) {
        Ok(a) => a,
        Err(r) => {
            return r;
        },
    };
    match a {
        Answer::Id(Some(t)) => ExRes::Val(id == *t),
        _ => ExRes::Fail(
            if user {
                concat3("-user: `", name.as_str(), "` is not the name of a known user")
            } else {
                concat3("-group: `", name.as_str(), "` is not the name of a known group")
            },
        ),
    }
}

/// The name of an owner is missing (`-nouser`, `-nogroup`).
fn no_owner_ex(id: u32, user: bool, inp: &Inputs, st: &mut ExState) -> (r: ExRes)
    ensures
        ({
            let (s1, a) = ask(
                inp.env(),
                state_view(*old(st)),
                if user {
                    RequestView::UserName(id)
                } else {
                    RequestView::GroupName(id)
                },
            );
            &&& state_view(*final(st)) == s1
            &&& res_view(r) == match a {
                Err(x) => x,
                Ok(a) => Res::Val(name_of(a) is None),
            }
        }),
        final(st).meta == old(st).meta,
{
    let q = if user {
        Request::UserName(id)
    } else {
        Request::GroupName(id)
    };
    let a = match ask_ex(inp, st, q) {
        Ok(a) => a,
        Err(r) => {
            return r;
        },
    };
    match a {
        Answer::Name(Some(_)) => ExRes::Val(false),
        _ => ExRes::Val(true),
    }
}

/// Tests of sizes, permissions, owners, links and inodes.
fn meta_test(e: &Expr, inp: &Inputs, st: &mut ExState) -> (r: ExRes)
    requires
        inp.wf(),
        state_wf(*old(st)),
    ensures
        (state_view(*final(st)), res_view(r)) == ev_meta_test(e@, inp.env(), state_view(*old(st))),
        state_wf(*final(st)),
{
    proof {
        reveal(ev_meta_test);
    }
    let en = inp.entry;
    match e {
        Expr::Empty => {
            if en.is_dir {
                let a = match ask_ex(inp, st, Request::DirIsEmpty) {
                    Ok(a) => a,
                    Err(r) => {
                        return r;
                    },
                };
                return match a {
                    Answer::Flag(b) => ExRes::Val(*b),
                    _ => ExRes::Val(false),
                };
            }
        },
        _ => {},
    }
    let m = match fetch_meta(inp, st) {
        Ok(m) => m,
        Err(r) => {
            return r;
        },
    };
    match e {
        Expr::Size { cmp: k, size, unit } => ExRes::Val(size_test_ex(*k, m.len, *size, *unit)),
        Expr::Empty => ExRes::Val(m.len == 0),
        Expr::Perm { mode, match_type } => ExRes::Val(perm_matches_ex(m.mode, *mode, *match_type)),
        Expr::User(name) => owner_test_ex(name, m.uid, true, inp, st),
        Expr::Group(name) => owner_test_ex(name, m.gid, false, inp, st),
        Expr::Uid(k, t) => ExRes::Val(id_test_ex(*k, m.uid, *t)),
        Expr::Gid(k, t) => ExRes::Val(id_test_ex(*k, m.gid, *t)),
        Expr::NoUser => no_owner_ex(m.uid, true, inp, st),
        Expr::NoGroup => no_owner_ex(m.gid, false, inp, st),
        Expr::Links(k, t) => ExRes::Val(k.matches_u64(m.nlink, *t)),
        Expr::Inum(k, t) => ExRes::Val(k.matches_u64(m.ino, *t)),
        Expr::SameFile { dev, ino } => ExRes::Val(m.dev == *dev && m.ino == *ino),
        Expr::Used(k, n) => ExRes::Val(used_test_ex(*k, &m, *n)),
        _ => ExRes::Val(false),
    }
}

/// Tests of the modification, access and change times.
fn time_test_ex(e: &Expr, inp: &Inputs, st: &mut ExState) -> (r: ExRes)
    requires
        inp.wf(),
        state_wf(*old(st)),
    ensures
        (state_view(*final(st)), res_view(r)) == ev_time_test(e@, inp.env(), state_view(*old(st))),
        state_wf(*final(st)),
{
    proof {
        reveal(ev_time_test);
    }
    let ctx = inp.ctx;
    let m = match fetch_meta(inp, st) {
        Ok(m) => m,
        Err(r) => {
            return r;
        },
    };
    match e {
        Expr::MTime(k, n) | Expr::MMin(k, n) => match &m.modified {
            Ok(t) => ExRes::Val(
                match e {
                    Expr::MTime(_, _) => check_time_days(*t, *k, *n, ctx),
                    _ => check_time_mins(*t, *k, *n, ctx),
                },
            ),
            Err(x) => ExRes::Fail(x.clone()),
        },
        Expr::ATime(k, n) | Expr::AMin(k, n) => match &m.accessed {
            Ok(t) => ExRes::Val(
                match e {
                    Expr::ATime(_, _) => check_time_days(*t, *k, *n, ctx),
                    _ => check_time_mins(*t, *k, *n, ctx),
                },
            ),
            Err(x) => ExRes::Fail(x.clone()),
        },
        Expr::CTime(k, n) => match change_reading_ex(&m) {
            Ok(t) => ExRes::Val(check_time_days(t, *k, *n, ctx)),
            Err(x) => ExRes::Fail(x),
        },
        Expr::CMin(k, n) => match change_reading_ex(&m) {
            Ok(t) => ExRes::Val(check_time_mins(t, *k, *n, ctx)),
            Err(x) => ExRes::Fail(x),
        },
        Expr::Newer(r) => match &m.modified {
            Ok(t) => ExRes::Val(t.is_after(r)),
            Err(x) => ExRes::Fail(x.clone()),
        },
        Expr::ANewerM(r) => match &m.accessed {
            Ok(t) => ExRes::Val(t.is_after(r)),
            Err(x) => ExRes::Fail(x.clone()),
        },
        Expr::CNewerM(r) => match change_reading_ex(&m) {
            Ok(t) => ExRes::Val(t.is_after(r)),
            Err(x) => ExRes::Fail(x),
        },
        Expr::NewerXY { x, reference, .. } => match get_time_ref(&m, *x) {
            Ok(t) => ExRes::Val(t.is_after(reference)),
            Err(msg) => ExRes::Fail(msg),
        },
        _ => ExRes::Val(false),
    }
}

// ---------------------------------------------------------------------------
// Text of modes and dates
// ---------------------------------------------------------------------------

fn bit_char(mode: u32, bit: u32, c: char) -> (r: char)
    ensures
        r == bit_letter(mode, bit, c),
{
    if mode & bit != 0 {
        c
    } else {
        '-'
    }
}

fn special_char(mode: u32, special: u32, exec: u32, set_exec: char, set_plain: char) -> (r: char)
    ensures
        r == special_letter(mode, special, exec, set_exec, set_plain),
{
    if mode & special != 0 {
        if mode & exec != 0 {
            set_exec
        } else {
            set_plain
        }
    } else if mode & exec != 0 {
        'x'
    } else {
        '-'
    }
}

fn type_char(mode: u32) -> (r: char)
    ensures
        r == type_letter(mode),
{
    let t = mode & s_ifmt();
    if t == s_ifdir() {
        'd'
    } else if t == s_iflnk() {
        'l'
    } else if t == s_ifblk() {
        'b'
    } else if t == s_ifchr() {
        'c'
    } else if t == s_ififo() {
        'p'
    } else if t == s_ifsock() {
        's'
    } else {
        '-'
    }
}

/// `ls`-style permission string of a mode, such as `drwxr-xr-x`.
pub fn format_mode(mode: u32) -> (s: String)
    ensures
        s@ == mode_string(mode),
{
    let mut v: Vec<char> = Vec::new();
    v.push(type_char(mode));
    v.push(bit_char(mode, 0o400, 'r'));
    v.push(bit_char(mode, 0o200, 'w'));
    v.push(special_char(mode, s_isuid(), 0o100, 's', 'S'));
    v.push(bit_char(mode, 0o040, 'r'));
    v.push(bit_char(mode, 0o020, 'w'));
    v.push(special_char(mode, s_isgid(), 0o010, 's', 'S'));
    v.push(bit_char(mode, 0o004, 'r'));
    v.push(bit_char(mode, 0o002, 'w'));
    v.push(special_char(mode, s_isvtx(), 0o001, 't', 'T'));
    assert(v@ =~= mode_string(mode));
    string_from_chars(v.as_slice())
}

/// Decimal text of a count.
fn dec_u64(n: u64) -> (v: Vec<char>)
    ensures
        v@ == dec(n as int),
{
    decimal(n)
}

/// Decimal text of a signed number.
fn dec_i64(n: i64) -> (v: Vec<char>)
    ensures
        v@ == dec(n as int),
{
    decimal_i64(n)
}

/// `{:02}` of a number below 100.
fn two_digits_ex(n: u32) -> (v: Vec<char>)
    ensures
        v@ == two_digits(n as int),
{
    let d = dec_u64(n as u64);
    padded_left(d.as_slice(), 2, '0')
}

/// `{:>2}` of a day.
fn day_text(d: u32) -> (v: Vec<char>)
    ensures
        v@ == right(dec(d as int), 2),
{
    let t = dec_u64(d as u64);
    padded_left(t.as_slice(), 2, ' ')
}

/// How a time token with format letter `f` prints.
fn fmt_which_ex(f: &str) -> (r: u8)
    ensures
        r as int == fmt_which(f@),
        r <= 2,
{
    if str_eq(f, "+") {
        2
    } else {
        1
    }
}

/// The ISO 8601 date and time of `%A+`, `%T+`, `%C+`.
fn iso_date_ex(secs: i64) -> (v: Vec<char>)
    ensures
        v@ == iso_date(secs as int),
{
    let dt = from_timestamp(secs);
    let mut v: Vec<char> = dec_i64(dt.year);
    v.push('-');
    let mo = two_digits_ex(dt.month);
    push_all(&mut v, mo.as_slice());
    v.push('-');
    let d = two_digits_ex(dt.day);
    push_all(&mut v, d.as_slice());
    v.push('+');
    let h = two_digits_ex(dt.hour);
    push_all(&mut v, h.as_slice());
    v.push(':');
    let mi = two_digits_ex(dt.minute);
    push_all(&mut v, mi.as_slice());
    v.push(':');
    let s = two_digits_ex(dt.second);
    push_all(&mut v, s.as_slice());
    push_str(&mut v, ".0000000000");
    proof {
        reveal_strlit("-");
        reveal_strlit("+");
        reveal_strlit(":");
    }
    assert(v@ =~= iso_date(secs as int));
    v
}

/// The date of `%a`, `%t`, `%c`: `Mon DD HH:MM:SS.0000000000 YYYY`.
fn printf_date_ex(secs: i64) -> (v: Vec<char>)
    ensures
        v@ == printf_date(secs as int),
{
    let dt = from_timestamp(secs);
    let mut v: Vec<char> = Vec::new();
    push_str(&mut v, dt.month_abbr);
    v.push(' ');
    let d = day_text(dt.day);
    push_all(&mut v, d.as_slice());
    v.push(' ');
    let h = two_digits_ex(dt.hour);
    push_all(&mut v, h.as_slice());
    v.push(':');
    let mi = two_digits_ex(dt.minute);
    push_all(&mut v, mi.as_slice());
    v.push(':');
    let s = two_digits_ex(dt.second);
    push_all(&mut v, s.as_slice());
    push_str(&mut v, ".0000000000 ");
    let y = dec_i64(dt.year);
    push_all(&mut v, y.as_slice());
    proof {
        reveal_strlit(" ");
        reveal_strlit(":");
    }
    assert(v@ =~= printf_date(secs as int));
    v
}

/// The date column of `-ls` for modification time `secs` when the time is
/// `now`: `Mon DD  YYYY` for dates more than 180 days away, else
/// `Mon DD HH:MM`.
pub fn format_time_ls(secs: i64, now: i64) -> (s: String)
    ensures
        s@ == ls_date(secs as int, now as int),
{
    let six_months: i128 = 180 * 86400;
    let dt = from_timestamp(secs);
    let diff: i128 = now as i128 - secs as i128;
    let age = if diff < 0 {
        -diff
    } else {
        diff
    };
    let mut v: Vec<char> = Vec::new();
    push_str(&mut v, dt.month_abbr);
    v.push(' ');
    let d = day_text(dt.day);
    push_all(&mut v, d.as_slice());
    proof {
        reveal_strlit(" ");
        reveal_strlit("  ");
        reveal_strlit(":");
    }
    if age > six_months {
        v.push(' ');
        v.push(' ');
        let y = dec_i64(dt.year);
        push_all(&mut v, y.as_slice());
    } else {
        v.push(' ');
        let h = two_digits_ex(dt.hour);
        push_all(&mut v, h.as_slice());
        v.push(':');
        let mi = two_digits_ex(dt.minute);
        push_all(&mut v, mi.as_slice());
    }
    assert(v@ =~= ls_date(secs as int, now as int));
    string_from_chars(v.as_slice())
}

// ---------------------------------------------------------------------------
// -printf
// ---------------------------------------------------------------------------

/// What a token leaves: its text appended to `out`, or where evaluation stops.
spec fn token_done(
    r: Option<ExRes>,
    o: TokOut,
    out_before: Seq<char>,
    out_after: Seq<char>,
) -> bool {
    match o {
        TokOut::Text(t) => r is None && out_after == out_before + t,
        TokOut::Stop(res) => r matches Some(x) && res_view(x) == res && out_after == out_before,
    }
}

/// Appends the text of metadata-backed tokens that print a fallback when the
/// metadata cannot be read: the number chosen by `which` (0 size, 1 1K
/// blocks, 2 blocks, 3 links, 4 uid, 5 gid, 6 inode, 7 device), the octal
/// permissions (8), or the permission string (9).
fn meta_number_token(which: u8, inp: &Inputs, st: &mut ExState, out: &mut Vec<char>) -> (r: Option<ExRes>)
    requires
        inp.wf(),
        state_wf(*old(st)),
        which <= 9,
    ensures
        state_wf(*final(st)),
        ({
            let (s1, o) = number_token(which as int, inp.env(), state_view(*old(st)));
            state_view(*final(st)) == s1 && token_done(r, o, old(out)@, final(out)@)
        }),
{
    match fetch_meta(inp, st) {
        Ok(m) => {
            if which == 0 {
                push_decimal(out, m.len);
            } else if which == 1 {
                push_decimal(out, m.blocks / 2);
            } else if which == 2 {
                push_decimal(out, m.blocks);
            } else if which == 3 {
                push_decimal(out, m.nlink);
            } else if which == 4 {
                push_decimal(out, m.uid as u64);
            } else if which == 5 {
                push_decimal(out, m.gid as u64);
            } else if which == 6 {
                push_decimal(out, m.ino);
            } else if which == 7 {
                push_decimal(out, m.dev);
            } else if which == 8 {
                let mut o: Vec<char> = Vec::new();
                push_octal(&mut o, (m.mode & 0o7777) as u64);
                let padded = padded_left(o.as_slice(), 4, '0');
                push_all(out, padded.as_slice());
            } else {
                let s = format_mode(m.mode);
                push_str(out, s.as_str());
            }
            None
        },
        Err(ExRes::Need(q)) => Some(ExRes::Need(q)),
        Err(_) => {
            if which <= 3 {
                push_str(out, "0");
            } else if which <= 7 {
            } else if which == 8 {
                push_str(out, "0000");
            } else {
                push_str(out, "----------");
            }
            assert(Seq::<char>::empty() =~= Seq::<char>::empty());
            None
        },
    }
}

/// Appends the text of tokens that need the metadata (an error stops): the
/// date (`which` 0) or the seconds (1) of the access (`t` 0), modification (1)
/// or change (2) time.
fn meta_time_token(which: u8, t: u8, inp: &Inputs, st: &mut ExState, out: &mut Vec<char>) -> (r: Option<ExRes>)
    requires
        inp.wf(),
        state_wf(*old(st)),
        which <= 2,
        t <= 2,
    ensures
        state_wf(*final(st)),
        ({
            let (s1, o) = time_token(which as int, t as int, inp.env(), state_view(*old(st)));
            state_view(*final(st)) == s1 && token_done(r, o, old(out)@, final(out)@)
        }),
{
    match fetch_meta(inp, st) {
        Ok(m) => {
            let secs = if t == 0 {
                m.atime
            } else if t == 1 {
                m.mtime
            } else {
                m.ctime
            };
            let text = if which == 0 {
                printf_date_ex(secs)
            } else if which == 2 {
                iso_date_ex(secs)
            } else {
                dec_i64(secs)
            };
            push_all(out, text.as_slice());
            None
        },
        Err(r) => Some(r),
    }
}

/// Appends `%u` / `%g`: the owner's name, else its number; nothing when the
/// metadata cannot be read.
fn owner_token(user: bool, inp: &Inputs, st: &mut ExState, out: &mut Vec<char>) -> (r: Option<ExRes>)
    requires
        inp.wf(),
        state_wf(*old(st)),
    ensures
        state_wf(*final(st)),
        ({
            let (s1, o) = owner_name(inp.env(), state_view(*old(st)), user);
            state_view(*final(st)) == s1 && token_done(r, o, old(out)@, final(out)@)
        }),
{
    let m = match fetch_meta(inp, st) {
        Ok(m) => m,
        Err(ExRes::Need(q)) => {
            return Some(ExRes::Need(q));
        },
        Err(_) => {
            return None;
        },
    };
    let id = if user {
        m.uid
    } else {
        m.gid
    };
    let q = if user {
        Request::UserName(id)
    } else {
        Request::GroupName(id)
    };
    let a = match ask_ex(inp, st, q) {
        Ok(a) => a,
        Err(r) => {
            return Some(r);
        },
    };
    match a {
        Answer::Name(Some(n)) => push_str(out, n.as_str()),
        _ => push_decimal(out, id as u64),
    }
    None
}

/// Appends lossy text of bytes.
fn push_lossy(out: &mut Vec<char>, b: &[u8])
    ensures
        final(out)@ == old(out)@ + lossy_utf8(b@),
{
    let s = lossy_text(b);
    push_str(out, s.as_str());
}

/// Appends the text of one `-printf` token.
#[verifier::rlimit(60)]
fn printf_token_ex(tok: &PrintfToken, inp: &Inputs, st: &mut ExState, out: &mut Vec<char>) -> (r: Option<ExRes>)
    requires
        inp.wf(),
        state_wf(*old(st)),
    ensures
        state_wf(*final(st)),
        ({
            let (s1, o) = printf_token(token_view(*tok), inp.env(), state_view(*old(st)));
            state_view(*final(st)) == s1 && token_done(r, o, old(out)@, final(out)@)
        }),
{
    proof {
        reveal(printf_token);
        reveal_strlit("%");
        reveal_strlit("\t");
        reveal_strlit("\n");
        reveal_strlit("\\");
    }
    let ghost before = out@;
    let en = inp.entry;
    match tok {
        PrintfToken::Literal(s) => {
            push_str(out, s.as_str());
            None
        },
        PrintfToken::Percent => {
            out.push('%');
            assert(out@ =~= before + "%"@);
            None
        },
        PrintfToken::Path => {
            push_lossy(out, en.path.as_slice());
            None
        },
        PrintfToken::Filename => {
            let t = match &en.name {
                Some(n) => text_or_empty_of(n.as_slice()),
                None => text_or_empty_of(en.path.as_slice()),
            };
            push_all(out, t.as_slice());
            None
        },
        PrintfToken::ParentDir => {
            match &en.parent {
                Some(p) => push_lossy(out, p.as_slice()),
                None => push_lossy(out, en.path.as_slice()),
            }
            None
        },
        PrintfToken::Depth => {
            push_decimal(out, en.depth as u64);
            None
        },
        PrintfToken::Size => meta_number_token(0, inp, st, out),
        PrintfToken::SizeInBlocks => meta_number_token(1, inp, st, out),
        PrintfToken::BlockSize => meta_number_token(2, inp, st, out),
        PrintfToken::Nlinks => meta_number_token(3, inp, st, out),
        PrintfToken::Uid => meta_number_token(4, inp, st, out),
        PrintfToken::Gid => meta_number_token(5, inp, st, out),
        PrintfToken::Inode => meta_number_token(6, inp, st, out),
        PrintfToken::DeviceNumber => meta_number_token(7, inp, st, out),
        PrintfToken::Permissions => meta_number_token(8, inp, st, out),
        PrintfToken::PermSymbolic => meta_number_token(9, inp, st, out),
        PrintfToken::User => owner_token(true, inp, st, out),
        PrintfToken::Group => owner_token(false, inp, st, out),
        PrintfToken::Type => {
            out.push(en.file_type.to_char());
            assert(out@ =~= before + seq![en.file_type.spec_to_char()]);
            None
        },
        PrintfToken::LinkTarget => {
            if en.file_type == EntryType::Symlink {
                let a = match ask_ex(inp, st, Request::ReadLink) {
                    Ok(a) => a,
                    Err(r) => {
                        return Some(r);
                    },
                };
                match a {
                    Answer::Link(Some(l)) => push_lossy(out, l.as_slice()),
                    _ => {},
                }
            }
            None
        },
        PrintfToken::Newline => {
            out.push('\n');
            assert(out@ =~= before + "\n"@);
            None
        },
        PrintfToken::Tab => {
            out.push('\t');
            assert(out@ =~= before + "\t"@);
            None
        },
        PrintfToken::NullChar => {
            out.push('\0');
            assert(out@ =~= before + seq!['\0']);
            None
        },
        PrintfToken::Backslash => {
            out.push('\\');
            assert(out@ =~= before + "\\"@);
            None
        },
        PrintfToken::TimeAccess => meta_time_token(0, 0, inp, st, out),
        PrintfToken::TimeModify => meta_time_token(0, 1, inp, st, out),
        PrintfToken::TimeChange => meta_time_token(0, 2, inp, st, out),
        PrintfToken::TimeAccessSecs => meta_time_token(1, 0, inp, st, out),
        PrintfToken::TimeModifySecs => meta_time_token(1, 1, inp, st, out),
        PrintfToken::TimeChangeSecs => meta_time_token(1, 2, inp, st, out),
        PrintfToken::TimeAccessFmt(f) => meta_time_token(fmt_which_ex(f.as_str()), 0, inp, st, out),
        PrintfToken::TimeModifyFmt(f) => meta_time_token(fmt_which_ex(f.as_str()), 1, inp, st, out),
        PrintfToken::TimeChangeFmt(f) => meta_time_token(fmt_which_ex(f.as_str()), 2, inp, st, out),
        PrintfToken::SparseName => {
            match &en.relative {
                Some(rel) => push_lossy(out, rel.as_slice()),
                None => push_lossy(out, en.path.as_slice()),
            }
            None
        },
        PrintfToken::StartingPoint => {
            push_lossy(out, inp.ctx.starting_point.as_slice());
            None
        },
    }
}

/// The text of a `-printf` format appended to `out`.
fn printf_text_ex(toks: &Vec<PrintfToken>, inp: &Inputs, st: &mut ExState, out: &mut Vec<char>) -> (r: Option<ExRes>)
    requires
        inp.wf(),
        state_wf(*old(st)),
    ensures
        state_wf(*final(st)),
        ({
            let (s1, o) = printf_text(tokens_view(toks@), inp.env(), state_view(*old(st)), old(out)@);
            &&& state_view(*final(st)) == s1
            &&& match o {
                PfOut::Done(acc) => r is None && final(out)@ == acc,
                PfOut::Stop(res, acc) => r matches Some(x) && res_view(x) == res && final(out)@ == acc,
            }
        }),
{
    let ghost whole = tokens_view(toks@);
    let ghost goal = printf_text(whole, inp.env(), state_view(*st), out@);
    let mut i: usize = 0;
    assert(whole.skip(0) =~= whole);
    while i < toks.len()
        invariant
            inp.wf(),
            state_wf(*st),
            i <= toks@.len(),
            whole == tokens_view(toks@),
            goal == printf_text(whole, inp.env(), state_view(*old(st)), old(out)@),
            goal == printf_text(whole.skip(i as int), inp.env(), state_view(*st), out@),
        decreases toks@.len() - i,
    {
        let ghost rest = whole.skip(i as int);
        assert(rest[0] == token_view(toks@[i as int]));
        assert(rest.drop_first() =~= whole.skip(i + 1));
        let ghost st0 = state_view(*st);
        let ghost out0 = out@;
        match printf_token_ex(&toks[i], inp, st, out) {
            Some(x) => {
                assert(printf_text(rest, inp.env(), st0, out0) == (
                    state_view(*st),
                    PfOut::Stop(res_view(x), out0),
                ));
                return Some(x);
            },
            None => {},
        }
        i += 1;
    }
    assert(whole.skip(i as int) =~= Seq::<TokenView>::empty());
    None
}

/// Write bytes: true once written, else the write's error.
fn write_out_ex(inp: &Inputs, st: &mut ExState, out: Output, bytes: Vec<u8>) -> (r: ExRes)
    ensures
        (state_view(*final(st)), res_view(r)) == write_out(
            inp.env(),
            state_view(*old(st)),
            out@,
            bytes@,
        ),
        final(st).meta == old(st).meta,
{
    let a = match ask_ex(inp, st, Request::Write(out, bytes)) {
        Ok(a) => a,
        Err(r) => {
            return r;
        },
    };
    match a {
        Answer::Status(Ok(())) => ExRes::Val(true),
        Answer::Status(Err(e)) => ExRes::Fail(e.clone()),
        _ => ExRes::Fail(String::from_str("unexpected answer")),
    }
}

/// A copy of where output goes.
fn copy_output(o: &Output) -> (r: Output)
    ensures
        r@ == o@,
{
    match o {
        Output::Stdout => Output::Stdout,
        Output::Append(p) => Output::Append(p.clone()),
    }
}

/// Open where output goes (an empty write to a file).
fn open_output_ex(out: &Output, inp: &Inputs, st: &mut ExState) -> (r: ExRes)
    ensures
        (state_view(*final(st)), res_view(r)) == open_output(out@, inp.env(), state_view(*old(st))),
        final(st).meta == old(st).meta,
{
    match out {
        Output::Stdout => ExRes::Val(true),
        Output::Append(_) => write_out_ex(inp, st, copy_output(out), Vec::new()),
    }
}

/// `-printf` / `-fprintf`.
fn printf_action_ex(toks: &Vec<PrintfToken>, out: Output, inp: &Inputs, st: &mut ExState) -> (r: ExRes)
    requires
        inp.wf(),
        state_wf(*old(st)),
    ensures
        (state_view(*final(st)), res_view(r)) == printf_action(
            tokens_view(toks@),
            out@,
            inp.env(),
            state_view(*old(st)),
        ),
        state_wf(*final(st)),
{
    match open_output_ex(&out, inp, st) {
        ExRes::Val(_) => printf_write_ex(toks, out, inp, st),
        other => other,
    }
}

/// The `-printf` text written.
fn printf_write_ex(toks: &Vec<PrintfToken>, out: Output, inp: &Inputs, st: &mut ExState) -> (r: ExRes)
    requires
        inp.wf(),
        state_wf(*old(st)),
    ensures
        (state_view(*final(st)), res_view(r)) == printf_write(
            tokens_view(toks@),
            out@,
            inp.env(),
            state_view(*old(st)),
        ),
        state_wf(*final(st)),
{
    let mut text: Vec<char> = Vec::new();
    match printf_text_ex(toks, inp, st, &mut text) {
        None => {
            let bytes = bytes_of_chars(text.as_slice());
            write_out_ex(inp, st, out, bytes)
        },
        Some(ExRes::Fail(e)) => {
            let bytes = bytes_of_chars(text.as_slice());
            match write_out_ex(inp, st, out, bytes) {
                ExRes::Val(_) => ExRes::Fail(e),
                other => other,
            }
        },
        Some(other) => other,
    }
}

// ---------------------------------------------------------------------------
// -ls
// ---------------------------------------------------------------------------

/// An owner's name from an answer, else its number.
fn name_or_number_ex(a: &Answer, id: u32) -> (v: Vec<char>)
    ensures
        v@ == name_or_number(*a, id),
{
    match a {
        Answer::Name(Some(n)) => chars_of(n.as_str()),
        _ => dec_u64(id as u64),
    }
}

/// The fields of an `-ls` line before the link target.
fn ls_fields_ex(m: &Meta, user: &[char], group: &[char], now: i64, path: &[u8]) -> (v: Vec<char>)
    ensures
        v@ == ls_fields(*m, user@, group@, now, path@),
{
    let mut v: Vec<char> = Vec::new();
    let ino = dec_u64(m.ino);
    let a = padded_left(ino.as_slice(), 7, ' ');
    push_all(&mut v, a.as_slice());
    v.push(' ');
    let blocks = dec_u64(m.blocks / 2);
    let b = padded_left(blocks.as_slice(), 4, ' ');
    push_all(&mut v, b.as_slice());
    v.push(' ');
    let perm = format_mode(m.mode);
    push_str(&mut v, perm.as_str());
    v.push(' ');
    let links = dec_u64(m.nlink);
    let c = padded_left(links.as_slice(), 3, ' ');
    push_all(&mut v, c.as_slice());
    v.push(' ');
    let u = padded_right(user, 8);
    push_all(&mut v, u.as_slice());
    v.push(' ');
    let g = padded_right(group, 8);
    push_all(&mut v, g.as_slice());
    v.push(' ');
    let size = dec_u64(m.len);
    let d = padded_left(size.as_slice(), 8, ' ');
    push_all(&mut v, d.as_slice());
    v.push(' ');
    let date = format_time_ls(m.mtime, now);
    push_str(&mut v, date.as_str());
    v.push(' ');
    push_lossy(&mut v, path);
    proof {
        reveal_strlit(" ");
    }
    assert(v@ =~= ls_fields(*m, user@, group@, now, path@));
    v
}

/// The `-ls` line of the entry.
fn ls_line_ex(inp: &Inputs, st: &mut ExState) -> (r: Result<Vec<char>, ExRes>)
    requires
        inp.wf(),
        state_wf(*old(st)),
    ensures
        ({
            let (s1, x) = ls_line(inp.env(), state_view(*old(st)));
            &&& state_view(*final(st)) == s1
            &&& match x {
                Ok(line) => r matches Ok(v) && v@ == line,
                Err(res) => r matches Err(y) && res_view(y) == res,
            }
        }),
        state_wf(*final(st)),
{
    let en = inp.entry;
    let m = match fetch_meta(inp, st) {
        Ok(m) => m,
        Err(r) => {
            return Err(r);
        },
    };
    let ua = match ask_ex(inp, st, Request::UserName(m.uid)) {
        Ok(a) => a,
        Err(r) => {
            return Err(r);
        },
    };
    let ga = match ask_ex(inp, st, Request::GroupName(m.gid)) {
        Ok(a) => a,
        Err(r) => {
            return Err(r);
        },
    };
    let na = match ask_ex(inp, st, Request::Now) {
        Ok(a) => a,
        Err(r) => {
            return Err(r);
        },
    };
    assert(na.wf());
    let now = match na {
        Answer::Time(t) => *t,
        _ => 0,
    };
    let user = name_or_number_ex(ua, m.uid);
    let group = name_or_number_ex(ga, m.gid);
    let mut line = ls_fields_ex(&m, user.as_slice(), group.as_slice(), now, en.path.as_slice());
    let ghost fields = line@;
    if en.file_type == EntryType::Symlink {
        let la = match ask_ex(inp, st, Request::ReadLink) {
            Ok(a) => a,
            Err(r) => {
                return Err(r);
            },
        };
        match la {
            Answer::Link(Some(t)) => {
                push_str(&mut line, " -> ");
                push_lossy(&mut line, t.as_slice());
            },
            _ => {},
        }
    }
    line.push('\n');
    proof {
        reveal_strlit("\n");
    }
    assert(line@ =~= line@.drop_last() + "\n"@);
    Ok(line)
}

/// `-ls` / `-fls`.
fn ls_action_ex(out: Output, inp: &Inputs, st: &mut ExState) -> (r: ExRes)
    requires
        inp.wf(),
        state_wf(*old(st)),
    ensures
        (state_view(*final(st)), res_view(r)) == ls_action(out@, inp.env(), state_view(*old(st))),
        state_wf(*final(st)),
{
    match open_output_ex(&out, inp, st) {
        ExRes::Val(_) => ls_write_ex(out, inp, st),
        other => other,
    }
}

/// The `-ls` line written.
fn ls_write_ex(out: Output, inp: &Inputs, st: &mut ExState) -> (r: ExRes)
    requires
        inp.wf(),
        state_wf(*old(st)),
    ensures
        (state_view(*final(st)), res_view(r)) == ls_write(out@, inp.env(), state_view(*old(st))),
        state_wf(*final(st)),
{
    match ls_line_ex(inp, st) {
        Err(r) => r,
        Ok(line) => {
            let bytes = bytes_of_chars(line.as_slice());
            write_out_ex(inp, st, out, bytes)
        },
    }
}

// ---------------------------------------------------------------------------
// Commands
// ---------------------------------------------------------------------------

/// A word with every `{}` in it replaced by `path_text`.
fn replace_braces_ex(w: &str, path_text: &str) -> (r: String)
    ensures
        r@ == replace_braces(w@, path_text@),
{
    let cs = chars_of(w);
    let ps = chars_of(path_text);
    let mut out: Vec<char> = Vec::new();
    let mut i: usize = 0;
    assert(cs@.skip(0) =~= cs@);
    assert(out@ + replace_braces(cs@, path_text@) =~= replace_braces(cs@, path_text@));
    while i < cs.len()
        invariant
            i <= cs@.len(),
            cs@ == w@,
            ps@ == path_text@,
            replace_braces(w@, path_text@) == out@ + replace_braces(cs@.skip(i as int), path_text@),
        decreases cs@.len() - i,
    {
        let ghost rest = cs@.skip(i as int);
        if i + 1 < cs.len() && cs[i] == '{' && cs[i + 1] == '}' {
            assert(rest[0] == '{' && rest[1] == '}');
            assert(rest.skip(2) =~= cs@.skip(i + 2));
            let ghost before = out@;
            push_all(&mut out, ps.as_slice());
            i += 2;
            assert(before + (path_text@ + replace_braces(cs@.skip(i as int), path_text@)) =~= out@
                + replace_braces(cs@.skip(i as int), path_text@));
        } else {
            assert(rest[0] == cs@[i as int]);
            assert(!(rest.len() >= 2 && rest[0] == '{' && rest[1] == '}'));
            assert(rest.drop_first() =~= cs@.skip(i + 1));
            let ghost before = out@;
            out.push(cs[i]);
            i += 1;
            assert(before + (seq![cs@[i - 1]] + replace_braces(cs@.skip(i as int), path_text@)) =~= out@
                + replace_braces(cs@.skip(i as int), path_text@));
        }
    }
    assert(cs@.skip(i as int) =~= Seq::<char>::empty());
    assert(out@ + Seq::<char>::empty() =~= out@);
    string_from_chars(out.as_slice())
}

/// The words of a command: each `{}` replaced by `path_text`.
fn command_words_ex(args: &Vec<ExecArg>, path_text: &str) -> (v: Vec<String>)
    ensures
        crate::expr::strings_view(v@) == command_words(args_view(args@), path_text@),
{
    let mut v: Vec<String> = Vec::new();
    let mut i: usize = 0;
    while i < args.len()
        invariant
            i <= args@.len(),
            crate::expr::strings_view(v@) == command_words(args_view(args@), path_text@).take(
                i as int,
            ),
        decreases args@.len() - i,
    {
        let w = match &args[i] {
            ExecArg::Literal(s) => replace_braces_ex(s.as_str(), path_text),
            ExecArg::Placeholder => String::from_str(path_text),
        };
        let ghost before = v@;
        v.push(w);
        assert(crate::expr::strings_view(v@) =~= crate::expr::strings_view(before).push(
            command_words(args_view(args@), path_text@)[i as int],
        ));
        i += 1;
        assert(crate::expr::strings_view(v@) =~= command_words(args_view(args@), path_text@).take(
            i as int,
        ));
    }
    assert(command_words(args_view(args@), path_text@).take(i as int) =~= command_words(
        args_view(args@),
        path_text@,
    ));
    v
}

/// Words joined with single spaces.
fn join_words_ex(words: &Vec<String>) -> (v: Vec<char>)
    ensures
        v@ == join_words(crate::expr::strings_view(words@)),
{
    let ghost ws = crate::expr::strings_view(words@);
    let mut v: Vec<char> = Vec::new();
    let mut i: usize = 0;
    while i < words.len()
        invariant
            i <= words@.len(),
            ws == crate::expr::strings_view(words@),
            v@ == join_words(ws.take(i as int)),
        decreases words@.len() - i,
    {
        if i > 0 {
            v.push(' ');
        }
        push_str(&mut v, words[i].as_str());
        i += 1;
        proof {
            reveal_strlit(" ");
            assert(ws.take(i as int).drop_last() =~= ws.take(i - 1));
        }
        assert(v@ =~= join_words(ws.take(i as int)));
    }
    assert(ws.take(i as int) =~= ws);
    v
}

/// A copy of optional bytes.
fn exec_dir_ex(o: &Option<Vec<u8>>) -> (r: Option<Vec<u8>>)
    ensures
        opt_bytes(r) == exec_dir(opt_bytes(*o)),
{
    match o {
        Some(b) => {
            let mut c: Vec<u8> = Vec::new();
            if b.len() == 0 {
                c.push(46u8);
            } else {
                push_all(&mut c, b.as_slice());
            }
            Some(c)
        },
        None => None,
    }
}

fn copy_opt_bytes(o: &Option<Vec<u8>>) -> (r: Option<Vec<u8>>)
    ensures
        opt_bytes(r) == opt_bytes(*o),
{
    match o {
        Some(b) => {
            let mut c: Vec<u8> = Vec::new();
            push_all(&mut c, b.as_slice());
            Some(c)
        },
        None => None,
    }
}

/// Run a command.
fn run_command_ex(words: Vec<String>, dir: Option<Vec<u8>>, inp: &Inputs, st: &mut ExState) -> (r: ExRes)
    ensures
        (state_view(*final(st)), res_view(r)) == run_command(
            crate::expr::strings_view(words@),
            opt_bytes(dir),
            inp.env(),
            state_view(*old(st)),
        ),
        final(st).meta == old(st).meta,
{
    if words.len() == 0 {
        return ExRes::Val(false);
    }
    let program = words[0].clone();
    let mut rest: Vec<String> = Vec::new();
    let mut i: usize = 1;
    while i < words.len()
        invariant
            1 <= i <= words@.len(),
            crate::expr::strings_view(rest@) == crate::expr::strings_view(words@).subrange(
                1,
                i as int,
            ),
        decreases words@.len() - i,
    {
        let ghost before = rest@;
        rest.push(words[i].clone());
        assert(crate::expr::strings_view(rest@) =~= crate::expr::strings_view(before).push(
            words@[i as int]@,
        ));
        i += 1;
        assert(crate::expr::strings_view(rest@) =~= crate::expr::strings_view(words@).subrange(
            1,
            i as int,
        ));
    }
    assert(crate::expr::strings_view(rest@) =~= crate::expr::strings_view(words@).drop_first());
    let name = program.clone();
    let c = CommandLine { program, args: rest, dir };
    let a = match ask_ex(inp, st, Request::Run(c)) {
        Ok(a) => a,
        Err(r) => {
            return r;
        },
    };
    let e = match a {
        Answer::Ran(Ok(b)) => {
            return ExRes::Val(*b);
        },
        Answer::Ran(Err(e)) => e.clone(),
        _ => String::from_str("unexpected answer"),
    };
    let msg = spawn_failure_message(name.as_str(), e.as_str());
    match ask_ex(inp, st, Request::Warn(msg)) {
        Ok(_) => ExRes::Val(false),
        Err(r) => r,
    }
}

/// The message printed when a command cannot be started.
pub fn spawn_failure_message(program: &str, e: &str) -> (m: String)
    ensures
        m@ == spawn_failure(program@, e@),
{
    let a = concat3("find: `", program, "`: ");
    concat2(a.as_str(), e)
}

/// The path `-execdir` / `-okdir` hand to the command.
fn local_path_ex(en: &EntryInfo) -> (v: Vec<u8>)
    ensures
        v@ == local_path(*en),
{
    let mut v: Vec<u8> = Vec::new();
    match &en.name {
        Some(n) => {
            v.push(46u8);
            v.push(47u8);
            push_all(&mut v, n.as_slice());
            assert(v@ =~= seq![46u8, 47u8] + n@);
        },
        None => push_all(&mut v, en.path.as_slice()),
    }
    v
}

/// Whether a reply says yes.
fn says_yes_ex(line: &String) -> (r: bool)
    ensures
        r == says_yes(line@),
{
    let cs = chars_of(line.as_str());
    let t = trim_chars(cs.as_slice());
    let s = string_from_chars(t.as_slice());
    let low = to_lowercase(s.as_str());
    str_eq(low.as_str(), "y") || str_eq(low.as_str(), "yes")
}

/// `-ok` / `-okdir`.
fn ok_command_ex(args: &Vec<ExecArg>, path: Vec<u8>, dir: Option<Vec<u8>>, inp: &Inputs, st: &mut ExState) -> (r: ExRes)
    ensures
        (state_view(*final(st)), res_view(r)) == ok_command(
            args_view(args@),
            path@,
            opt_bytes(dir),
            inp.env(),
            state_view(*old(st)),
        ),
        final(st).meta == old(st).meta,
{
    let text = text_or_empty_of(path.as_slice());
    let text_s = string_from_chars(text.as_slice());
    let words = command_words_ex(args, text_s.as_str());
    let joined = join_words_ex(&words);
    let mut prompt: Vec<char> = Vec::new();
    push_str(&mut prompt, "< ");
    push_all(&mut prompt, joined.as_slice());
    push_str(&mut prompt, " ... ");
    push_lossy(&mut prompt, path.as_slice());
    push_str(&mut prompt, " > ? ");
    let q = string_from_chars(prompt.as_slice());
    assert(q@ == ok_prompt(crate::expr::strings_view(words@), path@));
    let a = match ask_ex(inp, st, Request::Ask(q)) {
        Ok(a) => a,
        Err(r) => {
            return r;
        },
    };
    match a {
        Answer::Line(Ok(l)) => {
            if says_yes_ex(l) {
                run_command_ex(words, dir, inp, st)
            } else {
                ExRes::Val(false)
            }
        },
        Answer::Line(Err(e)) => ExRes::Fail(e.clone()),
        _ => ExRes::Fail(String::from_str("unexpected answer")),
    }
}

/// A copy of the arguments of a command.
fn copy_args(v: &Vec<ExecArg>) -> (r: Vec<ExecArg>)
    ensures
        args_view(r@) == args_view(v@),
{
    let mut r: Vec<ExecArg> = Vec::new();
    let mut i: usize = 0;
    while i < v.len()
        invariant
            i <= v@.len(),
            args_view(r@) == args_view(v@).take(i as int),
        decreases v@.len() - i,
    {
        let a = match &v[i] {
            ExecArg::Literal(s) => ExecArg::Literal(s.clone()),
            ExecArg::Placeholder => ExecArg::Placeholder,
        };
        let ghost before = r@;
        r.push(a);
        assert(args_view(r@) =~= args_view(before).push(arg_view(v@[i as int])));
        i += 1;
        assert(args_view(r@) =~= args_view(v@).take(i as int));
    }
    assert(args_view(v@).take(i as int) =~= args_view(v@));
    r
}

/// Collect the entry for a batched command.
fn push_batch_ex(args: &Vec<ExecArg>, in_dir: bool, inp: &Inputs, st: &mut ExState) -> (r: ExRes)
    ensures
        (state_view(*final(st)), res_view(r)) == push_batch(
            args_view(args@),
            in_dir,
            inp.env(),
            state_view(*old(st)),
        ),
        final(st).meta == old(st).meta,
{
    let en = inp.entry;
    let mut path: Vec<u8> = Vec::new();
    push_all(&mut path, en.path.as_slice());
    let item = BatchPath { path, parent: copy_opt_bytes(&en.parent), name: copy_opt_bytes(&en.name) };
    let ghost before = st.pushes@;
    st.pushes.push(PushItem { args: copy_args(args), item, in_dir });
    assert(pushes_view(st.pushes@) =~= pushes_view(before).push(
        Push { args: args_view(args@), item: batch_item(*en), in_dir },
    ));
    ExRes::Val(true)
}

/// The message printed when an entry cannot be removed.
pub fn delete_failure_message(path: &[u8], e: &str) -> (m: String)
    ensures
        m@ == delete_failure(path@, e@),
{
    let shown = lossy_text(path);
    let a = concat3("find: cannot delete `", shown.as_str(), "`: ");
    concat2(a.as_str(), e)
}

/// The entry's path followed by one byte.
fn path_with(en: &EntryInfo, b: u8) -> (v: Vec<u8>)
    ensures
        v@ == en.path@.push(b),
{
    let mut v: Vec<u8> = Vec::new();
    push_all(&mut v, en.path.as_slice());
    v.push(b);
    v
}

/// `-delete`.
fn delete_ex(inp: &Inputs, st: &mut ExState) -> (r: ExRes)
    ensures
        (state_view(*final(st)), res_view(r)) == ev_action(
            ExprView::Delete,
            inp.env(),
            state_view(*old(st)),
        ),
        final(st).meta == old(st).meta,
{
    proof {
        reveal(ev_action);
    }
    let en = inp.entry;
    let a = match ask_ex(inp, st, Request::Remove(en.is_dir)) {
        Ok(a) => a,
        Err(r) => {
            return r;
        },
    };
    let e = match a {
        Answer::Status(Ok(())) => {
            return ExRes::Val(true);
        },
        Answer::Status(Err(e)) => e.clone(),
        _ => String::from_str("unexpected answer"),
    };
    let msg = delete_failure_message(en.path.as_slice(), e.as_str());
    match ask_ex(inp, st, Request::Warn(msg)) {
        Ok(_) => ExRes::Val(false),
        Err(r) => r,
    }
}

/// Actions: output, commands, removal, pruning and quitting.
#[verifier::rlimit(40)]
fn action_ex(e: &Expr, inp: &Inputs, st: &mut ExState) -> (r: ExRes)
    requires
        inp.wf(),
        state_wf(*old(st)),
    ensures
        (state_view(*final(st)), res_view(r)) == ev_action(e@, inp.env(), state_view(*old(st))),
        state_wf(*final(st)),
{
    proof {
        reveal(ev_action);
    }
    let en = inp.entry;
    match e {
        Expr::Print => write_out_ex(inp, st, Output::Stdout, path_with(en, 10u8)),
        Expr::Print0 => write_out_ex(inp, st, Output::Stdout, path_with(en, 0u8)),
        Expr::Printf(toks) => printf_action_ex(toks, Output::Stdout, inp, st),
        Expr::Ls => ls_action_ex(Output::Stdout, inp, st),
        Expr::FPrint(f) => write_out_ex(inp, st, Output::Append(f.clone()), path_with(en, 10u8)),
        Expr::FPrint0(f) => write_out_ex(inp, st, Output::Append(f.clone()), path_with(en, 0u8)),
        Expr::FPrintf(f, toks) => printf_action_ex(toks, Output::Append(f.clone()), inp, st),
        Expr::FLs(f) => ls_action_ex(Output::Append(f.clone()), inp, st),
        Expr::Exec { args, batch } => {
            if *batch {
                push_batch_ex(args, false, inp, st)
            } else {
                let text = text_or_empty_of(en.path.as_slice());
                let text_s = string_from_chars(text.as_slice());
                let words = command_words_ex(args, text_s.as_str());
                run_command_ex(words, None, inp, st)
            }
        },
        Expr::ExecDir { args, batch } => {
            if *batch {
                push_batch_ex(args, true, inp, st)
            } else {
                let lp = local_path_ex(en);
                let text = text_or_empty_of(lp.as_slice());
                let text_s = string_from_chars(text.as_slice());
                let words = command_words_ex(args, text_s.as_str());
                run_command_ex(words, exec_dir_ex(&en.parent), inp, st)
            }
        },
        Expr::OkPrompt { args } => {
            let mut path: Vec<u8> = Vec::new();
            push_all(&mut path, en.path.as_slice());
            ok_command_ex(args, path, None, inp, st)
        },
        Expr::OkDir { args } => ok_command_ex(args, local_path_ex(en), exec_dir_ex(&en.parent), inp, st),
        Expr::Delete => delete_ex(inp, st),
        Expr::Prune => {
            st.prune = true;
            ExRes::Val(true)
        },
        Expr::Quit => {
            st.quit = true;
            ExRes::Val(true)
        },
        _ => ExRes::Val(false),
    }
}

// ---------------------------------------------------------------------------
// Expressions
// ---------------------------------------------------------------------------

/// Which group of tests or actions an expression belongs to.
fn leaf_group_of(e: &Expr) -> (g: u8)
    ensures
        g as int == leaf_group(e@),
{
    match e {
        Expr::Size { .. } | Expr::Empty | Expr::Perm { .. } | Expr::User(_) | Expr::Group(_)
        | Expr::Uid(_, _) | Expr::Gid(_, _) | Expr::NoUser | Expr::NoGroup | Expr::Links(_, _)
        | Expr::Inum(_, _) | Expr::SameFile { .. } | Expr::Used(_, _) => 1,
        Expr::MTime(_, _) | Expr::MMin(_, _) | Expr::ATime(_, _) | Expr::AMin(_, _) | Expr::CTime(_, _)
        | Expr::CMin(_, _) | Expr::Newer(_) | Expr::ANewerM(_) | Expr::CNewerM(_)
        | Expr::NewerXY { .. } => 2,
        Expr::Print | Expr::Print0 | Expr::Printf(_) | Expr::Ls | Expr::FPrint(_) | Expr::FPrint0(_)
        | Expr::FPrintf(_, _) | Expr::FLs(_) | Expr::Exec { .. } | Expr::ExecDir { .. }
        | Expr::OkPrompt { .. } | Expr::OkDir { .. } | Expr::Delete | Expr::Prune | Expr::Quit => 3,
        _ => 0,
    }
}

/// A test or an action.
fn leaf_ex(e: &Expr, inp: &Inputs, st: &mut ExState) -> (r: ExRes)
    requires
        inp.wf(),
        state_wf(*old(st)),
    ensures
        (state_view(*final(st)), res_view(r)) == ev_leaf(e@, inp.env(), state_view(*old(st))),
        state_wf(*final(st)),
{
    let g = leaf_group_of(e);
    if g == 1 {
        meta_test(e, inp, st)
    } else if g == 2 {
        time_test_ex(e, inp, st)
    } else if g == 3 {
        action_ex(e, inp, st)
    } else {
        path_test(e, inp, st)
    }
}

/// Which operator combines a sequence: 0 AND, 1 OR, 2 comma.
spec fn ev_seq(which: int, es: Seq<ExprView>, env: Env, st: EvalState, last: bool) -> (EvalState, Res) {
    if which == 0 {
        ev_and(es, env, st)
    } else if which == 1 {
        ev_or(es, env, st)
    } else {
        ev_list(es, env, st, last)
    }
}

/// Evaluate the operands of an operator in order (`which`: 0 AND, 1 OR,
/// 2 comma), stopping as the operator prescribes.
fn ev_seq_ex(which: u8, v: &Vec<Expr>, inp: &Inputs, st: &mut ExState) -> (r: ExRes)
    requires
        inp.wf(),
        state_wf(*old(st)),
        which <= 2,
    ensures
        (state_view(*final(st)), res_view(r)) == ev_seq(
            which as int,
            exprs_view(v@),
            inp.env(),
            state_view(*old(st)),
            true,
        ),
        state_wf(*final(st)),
    decreases v@, 0nat,
{
    proof {
        lemma_exprs_view(v@);
    }
    let ghost s = exprs_view(v@);
    let ghost goal = ev_seq(which as int, s, inp.env(), state_view(*st), true);
    let mut last = true;
    let mut i: usize = 0;
    assert(s.skip(0) =~= s);
    while i < v.len()
        invariant
            inp.wf(),
            state_wf(*st),
            which <= 2,
            i <= v@.len(),
            s == exprs_view(v@),
            s.len() == v@.len(),
            forall|j: int| 0 <= j < v@.len() ==> #[trigger] s[j] == expr_view(v@[j]),
            goal == ev_seq(which as int, s, inp.env(), state_view(*old(st)), true),
            goal == ev_seq(which as int, s.skip(i as int), inp.env(), state_view(*st), last),
            which != 2 ==> last,
        decreases v@.len() - i,
    {
        let ghost rest = s.skip(i as int);
        assert(rest[0] == s[i as int]);
        assert(rest.drop_first() =~= s.skip(i + 1));
        proof {
            assert(decreases_to!(v@ => v@[i as int]));
        }
        let r = ev_ex(&v[i], inp, st);
        match r {
            ExRes::Val(b) => {
                if which == 0 && !b {
                    return r;
                }
                if which == 1 && b {
                    return r;
                }
                if which == 2 {
                    last = b;
                }
            },
            _ => {
                return r;
            },
        }
        i += 1;
    }
    assert(s.skip(i as int) =~= Seq::<ExprView>::empty());
    if which == 1 {
        ExRes::Val(false)
    } else {
        ExRes::Val(last)
    }
}

/// Evaluate an expression.
fn ev_ex(e: &Expr, inp: &Inputs, st: &mut ExState) -> (r: ExRes)
    requires
        inp.wf(),
        state_wf(*old(st)),
    ensures
        (state_view(*final(st)), res_view(r)) == ev(e@, inp.env(), state_view(*old(st))),
        state_wf(*final(st)),
    decreases *e, 1nat,
{
    if st.quit {
        return ExRes::Val(false);
    }
    match e {
        Expr::And(es) => ev_seq_ex(0, es, inp, st),
        Expr::Or(es) => ev_seq_ex(1, es, inp, st),
        Expr::List(es) => ev_seq_ex(2, es, inp, st),
        Expr::Not(b) => match ev_ex(b, inp, st) {
            ExRes::Val(v) => ExRes::Val(!v),
            other => other,
        },
        _ => leaf_ex(e, inp, st),
    }
}

// ---------------------------------------------------------------------------
// Batched commands
// ---------------------------------------------------------------------------

/// A pending batched command, as values.
pub struct BatchView {
    pub args: Seq<ArgView>,
    pub paths: Seq<BatchPathView>,
    pub in_dir: bool,
}

pub open spec fn batch_view(b: Batch) -> BatchView {
    BatchView {
        args: args_view(b.args@),
        paths: Seq::new(b.paths@.len(), |i: int| batch_path_view(b.paths@[i])),
        in_dir: b.in_dir,
    }
}

pub open spec fn batches_view(v: Seq<Batch>) -> Seq<BatchView> {
    Seq::new(v.len(), |i: int| batch_view(v[i]))
}

/// The first batch of the kind (`in_dir`) from index `k` on.
pub open spec fn first_batch_from(bs: Seq<BatchView>, in_dir: bool, k: int) -> Option<int>
    decreases bs.len() - k,
{
    if k < 0 || k >= bs.len() {
        None
    } else if bs[k].in_dir == in_dir {
        Some(k)
    } else {
        first_batch_from(bs, in_dir, k + 1)
    }
}

/// Add a path to the first batch of its kind, or start a batch with the
/// command's arguments when there is none.
pub open spec fn apply_push(bs: Seq<BatchView>, p: Push) -> Seq<BatchView> {
    match first_batch_from(bs, p.in_dir, 0) {
        Some(k) => bs.update(k, BatchView { paths: bs[k].paths.push(p.item), ..bs[k] }),
        None => bs.push(BatchView { args: p.args, paths: seq![p.item], in_dir: p.in_dir }),
    }
}

/// Add the paths in order.
pub open spec fn apply_pushes(bs: Seq<BatchView>, ps: Seq<Push>) -> Seq<BatchView>
    decreases ps.len(),
{
    if ps.len() == 0 {
        bs
    } else {
        apply_pushes(apply_push(bs, ps[0]), ps.drop_first())
    }
}

proof fn lemma_first_batch_from(bs: Seq<BatchView>, in_dir: bool, k: int)
    requires
        0 <= k <= bs.len(),
        forall|j: int| 0 <= j < k ==> bs[j].in_dir != in_dir,
    ensures
        first_batch_from(bs, in_dir, 0) == first_batch_from(bs, in_dir, k),
    decreases k,
{
    if k > 0 {
        lemma_first_batch_from(bs, in_dir, k - 1);
    }
}

/// Add one path.
fn apply_push_ex(batches: &mut Vec<Batch>, p: PushItem)
    ensures
        batches_view(final(batches)@) == apply_push(batches_view(old(batches)@), push_view(p)),
{
    let ghost bs = batches_view(batches@);
    let mut k: usize = 0;
    while k < batches.len()
        invariant
            k <= batches@.len(),
            bs == batches_view(batches@),
            batches@ == old(batches)@,
            forall|j: int| 0 <= j < k ==> bs[j].in_dir != p.in_dir,
        decreases batches@.len() - k,
    {
        if batches[k].in_dir == p.in_dir {
            proof {
                lemma_first_batch_from(bs, p.in_dir, k as int);
            }
            let mut b = batches.remove(k);
            let ghost before = b.paths@;
            b.paths.push(p.item);
            batches.insert(k, b);
            assert(batches_view(batches@) =~= apply_push(bs, push_view(p))) by {
                assert(batch_view(batches@[k as int]).paths =~= bs[k as int].paths.push(
                    batch_path_view(p.item),
                ));
            }
            return;
        }
        k += 1;
    }
    proof {
        lemma_first_batch_from(bs, p.in_dir, k as int);
    }
    let mut paths: Vec<BatchPath> = Vec::new();
    paths.push(p.item);
    batches.push(Batch { args: p.args, paths, in_dir: p.in_dir });
    assert(batches_view(batches@) =~= apply_push(bs, push_view(p))) by {
        assert(batch_view(batches@[k as int]).paths =~= seq![push_view(p).item]);
    }
}

/// Add the paths in order.
fn apply_pushes_ex(batches: &mut Vec<Batch>, pushes: Vec<PushItem>)
    ensures
        batches_view(final(batches)@) == apply_pushes(
            batches_view(old(batches)@),
            pushes_view(pushes@),
        ),
{
    let ghost goal = apply_pushes(batches_view(batches@), pushes_view(pushes@));
    let mut pushes = pushes;
    while pushes.len() > 0
        invariant
            goal == apply_pushes(batches_view(batches@), pushes_view(pushes@)),
        decreases pushes@.len(),
    {
        let ghost before = pushes@;
        let item = pushes.remove(0);
        assert(pushes_view(before).drop_first() =~= pushes_view(pushes@));
        apply_push_ex(batches, item);
    }
    assert(pushes_view(pushes@) =~= Seq::<Push>::empty());
}

// ---------------------------------------------------------------------------
// Evaluating an entry
// ---------------------------------------------------------------------------

/// One evaluation: a request to perform (then evaluate again with its answer
/// added), or the value (or the error) the expression has for the entry.
pub enum Step {
    Need(Request),
    Done(Result<bool, String>),
}

/// The entry and the context after an evaluation that ended in state `st`:
/// the metadata read is cached, the prune and quit flags set, and the
/// collected paths added to the batched commands; nothing else changes.
pub open spec fn committed(
    st: EvalState,
    entry0: EntryInfo,
    entry: EntryInfo,
    ctx0: EvalContext,
    ctx: EvalContext,
) -> bool {
    &&& entry == EntryInfo { metadata: st.meta, should_prune: st.prune, ..entry0 }
    &&& ctx.quit == st.quit
    &&& batches_view(ctx.batch_exec@) == apply_pushes(batches_view(ctx0.batch_exec@), st.pushes)
    &&& ctx.now == ctx0.now
    &&& ctx.daystart == ctx0.daystart
    &&& ctx.daystart_time == ctx0.daystart_time
    &&& ctx.starting_point == ctx0.starting_point
    &&& ctx.depth == ctx0.depth
}

/// Evaluate an expression against a file entry, replaying `answers` (the
/// answers to the requests of earlier evaluations of the same expression,
/// entry and context, in order). A request without an answer is returned and
/// changes nothing; otherwise the value (or the error) is returned and the
/// entry and the context are updated.
pub fn evaluate(expr: &Expr, entry: &mut EntryInfo, ctx: &mut EvalContext, answers: &Vec<Answer>) -> (r: Step)
    requires
        answers_wf(answers@),
        ctx_wf(*old(ctx)),
        old(entry).metadata matches Some(m) ==> m.wf(),
    ensures
        ({
            let (st, res) = spec_evaluate(expr@, *old(entry), *old(ctx), answers@);
            match res {
                Res::Need(q) => r matches Step::Need(x) && x@ == q && *final(entry) == *old(entry)
                    && *final(ctx) == *old(ctx),
                Res::Val(b) => r == Step::Done(Ok(b)) && committed(
                    st,
                    *old(entry),
                    *final(entry),
                    *old(ctx),
                    *final(ctx),
                ),
                Res::Fail(m) => r matches Step::Done(Err(x)) && x@ == m && committed(
                    st,
                    *old(entry),
                    *final(entry),
                    *old(ctx),
                    *final(ctx),
                ),
            }
        }),
        final(entry).metadata matches Some(m) ==> m.wf(),
        ctx_wf(*final(ctx)),
{
    let meta = match &entry.metadata {
        Some(m) => Some(m.copied()),
        None => None,
    };
    let mut st = ExState {
        meta,
        prune: entry.should_prune,
        quit: ctx.quit,
        pos: 0,
        pushes: Vec::new(),
    };
    assert(pushes_view(st.pushes@) =~= Seq::<Push>::empty());
    let r = {
        let inp = Inputs { entry: &*entry, ctx: &*ctx, answers };
        ev_ex(expr, &inp, &mut st)
    };
    let ExState { meta, prune, quit, pos, pushes } = st;
    match r {
        ExRes::Need(q) => Step::Need(q),
        ExRes::Val(b) => {
            entry.metadata = meta;
            entry.should_prune = prune;
            ctx.quit = quit;
            apply_pushes_ex(&mut ctx.batch_exec, pushes);
            Step::Done(Ok(b))
        },
        ExRes::Fail(m) => {
            entry.metadata = meta;
            entry.should_prune = prune;
            ctx.quit = quit;
            apply_pushes_ex(&mut ctx.batch_exec, pushes);
            Step::Done(Err(m))
        },
    }
}

} // verus!
