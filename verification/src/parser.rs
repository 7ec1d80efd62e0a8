//! GNU find-style argument parsing.
use vstd::prelude::*;
use vstd::utf8::encode_utf8;

use crate::expr::{
    ArgView, Cmp, Config, ConfigView, ExecArg, Expr, ExprView, FileType, GlobPattern, GlobView,
    PermMatch, PrintfToken, RegexMatcher, RegexType, SizeUnit, SymlinkMode, TimeRef, Timestamp,
    TokenView, args_view, default_config_view, exprs_view, glob_regex_source, lemma_exprs_view,
    parse_cmp, regex_compiles, spec_has_action, regex_error, spec_file_type_of, spec_glob_fast_path,
    spec_parse_cmp, strings_view, token_view, tokens_view, unknown_file_type_message,
};
use crate::grammar::{
    Cursor, Parsed, TopParsed, cursor_at, is_newer_xy, leading_options, lemma_primary_action, needs_arg,
    gather, numeric_test, numeric_test_index, p_actions, p_glob, p_and, p_and_tail, p_commands, p_list,
    p_list_tail, p_numeric_tests, p_options, p_or, p_or_tail, p_primary, p_reference,
    p_reference_tests, p_text_tests, p_unary, paths_end, spec_parse, spec_regex_type,
};
use crate::text::{
    chars_of, concat2, concat3, concat4, parse_octal_u32, parse_u64, parse_usize, push_all,
    spec_parse_unsigned, spec_trim, starts_with, str_eq, string_from_chars, trim_chars, u64_wrap,
    wrap_u64,
};

verus! {

/// Special error types for --version and --help
pub const VERSION_SENTINEL: &'static str = "__version__";

pub const HELP_SENTINEL: &'static str = "__help__";

// ---------------------------------------------------------------------------
// -type / -xtype lists
// ---------------------------------------------------------------------------

/// Index of the first comma (the length when there is none).
pub open spec fn first_comma(s: Seq<char>) -> nat
    decreases s.len(),
{
    if s.len() == 0 {
        0
    } else if s[0] == ',' {
        0
    } else {
        1 + first_comma(s.drop_first())
    }
}

proof fn lemma_first_comma(s: Seq<char>, k: int)
    requires
        0 <= k <= s.len(),
        forall|j: int| 0 <= j < k ==> s[j] != ',',
        k == s.len() || s[k] == ',',
    ensures
        first_comma(s) == k,
    decreases k,
{
    if k > 0 {
        lemma_first_comma(s.drop_first(), k - 1);
    }
}

/// The file types of a comma-separated list, after those already read (`acc`):
/// each part, trimmed, must be a single one-byte (ASCII) character and a known
/// type letter; the first
/// bad part decides the error.
pub open spec fn file_types_from(s: Seq<char>, acc: Seq<FileType>) -> Result<Seq<FileType>, Seq<char>>
    decreases s.len(),
{
    let k = first_comma(s);
    let part = spec_trim(s.take(k as int));
    if !(part.len() == 1 && part[0] <= '\u{7f}') {
        Err("-type: unknown type `"@ + part + "`"@)
    } else {
        match spec_file_type_of(part[0]) {
            None => Err(unknown_file_type_message(part[0])),
            Some(t) => if k >= s.len() {
                Ok(acc.push(t))
            } else {
                file_types_from(s.skip(k as int + 1), acc.push(t))
            },
        }
    }
}

/// The file types of a comma-separated `-type` list.
pub open spec fn spec_parse_file_types(s: Seq<char>) -> Result<Seq<FileType>, Seq<char>> {
    file_types_from(s, Seq::empty())
}

pub fn parse_file_types(s: &str) -> (r: Result<Vec<FileType>, String>)
    ensures
        r matches Ok(v) ==> spec_parse_file_types(s@) == Ok::<Seq<FileType>, Seq<char>>(v@),
        r matches Err(m) ==> spec_parse_file_types(s@) == Err::<Seq<FileType>, Seq<char>>(m@),
{
    let cs = chars_of(s);
    let mut out: Vec<FileType> = Vec::new();
    let mut j: usize = 0;
    assert(cs@.skip(0) == cs@);
    loop
        invariant
            cs@ == s@,
            j <= cs@.len(),
            spec_parse_file_types(cs@) == file_types_from(cs@.skip(j as int), out@),
        decreases cs@.len() - j,
    {
        let ghost rest = cs@.skip(j as int);
        let mut k: usize = j;
        while k < cs.len() && cs[k] != ','
            invariant
                j <= k <= cs@.len(),
                forall|q: int| j <= q < k ==> cs@[q] != ',',
            decreases cs@.len() - k,
        {
            k += 1;
        }
        proof {
            lemma_first_comma(rest, (k - j) as int);
        }
        let mut raw: Vec<char> = Vec::new();
        let mut q: usize = j;
        while q < k
            invariant
                j <= q <= k,
                k <= cs@.len(),
                raw@ == cs@.subrange(j as int, q as int),
            decreases k - q,
        {
            raw.push(cs[q]);
            q += 1;
            assert(raw@ == cs@.subrange(j as int, q as int));
        }
        assert(raw@ == rest.take((k - j) as int));
        let part = trim_chars(raw.as_slice());
        if !(part.len() == 1 && part[0] <= '\u{7f}') {
            let part_str = string_from_chars(part.as_slice());
            return Err(concat3("-type: unknown type `", part_str.as_str(), "`"));
        }
        let t = match FileType::from_char(part[0]) {
            Ok(t) => t,
            Err(m) => {
                return Err(m);
            },
        };
        out.push(t);
        if k >= cs.len() {
            return Ok(out);
        }
        assert(rest.skip((k - j) + 1) == cs@.skip(k + 1));
        j = k + 1;
    }
}

// ---------------------------------------------------------------------------
// -size
// ---------------------------------------------------------------------------

/// The unit letter that may end a size argument.
pub open spec fn spec_size_unit(c: char) -> Option<SizeUnit> {
    if c == 'c' {
        Some(SizeUnit::Bytes)
    } else if c == 'w' {
        Some(SizeUnit::Words)
    } else if c == 'b' {
        Some(SizeUnit::Blocks512)
    } else if c == 'k' {
        Some(SizeUnit::Kilobytes)
    } else if c == 'M' {
        Some(SizeUnit::Megabytes)
    } else if c == 'G' {
        Some(SizeUnit::Gigabytes)
    } else {
        None
    }
}

/// `-size [+-]N[cwbkMG]`: the comparison, the count and the unit (512-byte
/// blocks when no unit letter is given).
pub open spec fn spec_parse_size(s: Seq<char>) -> Result<(Cmp, u64, SizeUnit), Seq<char>> {
    let (c, rest) = if s.len() > 0 && s[0] == '+' {
        (Cmp::Greater, s.drop_first())
    } else if s.len() > 0 && s[0] == '-' {
        (Cmp::Less, s.drop_first())
    } else {
        (Cmp::Equal, s)
    };
    let (num, unit) = if rest.len() > 0 && spec_size_unit(rest.last()) is Some {
        (rest.drop_last(), spec_size_unit(rest.last()).unwrap())
    } else {
        (rest, SizeUnit::Blocks512)
    };
    match spec_parse_unsigned(num, 10, u64::MAX as nat) {
        Some(n) => Ok((c, n as u64, unit)),
        None => Err("-size: invalid size `"@ + s + "`"@),
    }
}

fn size_unit_of(c: char) -> (r: Option<SizeUnit>)
    ensures
        r == spec_size_unit(c),
{
    match c {
        'c' => Some(SizeUnit::Bytes),
        'w' => Some(SizeUnit::Words),
        'b' => Some(SizeUnit::Blocks512),
        'k' => Some(SizeUnit::Kilobytes),
        'M' => Some(SizeUnit::Megabytes),
        'G' => Some(SizeUnit::Gigabytes),
        _ => None,
    }
}

pub fn parse_size(s: &str) -> (r: Result<(Cmp, u64, SizeUnit), String>)
    ensures
        r matches Ok(v) ==> spec_parse_size(s@) == Ok::<(Cmp, u64, SizeUnit), Seq<char>>(v),
        r matches Err(m) ==> spec_parse_size(s@) == Err::<(Cmp, u64, SizeUnit), Seq<char>>(m@),
{
    let cs = chars_of(s);
    let mut rest = cs.clone();
    let c = if cs.len() > 0 && cs[0] == '+' {
        rest.remove(0);
        Cmp::Greater
    } else if cs.len() > 0 && cs[0] == '-' {
        rest.remove(0);
        Cmp::Less
    } else {
        Cmp::Equal
    };
    let mut unit = SizeUnit::Blocks512;
    if rest.len() > 0 {
        match size_unit_of(rest[rest.len() - 1]) {
            Some(u) => {
                rest.pop();
                unit = u;
            },
            None => {},
        }
    }
    match parse_u64(rest.as_slice()) {
        Some(n) => Ok((c, n, unit)),
        None => Err(concat3("-size: invalid size `", s, "`")),
    }
}

// ---------------------------------------------------------------------------
// -perm
// ---------------------------------------------------------------------------

/// `-perm MODE` (exact), `-perm -MODE` (all bits), `-perm /MODE` (any bit),
/// with MODE in octal.
pub open spec fn spec_parse_perm(s: Seq<char>) -> Result<(u32, PermMatch), Seq<char>> {
    let (m, rest) = if s.len() > 0 && s[0] == '-' {
        (PermMatch::All, s.drop_first())
    } else if s.len() > 0 && s[0] == '/' {
        (PermMatch::Any, s.drop_first())
    } else {
        (PermMatch::Exact, s)
    };
    match spec_parse_unsigned(rest, 8, u32::MAX as nat) {
        Some(n) => Ok((n as u32, m)),
        None => Err("-perm: invalid mode `"@ + rest + "`"@),
    }
}

/// A mode in octal (`u32::from_str_radix(s, 8)`), or the `-perm` error.
pub fn parse_octal_mode(s: &str) -> (r: Result<u32, String>)
    ensures
        r matches Ok(n) ==> spec_parse_unsigned(s@, 8, u32::MAX as nat) == Some(n as nat),
        r matches Err(m) ==> spec_parse_unsigned(s@, 8, u32::MAX as nat) is None && m@
            == "-perm: invalid mode `"@ + s@ + "`"@,
{
    let cs = chars_of(s);
    match parse_octal_u32(cs.as_slice()) {
        Some(n) => Ok(n),
        None => Err(concat3("-perm: invalid mode `", s, "`")),
    }
}

pub fn parse_perm(s: &str) -> (r: Result<(u32, PermMatch), String>)
    ensures
        r matches Ok(v) ==> spec_parse_perm(s@) == Ok::<(u32, PermMatch), Seq<char>>(v),
        r matches Err(m) ==> spec_parse_perm(s@) == Err::<(u32, PermMatch), Seq<char>>(m@),
{
    let cs = chars_of(s);
    let mut rest = cs.clone();
    let m = if cs.len() > 0 && cs[0] == '-' {
        rest.remove(0);
        PermMatch::All
    } else if cs.len() > 0 && cs[0] == '/' {
        rest.remove(0);
        PermMatch::Any
    } else {
        PermMatch::Exact
    };
    let r = string_from_chars(rest.as_slice());
    match parse_octal_mode(r.as_str()) {
        Ok(n) => Ok((n, m)),
        Err(e) => Err(e),
    }
}

// ---------------------------------------------------------------------------
// -newerXY time references
// ---------------------------------------------------------------------------

/// The timestamp a `-newerXY` letter names.
pub open spec fn spec_time_ref(c: char) -> Option<TimeRef> {
    if c == 'a' {
        Some(TimeRef::Access)
    } else if c == 'm' {
        Some(TimeRef::Modify)
    } else if c == 'c' {
        Some(TimeRef::Change)
    } else if c == 'B' || c == 'W' {
        Some(TimeRef::Birth)
    } else if c == 't' {
        Some(TimeRef::Modify)
    } else {
        None
    }
}

pub fn parse_time_ref(c: char) -> (r: Option<TimeRef>)
    ensures
        r == spec_time_ref(c),
{
    match c {
        'a' => Some(TimeRef::Access),
        'm' => Some(TimeRef::Modify),
        'c' => Some(TimeRef::Change),
        'B' | 'W' => Some(TimeRef::Birth),
        't' => Some(TimeRef::Modify),
        _ => None,
    }
}

// ---------------------------------------------------------------------------
// -exec / -execdir / -ok / -okdir arguments
// ---------------------------------------------------------------------------

/// The command words from position `pos` up to `;` (one run per file) or `+`
/// (batched), after the words already read (`acc`): the words with `{}` as the
/// placeholder, whether batched, and the position after the terminator.
pub open spec fn exec_args_from(args: Seq<String>, pos: int, opt: Seq<char>, acc: Seq<ArgView>) -> Result<
    (Seq<ArgView>, bool, int),
    Seq<char>,
>
    decreases args.len() - pos,
{
    if pos < 0 || pos >= args.len() {
        Err(opt + ": missing terminator `;` or `+`"@)
    } else if args[pos]@ == ";"@ {
        Ok((acc, false, pos + 1))
    } else if args[pos]@ == "+"@ {
        Ok((acc, true, pos + 1))
    } else {
        let a = if args[pos]@ == "{}"@ {
            ArgView::Placeholder
        } else {
            ArgView::Literal(args[pos]@)
        };
        exec_args_from(args, pos + 1, opt, acc.push(a))
    }
}

/// The command words of `-exec` and its kin, from position `pos`.
pub open spec fn spec_exec_args(args: Seq<String>, pos: int, opt: Seq<char>) -> Result<
    (Seq<ArgView>, bool, int),
    Seq<char>,
> {
    exec_args_from(args, pos, opt, Seq::empty())
}

pub fn parse_exec_args(args: &Vec<String>, i: &mut usize, opt: &str) -> (r: Result<
    (Vec<ExecArg>, bool),
    String,
>)
    ensures
        r matches Ok((v, batch)) ==> spec_exec_args(args@, *old(i) as int, opt@) == Ok::<
            (Seq<ArgView>, bool, int),
            Seq<char>,
        >((args_view(v@), batch, *final(i) as int)),
        r matches Err(m) ==> spec_exec_args(args@, *old(i) as int, opt@) == Err::<
            (Seq<ArgView>, bool, int),
            Seq<char>,
        >(m@),
        r is Ok ==> *old(i) < *final(i) <= args@.len(),
{
    let mut exec_args: Vec<ExecArg> = Vec::new();
    let ghost i0 = *i as int;
    assert(args_view(exec_args@) =~= Seq::<ArgView>::empty());
    loop
        invariant
            i0 == *old(i) as int,
            i0 <= *i,
            spec_exec_args(args@, i0, opt@) == exec_args_from(args@, *i as int, opt@, args_view(exec_args@)),
        decreases args@.len() - *i,
    {
        if *i >= args.len() {
            return Err(concat2(opt, ": missing terminator `;` or `+`"));
        }
        let arg = &args[*i];
        *i += 1;
        if str_eq(arg.as_str(), ";") {
            return Ok((exec_args, false));
        }
        if str_eq(arg.as_str(), "+") {
            return Ok((exec_args, true));
        }
        let ghost before = exec_args@;
        if str_eq(arg.as_str(), "{}") {
            exec_args.push(ExecArg::Placeholder);
        } else {
            exec_args.push(ExecArg::Literal(arg.clone()));
        }
        assert(args_view(exec_args@) =~= args_view(before).push(args_view(exec_args@).last()));
    }
}

// ---------------------------------------------------------------------------
// -printf formats
// ---------------------------------------------------------------------------

/// The token for a `\\c` escape.
pub open spec fn escape_token(c: char) -> TokenView {
    if c == 'n' {
        TokenView::Newline
    } else if c == 't' {
        TokenView::Tab
    } else if c == '0' {
        TokenView::NullChar
    } else if c == '\\' {
        TokenView::Backslash
    } else if c == 'a' {
        TokenView::Literal(seq!['\u{7}'])
    } else if c == 'b' {
        TokenView::Literal(seq!['\u{8}'])
    } else if c == 'f' {
        TokenView::Literal(seq!['\u{c}'])
    } else if c == 'r' {
        TokenView::Literal(seq!['\r'])
    } else if c == 'v' {
        TokenView::Literal(seq!['\u{b}'])
    } else {
        TokenView::Literal(seq!['\\', c])
    }
}

/// The token for a `%c` directive (other than `%A`, `%T`, `%C`).
pub open spec fn percent_token(c: char) -> TokenView {
    if c == '%' {
        TokenView::Percent
    } else if c == 'p' {
        TokenView::Path
    } else if c == 'f' {
        TokenView::Filename
    } else if c == 'h' {
        TokenView::ParentDir
    } else if c == 'd' {
        TokenView::Depth
    } else if c == 's' {
        TokenView::Size
    } else if c == 'k' {
        TokenView::SizeInBlocks
    } else if c == 'b' {
        TokenView::BlockSize
    } else if c == 'm' {
        TokenView::Permissions
    } else if c == 'M' {
        TokenView::PermSymbolic
    } else if c == 'n' {
        TokenView::Nlinks
    } else if c == 'u' {
        TokenView::User
    } else if c == 'g' {
        TokenView::Group
    } else if c == 'U' {
        TokenView::Uid
    } else if c == 'G' {
        TokenView::Gid
    } else if c == 'i' {
        TokenView::Inode
    } else if c == 'D' {
        TokenView::DeviceNumber
    } else if c == 'y' {
        TokenView::Type
    } else if c == 'l' {
        TokenView::LinkTarget
    } else if c == 'P' {
        TokenView::SparseName
    } else if c == 'H' {
        TokenView::StartingPoint
    } else if c == 'a' {
        TokenView::TimeAccess
    } else if c == 't' {
        TokenView::TimeModify
    } else if c == 'c' {
        TokenView::TimeChange
    } else {
        TokenView::Literal(seq!['%', c])
    }
}

/// The token for `%A`, `%T` or `%C` followed by `spec` (`@` for seconds).
pub open spec fn time_token(kind: char, spec: char) -> TokenView {
    if spec == '@' {
        if kind == 'A' {
            TokenView::TimeAccessSecs
        } else if kind == 'T' {
            TokenView::TimeModifySecs
        } else {
            TokenView::TimeChangeSecs
        }
    } else {
        if kind == 'A' {
            TokenView::TimeAccessFmt(seq![spec])
        } else if kind == 'T' {
            TokenView::TimeModifyFmt(seq![spec])
        } else {
            TokenView::TimeChangeFmt(seq![spec])
        }
    }
}

/// Length of the leading run without `%` or `\\`.
pub open spec fn literal_run(cs: Seq<char>) -> nat
    decreases cs.len(),
{
    if cs.len() == 0 || cs[0] == '%' || cs[0] == '\\' {
        0
    } else {
        1 + literal_run(cs.drop_first())
    }
}

proof fn lemma_literal_run(cs: Seq<char>, k: int)
    requires
        0 <= k <= cs.len(),
        forall|j: int| 0 <= j < k ==> cs[j] != '%' && cs[j] != '\\',
        k == cs.len() || cs[k] == '%' || cs[k] == '\\',
    ensures
        literal_run(cs) == k,
    decreases k,
{
    if k > 0 {
        lemma_literal_run(cs.drop_first(), k - 1);
    }
}

pub proof fn lemma_literal_run_bound(cs: Seq<char>)
    ensures
        literal_run(cs) <= cs.len(),
    decreases cs.len(),
{
    if cs.len() > 0 && cs[0] != '%' && cs[0] != '\\' {
        lemma_literal_run_bound(cs.drop_first());
    }
}

/// The tokens of a `-printf` format: backslash escapes, `%` directives
/// (`%A@`, `%Tx`, ... take one more character), and literal runs. A lone
/// trailing `\\` or `%` is literal; `%A`, `%T`, `%C` at the very end vanish.
pub open spec fn spec_parse_printf(cs: Seq<char>) -> Seq<TokenView>
    decreases cs.len(),
{
    if cs.len() == 0 {
        Seq::empty()
    } else if cs[0] == '\\' {
        if cs.len() == 1 {
            seq![TokenView::Literal(seq!['\\'])]
        } else {
            seq![escape_token(cs[1])] + spec_parse_printf(cs.skip(2))
        }
    } else if cs[0] == '%' {
        if cs.len() == 1 {
            seq![TokenView::Literal(seq!['%'])]
        } else if cs[1] == 'A' || cs[1] == 'T' || cs[1] == 'C' {
            if cs.len() == 2 {
                Seq::empty()
            } else {
                seq![time_token(cs[1], cs[2])] + spec_parse_printf(cs.skip(3))
            }
        } else {
            seq![percent_token(cs[1])] + spec_parse_printf(cs.skip(2))
        }
    } else {
        let n = literal_run(cs);
        proof {
            lemma_literal_run_bound(cs);
        }
        seq![TokenView::Literal(cs.take(n as int))] + spec_parse_printf(cs.skip(n as int))
    }
}

fn one_char(c: char) -> (s: String)
    ensures
        s@ == seq![c],
{
    let mut v: Vec<char> = Vec::new();
    v.push(c);
    string_from_chars(v.as_slice())
}

fn two_chars(c: char, d: char) -> (s: String)
    ensures
        s@ == seq![c, d],
{
    let mut v: Vec<char> = Vec::new();
    v.push(c);
    v.push(d);
    string_from_chars(v.as_slice())
}

fn escape_token_of(c: char) -> (t: PrintfToken)
    ensures
        token_view(t) == escape_token(c),
{
    match c {
        'n' => PrintfToken::Newline,
        't' => PrintfToken::Tab,
        '0' => PrintfToken::NullChar,
        '\\' => PrintfToken::Backslash,
        'a' => PrintfToken::Literal(one_char('\u{7}')),
        'b' => PrintfToken::Literal(one_char('\u{8}')),
        'f' => PrintfToken::Literal(one_char('\u{c}')),
        'r' => PrintfToken::Literal(one_char('\r')),
        'v' => PrintfToken::Literal(one_char('\u{b}')),
        _ => PrintfToken::Literal(two_chars('\\', c)),
    }
}

fn percent_token_of(c: char) -> (t: PrintfToken)
    ensures
        token_view(t) == percent_token(c),
{
    match c {
        '%' => PrintfToken::Percent,
        'p' => PrintfToken::Path,
        'f' => PrintfToken::Filename,
        'h' => PrintfToken::ParentDir,
        'd' => PrintfToken::Depth,
        's' => PrintfToken::Size,
        'k' => PrintfToken::SizeInBlocks,
        'b' => PrintfToken::BlockSize,
        'm' => PrintfToken::Permissions,
        'M' => PrintfToken::PermSymbolic,
        'n' => PrintfToken::Nlinks,
        'u' => PrintfToken::User,
        'g' => PrintfToken::Group,
        'U' => PrintfToken::Uid,
        'G' => PrintfToken::Gid,
        'i' => PrintfToken::Inode,
        'D' => PrintfToken::DeviceNumber,
        'y' => PrintfToken::Type,
        'l' => PrintfToken::LinkTarget,
        'P' => PrintfToken::SparseName,
        'H' => PrintfToken::StartingPoint,
        'a' => PrintfToken::TimeAccess,
        't' => PrintfToken::TimeModify,
        'c' => PrintfToken::TimeChange,
        _ => PrintfToken::Literal(two_chars('%', c)),
    }
}

fn time_token_of(kind: char, spec: char) -> (t: PrintfToken)
    ensures
        token_view(t) == time_token(kind, spec),
{
    if spec == '@' {
        if kind == 'A' {
            PrintfToken::TimeAccessSecs
        } else if kind == 'T' {
            PrintfToken::TimeModifySecs
        } else {
            PrintfToken::TimeChangeSecs
        }
    } else {
        let s = one_char(spec);
        if kind == 'A' {
            PrintfToken::TimeAccessFmt(s)
        } else if kind == 'T' {
            PrintfToken::TimeModifyFmt(s)
        } else {
            PrintfToken::TimeChangeFmt(s)
        }
    }
}

pub fn parse_printf(fmt: &str) -> (r: Result<Vec<PrintfToken>, String>)
    ensures
        r matches Ok(v) && tokens_view(v@) == spec_parse_printf(fmt@),
{
    let chars = chars_of(fmt);
    let mut tokens: Vec<PrintfToken> = Vec::new();
    let mut i: usize = 0;
    assert(chars@.skip(0) == chars@);
    while i < chars.len()
        invariant
            i <= chars@.len(),
            spec_parse_printf(chars@) == tokens_view(tokens@) + spec_parse_printf(
                chars@.skip(i as int),
            ),
        decreases chars@.len() - i,
    {
        let ghost rest = chars@.skip(i as int);
        let ghost before = tokens@;
        assert(rest[0] == chars@[i as int]);
        if chars[i] == '\\' {
            if i + 1 >= chars.len() {
                tokens.push(PrintfToken::Literal(one_char('\\')));
                assert(tokens_view(tokens@) =~= tokens_view(before) + seq![
                    TokenView::Literal(seq!['\\']),
                ]);
                assert(chars@.skip(chars@.len() as int) =~= Seq::<char>::empty());
                i = chars.len();
            } else {
                tokens.push(escape_token_of(chars[i + 1]));
                assert(rest[1] == chars@[i + 1]);
                assert(rest.skip(2) == chars@.skip(i + 2));
                assert(tokens_view(tokens@) =~= tokens_view(before) + seq![escape_token(rest[1])]);
                i += 2;
            }
        } else if chars[i] == '%' {
            if i + 1 >= chars.len() {
                tokens.push(PrintfToken::Literal(one_char('%')));
                assert(tokens_view(tokens@) =~= tokens_view(before) + seq![
                    TokenView::Literal(seq!['%']),
                ]);
                assert(chars@.skip(chars@.len() as int) =~= Seq::<char>::empty());
                i = chars.len();
            } else {
                let c = chars[i + 1];
                assert(rest[1] == c);
                if c == 'A' || c == 'T' || c == 'C' {
                    if i + 2 >= chars.len() {
                        assert(tokens_view(tokens@) =~= tokens_view(before) + Seq::<
                            TokenView,
                        >::empty());
                        assert(chars@.skip(chars@.len() as int) =~= Seq::<char>::empty());
                        i = chars.len();
                    } else {
                        tokens.push(time_token_of(c, chars[i + 2]));
                        assert(rest[2] == chars@[i + 2]);
                        assert(rest.skip(3) == chars@.skip(i + 3));
                        assert(tokens_view(tokens@) =~= tokens_view(before) + seq![
                            time_token(c, rest[2]),
                        ]);
                        i += 3;
                    }
                } else {
                    tokens.push(percent_token_of(c));
                    assert(rest.skip(2) == chars@.skip(i + 2));
                    assert(tokens_view(tokens@) =~= tokens_view(before) + seq![percent_token(c)]);
                    i += 2;
                }
            }
        } else {
            let start = i;
            let mut lit: Vec<char> = Vec::new();
            while i < chars.len() && chars[i] != '%' && chars[i] != '\\'
                invariant
                    start <= i <= chars@.len(),
                    lit@ == chars@.subrange(start as int, i as int),
                    forall|j: int| start <= j < i ==> chars@[j] != '%' && chars@[j] != '\\',
                decreases chars@.len() - i,
            {
                lit.push(chars[i]);
                i += 1;
                assert(lit@ == chars@.subrange(start as int, i as int));
            }
            proof {
                lemma_literal_run(rest, (i - start) as int);
            }
            assert(lit@ == rest.take((i - start) as int));
            assert(rest.skip((i - start) as int) == chars@.skip(i as int));
            tokens.push(PrintfToken::Literal(string_from_chars(lit.as_slice())));
            assert(tokens_view(tokens@) =~= tokens_view(before) + seq![
                TokenView::Literal(lit@),
            ]);
        }
    }
    assert(chars@.skip(i as int) =~= Seq::<char>::empty());
    assert(tokens_view(tokens@) + Seq::<TokenView>::empty() == tokens_view(tokens@));
    Ok(tokens)
}


// ---------------------------------------------------------------------------
// Reference files (-samefile, -newer, -anewer, -cnewer, -newerXY)
// ---------------------------------------------------------------------------

/// What the filesystem reports of a reference file (`std::fs::metadata`, which
/// follows symlinks): each timestamp or the text of the error reading it.
pub struct RefMetadata {
    pub modified: Result<Timestamp, String>,
    pub accessed: Result<Timestamp, String>,
    pub created: Result<Timestamp, String>,
    pub ctime: i64,
    pub dev: u64,
    pub ino: u64,
}

/// The answer to a request to stat a reference file.
pub enum RefStat {
    Found(RefMetadata),
    /// The text of the error from `std::fs::metadata`.
    Failed(String),
}


// ---------------------------------------------------------------------------
// The parser
// ---------------------------------------------------------------------------

/// Why parsing stopped: an error message, or the path of a reference file
/// whose metadata is needed before parsing can go on.
pub enum Stop {
    Fail(String),
    Stat(String),
}

/// The executable outcome `r` is the spec outcome `p`, with the cursor after it
/// at `pos`, `used` and `cfg`.
pub open spec fn outcome(
    r: Result<(Expr, bool), Stop>,
    p: Parsed,
    pos: usize,
    used: usize,
    cfg: ConfigView,
) -> bool {
    match r {
        Ok((e, a)) => p == Parsed::Node(e@, a, Cursor { pos: pos as int, used: used as int, cfg }),
        Err(Stop::Fail(m)) => p == Parsed::Fail(m@),
        Err(Stop::Stat(path)) => p == Parsed::Stat(path@),
    }
}

fn fail_with(m: &str) -> (r: Result<(Expr, bool), Stop>)
    ensures
        r matches Err(Stop::Fail(t)) && t@ == m@,
{
    Err(Stop::Fail(String::from_str(m)))
}

pub fn next_arg(args: &Vec<String>, i: &mut usize, opt: &str) -> (r: Result<String, String>)
    ensures
        *old(i) < args@.len() ==> (r matches Ok(v) && v@ == args@[*old(i) as int]@ && *final(i)
            == *old(i) + 1),
        *old(i) >= args@.len() ==> (r matches Err(m) && m@ == needs_arg(opt@) && *final(i)
            == *old(i)),
{
    if *i >= args.len() {
        return Err(concat2(opt, " requires an argument"));
    }
    let val = args[*i].clone();
    *i += 1;
    Ok(val)
}

fn regex_type_of(v: &str) -> (r: Option<RegexType>)
    ensures
        r == spec_regex_type(v@),
{
    if str_eq(v, "emacs") {
        Some(RegexType::Emacs)
    } else if str_eq(v, "posix-basic") {
        Some(RegexType::PosixBasic)
    } else if str_eq(v, "posix-extended") {
        Some(RegexType::PosixExtended)
    } else if str_eq(v, "grep") {
        Some(RegexType::Grep)
    } else if str_eq(v, "egrep") {
        Some(RegexType::Egrep)
    } else {
        None
    }
}

fn parse_options(args: &Vec<String>, i: &mut usize, used: usize, config: &mut Config, a: &str) -> (r:
    Option<Result<(Expr, bool), Stop>>)
    requires
        *old(i) <= args@.len(),
    ensures
        r is None <==> p_options(
            args@,
            a@,
            cursor_at(*old(i), used, old(config)@),
        ) is None,
        r matches Some(x) ==> outcome(
            x,
            p_options(
                args@,
                a@,
                cursor_at(*old(i), used, old(config)@),
            ).unwrap(),
            *final(i),
            used,
            final(config)@,
        ),
        r matches Some(Ok(_)) ==> *old(i) <= *final(i) <= args@.len(),
        r is None ==> *final(i) == *old(i) && *final(config) == *old(config),
        r matches Some(Err(_)) ==> final(config)@ == old(config)@,
{
    proof {
        reveal(p_options);
    }
    if str_eq(a, "-maxdepth") || str_eq(a, "-mindepth") {
        let is_max = str_eq(a, "-maxdepth");
        let val = match next_arg(args, i, if is_max { "-maxdepth" } else { "-mindepth" }) {
            Ok(v) => v,
            Err(m) => {
                return Some(Err(Stop::Fail(m)));
            },
        };
        let cs = chars_of(val.as_str());
        match parse_usize(cs.as_slice()) {
            Some(n) => {
                if is_max {
                    config.max_depth = Some(n);
                } else {
                    config.min_depth = n;
                }
                Some(Ok((Expr::True, false)))
            },
            None => Some(
                Err(
                    Stop::Fail(
                        concat3(
                            if is_max {
                                "-maxdepth: `"
                            } else {
                                "-mindepth: `"
                            },
                            val.as_str(),
                            "` is not a valid number",
                        ),
                    ),
                ),
            ),
        }
    } else if str_eq(a, "-depth") || str_eq(a, "-d") {
        config.depth_first = true;
        Some(Ok((Expr::True, false)))
    } else if str_eq(a, "-xdev") || str_eq(a, "-mount") {
        config.xdev = true;
        Some(Ok((Expr::True, false)))
    } else if str_eq(a, "-noleaf") {
        config.noleaf = true;
        Some(Ok((Expr::True, false)))
    } else if str_eq(a, "-ignore_readdir_race") {
        config.ignore_readdir_race = true;
        Some(Ok((Expr::True, false)))
    } else if str_eq(a, "-noignore_readdir_race") {
        config.ignore_readdir_race = false;
        Some(Ok((Expr::True, false)))
    } else if str_eq(a, "-warn") {
        config.warn = true;
        Some(Ok((Expr::True, false)))
    } else if str_eq(a, "-nowarn") {
        config.warn = false;
        Some(Ok((Expr::True, false)))
    } else if str_eq(a, "-daystart") {
        config.daystart = true;
        Some(Ok((Expr::True, false)))
    } else if str_eq(a, "-regextype") {
        let val = match next_arg(args, i, "-regextype") {
            Ok(v) => v,
            Err(m) => {
                return Some(Err(Stop::Fail(m)));
            },
        };
        match regex_type_of(val.as_str()) {
            Some(t) => {
                config.regex_type = t;
                Some(Ok((Expr::True, false)))
            },
            None => Some(
                Err(Stop::Fail(concat3("-regextype: unknown type `", val.as_str(), "`"))),
            ),
        }
    } else {
        None
    }
}

fn glob_test(args: &Vec<String>, i: &mut usize, used: usize, cfg: Ghost<ConfigView>, opt: &str, ci: bool, which: u8) -> (r: Result<(Expr, bool), Stop>)
    requires
        *old(i) <= args@.len(),
        which <= 5,
    ensures
        outcome(
            r,
            p_glob(args@, opt@, ci, which as int, cursor_at(*old(i), used, cfg@)),
            *final(i),
            used,
            cfg@,
        ),
        r is Ok ==> *old(i) <= *final(i) <= args@.len(),
{
    let val = match next_arg(args, i, opt) {
        Ok(v) => v,
        Err(m) => {
            return Err(Stop::Fail(m));
        },
    };
    match GlobPattern::new(val.as_str(), ci) {
        Ok(g) => {
            let e = if which == 0 {
                Expr::Name(g)
            } else if which == 1 {
                Expr::IName(g)
            } else if which == 2 {
                Expr::Path(g)
            } else if which == 3 {
                Expr::IPath(g)
            } else if which == 4 {
                Expr::LName(g)
            } else {
                Expr::ILName(g)
            };
            Ok((e, false))
        },
        Err(m) => Err(Stop::Fail(m)),
    }
}

fn regex_failure(opt: &str, v: &str, e: &str) -> (m: String)
    ensures
        m@ == opt@ + ": invalid regex `"@ + v@ + "`: "@ + e@,
{
    let p = concat3(opt, ": invalid regex `", v);
    concat3(p.as_str(), "`: ", e)
}

fn parse_text_tests(args: &Vec<String>, i: &mut usize, used: usize, cfg: Ghost<ConfigView>, a: &str) -> (r:
    Option<Result<(Expr, bool), Stop>>)
    requires
        *old(i) <= args@.len(),
    ensures
        r is None <==> p_text_tests(
            args@,
            a@,
            cursor_at(*old(i), used, cfg@),
        ) is None,
        r matches Some(x) ==> outcome(
            x,
            p_text_tests(
                args@,
                a@,
                cursor_at(*old(i), used, cfg@),
            ).unwrap(),
            *final(i),
            used,
            cfg@,
        ),
        r matches Some(Ok(_)) ==> *old(i) <= *final(i) <= args@.len(),
        r is None ==> *final(i) == *old(i),
{
    proof {
        reveal(p_text_tests);
    }
    if str_eq(a, "-true") {
        Some(Ok((Expr::True, false)))
    } else if str_eq(a, "-false") {
        Some(Ok((Expr::False, false)))
    } else if str_eq(a, "-name") {
        Some(glob_test(args, i, used, cfg, "-name", false, 0))
    } else if str_eq(a, "-iname") {
        Some(glob_test(args, i, used, cfg, "-iname", true, 1))
    } else if str_eq(a, "-path") || str_eq(a, "-wholename") {
        Some(glob_test(args, i, used, cfg, a, false, 2))
    } else if str_eq(a, "-ipath") || str_eq(a, "-iwholename") {
        Some(glob_test(args, i, used, cfg, a, true, 3))
    } else if str_eq(a, "-lname") {
        Some(glob_test(args, i, used, cfg, "-lname", false, 4))
    } else if str_eq(a, "-ilname") {
        Some(glob_test(args, i, used, cfg, "-ilname", true, 5))
    } else if str_eq(a, "-regex") || str_eq(a, "-iregex") {
        let plain = str_eq(a, "-regex");
        let opt = if plain {
            "-regex"
        } else {
            "-iregex"
        };
        let val = match next_arg(args, i, opt) {
            Ok(v) => v,
            Err(m) => {
                return Some(Err(Stop::Fail(m)));
            },
        };
        let src = if plain {
            String::from_str(val.as_str())
        } else {
            concat2("(?i)", val.as_str())
        };
        match RegexMatcher::new(src.as_str()) {
            Ok(m) => Some(
                Ok(
                    (
                        if plain {
                            Expr::Regex(m)
                        } else {
                            Expr::IRegex(m)
                        },
                        false,
                    ),
                ),
            ),
            Err(e) => Some(Err(Stop::Fail(regex_failure(a, val.as_str(), e.as_str())))),
        }
    } else if str_eq(a, "-type") || str_eq(a, "-xtype") {
        let val = match next_arg(args, i, a) {
            Ok(v) => v,
            Err(m) => {
                return Some(Err(Stop::Fail(m)));
            },
        };
        match parse_file_types(val.as_str()) {
            Ok(ts) => Some(
                Ok(
                    (
                        if str_eq(a, "-type") {
                            Expr::Type(ts)
                        } else {
                            Expr::XType(ts)
                        },
                        false,
                    ),
                ),
            ),
            Err(m) => Some(Err(Stop::Fail(m))),
        }
    } else if str_eq(a, "-size") {
        let val = match next_arg(args, i, "-size") {
            Ok(v) => v,
            Err(m) => {
                return Some(Err(Stop::Fail(m)));
            },
        };
        match parse_size(val.as_str()) {
            Ok((k, n, u)) => Some(Ok((Expr::Size { cmp: k, size: n, unit: u }, false))),
            Err(m) => Some(Err(Stop::Fail(m))),
        }
    } else if str_eq(a, "-empty") {
        Some(Ok((Expr::Empty, false)))
    } else if str_eq(a, "-perm") {
        let val = match next_arg(args, i, "-perm") {
            Ok(v) => v,
            Err(m) => {
                return Some(Err(Stop::Fail(m)));
            },
        };
        match parse_perm(val.as_str()) {
            Ok((mode, mt)) => Some(Ok((Expr::Perm { mode, match_type: mt }, false))),
            Err(m) => Some(Err(Stop::Fail(m))),
        }
    } else if str_eq(a, "-readable") {
        Some(Ok((Expr::Readable, false)))
    } else if str_eq(a, "-writable") {
        Some(Ok((Expr::Writable, false)))
    } else if str_eq(a, "-executable") {
        Some(Ok((Expr::Executable, false)))
    } else if str_eq(a, "-user") || str_eq(a, "-group") {
        let val = match next_arg(args, i, a) {
            Ok(v) => v,
            Err(m) => {
                return Some(Err(Stop::Fail(m)));
            },
        };
        Some(
            Ok(
                (
                    if str_eq(a, "-user") {
                        Expr::User(val)
                    } else {
                        Expr::Group(val)
                    },
                    false,
                ),
            ),
        )
    } else if str_eq(a, "-nouser") {
        Some(Ok((Expr::NoUser, false)))
    } else if str_eq(a, "-nogroup") {
        Some(Ok((Expr::NoGroup, false)))
    } else if str_eq(a, "-fstype") {
        let val = match next_arg(args, i, "-fstype") {
            Ok(v) => v,
            Err(m) => {
                return Some(Err(Stop::Fail(m)));
            },
        };
        Some(Ok((Expr::FsType(val), false)))
    } else {
        None
    }
}

fn numeric_index(a: &str) -> (r: Option<u8>)
    ensures
        r matches Some(w) ==> numeric_test_index(a@) == Some(w as int) && w <= 10,
        r is None ==> numeric_test_index(a@) is None,
{
    if str_eq(a, "-uid") {
        Some(0)
    } else if str_eq(a, "-gid") {
        Some(1)
    } else if str_eq(a, "-links") {
        Some(2)
    } else if str_eq(a, "-inum") {
        Some(3)
    } else if str_eq(a, "-mtime") {
        Some(4)
    } else if str_eq(a, "-mmin") {
        Some(5)
    } else if str_eq(a, "-atime") {
        Some(6)
    } else if str_eq(a, "-amin") {
        Some(7)
    } else if str_eq(a, "-ctime") {
        Some(8)
    } else if str_eq(a, "-cmin") {
        Some(9)
    } else if str_eq(a, "-used") {
        Some(10)
    } else {
        None
    }
}

fn numeric_expr(which: u8, k: Cmp, n: i64) -> (e: Expr)
    requires
        which <= 10,
    ensures
        e@ == numeric_test(which as int, k, n),
{
    if which == 0 {
        Expr::Uid(k, wrap_u64(n))
    } else if which == 1 {
        Expr::Gid(k, wrap_u64(n))
    } else if which == 2 {
        Expr::Links(k, wrap_u64(n))
    } else if which == 3 {
        Expr::Inum(k, wrap_u64(n))
    } else if which == 4 {
        Expr::MTime(k, n)
    } else if which == 5 {
        Expr::MMin(k, n)
    } else if which == 6 {
        Expr::ATime(k, n)
    } else if which == 7 {
        Expr::AMin(k, n)
    } else if which == 8 {
        Expr::CTime(k, n)
    } else if which == 9 {
        Expr::CMin(k, n)
    } else {
        Expr::Used(k, n)
    }
}

fn parse_numeric_tests(args: &Vec<String>, i: &mut usize, used: usize, cfg: Ghost<ConfigView>, a: &str) -> (r:
    Option<Result<(Expr, bool), Stop>>)
    requires
        *old(i) <= args@.len(),
    ensures
        r is None <==> p_numeric_tests(
            args@,
            a@,
            cursor_at(*old(i), used, cfg@),
        ) is None,
        r matches Some(x) ==> outcome(
            x,
            p_numeric_tests(
                args@,
                a@,
                cursor_at(*old(i), used, cfg@),
            ).unwrap(),
            *final(i),
            used,
            cfg@,
        ),
        r matches Some(Ok(_)) ==> *old(i) <= *final(i) <= args@.len(),
        r is None ==> *final(i) == *old(i),
{
    proof {
        reveal(p_numeric_tests);
    }
    let which = match numeric_index(a) {
        Some(w) => w,
        None => {
            return None;
        },
    };
    let val = match next_arg(args, i, a) {
        Ok(v) => v,
        Err(m) => {
            return Some(Err(Stop::Fail(m)));
        },
    };
    match parse_cmp(val.as_str()) {
        Ok((k, n)) => Some(Ok((numeric_expr(which, k, n), false))),
        Err(m) => Some(Err(Stop::Fail(m))),
    }
}

fn reference(
    stats: &Vec<RefStat>,
    used: &mut usize,
    a: &str,
    v: String,
    x: TimeRef,
    y: TimeRef,
    pos: usize,
    cfg: Ghost<ConfigView>,
) -> (r: Result<(Expr, bool), Stop>)
    ensures
        outcome(
            r,
            p_reference(
                stats@,
                a@,
                v@,
                cursor_at(pos, *old(used), cfg@),
                x,
                y,
            ),
            pos,
            *final(used),
            cfg@,
        ),
{
    proof {
        reveal(p_reference);
    }
    if *used >= stats.len() {
        return Err(Stop::Stat(v));
    }
    let st = &stats[*used];
    *used += 1;
    match st {
        RefStat::Failed(e) => {
            if str_eq(a, "-samefile") {
                Err(Stop::Fail(concat4("-samefile: cannot stat `", v.as_str(), "`: ", e.as_str())))
            } else if str_eq(a, "-newer") || str_eq(a, "-anewer") || str_eq(a, "-cnewer") {
                Err(
                    Stop::Fail(
                        concat4("cannot get modification time of `", v.as_str(), "`: ", e.as_str()),
                    ),
                )
            } else {
                Err(Stop::Fail(concat4("cannot stat `", v.as_str(), "`: ", e.as_str())))
            }
        },
        RefStat::Found(m) => {
            if str_eq(a, "-samefile") {
                Ok((Expr::SameFile { dev: m.dev, ino: m.ino }, false))
            } else if str_eq(a, "-newer") || str_eq(a, "-anewer") || str_eq(a, "-cnewer") {
                match &m.modified {
                    Ok(t) => Ok(
                        (
                            if str_eq(a, "-newer") {
                                Expr::Newer(*t)
                            } else if str_eq(a, "-anewer") {
                                Expr::ANewerM(*t)
                            } else {
                                Expr::CNewerM(*t)
                            },
                            false,
                        ),
                    ),
                    Err(e) => Err(
                        Stop::Fail(
                            concat4(
                                "cannot get modification time of `",
                                v.as_str(),
                                "`: ",
                                e.as_str(),
                            ),
                        ),
                    ),
                }
            } else {
                let t = match y {
                    TimeRef::Modify => match &m.modified {
                        Ok(t) => *t,
                        Err(e) => {
                            return Err(
                                Stop::Fail(concat2("cannot get modification time: ", e.as_str())),
                            );
                        },
                    },
                    TimeRef::Access => match &m.accessed {
                        Ok(t) => *t,
                        Err(e) => {
                            return Err(Stop::Fail(concat2("cannot get access time: ", e.as_str())));
                        },
                    },
                    TimeRef::Change => if m.ctime >= 0 {
                        Timestamp { secs: m.ctime, nanos: 0 }
                    } else {
                        return Err(Stop::Fail(String::from_str("cannot get change time: it is before the epoch")));
                    },
                    TimeRef::Birth => match &m.created {
                        Ok(t) => *t,
                        Err(e) => {
                            return Err(Stop::Fail(concat2("cannot get birth time: ", e.as_str())));
                        },
                    },
                };
                Ok((Expr::NewerXY { x, y, reference: t }, false))
            }
        },
    }
}

fn newer_xy_letters(a: &str) -> (r: Option<Vec<char>>)
    ensures
        r is Some <==> is_newer_xy(a@),
        r matches Some(v) ==> v@ == a@.skip(6),
{
    let cs = chars_of(a);
    if cs.len() >= 6 && cs[0] == '-' && cs[1] == 'n' && cs[2] == 'e' && cs[3] == 'w' && cs[4] == 'e'
        && cs[5] == 'r' && a.as_bytes().len() >= 8 {
        let mut v: Vec<char> = Vec::new();
        let mut k: usize = 6;
        while k < cs.len()
            invariant
                6 <= k <= cs@.len(),
                v@ == cs@.subrange(6, k as int),
            decreases cs@.len() - k,
        {
            v.push(cs[k]);
            k += 1;
            assert(v@ == cs@.subrange(6, k as int));
        }
        assert(v@ =~= a@.skip(6));
        Some(v)
    } else {
        None
    }
}

fn parse_reference_tests(
    args: &Vec<String>,
    stats: &Vec<RefStat>,
    i: &mut usize,
    used: &mut usize,
    cfg: Ghost<ConfigView>,
    a: &str,
) -> (r: Option<Result<(Expr, bool), Stop>>)
    requires
        *old(i) <= args@.len(),
    ensures
        r is None <==> p_reference_tests(
            args@,
            stats@,
            a@,
            cursor_at(*old(i), *old(used), cfg@),
        ) is None,
        r matches Some(x) ==> outcome(
            x,
            p_reference_tests(
                args@,
                stats@,
                a@,
                cursor_at(*old(i), *old(used), cfg@),
            ).unwrap(),
            *final(i),
            *final(used),
            cfg@,
        ),
        r matches Some(Ok(_)) ==> *old(i) <= *final(i) <= args@.len(),
        r is None ==> *final(i) == *old(i) && *final(used) == *old(used),
{
    proof {
        reveal(p_reference_tests);
    }
    if str_eq(a, "-samefile") || str_eq(a, "-newer") || str_eq(a, "-anewer") || str_eq(a, "-cnewer") {
        let val = match next_arg(args, i, a) {
            Ok(v) => v,
            Err(m) => {
                return Some(Err(Stop::Fail(m)));
            },
        };
        return Some(reference(stats, used, a, val, TimeRef::Modify, TimeRef::Modify, *i, cfg));
    }
    let xy = match newer_xy_letters(a) {
        Some(v) => v,
        None => {
            return None;
        },
    };
    if xy.len() != 2 {
        return Some(Err(Stop::Fail(concat3("unknown option: `", a, "`"))));
    }
    let x = match parse_time_ref(xy[0]) {
        Some(x) => x,
        None => {
            return Some(
                Err(
                    Stop::Fail(
                        concat3(
                            "-newerXY: unknown time reference `",
                            one_char(xy[0]).as_str(),
                            "`",
                        ),
                    ),
                ),
            );
        },
    };
    let y = match parse_time_ref(xy[1]) {
        Some(y) => y,
        None => {
            return Some(
                Err(
                    Stop::Fail(
                        concat3(
                            "-newerXY: unknown time reference `",
                            one_char(xy[1]).as_str(),
                            "`",
                        ),
                    ),
                ),
            );
        },
    };
    let val = match next_arg(args, i, a) {
        Ok(v) => v,
        Err(m) => {
            return Some(Err(Stop::Fail(m)));
        },
    };
    Some(reference(stats, used, a, val, x, y, *i, cfg))
}

fn parse_commands(args: &Vec<String>, i: &mut usize, used: usize, cfg: Ghost<ConfigView>, a: &str) -> (r:
    Option<Result<(Expr, bool), Stop>>)
    requires
        *old(i) <= args@.len(),
    ensures
        r is None <==> p_commands(
            args@,
            a@,
            cursor_at(*old(i), used, cfg@),
        ) is None,
        r matches Some(x) ==> outcome(
            x,
            p_commands(
                args@,
                a@,
                cursor_at(*old(i), used, cfg@),
            ).unwrap(),
            *final(i),
            used,
            cfg@,
        ),
        r matches Some(Ok(_)) ==> *old(i) <= *final(i) <= args@.len(),
        r is None ==> *final(i) == *old(i),
{
    proof {
        reveal(p_commands);
    }
    if !(str_eq(a, "-exec") || str_eq(a, "-execdir") || str_eq(a, "-ok") || str_eq(a, "-okdir")) {
        return None;
    }
    let (words, batch) = match parse_exec_args(args, i, a) {
        Ok(x) => x,
        Err(m) => {
            return Some(Err(Stop::Fail(m)));
        },
    };
    if str_eq(a, "-exec") {
        Some(Ok((Expr::Exec { args: words, batch }, true)))
    } else if str_eq(a, "-execdir") {
        Some(Ok((Expr::ExecDir { args: words, batch }, true)))
    } else if batch {
        Some(Err(Stop::Fail(concat2(a, ": only `;` terminator is supported, not `+`"))))
    } else if str_eq(a, "-ok") {
        Some(Ok((Expr::OkPrompt { args: words }, true)))
    } else {
        Some(Ok((Expr::OkDir { args: words }, true)))
    }
}

fn printf_tokens(fmt: &str) -> (v: Vec<PrintfToken>)
    ensures
        tokens_view(v@) == spec_parse_printf(fmt@),
{
    match parse_printf(fmt) {
        Ok(v) => v,
        Err(_) => Vec::new(),
    }
}

fn parse_actions(args: &Vec<String>, i: &mut usize, used: usize, config: &mut Config, a: &str) -> (r:
    Option<Result<(Expr, bool), Stop>>)
    requires
        *old(i) <= args@.len(),
    ensures
        r is None <==> p_actions(
            args@,
            a@,
            cursor_at(*old(i), used, old(config)@),
        ) is None,
        r matches Some(x) ==> outcome(
            x,
            p_actions(
                args@,
                a@,
                cursor_at(*old(i), used, old(config)@),
            ).unwrap(),
            *final(i),
            used,
            final(config)@,
        ),
        r matches Some(Ok(_)) ==> *old(i) <= *final(i) <= args@.len(),
        r is None ==> *final(i) == *old(i) && *final(config) == *old(config),
        r matches Some(Err(_)) ==> final(config)@ == old(config)@,
{
    proof {
        reveal(p_actions);
    }
    if str_eq(a, "-print") {
        Some(Ok((Expr::Print, true)))
    } else if str_eq(a, "-print0") {
        Some(Ok((Expr::Print0, true)))
    } else if str_eq(a, "-printf") {
        let val = match next_arg(args, i, "-printf") {
            Ok(v) => v,
            Err(m) => {
                return Some(Err(Stop::Fail(m)));
            },
        };
        Some(Ok((Expr::Printf(printf_tokens(val.as_str())), true)))
    } else if str_eq(a, "-ls") {
        Some(Ok((Expr::Ls, true)))
    } else if str_eq(a, "-fprint") || str_eq(a, "-fprint0") || str_eq(a, "-fls") {
        let val = match next_arg(args, i, a) {
            Ok(v) => v,
            Err(m) => {
                return Some(Err(Stop::Fail(m)));
            },
        };
        Some(
            Ok(
                (
                    if str_eq(a, "-fprint") {
                        Expr::FPrint(val)
                    } else if str_eq(a, "-fprint0") {
                        Expr::FPrint0(val)
                    } else {
                        Expr::FLs(val)
                    },
                    true,
                ),
            ),
        )
    } else if str_eq(a, "-fprintf") {
        let file = match next_arg(args, i, "-fprintf") {
            Ok(v) => v,
            Err(m) => {
                return Some(Err(Stop::Fail(m)));
            },
        };
        let fmt = match next_arg(args, i, "-fprintf") {
            Ok(v) => v,
            Err(m) => {
                return Some(Err(Stop::Fail(m)));
            },
        };
        Some(Ok((Expr::FPrintf(file, printf_tokens(fmt.as_str())), true)))
    } else if str_eq(a, "-delete") {
        config.depth_first = true;
        Some(Ok((Expr::Delete, true)))
    } else if str_eq(a, "-prune") {
        Some(Ok((Expr::Prune, false)))
    } else if str_eq(a, "-quit") {
        Some(Ok((Expr::Quit, true)))
    } else {
        None
    }
}

/// Parse a primary expression (test, action, or option)
fn parse_primary(
    args: &Vec<String>,
    stats: &Vec<RefStat>,
    i: &mut usize,
    used: &mut usize,
    config: &mut Config,
) -> (r: Result<(Expr, bool), Stop>)
    ensures
        outcome(
            r,
            p_primary(
                args@,
                stats@,
                cursor_at(*old(i), *old(used), old(config)@),
            ),
            *final(i),
            *final(used),
            final(config)@,
        ),
        r is Ok ==> *old(i) < *final(i) <= args@.len(),
        r is Err ==> final(config)@ == old(config)@,
        r matches Ok((e, flag)) ==> flag == spec_has_action(e@),
{
    proof {
        lemma_primary_action(args@, stats@, cursor_at(*i, *used, config@));
    }
    if *i >= args.len() {
        return fail_with("expected expression");
    }
    let arg = args[*i].clone();
    *i += 1;
    let a = arg.as_str();
    if str_eq(a, "--version") || str_eq(a, "-version") {
        return fail_with(VERSION_SENTINEL);
    }
    if str_eq(a, "--help") || str_eq(a, "-help") {
        return fail_with(HELP_SENTINEL);
    }
    let ghost cfg0 = config@;
    match parse_options(args, i, *used, config, a) {
        Some(x) => {
            return x;
        },
        None => {},
    }
    match parse_text_tests(args, i, *used, Ghost(config@), a) {
        Some(x) => {
            return x;
        },
        None => {},
    }
    match parse_numeric_tests(args, i, *used, Ghost(config@), a) {
        Some(x) => {
            return x;
        },
        None => {},
    }
    match parse_reference_tests(args, stats, i, used, Ghost(config@), a) {
        Some(x) => {
            return x;
        },
        None => {},
    }
    match parse_actions(args, i, *used, config, a) {
        Some(x) => {
            return x;
        },
        None => {},
    }
    match parse_commands(args, i, *used, Ghost(config@), a) {
        Some(x) => {
            return x;
        },
        None => {},
    }
    Err(Stop::Fail(concat3("unknown option: `", a, "`")))
}

/// Parse unary expression: ! expr or ( expr )
fn parse_unary(
    args: &Vec<String>,
    stats: &Vec<RefStat>,
    i: &mut usize,
    used: &mut usize,
    config: &mut Config,
) -> (r: Result<(Expr, bool), Stop>)
    requires
        *old(i) <= args@.len(),
    ensures
        outcome(
            r,
            p_unary(
                args@,
                stats@,
                cursor_at(*old(i), *old(used), old(config)@),
            ),
            *final(i),
            *final(used),
            final(config)@,
        ),
        r is Ok ==> *old(i) < *final(i) <= args@.len(),
    decreases args@.len() - *old(i), 1nat,
{
    if *i >= args.len() {
        return fail_with("expected expression");
    }
    if str_eq(args[*i].as_str(), "!") || str_eq(args[*i].as_str(), "-not") {
        *i += 1;
        let (e, act) = parse_unary(args, stats, i, used, config)?;
        return Ok((Expr::Not(Box::new(e)), act));
    }
    if str_eq(args[*i].as_str(), "(") {
        *i += 1;
        let (e, act) = parse_or(args, stats, i, used, config)?;
        if *i >= args.len() || !str_eq(args[*i].as_str(), ")") {
            return fail_with("missing closing `)`");
        }
        *i += 1;
        return Ok((e, act));
    }
    parse_primary(args, stats, i, used, config)
}

/// Parse AND expression: expr1 [-a] expr2
fn parse_and(
    args: &Vec<String>,
    stats: &Vec<RefStat>,
    i: &mut usize,
    used: &mut usize,
    config: &mut Config,
) -> (r: Result<(Expr, bool), Stop>)
    requires
        *old(i) <= args@.len(),
    ensures
        outcome(
            r,
            p_and(
                args@,
                stats@,
                cursor_at(*old(i), *old(used), old(config)@),
            ),
            *final(i),
            *final(used),
            final(config)@,
        ),
        r is Ok ==> *old(i) < *final(i) <= args@.len(),
    decreases args@.len() - *old(i), 2nat,
{
    let ghost i0 = *i;
    let (first, mut has_act) = parse_unary(args, stats, i, used, config)?;
    let mut exprs: Vec<Expr> = Vec::new();
    exprs.push(first);
    proof {
        lemma_exprs_view(exprs@);
        assert(exprs_view(exprs@) =~= seq![exprs@[0]@]);
    }
    loop
        invariant_except_break
            p_and(args@, stats@, cursor_at(i0, *old(used), old(config)@)) == p_and_tail(
                args@,
                stats@,
                exprs_view(exprs@),
                has_act,
                cursor_at(*i, *used, config@),
            ),
        invariant
            i0 == *old(i),
            i0 < *i <= args@.len(),
            exprs@.len() >= 1,
        ensures
            p_and(args@, stats@, cursor_at(i0, *old(used), old(config)@)) == Parsed::Node(
                gather(exprs_view(exprs@), 0),
                has_act,
                cursor_at(*i, *used, config@),
            ),
        decreases args@.len() - *i,
    {
        let mut p1 = *i;
        if p1 < args.len() && (str_eq(args[p1].as_str(), "-a") || str_eq(args[p1].as_str(), "-and")) {
            p1 += 1;
        }
        if p1 >= args.len() || str_eq(args[p1].as_str(), "-o") || str_eq(args[p1].as_str(), "-or")
            || str_eq(args[p1].as_str(), ")") || str_eq(args[p1].as_str(), ",") {
            *i = p1;
            break;
        }
        *i = p1;
        let ghost before = exprs@;
        let (next, act) = parse_unary(args, stats, i, used, config)?;
        has_act = has_act || act;
        exprs.push(next);
        proof {
            lemma_exprs_view(exprs@);
            lemma_exprs_view(before);
            assert(exprs_view(exprs@) =~= exprs_view(before).push(exprs@.last()@));
        }
    }
    proof {
        lemma_exprs_view(exprs@);
    }
    if exprs.len() == 1 {
        let e = exprs.pop().unwrap();
        Ok((e, has_act))
    } else {
        Ok((Expr::And(exprs), has_act))
    }
}

/// Parse comma (list) expression: expr1 , expr2
fn parse_list(
    args: &Vec<String>,
    stats: &Vec<RefStat>,
    i: &mut usize,
    used: &mut usize,
    config: &mut Config,
) -> (r: Result<(Expr, bool), Stop>)
    requires
        *old(i) <= args@.len(),
    ensures
        outcome(
            r,
            p_list(
                args@,
                stats@,
                cursor_at(*old(i), *old(used), old(config)@),
            ),
            *final(i),
            *final(used),
            final(config)@,
        ),
        r is Ok ==> *old(i) < *final(i) <= args@.len(),
    decreases args@.len() - *old(i), 3nat,
{
    let ghost i0 = *i;
    let (first, mut has_act) = parse_and(args, stats, i, used, config)?;
    let mut exprs: Vec<Expr> = Vec::new();
    exprs.push(first);
    proof {
        lemma_exprs_view(exprs@);
        assert(exprs_view(exprs@) =~= seq![exprs@[0]@]);
    }
    while *i < args.len() && str_eq(args[*i].as_str(), ",")
        invariant
            i0 == *old(i),
            i0 < *i <= args@.len(),
            exprs@.len() >= 1,
            p_list(args@, stats@, cursor_at(i0, *old(used), old(config)@))
                == p_list_tail(
                args@,
                stats@,
                exprs_view(exprs@),
                has_act,
                cursor_at(*i, *used, config@),
            ),
        decreases args@.len() - *i,
    {
        *i += 1;
        let ghost before = exprs@;
        let (next, act) = parse_and(args, stats, i, used, config)?;
        has_act = has_act || act;
        exprs.push(next);
        proof {
            lemma_exprs_view(exprs@);
            lemma_exprs_view(before);
            assert(exprs_view(exprs@) =~= exprs_view(before).push(exprs@.last()@));
        }
    }
    proof {
        lemma_exprs_view(exprs@);
    }
    if exprs.len() == 1 {
        let e = exprs.pop().unwrap();
        Ok((e, has_act))
    } else {
        Ok((Expr::List(exprs), has_act))
    }
}

/// Parse OR expression: expr1 -o expr2
fn parse_or(
    args: &Vec<String>,
    stats: &Vec<RefStat>,
    i: &mut usize,
    used: &mut usize,
    config: &mut Config,
) -> (r: Result<(Expr, bool), Stop>)
    requires
        *old(i) <= args@.len(),
    ensures
        outcome(
            r,
            p_or(
                args@,
                stats@,
                cursor_at(*old(i), *old(used), old(config)@),
            ),
            *final(i),
            *final(used),
            final(config)@,
        ),
        r is Ok ==> *old(i) < *final(i) <= args@.len(),
    decreases args@.len() - *old(i), 4nat,
{
    let ghost i0 = *i;
    let (first, mut has_act) = parse_list(args, stats, i, used, config)?;
    let mut exprs: Vec<Expr> = Vec::new();
    exprs.push(first);
    proof {
        lemma_exprs_view(exprs@);
        assert(exprs_view(exprs@) =~= seq![exprs@[0]@]);
    }
    while *i < args.len() && (str_eq(args[*i].as_str(), "-o") || str_eq(args[*i].as_str(), "-or"))
        invariant
            i0 == *old(i),
            i0 < *i <= args@.len(),
            exprs@.len() >= 1,
            p_or(args@, stats@, cursor_at(i0, *old(used), old(config)@))
                == p_or_tail(
                args@,
                stats@,
                exprs_view(exprs@),
                has_act,
                cursor_at(*i, *used, config@),
            ),
        decreases args@.len() - *i,
    {
        *i += 1;
        let ghost before = exprs@;
        let (next, act) = parse_list(args, stats, i, used, config)?;
        has_act = has_act || act;
        exprs.push(next);
        proof {
            lemma_exprs_view(exprs@);
            lemma_exprs_view(before);
            assert(exprs_view(exprs@) =~= exprs_view(before).push(exprs@.last()@));
        }
    }
    proof {
        lemma_exprs_view(exprs@);
    }
    if exprs.len() == 1 {
        let e = exprs.pop().unwrap();
        Ok((e, has_act))
    } else {
        Ok((Expr::Or(exprs), has_act))
    }
}


/// The leading `-H`, `-L`, `-P` options: where they end and the symlink mode
/// the last of them sets.
fn leading_symlink_options(args: &Vec<String>) -> (r: (usize, SymlinkMode))
    ensures
        leading_options(args@, 0, SymlinkMode::Never) == (r.0 as int, r.1),
        r.0 <= args@.len(),
{
    let mut mode = SymlinkMode::Never;
    let mut i: usize = 0;
    while i < args.len()
        invariant
            i <= args@.len(),
            leading_options(args@, 0, SymlinkMode::Never) == leading_options(args@, i as int, mode),
        ensures
            i <= args@.len(),
            leading_options(args@, 0, SymlinkMode::Never) == (i as int, mode),
        decreases args@.len() - i,
    {
        if str_eq(args[i].as_str(), "-H") {
            mode = SymlinkMode::CommandLine;
        } else if str_eq(args[i].as_str(), "-L") {
            mode = SymlinkMode::Always;
        } else if str_eq(args[i].as_str(), "-P") {
            mode = SymlinkMode::Never;
        } else {
            break;
        }
        i += 1;
    }
    (i, mode)
}

/// The run of starting points from `p0`: where it ends, and the paths.
fn starting_points(args: &Vec<String>, p0: usize) -> (r: (usize, Vec<String>))
    requires
        p0 <= args@.len(),
    ensures
        r.0 as int == paths_end(args@, p0 as int),
        p0 <= r.0 <= args@.len(),
        strings_view(r.1@) == strings_view(args@.subrange(p0 as int, r.0 as int)),
{
    let mut i = p0;
    let mut paths: Vec<String> = Vec::new();
    while i < args.len()
        invariant
            p0 <= i <= args@.len(),
            paths_end(args@, p0 as int) == paths_end(args@, i as int),
            strings_view(paths@) == strings_view(args@.subrange(p0 as int, i as int)),
        ensures
            p0 <= i <= args@.len(),
            paths_end(args@, p0 as int) == i as int,
            strings_view(paths@) == strings_view(args@.subrange(p0 as int, i as int)),
        decreases args@.len() - i,
    {
        let arg = &args[i];
        let cs = chars_of(arg.as_str());
        if (cs.len() > 0 && cs[0] == '-') || str_eq(arg.as_str(), "(") || str_eq(arg.as_str(), ")")
            || str_eq(arg.as_str(), "!") || str_eq(arg.as_str(), ",") {
            break;
        }
        let ghost before = paths@;
        paths.push(arg.clone());
        proof {
            assert(args@.subrange(p0 as int, i + 1) =~= args@.subrange(p0 as int, i as int).push(
                args@[i as int],
            ));
            assert(strings_view(paths@) =~= strings_view(before).push(args@[i as int]@));
            assert(strings_view(args@.subrange(p0 as int, i + 1)) =~= strings_view(
                args@.subrange(p0 as int, i as int),
            ).push(args@[i as int]@));
        }
        i += 1;
    }
    (i, paths)
}

/// One step of parsing a command line: the result, or the path of a reference
/// file to stat (its answer is then added to the list and `parse` called again).
pub enum ParseStep {
    Done(Result<Config, String>),
    NeedStat(String),
}

/// Parse GNU find-style arguments into a Config. `stats` holds, in order, the
/// metadata of the reference files asked for so far.
pub fn parse(args: &Vec<String>, stats: &Vec<RefStat>) -> (r: ParseStep)
    ensures
        r matches ParseStep::Done(Ok(c)) ==> spec_parse(args@, stats@) == TopParsed::Config(c@),
        r matches ParseStep::Done(Err(m)) ==> spec_parse(args@, stats@) == TopParsed::Fail(m@),
        r matches ParseStep::NeedStat(p) ==> spec_parse(args@, stats@) == TopParsed::Stat(p@),
{
    let mut config = Config::default();
    let (p0, mode) = leading_symlink_options(args);
    config.symlink_mode = mode;
    let (p1, paths) = starting_points(args, p0);
    assert(paths@.len() == strings_view(paths@).len());
    if paths.len() > 0 {
        config.paths = paths;
    }
    let ghost cfg0 = config@;
    assert(cfg0.paths == (if p1 > p0 {
            strings_view(args@.subrange(p0 as int, p1 as int))
        } else {
            seq![seq!['.']]
        }));
    assert(cfg0 == (ConfigView {
        paths: if p1 > p0 {
            strings_view(args@.subrange(p0 as int, p1 as int))
        } else {
            seq![seq!['.']]
        },
        symlink_mode: mode,
        ..default_config_view()
    }));
    if p1 >= args.len() {
        config.expr = Expr::Print;
        return ParseStep::Done(Ok(config));
    }
    let mut i = p1;
    let mut used: usize = 0;
    match parse_or(args, stats, &mut i, &mut used, &mut config) {
        Ok((expr, has_action_flag)) => {
            if i < args.len() {
                return ParseStep::Done(
                    Err(concat3("unexpected argument: `", args[i].as_str(), "`")),
                );
            }
            if has_action_flag {
                config.expr = expr;
            } else {
                let mut both: Vec<Expr> = Vec::new();
                both.push(expr);
                both.push(Expr::Print);
                proof {
                    lemma_exprs_view(both@);
                    assert(exprs_view(both@) =~= seq![both@[0]@, ExprView::Print]);
                }
                config.expr = Expr::And(both);
            }
            ParseStep::Done(Ok(config))
        },
        Err(Stop::Fail(m)) => ParseStep::Done(Err(m)),
        Err(Stop::Stat(p)) => ParseStep::NeedStat(p),
    }
}

} // verus!
