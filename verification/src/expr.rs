//! The expression tree, its building blocks, and the global configuration.
use vstd::prelude::*;
use vstd::utf8::*;

use crate::text::{
    bytes_of, bytes_of_chars, chars_contain, chars_of, concat2, concat3, ends_with, parse_i64, push_str,
    slice_ends_with, slice_eq, slice_starts_with, spec_parse_i64, starts_with, string_from_chars,
    utf8_str,
};

verus! {

// ---------------------------------------------------------------------------
// Numeric comparisons
// ---------------------------------------------------------------------------

/// Numeric comparison: +n, -n, or n
#[derive(Debug, Clone, Copy, PartialEq, Eq, Structural)]
pub enum Cmp {
    Greater,
    Equal,
    Less,
}

impl Cmp {
    /// `actual` compared with `target` the way the comparison prescribes.
    pub open spec fn spec_matches(self, actual: int, target: int) -> bool {
        match self {
            Cmp::Greater => actual > target,
            Cmp::Less => actual < target,
            Cmp::Equal => actual == target,
        }
    }

    #[inline]
    pub fn matches(self, actual: i64, target: i64) -> (r: bool)
        ensures
            r == self.spec_matches(actual as int, target as int),
    {
        match self {
            Cmp::Greater => actual > target,
            Cmp::Less => actual < target,
            Cmp::Equal => actual == target,
        }
    }

    #[inline]
    pub fn matches_u64(self, actual: u64, target: u64) -> (r: bool)
        ensures
            r == self.spec_matches(actual as int, target as int),
    {
        match self {
            Cmp::Greater => actual > target,
            Cmp::Less => actual < target,
            Cmp::Equal => actual == target,
        }
    }
}

/// Absolute value as release builds compute it for `i64`: the minimum stays itself.
pub open spec fn wrapping_abs(n: i64) -> i64 {
    if n == i64::MIN {
        n
    } else if n < 0 {
        (-n) as i64
    } else {
        n
    }
}

/// The `i64` that std's `i64::from_str` reads from `s`, if any.
pub open spec fn spec_i64_of(s: Seq<char>) -> Option<i64> {
    match spec_parse_i64(s) {
        Some(v) => Some(v as i64),
        None => None,
    }
}

/// The message for a malformed numeric argument.
pub open spec fn invalid_number_message(s: Seq<char>) -> Seq<char> {
    "invalid number: `"@ + s + "`"@
}

/// What `parse_cmp` gives for `s`: `+n` is "greater than n", `-n` is "less than
/// n", and a bare `n` is "exactly n".
pub open spec fn spec_parse_cmp(s: Seq<char>) -> Result<(Cmp, i64), Seq<char>> {
    if s.len() > 0 && s[0] == '+' {
        match spec_i64_of(s.drop_first()) {
            Some(n) => Ok((Cmp::Greater, n)),
            None => Err(invalid_number_message(s)),
        }
    } else if s.len() > 0 && s[0] == '-' {
        match spec_i64_of(s) {
            Some(n) => Ok((Cmp::Less, wrapping_abs(n))),
            None => Err(invalid_number_message(s)),
        }
    } else {
        match spec_i64_of(s) {
            Some(n) => Ok((Cmp::Equal, n)),
            None => Err(invalid_number_message(s)),
        }
    }
}

/// Parse +n, -n, or n from a string
pub fn parse_cmp(s: &str) -> (r: Result<(Cmp, i64), String>)
    ensures
        r matches Ok((c, n)) ==> spec_parse_cmp(s@) == Ok::<(Cmp, i64), Seq<char>>((c, n)),
        r matches Err(m) ==> spec_parse_cmp(s@) == Err::<(Cmp, i64), Seq<char>>(m@),
{
    let cs = chars_of(s);
    let msg_fail = concat3("invalid number: `", s, "`");
    if cs.len() > 0 && cs[0] == '+' {
        let mut rest = cs.clone();
        rest.remove(0);
        assert(rest@ == cs@.drop_first());
        match parse_i64(rest.as_slice()) {
            Some(n) => Ok((Cmp::Greater, n)),
            None => Err(msg_fail),
        }
    } else if cs.len() > 0 && cs[0] == '-' {
        match parse_i64(cs.as_slice()) {
            Some(n) => {
                let a: i64 = if n == i64::MIN {
                    n
                } else if n < 0 {
                    -n
                } else {
                    n
                };
                Ok((Cmp::Less, a))
            },
            None => Err(msg_fail),
        }
    } else {
        match parse_i64(cs.as_slice()) {
            Some(n) => Ok((Cmp::Equal, n)),
            None => Err(msg_fail),
        }
    }
}

// ---------------------------------------------------------------------------
// File types, sizes, permissions, time references
// ---------------------------------------------------------------------------

#[derive(Debug, Clone, Copy, PartialEq, Eq, Structural)]
pub enum FileType {
    BlockDevice,
    CharDevice,
    Directory,
    Pipe,
    File,
    Symlink,
    Socket,
}

/// The file type that a `-type` letter names.
pub open spec fn spec_file_type_of(c: char) -> Option<FileType> {
    if c == 'b' {
        Some(FileType::BlockDevice)
    } else if c == 'c' {
        Some(FileType::CharDevice)
    } else if c == 'd' {
        Some(FileType::Directory)
    } else if c == 'p' {
        Some(FileType::Pipe)
    } else if c == 'f' {
        Some(FileType::File)
    } else if c == 'l' {
        Some(FileType::Symlink)
    } else if c == 's' {
        Some(FileType::Socket)
    } else {
        None
    }
}

/// The message for an unknown `-type` letter.
pub open spec fn unknown_file_type_message(c: char) -> Seq<char> {
    "unknown file type `"@ + seq![c] + "`"@
}

impl FileType {
    /// The letter that names this file type.
    pub open spec fn spec_to_char(self) -> char {
        match self {
            FileType::BlockDevice => 'b',
            FileType::CharDevice => 'c',
            FileType::Directory => 'd',
            FileType::Pipe => 'p',
            FileType::File => 'f',
            FileType::Symlink => 'l',
            FileType::Socket => 's',
        }
    }

    pub fn from_char(c: char) -> (r: Result<Self, String>)
        ensures
            r matches Ok(t) ==> spec_file_type_of(c) == Some(t),
            r matches Err(m) ==> spec_file_type_of(c) is None && m@ == unknown_file_type_message(c),
    {
        match c {
            'b' => Ok(FileType::BlockDevice),
            'c' => Ok(FileType::CharDevice),
            'd' => Ok(FileType::Directory),
            'p' => Ok(FileType::Pipe),
            'f' => Ok(FileType::File),
            'l' => Ok(FileType::Symlink),
            's' => Ok(FileType::Socket),
            _ => {
                let mut v: Vec<char> = Vec::new();
                push_str(&mut v, "unknown file type `");
                v.push(c);
                push_str(&mut v, "`");
                Err(string_from_chars(v.as_slice()))
            },
        }
    }

    pub fn to_char(self) -> (c: char)
        ensures
            c == self.spec_to_char(),
    {
        match self {
            FileType::BlockDevice => 'b',
            FileType::CharDevice => 'c',
            FileType::Directory => 'd',
            FileType::Pipe => 'p',
            FileType::File => 'f',
            FileType::Symlink => 'l',
            FileType::Socket => 's',
        }
    }
}

#[derive(Debug, Clone, Copy, PartialEq, Eq, Structural)]
pub enum SizeUnit {
    Bytes,
    Words,
    Blocks512,
    Kilobytes,
    Megabytes,
    Gigabytes,
}

impl SizeUnit {
    /// The number of bytes in one unit.
    pub open spec fn spec_bytes(self) -> nat {
        match self {
            SizeUnit::Bytes => 1,
            SizeUnit::Words => 2,
            SizeUnit::Blocks512 => 512,
            SizeUnit::Kilobytes => 1024,
            SizeUnit::Megabytes => 1_048_576,
            SizeUnit::Gigabytes => 1_073_741_824,
        }
    }

    pub fn bytes(self) -> (r: u64)
        ensures
            r as nat == self.spec_bytes(),
    {
        match self {
            SizeUnit::Bytes => 1,
            SizeUnit::Words => 2,
            SizeUnit::Blocks512 => 512,
            SizeUnit::Kilobytes => 1024,
            SizeUnit::Megabytes => 1_048_576,
            SizeUnit::Gigabytes => 1_073_741_824,
        }
    }
}

#[derive(Debug, Clone, Copy, PartialEq, Eq, Structural)]
pub enum PermMatch {
    Exact,
    All,
    Any,
}

#[derive(Debug, Clone, Copy, PartialEq, Eq, Structural)]
pub enum TimeRef {
    Access,
    Modify,
    Change,
    Birth,
}

/// A point in time: whole seconds since the Unix epoch (negative before it)
/// and the nanoseconds past that second.
#[derive(Debug, Clone, Copy, PartialEq, Eq, Structural)]
pub struct Timestamp {
    pub secs: i64,
    pub nanos: u32,
}

impl Timestamp {
    /// The time as nanoseconds since the epoch.
    pub open spec fn total_nanos(self) -> int {
        self.secs as int * 1_000_000_000 + self.nanos as int
    }

    /// Well-formed: the nanoseconds are below one second.
    pub open spec fn wf(self) -> bool {
        self.nanos < 1_000_000_000
    }

    /// Strictly later than `other`.
    pub open spec fn spec_after(self, other: Timestamp) -> bool {
        self.secs > other.secs || (self.secs == other.secs && self.nanos > other.nanos)
    }

    /// Whether this time is strictly later than `other`.
    pub fn is_after(&self, other: &Timestamp) -> (r: bool)
        ensures
            r == self.spec_after(*other),
    {
        self.secs > other.secs || (self.secs == other.secs && self.nanos > other.nanos)
    }
}

// ---------------------------------------------------------------------------
// Regular expressions (the `regex` crate)
// ---------------------------------------------------------------------------

#[verifier::external_type_specification]
#[verifier::external_body]
pub struct ExRegex(regex::Regex);

/// What `regex::Regex::new` says of a pattern: `None` when it accepts it,
/// else the message of the error it returns (the error's `Display`).
pub uninterp spec fn regex_refusal(pattern: Seq<char>) -> Option<Seq<char>>;

/// Whether `regex::Regex::new` accepts the pattern.
pub open spec fn regex_compiles(pattern: Seq<char>) -> bool {
    regex_refusal(pattern) is None
}

/// The message of the error `regex::Regex::new` returns for a refused pattern.
pub open spec fn regex_error(pattern: Seq<char>) -> Seq<char> {
    match regex_refusal(pattern) {
        Some(m) => m,
        None => Seq::empty(),
    }
}

/// Whether the regular expression `pattern` matches somewhere in `haystack`,
/// as `regex::Regex::is_match` decides.
pub uninterp spec fn regex_is_match(pattern: Seq<char>, haystack: Seq<char>) -> bool;

/// `regex::Regex::new`, its error turned into its message: succeeds exactly
/// for the patterns the crate accepts, else returns what the crate says.
#[verifier::external_body]
fn compile_regex(pattern: &str) -> (r: Result<regex::Regex, String>)
    ensures
        match r {
            Ok(_) => regex_refusal(pattern@) is None,
            Err(m) => regex_refusal(pattern@) == Some(m@),
        },
{
    match regex::Regex::new(pattern) {
        Ok(re) => Ok(re),
        Err(e) => Err(e.to_string()),
    }
}

/// A compiled regular expression together with the pattern it was compiled
/// from; the only way to build one compiles `source` into `compiled`.
#[derive(Debug)]
pub struct RegexMatcher {
    source: String,
    compiled: regex::Regex,
}

impl View for RegexMatcher {
    type V = Seq<char>;

    /// The pattern the matcher was compiled from.
    closed spec fn view(&self) -> Seq<char> {
        self.source@
    }
}

/// `regex::Regex::is_match` on the matcher's compiled expression: whether its
/// pattern matches somewhere in `haystack`.
#[verifier::external_body]
fn regex_matcher_is_match(m: &RegexMatcher, haystack: &str) -> (r: bool)
    ensures
        r == regex_is_match(m@, haystack@),
{
    m.compiled.is_match(haystack)
}

impl RegexMatcher {
    /// Compiles `pattern`.
    pub fn new(pattern: &str) -> (r: Result<RegexMatcher, String>)
        ensures
            r is Ok <==> regex_compiles(pattern@),
            r matches Ok(m) ==> m@ == pattern@,
            r matches Err(m) ==> m@ == regex_error(pattern@),
    {
        match compile_regex(pattern) {
            Ok(re) => Ok(RegexMatcher { source: String::from_str(pattern), compiled: re }),
            Err(e) => Err(e),
        }
    }

    /// Whether the expression matches somewhere in `haystack`.
    pub fn is_match(&self, haystack: &str) -> (r: bool)
        ensures
            r == regex_is_match(self@, haystack@),
    {
        regex_matcher_is_match(self, haystack)
    }
}

// ---------------------------------------------------------------------------
// Shell glob patterns
// ---------------------------------------------------------------------------

/// Characters that a glob treats specially.
pub open spec fn has_glob_special(s: Seq<char>) -> bool {
    s.contains('*') || s.contains('?') || s.contains('[') || s.contains(']')
}

/// Characters that must be escaped when a glob is turned into a regex.
pub open spec fn is_regex_meta(c: char) -> bool {
    c == '.' || c == '+' || c == '(' || c == ')' || c == '{' || c == '}' || c == '^' || c
        == '$' || c == '|' || c == '\\'
}

/// The inside of a bracket expression (after `[` and an optional `!`):
/// its regex text, and what follows the closing `]`.
pub open spec fn class_body(cs: Seq<char>) -> (Seq<char>, Seq<char>)
    decreases cs.len(),
{
    if cs.len() == 0 {
        (Seq::empty(), Seq::empty())
    } else if cs[0] == ']' {
        (Seq::empty(), cs.drop_first())
    } else if cs[0] == '\\' {
        if cs.len() == 1 {
            (seq!['\\'], Seq::empty())
        } else {
            let (t, rest) = class_body(cs.skip(2));
            (seq!['\\', cs[1]] + t, rest)
        }
    } else {
        let (t, rest) = class_body(cs.drop_first());
        (seq![cs[0]] + t, rest)
    }
}

pub proof fn lemma_class_body_rest(cs: Seq<char>)
    ensures
        class_body(cs).1.len() <= cs.len(),
    decreases cs.len(),
{
    if cs.len() == 0 {
    } else if cs[0] == ']' {
    } else if cs[0] == '\\' {
        if cs.len() > 1 {
            lemma_class_body_rest(cs.skip(2));
        }
    } else {
        lemma_class_body_rest(cs.drop_first());
    }
}

/// The regex text of a glob, without the anchors.
pub open spec fn glob_body(cs: Seq<char>) -> Seq<char>
    decreases cs.len(),
{
    if cs.len() == 0 {
        Seq::empty()
    } else if cs[0] == '*' {
        seq!['.', '*'] + glob_body(cs.drop_first())
    } else if cs[0] == '?' {
        seq!['.'] + glob_body(cs.drop_first())
    } else if cs[0] == '[' {
        let after = cs.drop_first();
        let neg: Seq<char> = if after.len() > 0 && after[0] == '!' {
            seq!['^']
        } else {
            Seq::empty()
        };
        let inner = if after.len() > 0 && after[0] == '!' {
            after.drop_first()
        } else {
            after
        };
        proof {
            lemma_class_body_rest(inner);
        }
        seq!['['] + neg + class_body(inner).0 + seq![']'] + glob_body(class_body(inner).1)
    } else if is_regex_meta(cs[0]) {
        seq!['\\', cs[0]] + glob_body(cs.drop_first())
    } else {
        seq![cs[0]] + glob_body(cs.drop_first())
    }
}

/// The anchored regex for a glob: `*` is any text, `?` one character,
/// `[...]` a class (`[!...]` negated), and regex punctuation is escaped.
pub open spec fn spec_glob_to_regex(cs: Seq<char>) -> Seq<char> {
    seq!['^'] + glob_body(cs) + seq!['$']
}

/// Convert a shell glob pattern to a regex pattern.
pub fn glob_to_regex(pattern: &str) -> (r: String)
    ensures
        r@ == spec_glob_to_regex(pattern@),
{
    let cs = chars_of(pattern);
    let mut out: Vec<char> = Vec::new();
    out.push('^');
    let mut i: usize = 0;
    assert(cs@.skip(0) == cs@);
    while i < cs.len()
        invariant
            i <= cs@.len(),
            seq!['^'] + glob_body(cs@) == out@ + glob_body(cs@.skip(i as int)),
        decreases cs@.len() - i,
    {
        let c = cs[i];
        let ghost rest = cs@.skip(i as int);
        assert(rest[0] == c);
        assert(rest.drop_first() == cs@.skip(i + 1));
        if c == '*' {
            out.push('.');
            out.push('*');
            i += 1;
        } else if c == '?' {
            out.push('.');
            i += 1;
        } else if c == '[' {
            let ghost before = out@;
            out.push('[');
            let mut j: usize = i + 1;
            if j < cs.len() && cs[j] == '!' {
                out.push('^');
                j += 1;
                assert(rest.drop_first().drop_first() == cs@.skip(j as int));
            }
            let ghost k = j;
            let ghost neg: Seq<char> = if rest.drop_first().len() > 0 && rest.drop_first()[0] == '!' {
                seq!['^']
            } else {
                Seq::empty()
            };
            assert(out@ == before + seq!['['] + neg);
            let ghost start = out@;
            while j < cs.len() && cs[j] != ']'
                invariant
                    k <= j <= cs@.len(),
                    out@ + class_body(cs@.skip(j as int)).0 == start + class_body(
                        cs@.skip(k as int),
                    ).0,
                    class_body(cs@.skip(j as int)).1 == class_body(cs@.skip(k as int)).1,
                decreases cs@.len() - j,
            {
                let d = cs[j];
                let ghost r = cs@.skip(j as int);
                assert(r[0] == d);
                if d == '\\' {
                    out.push('\\');
                    if j + 1 < cs.len() {
                        out.push(cs[j + 1]);
                        assert(r[1] == cs@[j + 1]);
                        assert(r.skip(2) == cs@.skip(j + 2));
                        j += 2;
                    } else {
                        assert(r.len() == 1);
                        j += 1;
                        assert(cs@.skip(j as int) == Seq::<char>::empty());
                    }
                } else {
                    out.push(d);
                    assert(r.drop_first() == cs@.skip(j + 1));
                    j += 1;
                }
            }
            let ghost r = cs@.skip(j as int);
            if j < cs.len() {
                assert(r[0] == ']');
                assert(r.drop_first() == cs@.skip(j + 1));
                out.push(']');
                i = j + 1;
            } else {
                assert(r == Seq::<char>::empty());
                out.push(']');
                i = j;
            }
            assert(class_body(cs@.skip(k as int)).1 == cs@.skip(i as int));
            assert(out@ == start + class_body(cs@.skip(k as int)).0 + seq![']']);
        } else if c == '.' || c == '+' || c == '(' || c == ')' || c == '{' || c == '}' || c == '^'
            || c == '$' || c == '|' || c == '\\' {
            out.push('\\');
            out.push(c);
            i += 1;
        } else {
            out.push(c);
            i += 1;
        }
    }
    assert(cs@.skip(i as int) == Seq::<char>::empty());
    out.push('$');
    string_from_chars(out.as_slice())
}

/// What a glob pattern compiles to: a byte-level fast path or a regex.
pub enum GlobView {
    /// The text ends with these bytes (`*suffix`).
    Suffix(Seq<u8>),
    /// The text is exactly these bytes (no glob characters).
    Exact(Seq<u8>),
    /// The text starts with these bytes (`prefix*`).
    Prefix(Seq<u8>),
    /// The text matches this regex.
    Regex(Seq<char>),
}

impl GlobView {
    /// Whether raw bytes match: fast paths compare bytes; a regex needs the bytes
    /// to be UTF-8 text and then matches that text.
    pub open spec fn matches_bytes(self, b: Seq<u8>) -> bool {
        match self {
            GlobView::Suffix(x) => ends_with(b, x),
            GlobView::Exact(x) => b == x,
            GlobView::Prefix(x) => starts_with(b, x),
            GlobView::Regex(src) => valid_utf8(b) && regex_is_match(src, decode_utf8(b)),
        }
    }

    /// Whether text matches: fast paths compare its UTF-8 bytes.
    pub open spec fn matches_text(self, t: Seq<char>) -> bool {
        match self {
            GlobView::Regex(src) => regex_is_match(src, t),
            _ => self.matches_bytes(encode_utf8(t)),
        }
    }
}

/// The fast path a case-sensitive glob takes, if any.
pub open spec fn spec_glob_fast_path(p: Seq<char>, case_insensitive: bool) -> Option<GlobView> {
    if case_insensitive {
        None
    } else if p.len() > 0 && p[0] == '*' && !has_glob_special(p.drop_first()) {
        Some(GlobView::Suffix(encode_utf8(p.drop_first())))
    } else if !has_glob_special(p) {
        Some(GlobView::Exact(encode_utf8(p)))
    } else if p.len() > 0 && p.last() == '*' && !has_glob_special(p.drop_last()) {
        Some(GlobView::Prefix(encode_utf8(p.drop_last())))
    } else {
        None
    }
}

/// The regex a glob falls back to.
pub open spec fn glob_regex_source(p: Seq<char>, case_insensitive: bool) -> Seq<char> {
    if case_insensitive {
        "(?i)"@ + spec_glob_to_regex(p)
    } else {
        spec_glob_to_regex(p)
    }
}

/// Compiled glob pattern with fast-path optimization for common patterns
#[derive(Debug)]
pub struct GlobPattern {
    strategy: MatchStrategy,
}

#[derive(Debug)]
enum MatchStrategy {
    Suffix(Vec<u8>),
    Exact(Vec<u8>),
    Prefix(Vec<u8>),
    Regex(RegexMatcher),
}

impl View for GlobPattern {
    type V = GlobView;

    closed spec fn view(&self) -> GlobView {
        match self.strategy {
            MatchStrategy::Suffix(x) => GlobView::Suffix(x@),
            MatchStrategy::Exact(x) => GlobView::Exact(x@),
            MatchStrategy::Prefix(x) => GlobView::Prefix(x@),
            MatchStrategy::Regex(m) => GlobView::Regex(m@),
        }
    }
}

fn glob_special_free(s: &[char]) -> (r: bool)
    ensures
        r == !has_glob_special(s@),
{
    !(chars_contain(s, '*') || chars_contain(s, '?') || chars_contain(s, '[') || chars_contain(
        s,
        ']',
    ))
}

impl GlobPattern {
    /// Compiles a glob. Case-sensitive patterns of the shapes `*text`, `text`
    /// and `text*` (no other glob characters) take byte-comparison fast paths;
    /// every other pattern becomes an anchored regex (`(?i)` when case-insensitive).
    pub fn new(pattern: &str, case_insensitive: bool) -> (r: Result<Self, String>)
        ensures
            spec_glob_fast_path(pattern@, case_insensitive) matches Some(v) ==> r matches Ok(g)
                && g@ == v,
            spec_glob_fast_path(pattern@, case_insensitive) is None ==> {
                &&& (r is Ok <==> regex_compiles(glob_regex_source(pattern@, case_insensitive)))
                &&& (r matches Ok(g) ==> g@ == GlobView::Regex(
                    glob_regex_source(pattern@, case_insensitive),
                ))
                &&& (r matches Err(m) ==> m@ == "invalid pattern: "@ + regex_error(
                    glob_regex_source(pattern@, case_insensitive),
                ))
            },
    {
        let cs = chars_of(pattern);
        if !case_insensitive {
            if cs.len() > 0 && cs[0] == '*' {
                let mut suffix = cs.clone();
                suffix.remove(0);
                assert(suffix@ == cs@.drop_first());
                if glob_special_free(suffix.as_slice()) {
                    let b = bytes_of_chars(suffix.as_slice());
                    return Ok(GlobPattern { strategy: MatchStrategy::Suffix(b) });
                }
            }
            if glob_special_free(cs.as_slice()) {
                let b = bytes_of(pattern);
                return Ok(GlobPattern { strategy: MatchStrategy::Exact(b) });
            }
            if cs.len() > 0 && cs[cs.len() - 1] == '*' {
                let mut prefix = cs.clone();
                prefix.pop();
                assert(prefix@ == cs@.drop_last());
                if glob_special_free(prefix.as_slice()) {
                    let b = bytes_of_chars(prefix.as_slice());
                    return Ok(GlobPattern { strategy: MatchStrategy::Prefix(b) });
                }
            }
        }
        let regex_str = glob_to_regex(pattern);
        let full = if case_insensitive {
            concat2("(?i)", regex_str.as_str())
        } else {
            regex_str
        };
        assert(full@ == glob_regex_source(pattern@, case_insensitive));
        match RegexMatcher::new(full.as_str()) {
            Ok(m) => Ok(GlobPattern { strategy: MatchStrategy::Regex(m) }),
            Err(e) => Err(concat2("invalid pattern: ", e.as_str())),
        }
    }

    #[inline]
    pub fn is_match(&self, s: &str) -> (r: bool)
        ensures
            r == self@.matches_text(s@),
    {
        match &self.strategy {
            MatchStrategy::Suffix(suffix) => slice_ends_with(s.as_bytes(), suffix.as_slice()),
            MatchStrategy::Exact(exact) => slice_eq(s.as_bytes(), exact.as_slice()),
            MatchStrategy::Prefix(prefix) => slice_starts_with(s.as_bytes(), prefix.as_slice()),
            MatchStrategy::Regex(re) => re.is_match(s),
        }
    }

    /// Match against raw bytes, avoiding UTF-8 validation for fast paths.
    #[inline]
    pub fn is_match_bytes(&self, bytes: &[u8]) -> (r: bool)
        ensures
            r == self@.matches_bytes(bytes@),
    {
        match &self.strategy {
            MatchStrategy::Suffix(suffix) => slice_ends_with(bytes, suffix.as_slice()),
            MatchStrategy::Exact(exact) => slice_eq(bytes, exact.as_slice()),
            MatchStrategy::Prefix(prefix) => slice_starts_with(bytes, prefix.as_slice()),
            MatchStrategy::Regex(re) => {
                match utf8_str(bytes) {
                    Some(s) => re.is_match(s),
                    None => false,
                }
            },
        }
    }
}


// ---------------------------------------------------------------------------
// Command arguments and -printf formats
// ---------------------------------------------------------------------------

/// Argument to -exec/-execdir commands
#[derive(Debug, Clone)]
pub enum ExecArg {
    Literal(String),
    Placeholder,
}

/// An `ExecArg` as text.
pub enum ArgView {
    Literal(Seq<char>),
    Placeholder,
}

pub open spec fn arg_view(a: ExecArg) -> ArgView {
    match a {
        ExecArg::Literal(s) => ArgView::Literal(s@),
        ExecArg::Placeholder => ArgView::Placeholder,
    }
}

pub open spec fn args_view(v: Seq<ExecArg>) -> Seq<ArgView> {
    Seq::new(v.len(), |i: int| arg_view(v[i]))
}

/// Printf format token
#[derive(Debug, Clone)]
pub enum PrintfToken {
    Literal(String),
    Percent,
    Path,
    Filename,
    ParentDir,
    Depth,
    Size,
    SizeInBlocks,
    BlockSize,
    Permissions,
    PermSymbolic,
    Nlinks,
    User,
    Group,
    Uid,
    Gid,
    Inode,
    DeviceNumber,
    Type,
    LinkTarget,
    TimeAccess,
    TimeAccessSecs,
    TimeModify,
    TimeModifySecs,
    TimeChange,
    TimeChangeSecs,
    Newline,
    Tab,
    NullChar,
    Backslash,
    TimeAccessFmt(String),
    TimeModifyFmt(String),
    TimeChangeFmt(String),
    SparseName,
    StartingPoint,
}

/// A `PrintfToken` with its strings as text.
pub enum TokenView {
    Literal(Seq<char>),
    Percent,
    Path,
    Filename,
    ParentDir,
    Depth,
    Size,
    SizeInBlocks,
    BlockSize,
    Permissions,
    PermSymbolic,
    Nlinks,
    User,
    Group,
    Uid,
    Gid,
    Inode,
    DeviceNumber,
    Type,
    LinkTarget,
    TimeAccess,
    TimeAccessSecs,
    TimeModify,
    TimeModifySecs,
    TimeChange,
    TimeChangeSecs,
    Newline,
    Tab,
    NullChar,
    Backslash,
    TimeAccessFmt(Seq<char>),
    TimeModifyFmt(Seq<char>),
    TimeChangeFmt(Seq<char>),
    SparseName,
    StartingPoint,
}

pub open spec fn token_view(t: PrintfToken) -> TokenView {
    match t {
        PrintfToken::Literal(x) => TokenView::Literal(x@),
        PrintfToken::Percent => TokenView::Percent,
        PrintfToken::Path => TokenView::Path,
        PrintfToken::Filename => TokenView::Filename,
        PrintfToken::ParentDir => TokenView::ParentDir,
        PrintfToken::Depth => TokenView::Depth,
        PrintfToken::Size => TokenView::Size,
        PrintfToken::SizeInBlocks => TokenView::SizeInBlocks,
        PrintfToken::BlockSize => TokenView::BlockSize,
        PrintfToken::Permissions => TokenView::Permissions,
        PrintfToken::PermSymbolic => TokenView::PermSymbolic,
        PrintfToken::Nlinks => TokenView::Nlinks,
        PrintfToken::User => TokenView::User,
        PrintfToken::Group => TokenView::Group,
        PrintfToken::Uid => TokenView::Uid,
        PrintfToken::Gid => TokenView::Gid,
        PrintfToken::Inode => TokenView::Inode,
        PrintfToken::DeviceNumber => TokenView::DeviceNumber,
        PrintfToken::Type => TokenView::Type,
        PrintfToken::LinkTarget => TokenView::LinkTarget,
        PrintfToken::TimeAccess => TokenView::TimeAccess,
        PrintfToken::TimeAccessSecs => TokenView::TimeAccessSecs,
        PrintfToken::TimeModify => TokenView::TimeModify,
        PrintfToken::TimeModifySecs => TokenView::TimeModifySecs,
        PrintfToken::TimeChange => TokenView::TimeChange,
        PrintfToken::TimeChangeSecs => TokenView::TimeChangeSecs,
        PrintfToken::Newline => TokenView::Newline,
        PrintfToken::Tab => TokenView::Tab,
        PrintfToken::NullChar => TokenView::NullChar,
        PrintfToken::Backslash => TokenView::Backslash,
        PrintfToken::TimeAccessFmt(x) => TokenView::TimeAccessFmt(x@),
        PrintfToken::TimeModifyFmt(x) => TokenView::TimeModifyFmt(x@),
        PrintfToken::TimeChangeFmt(x) => TokenView::TimeChangeFmt(x@),
        PrintfToken::SparseName => TokenView::SparseName,
        PrintfToken::StartingPoint => TokenView::StartingPoint,
    }
}

pub open spec fn tokens_view(v: Seq<PrintfToken>) -> Seq<TokenView> {
    Seq::new(v.len(), |i: int| token_view(v[i]))
}


// ---------------------------------------------------------------------------
// The expression tree
// ---------------------------------------------------------------------------

/// The expression tree
#[derive(Debug)]
pub enum Expr {
    And(Vec<Expr>),
    Or(Vec<Expr>),
    Not(Box<Expr>),
    List(Vec<Expr>),
    True,
    False,
    Name(GlobPattern),
    IName(GlobPattern),
    Path(GlobPattern),
    IPath(GlobPattern),
    LName(GlobPattern),
    ILName(GlobPattern),
    Regex(RegexMatcher),
    IRegex(RegexMatcher),
    Type(Vec<FileType>),
    XType(Vec<FileType>),
    Size {
        cmp: Cmp,
        size: u64,
        unit: SizeUnit,
    },
    Empty,
    Perm {
        mode: u32,
        match_type: PermMatch,
    },
    User(String),
    Group(String),
    Uid(Cmp, u64),
    Gid(Cmp, u64),
    NoUser,
    NoGroup,
    Links(Cmp, u64),
    Inum(Cmp, u64),
    SameFile {
        dev: u64,
        ino: u64,
    },
    Readable,
    Writable,
    Executable,
    MTime(Cmp, i64),
    MMin(Cmp, i64),
    ATime(Cmp, i64),
    AMin(Cmp, i64),
    CTime(Cmp, i64),
    CMin(Cmp, i64),
    Newer(Timestamp),
    ANewerM(Timestamp),
    CNewerM(Timestamp),
    NewerXY {
        x: TimeRef,
        y: TimeRef,
        reference: Timestamp,
    },
    Used(Cmp, i64),
    FsType(String),
    Print,
    Print0,
    Printf(Vec<PrintfToken>),
    Ls,
    FPrint(String),
    FPrint0(String),
    FPrintf(String, Vec<PrintfToken>),
    FLs(String),
    Exec {
        args: Vec<ExecArg>,
        batch: bool,
    },
    ExecDir {
        args: Vec<ExecArg>,
        batch: bool,
    },
    OkPrompt {
        args: Vec<ExecArg>,
    },
    OkDir {
        args: Vec<ExecArg>,
    },
    Delete,
    Prune,
    Quit,
}

/// An expression as a mathematical value: children as sequences, strings as
/// text, compiled patterns as what they were compiled from.
pub enum ExprView {
    And(Seq<ExprView>),
    Or(Seq<ExprView>),
    Not(Box<ExprView>),
    List(Seq<ExprView>),
    True,
    False,
    Name(GlobView),
    IName(GlobView),
    Path(GlobView),
    IPath(GlobView),
    LName(GlobView),
    ILName(GlobView),
    Regex(Seq<char>),
    IRegex(Seq<char>),
    Type(Seq<FileType>),
    XType(Seq<FileType>),
    Size {
        cmp: Cmp,
        size: u64,
        unit: SizeUnit,
    },
    Empty,
    Perm {
        mode: u32,
        match_type: PermMatch,
    },
    User(Seq<char>),
    Group(Seq<char>),
    Uid(Cmp, u64),
    Gid(Cmp, u64),
    NoUser,
    NoGroup,
    Links(Cmp, u64),
    Inum(Cmp, u64),
    SameFile {
        dev: u64,
        ino: u64,
    },
    Readable,
    Writable,
    Executable,
    MTime(Cmp, i64),
    MMin(Cmp, i64),
    ATime(Cmp, i64),
    AMin(Cmp, i64),
    CTime(Cmp, i64),
    CMin(Cmp, i64),
    Newer(Timestamp),
    ANewerM(Timestamp),
    CNewerM(Timestamp),
    NewerXY {
        x: TimeRef,
        y: TimeRef,
        reference: Timestamp,
    },
    Used(Cmp, i64),
    FsType(Seq<char>),
    Print,
    Print0,
    Printf(Seq<TokenView>),
    Ls,
    FPrint(Seq<char>),
    FPrint0(Seq<char>),
    FPrintf(Seq<char>, Seq<TokenView>),
    FLs(Seq<char>),
    Exec {
        args: Seq<ArgView>,
        batch: bool,
    },
    ExecDir {
        args: Seq<ArgView>,
        batch: bool,
    },
    OkPrompt {
        args: Seq<ArgView>,
    },
    OkDir {
        args: Seq<ArgView>,
    },
    Delete,
    Prune,
    Quit,
}

pub open spec fn expr_view(e: Expr) -> ExprView
    decreases e,
{
    match e {
        Expr::And(v) => ExprView::And(exprs_view(v@)),
        Expr::Or(v) => ExprView::Or(exprs_view(v@)),
        Expr::Not(b) => ExprView::Not(Box::new(expr_view(*b))),
        Expr::List(v) => ExprView::List(exprs_view(v@)),
        Expr::True => ExprView::True,
        Expr::False => ExprView::False,
        Expr::Name(g) => ExprView::Name(g@),
        Expr::IName(g) => ExprView::IName(g@),
        Expr::Path(g) => ExprView::Path(g@),
        Expr::IPath(g) => ExprView::IPath(g@),
        Expr::LName(g) => ExprView::LName(g@),
        Expr::ILName(g) => ExprView::ILName(g@),
        Expr::Regex(m) => ExprView::Regex(m@),
        Expr::IRegex(m) => ExprView::IRegex(m@),
        Expr::Type(t) => ExprView::Type(t@),
        Expr::XType(t) => ExprView::XType(t@),
        Expr::Size { cmp, size, unit } => ExprView::Size { cmp, size, unit },
        Expr::Empty => ExprView::Empty,
        Expr::Perm { mode, match_type } => ExprView::Perm { mode, match_type },
        Expr::User(x) => ExprView::User(x@),
        Expr::Group(x) => ExprView::Group(x@),
        Expr::Uid(c, x) => ExprView::Uid(c, x),
        Expr::Gid(c, x) => ExprView::Gid(c, x),
        Expr::NoUser => ExprView::NoUser,
        Expr::NoGroup => ExprView::NoGroup,
        Expr::Links(c, x) => ExprView::Links(c, x),
        Expr::Inum(c, x) => ExprView::Inum(c, x),
        Expr::SameFile { dev, ino } => ExprView::SameFile { dev, ino },
        Expr::Readable => ExprView::Readable,
        Expr::Writable => ExprView::Writable,
        Expr::Executable => ExprView::Executable,
        Expr::MTime(c, x) => ExprView::MTime(c, x),
        Expr::MMin(c, x) => ExprView::MMin(c, x),
        Expr::ATime(c, x) => ExprView::ATime(c, x),
        Expr::AMin(c, x) => ExprView::AMin(c, x),
        Expr::CTime(c, x) => ExprView::CTime(c, x),
        Expr::CMin(c, x) => ExprView::CMin(c, x),
        Expr::Newer(t) => ExprView::Newer(t),
        Expr::ANewerM(t) => ExprView::ANewerM(t),
        Expr::CNewerM(t) => ExprView::CNewerM(t),
        Expr::NewerXY { x, y, reference } => ExprView::NewerXY { x, y, reference },
        Expr::Used(c, x) => ExprView::Used(c, x),
        Expr::FsType(x) => ExprView::FsType(x@),
        Expr::Print => ExprView::Print,
        Expr::Print0 => ExprView::Print0,
        Expr::Printf(t) => ExprView::Printf(tokens_view(t@)),
        Expr::Ls => ExprView::Ls,
        Expr::FPrint(x) => ExprView::FPrint(x@),
        Expr::FPrint0(x) => ExprView::FPrint0(x@),
        Expr::FPrintf(p, t) => ExprView::FPrintf(p@, tokens_view(t@)),
        Expr::FLs(x) => ExprView::FLs(x@),
        Expr::Exec { args, batch } => ExprView::Exec { args: args_view(args@), batch },
        Expr::ExecDir { args, batch } => ExprView::ExecDir { args: args_view(args@), batch },
        Expr::OkPrompt { args } => ExprView::OkPrompt { args: args_view(args@) },
        Expr::OkDir { args } => ExprView::OkDir { args: args_view(args@) },
        Expr::Delete => ExprView::Delete,
        Expr::Prune => ExprView::Prune,
        Expr::Quit => ExprView::Quit,
    }
}

pub open spec fn exprs_view(s: Seq<Expr>) -> Seq<ExprView>
    decreases s,
{
    if s.len() == 0 {
        Seq::empty()
    } else {
        exprs_view(s.drop_last()).push(expr_view(s.last()))
    }
}

pub proof fn lemma_exprs_view(s: Seq<Expr>)
    ensures
        exprs_view(s).len() == s.len(),
        forall|i: int| 0 <= i < s.len() ==> #[trigger] exprs_view(s)[i] == expr_view(s[i]),
    decreases s.len(),
{
    if s.len() > 0 {
        lemma_exprs_view(s.drop_last());
        assert forall|i: int| 0 <= i < s.len() implies #[trigger] exprs_view(s)[i] == expr_view(
            s[i],
        ) by {
            if i < s.len() - 1 {
                assert(s.drop_last()[i] == s[i]);
            }
        }
    }
}

impl View for Expr {
    type V = ExprView;

    open spec fn view(&self) -> ExprView {
        expr_view(*self)
    }
}

/// Whether the expression holds an action (`-prune` does not count).
pub open spec fn spec_has_action(e: ExprView) -> bool
    decreases e,
{
    match e {
        ExprView::And(s) => any_has_action(s),
        ExprView::Or(s) => any_has_action(s),
        ExprView::List(s) => any_has_action(s),
        ExprView::Not(b) => spec_has_action(*b),
        ExprView::Print => true,
        ExprView::Print0 => true,
        ExprView::Printf(_) => true,
        ExprView::Ls => true,
        ExprView::FPrint(_) => true,
        ExprView::FPrint0(_) => true,
        ExprView::FPrintf(_, _) => true,
        ExprView::FLs(_) => true,
        ExprView::Exec { .. } => true,
        ExprView::ExecDir { .. } => true,
        ExprView::OkPrompt { .. } => true,
        ExprView::OkDir { .. } => true,
        ExprView::Delete => true,
        ExprView::Quit => true,
        _ => false,
    }
}

/// Whether some expression of the sequence holds an action.
pub open spec fn any_has_action(s: Seq<ExprView>) -> bool
    decreases s,
{
    if s.len() == 0 {
        false
    } else {
        spec_has_action(s[0]) || any_has_action(s.drop_first())
    }
}

/// Whether the expression holds `-prune`.
pub open spec fn spec_has_prune(e: ExprView) -> bool
    decreases e,
{
    match e {
        ExprView::And(s) => any_has_prune(s),
        ExprView::Or(s) => any_has_prune(s),
        ExprView::List(s) => any_has_prune(s),
        ExprView::Not(b) => spec_has_prune(*b),
        ExprView::Prune => true,
        _ => false,
    }
}

/// Whether some expression of the sequence holds `-prune`.
pub open spec fn any_has_prune(s: Seq<ExprView>) -> bool
    decreases s,
{
    if s.len() == 0 {
        false
    } else {
        spec_has_prune(s[0]) || any_has_prune(s.drop_first())
    }
}

fn any_action(v: &Vec<Expr>) -> (r: bool)
    ensures
        r == any_has_action(exprs_view(v@)),
    decreases v@, 0nat,
{
    proof {
        lemma_exprs_view(v@);
    }
    let mut i: usize = 0;
    let ghost s = exprs_view(v@);
    assert(s.skip(0) == s);
    while i < v.len()
        invariant
            i <= v@.len(),
            s == exprs_view(v@),
            s.len() == v@.len(),
            forall|j: int| 0 <= j < v@.len() ==> #[trigger] s[j] == expr_view(v@[j]),
            any_has_action(s) == any_has_action(s.skip(i as int)),
        decreases v@.len() - i,
    {
        assert(s.skip(i as int).drop_first() == s.skip(i + 1));
        assert(s.skip(i as int)[0] == s[i as int]);
        proof {
            assert(decreases_to!(v@ => v@[i as int]));
        }
        if has_action(&v[i]) {
            return true;
        }
        i += 1;
    }
    assert(s.skip(i as int).len() == 0);
    false
}

/// Check if an expression tree contains any action
pub fn has_action(expr: &Expr) -> (r: bool)
    ensures
        r == spec_has_action(expr@),
    decreases *expr, 1nat,
{
    match expr {
        Expr::And(exprs) => any_action(exprs),
        Expr::Or(exprs) => any_action(exprs),
        Expr::List(exprs) => any_action(exprs),
        Expr::Not(e) => has_action(e),
        Expr::Print | Expr::Print0 | Expr::Printf(_) | Expr::Ls | Expr::FPrint(_) | Expr::FPrint0(_)
        | Expr::FPrintf(_, _) | Expr::FLs(_) | Expr::Exec { .. } | Expr::ExecDir { .. }
        | Expr::OkPrompt { .. } | Expr::OkDir { .. } | Expr::Delete | Expr::Quit => true,
        Expr::Prune => false,
        _ => false,
    }
}

fn any_prune(v: &Vec<Expr>) -> (r: bool)
    ensures
        r == any_has_prune(exprs_view(v@)),
    decreases v@, 0nat,
{
    proof {
        lemma_exprs_view(v@);
    }
    let mut i: usize = 0;
    let ghost s = exprs_view(v@);
    assert(s.skip(0) == s);
    while i < v.len()
        invariant
            i <= v@.len(),
            s == exprs_view(v@),
            s.len() == v@.len(),
            forall|j: int| 0 <= j < v@.len() ==> #[trigger] s[j] == expr_view(v@[j]),
            any_has_prune(s) == any_has_prune(s.skip(i as int)),
        decreases v@.len() - i,
    {
        assert(s.skip(i as int).drop_first() == s.skip(i + 1));
        assert(s.skip(i as int)[0] == s[i as int]);
        proof {
            assert(decreases_to!(v@ => v@[i as int]));
        }
        if has_prune(&v[i]) {
            return true;
        }
        i += 1;
    }
    assert(s.skip(i as int).len() == 0);
    false
}

/// Check if an expression tree contains -prune
pub fn has_prune(expr: &Expr) -> (r: bool)
    ensures
        r == spec_has_prune(expr@),
    decreases *expr, 1nat,
{
    match expr {
        Expr::And(exprs) => any_prune(exprs),
        Expr::Or(exprs) => any_prune(exprs),
        Expr::List(exprs) => any_prune(exprs),
        Expr::Not(e) => has_prune(e),
        Expr::Prune => true,
        _ => false,
    }
}


// ---------------------------------------------------------------------------
// Global configuration
// ---------------------------------------------------------------------------

/// Symlink following mode
#[derive(Debug, Clone, Copy, PartialEq, Eq, Structural)]
pub enum SymlinkMode {
    Never,
    Always,
    CommandLine,
}

/// Regex dialect
#[derive(Debug, Clone, Copy, PartialEq, Eq, Structural)]
pub enum RegexType {
    Emacs,
    PosixBasic,
    PosixExtended,
    Grep,
    Egrep,
}

/// Global configuration
#[derive(Debug)]
pub struct Config {
    pub paths: Vec<String>,
    pub max_depth: Option<usize>,
    pub min_depth: usize,
    pub depth_first: bool,
    pub xdev: bool,
    pub symlink_mode: SymlinkMode,
    pub daystart: bool,
    pub regex_type: RegexType,
    pub warn: bool,
    pub noleaf: bool,
    pub ignore_readdir_race: bool,
    pub expr: Expr,
}

/// A configuration as a mathematical value.
pub struct ConfigView {
    pub paths: Seq<Seq<char>>,
    pub max_depth: Option<usize>,
    pub min_depth: usize,
    pub depth_first: bool,
    pub xdev: bool,
    pub symlink_mode: SymlinkMode,
    pub daystart: bool,
    pub regex_type: RegexType,
    pub warn: bool,
    pub noleaf: bool,
    pub ignore_readdir_race: bool,
    pub expr: ExprView,
}

/// The text of each string of a sequence.
pub open spec fn strings_view(v: Seq<String>) -> Seq<Seq<char>> {
    Seq::new(v.len(), |i: int| v[i]@)
}

impl View for Config {
    type V = ConfigView;

    open spec fn view(&self) -> ConfigView {
        ConfigView {
            paths: strings_view(self.paths@),
            max_depth: self.max_depth,
            min_depth: self.min_depth,
            depth_first: self.depth_first,
            xdev: self.xdev,
            symlink_mode: self.symlink_mode,
            daystart: self.daystart,
            regex_type: self.regex_type,
            warn: self.warn,
            noleaf: self.noleaf,
            ignore_readdir_race: self.ignore_readdir_race,
            expr: self.expr@,
        }
    }
}

/// The configuration before any argument is read: search `.`, no depth
/// limits, pre-order, no symlinks followed, Emacs regexes, warnings on, and
/// the always-true expression.
pub open spec fn default_config_view() -> ConfigView {
    ConfigView {
        paths: seq![seq!['.']],
        max_depth: None,
        min_depth: 0,
        depth_first: false,
        xdev: false,
        symlink_mode: SymlinkMode::Never,
        daystart: false,
        regex_type: RegexType::Emacs,
        warn: true,
        noleaf: false,
        ignore_readdir_race: false,
        expr: ExprView::True,
    }
}

impl Default for Config {
    fn default() -> (c: Self)
        ensures
            c@ == default_config_view(),
    {
        let mut paths: Vec<String> = Vec::new();
        let mut dot: Vec<char> = Vec::new();
        dot.push('.');
        paths.push(string_from_chars(dot.as_slice()));
        let c = Config {
            paths,
            max_depth: None,
            min_depth: 0,
            depth_first: false,
            xdev: false,
            symlink_mode: SymlinkMode::Never,
            daystart: false,
            regex_type: RegexType::Emacs,
            warn: true,
            noleaf: false,
            ignore_readdir_race: false,
            expr: Expr::True,
        };
        assert(c@.paths =~= seq![seq!['.']]);
        c
    }
}

} // verus!
