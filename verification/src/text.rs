//! Character and number handling shared by the parser and the evaluator.
use vstd::prelude::*;
use vstd::utf8::*;

verus! {

// ---------------------------------------------------------------------------
// Conversions between strings, characters and bytes
// ---------------------------------------------------------------------------

/// The characters of a string slice, in order.
pub fn chars_of(s: &str) -> (v: Vec<char>)
    ensures
        v@ == s@,
{
    let mut v: Vec<char> = Vec::new();
    for c in it: s.chars()
        invariant
            v@ == it.seq().take(it.index() as int),
            it.seq() == s@,
    {
        v.push(c);
    }
    v
}

/// Builds a `String` from characters (std's `FromIterator<&char>` for `String`).
#[verifier::external_body]
pub(crate) fn string_from_chars(v: &[char]) -> (s: String)
    ensures
        s@ == v@,
{
    v.iter().collect()
}

/// String slice equality (std's `PartialEq` for `str`).
#[verifier::external_body]
pub(crate) fn str_eq(a: &str, b: &str) -> (r: bool)
    ensures
        r == (a@ == b@),
{
    a == b
}

/// `std::str::from_utf8`: the bytes read as UTF-8 text, when they are valid UTF-8.
#[verifier::external_body]
pub(crate) fn utf8_str(b: &[u8]) -> (r: Option<&str>)
    ensures
        r is Some <==> valid_utf8(b@),
        r matches Some(s) ==> s@ == decode_utf8(b@),
{
    std::str::from_utf8(b).ok()
}

/// The text that std's lossy UTF-8 decoding (`String::from_utf8_lossy`, which is
/// also how a Unix path is displayed) makes of a byte sequence.
pub uninterp spec fn lossy_utf8(b: Seq<u8>) -> Seq<char>;

/// `String::from_utf8_lossy`: invalid sequences become U+FFFD; valid UTF-8
/// comes back as the text it encodes.
#[verifier::external_body]
pub(crate) fn lossy_text(b: &[u8]) -> (s: String)
    ensures
        s@ == lossy_utf8(b@),
        valid_utf8(b@) ==> s@ == decode_utf8(b@),
{
    String::from_utf8_lossy(b).into_owned()
}

/// The lowercase form of a text, as std's `str::to_lowercase` computes it
/// (Unicode lowercase mapping, character by character, with the final-sigma
/// rule).
pub uninterp spec fn lowercase(s: Seq<char>) -> Seq<char>;

/// ASCII text with its capital letters made small.
pub open spec fn ascii_lower(s: Seq<char>) -> Seq<char> {
    Seq::new(
        s.len(),
        |i: int|
            if 'A' <= s[i] <= 'Z' {
                ((s[i] as int) + 32) as char
            } else {
                s[i]
            },
    )
}

/// Whether every character is ASCII.
pub open spec fn all_ascii(s: Seq<char>) -> bool {
    forall|i: int| 0 <= i < s.len() ==> (#[trigger] s[i] as int) < 128
}

/// `str::to_lowercase`: on ASCII text it makes the capital letters small
/// and leaves every other character as it is.
#[verifier::external_body]
pub(crate) fn to_lowercase(s: &str) -> (r: String)
    ensures
        r@ == lowercase(s@),
        all_ascii(s@) ==> r@ == ascii_lower(s@),
{
    s.to_lowercase()
}

/// `to_str().unwrap_or("")` on a Unix path: the text, or the empty string for
/// bytes that are not valid UTF-8.
pub open spec fn text_or_empty(b: Seq<u8>) -> Seq<char> {
    if valid_utf8(b) {
        decode_utf8(b)
    } else {
        Seq::empty()
    }
}

/// The characters of `b` read as UTF-8, or nothing when `b` is not valid UTF-8.
pub fn text_or_empty_of(b: &[u8]) -> (v: Vec<char>)
    ensures
        v@ == text_or_empty(b@),
{
    match utf8_str(b) {
        Some(s) => chars_of(s),
        None => Vec::new(),
    }
}

/// The UTF-8 encoding of a string slice, as an owned byte vector.
pub fn bytes_of(s: &str) -> (v: Vec<u8>)
    ensures
        v@ == encode_utf8(s@),
{
    let b = s.as_bytes();
    let mut v: Vec<u8> = Vec::new();
    let mut i: usize = 0;
    while i < b.len()
        invariant
            i <= b@.len(),
            v@ == b@.take(i as int),
        decreases b@.len() - i,
    {
        v.push(b[i]);
        i += 1;
        assert(v@ == b@.take(i as int));
    }
    assert(b@.take(b@.len() as int) == b@);
    v
}

/// The UTF-8 encoding of a character sequence.
pub fn bytes_of_chars(c: &[char]) -> (v: Vec<u8>)
    ensures
        v@ == encode_utf8(c@),
{
    let s = string_from_chars(c);
    bytes_of(s.as_str())
}

/// Appends `src` to `dst`.
pub fn push_all<T: Copy>(dst: &mut Vec<T>, src: &[T])
    ensures
        final(dst)@ == old(dst)@ + src@,
{
    let mut i: usize = 0;
    while i < src.len()
        invariant
            i <= src@.len(),
            dst@ == old(dst)@ + src@.take(i as int),
        decreases src@.len() - i,
    {
        dst.push(src[i]);
        i += 1;
        assert(dst@ == old(dst)@ + src@.take(i as int));
    }
    assert(src@.take(src@.len() as int) == src@);
}

/// Appends the characters of `s` to `dst`.
pub fn push_str(dst: &mut Vec<char>, s: &str)
    ensures
        final(dst)@ == old(dst)@ + s@,
{
    let c = chars_of(s);
    push_all(dst, c.as_slice());
}

/// `s` with the single character `c` in front.
pub fn prefixed(c: char, s: &str) -> (r: String)
    ensures
        r@ == seq![c] + s@,
{
    let mut v: Vec<char> = Vec::new();
    v.push(c);
    push_str(&mut v, s);
    string_from_chars(v.as_slice())
}

/// Concatenation of two string slices.
pub fn concat2(a: &str, b: &str) -> (r: String)
    ensures
        r@ == a@ + b@,
{
    let mut v: Vec<char> = Vec::new();
    push_str(&mut v, a);
    push_str(&mut v, b);
    string_from_chars(v.as_slice())
}

/// Concatenation of four string slices.
pub fn concat4(a: &str, b: &str, c: &str, d: &str) -> (r: String)
    ensures
        r@ == a@ + b@ + c@ + d@,
{
    let mut v: Vec<char> = Vec::new();
    push_str(&mut v, a);
    push_str(&mut v, b);
    push_str(&mut v, c);
    push_str(&mut v, d);
    string_from_chars(v.as_slice())
}

/// An `i64` reinterpreted as `u64` (two's complement), as `as u64` does.
pub open spec fn u64_wrap(n: i64) -> u64 {
    n as u64
}

/// An `i64` reinterpreted as `u64` (two's complement).
pub fn wrap_u64(n: i64) -> (r: u64)
    ensures
        r == u64_wrap(n),
{
    n as u64
}

/// Whitespace as `char::is_whitespace` defines it (the Unicode White_Space property).
pub open spec fn is_white(c: char) -> bool {
    ('\u{9}' <= c && c <= '\u{d}') || c == ' ' || c == '\u{85}' || c == '\u{a0}' || c == '\u{1680}'
        || ('\u{2000}' <= c && c <= '\u{200a}') || c == '\u{2028}' || c == '\u{2029}' || c
        == '\u{202f}' || c == '\u{205f}' || c == '\u{3000}'
}

/// `char::is_whitespace`.
pub fn is_whitespace(c: char) -> (r: bool)
    ensures
        r == is_white(c),
{
    ('\u{9}' <= c && c <= '\u{d}') || c == ' ' || c == '\u{85}' || c == '\u{a0}' || c == '\u{1680}'
        || ('\u{2000}' <= c && c <= '\u{200a}') || c == '\u{2028}' || c == '\u{2029}' || c
        == '\u{202f}' || c == '\u{205f}' || c == '\u{3000}'
}

/// Number of leading whitespace characters.
pub open spec fn lead_white(s: Seq<char>) -> nat
    decreases s.len(),
{
    if s.len() > 0 && is_white(s[0]) {
        1 + lead_white(s.drop_first())
    } else {
        0
    }
}

/// Number of trailing whitespace characters.
pub open spec fn trail_white(s: Seq<char>) -> nat
    decreases s.len(),
{
    if s.len() > 0 && is_white(s.last()) {
        1 + trail_white(s.drop_last())
    } else {
        0
    }
}

/// `str::trim`: without leading and trailing whitespace.
pub open spec fn spec_trim(s: Seq<char>) -> Seq<char> {
    let a = s.skip(lead_white(s) as int);
    a.take(a.len() - trail_white(a))
}

proof fn lemma_lead_white(s: Seq<char>, k: int)
    requires
        0 <= k <= s.len(),
        forall|j: int| 0 <= j < k ==> is_white(#[trigger] s[j]),
        k == s.len() || !is_white(s[k]),
    ensures
        lead_white(s) == k,
    decreases k,
{
    if k > 0 {
        lemma_lead_white(s.drop_first(), k - 1);
    }
}

proof fn lemma_trail_white(s: Seq<char>, k: int)
    requires
        0 <= k <= s.len(),
        forall|j: int| s.len() - k <= j < s.len() ==> is_white(#[trigger] s[j]),
        k == s.len() || !is_white(s[s.len() - k - 1]),
    ensures
        trail_white(s) == k,
    decreases k,
{
    if k > 0 {
        lemma_trail_white(s.drop_last(), k - 1);
    }
}

/// `str::trim` on characters.
pub fn trim_chars(s: &[char]) -> (r: Vec<char>)
    ensures
        r@ == spec_trim(s@),
{
    let mut a: usize = 0;
    while a < s.len() && is_whitespace(s[a])
        invariant
            a <= s@.len(),
            forall|j: int| 0 <= j < a ==> is_white(#[trigger] s@[j]),
        decreases s@.len() - a,
    {
        a += 1;
    }
    proof {
        lemma_lead_white(s@, a as int);
    }
    let mut b: usize = s.len();
    while b > a && is_whitespace(s[b - 1])
        invariant
            a <= b <= s@.len(),
            forall|j: int| b <= j < s@.len() ==> is_white(#[trigger] s@[j]),
        decreases b,
    {
        b -= 1;
    }
    let ghost t = s@.skip(a as int);
    proof {
        assert forall|j: int| t.len() - (s@.len() - b) <= j < t.len() implies is_white(
            #[trigger] t[j],
        ) by {
            assert(t[j] == s@[j + a]);
        }
        if b > a {
            assert(t[t.len() - (s@.len() - b) - 1] == s@[b - 1]);
        }
        lemma_trail_white(t, (s@.len() - b) as int);
    }
    let mut r: Vec<char> = Vec::new();
    let mut k: usize = a;
    while k < b
        invariant
            a <= k <= b,
            b <= s@.len(),
            r@ == s@.subrange(a as int, k as int),
        decreases b - k,
    {
        r.push(s[k]);
        k += 1;
        assert(r@ == s@.subrange(a as int, k as int));
    }
    assert(r@ =~= t.take(t.len() - (s@.len() - b)));
    r
}

/// Concatenation of three string slices.
pub fn concat3(a: &str, b: &str, c: &str) -> (r: String)
    ensures
        r@ == a@ + b@ + c@,
{
    let mut v: Vec<char> = Vec::new();
    push_str(&mut v, a);
    push_str(&mut v, b);
    push_str(&mut v, c);
    string_from_chars(v.as_slice())
}

/// Whether `s` ends with `suffix`.
pub open spec fn ends_with<T>(s: Seq<T>, suffix: Seq<T>) -> bool {
    suffix.len() <= s.len() && s.subrange(s.len() - suffix.len(), s.len() as int) == suffix
}

/// Whether `s` starts with `prefix`.
pub open spec fn starts_with<T>(s: Seq<T>, prefix: Seq<T>) -> bool {
    prefix.len() <= s.len() && s.take(prefix.len() as int) == prefix
}

/// Byte-slice suffix test.
pub fn slice_ends_with(s: &[u8], suffix: &[u8]) -> (r: bool)
    ensures
        r == ends_with(s@, suffix@),
{
    if suffix.len() > s.len() {
        return false;
    }
    let off = s.len() - suffix.len();
    let mut i: usize = 0;
    while i < suffix.len()
        invariant
            off + suffix@.len() == s@.len(),
            s@.len() == s.len(),
            i <= suffix@.len(),
            forall|j: int| 0 <= j < i ==> s@[off + j] == suffix@[j],
        decreases suffix@.len() - i,
    {
        assert(off + i < s@.len());
        if s[off + i] != suffix[i] {
            assert(s@.subrange(off as int, s@.len() as int)[i as int] != suffix@[i as int]);
            return false;
        }
        i += 1;
    }
    assert(s@.subrange(off as int, s@.len() as int) =~= suffix@);
    true
}

/// Byte-slice prefix test.
pub fn slice_starts_with(s: &[u8], prefix: &[u8]) -> (r: bool)
    ensures
        r == starts_with(s@, prefix@),
{
    if prefix.len() > s.len() {
        return false;
    }
    let mut i: usize = 0;
    while i < prefix.len()
        invariant
            prefix@.len() <= s@.len(),
            i <= prefix@.len(),
            forall|j: int| 0 <= j < i ==> s@[j] == prefix@[j],
        decreases prefix@.len() - i,
    {
        if s[i] != prefix[i] {
            assert(s@.take(prefix@.len() as int)[i as int] != prefix@[i as int]);
            return false;
        }
        i += 1;
    }
    assert(s@.take(prefix@.len() as int) =~= prefix@);
    true
}

/// Byte-slice equality.
pub fn slice_eq(a: &[u8], b: &[u8]) -> (r: bool)
    ensures
        r == (a@ == b@),
{
    if a.len() != b.len() {
        return false;
    }
    let mut i: usize = 0;
    while i < a.len()
        invariant
            a@.len() == b@.len(),
            i <= a@.len(),
            forall|j: int| 0 <= j < i ==> a@[j] == b@[j],
        decreases a@.len() - i,
    {
        if a[i] != b[i] {
            return false;
        }
        i += 1;
    }
    assert(a@ =~= b@);
    true
}

/// Character-sequence equality.
pub fn chars_eq(a: &[char], b: &[char]) -> (r: bool)
    ensures
        r == (a@ == b@),
{
    if a.len() != b.len() {
        return false;
    }
    let mut i: usize = 0;
    while i < a.len()
        invariant
            a@.len() == b@.len(),
            i <= a@.len(),
            forall|j: int| 0 <= j < i ==> a@[j] == b@[j],
        decreases a@.len() - i,
    {
        if a[i] != b[i] {
            return false;
        }
        i += 1;
    }
    assert(a@ =~= b@);
    true
}

/// Whether character `c` occurs in `s`.
pub fn chars_contain(s: &[char], c: char) -> (r: bool)
    ensures
        r == s@.contains(c),
{
    let mut i: usize = 0;
    while i < s.len()
        invariant
            i <= s@.len(),
            forall|j: int| 0 <= j < i ==> s@[j] != c,
        decreases s@.len() - i,
    {
        if s[i] == c {
            assert(s@[i as int] == c);
            return true;
        }
        i += 1;
    }
    false
}

// ---------------------------------------------------------------------------
// Reading numbers (the grammar of std's `FromStr` / `from_str_radix`)
// ---------------------------------------------------------------------------

/// The value of a decimal digit character.
pub open spec fn char_digit(c: char) -> Option<nat> {
    if c == '0' {
        Some(0)
    } else if c == '1' {
        Some(1)
    } else if c == '2' {
        Some(2)
    } else if c == '3' {
        Some(3)
    } else if c == '4' {
        Some(4)
    } else if c == '5' {
        Some(5)
    } else if c == '6' {
        Some(6)
    } else if c == '7' {
        Some(7)
    } else if c == '8' {
        Some(8)
    } else if c == '9' {
        Some(9)
    } else {
        None
    }
}

/// `c` is a digit of the given radix (radix at most ten).
pub open spec fn is_digit_in(c: char, radix: nat) -> bool {
    match char_digit(c) {
        Some(d) => d < radix,
        None => false,
    }
}

/// The value of a decimal digit character.
pub fn digit_of(c: char) -> (r: Option<u64>)
    ensures
        r matches Some(d) ==> char_digit(c) == Some(d as nat),
        r is None ==> char_digit(c) is None,
{
    match c {
        '0' => Some(0),
        '1' => Some(1),
        '2' => Some(2),
        '3' => Some(3),
        '4' => Some(4),
        '5' => Some(5),
        '6' => Some(6),
        '7' => Some(7),
        '8' => Some(8),
        '9' => Some(9),
        _ => None,
    }
}

/// The character of a digit value below ten.
pub fn digit_to_char(d: u64) -> (c: char)
    requires
        d < 10,
    ensures
        c == digit_char(d as nat),
{
    if d == 0 {
        '0'
    } else if d == 1 {
        '1'
    } else if d == 2 {
        '2'
    } else if d == 3 {
        '3'
    } else if d == 4 {
        '4'
    } else if d == 5 {
        '5'
    } else if d == 6 {
        '6'
    } else if d == 7 {
        '7'
    } else if d == 8 {
        '8'
    } else {
        '9'
    }
}

/// Every character of `s` is a digit of the radix.
pub open spec fn all_digits(s: Seq<char>, radix: nat) -> bool {
    forall|i: int| 0 <= i < s.len() ==> #[trigger] is_digit_in(s[i], radix)
}

/// The value of a digit string, most significant digit first.
pub open spec fn digits_value(s: Seq<char>, radix: nat) -> nat
    decreases s.len(),
{
    if s.len() == 0 {
        0
    } else {
        digits_value(s.drop_last(), radix) * radix + match char_digit(s.last()) {
            Some(d) => d,
            None => 0,
        }
    }
}

/// What std's unsigned `from_str_radix` gives for `s`: an optional `+`, then at
/// least one digit, and a value no larger than `max`.
pub open spec fn spec_parse_unsigned(s: Seq<char>, radix: nat, max: nat) -> Option<nat> {
    let body = if s.len() > 0 && s[0] == '+' {
        s.drop_first()
    } else {
        s
    };
    if body.len() == 0 || !all_digits(body, radix) || digits_value(body, radix) > max {
        None
    } else {
        Some(digits_value(body, radix))
    }
}

/// What std's `i64::from_str` gives for `s`: an optional sign, then at least one
/// decimal digit, and a value within the range of `i64`.
pub open spec fn spec_parse_i64(s: Seq<char>) -> Option<int> {
    if s.len() > 0 && s[0] == '-' {
        let body = s.drop_first();
        if body.len() == 0 || !all_digits(body, 10) || digits_value(body, 10) > 0x8000_0000_0000_0000 {
            None
        } else {
            Some(-(digits_value(body, 10) as int))
        }
    } else {
        match spec_parse_unsigned(s, 10, 0x7fff_ffff_ffff_ffff) {
            Some(v) => Some(v as int),
            None => None,
        }
    }
}

proof fn lemma_digits_value_prefix(s: Seq<char>, k: int, radix: nat)
    requires
        0 <= k <= s.len(),
        radix >= 1,
        all_digits(s, radix),
    ensures
        digits_value(s.take(k), radix) <= digits_value(s, radix),
    decreases s.len(),
{
    if k < s.len() {
        assert(all_digits(s.drop_last(), radix)) by {
            assert forall|i: int| 0 <= i < s.drop_last().len() implies #[trigger] is_digit_in(
                s.drop_last()[i],
                radix,
            ) by {
                assert(is_digit_in(s[i], radix));
            }
        }
        lemma_digits_value_prefix(s.drop_last(), k, radix);
        assert(s.drop_last().take(k) == s.take(k));
        let d = digits_value(s.drop_last(), radix);
        assert(d * radix >= d) by (nonlinear_arith)
            requires
                radix >= 1,
        ;
    } else {
        assert(s.take(k) == s);
    }
}

/// Reads a digit string with an optional leading `+`, as std's unsigned
/// `from_str_radix` does, keeping only values up to `max`.
pub fn parse_unsigned(s: &[char], radix: u64, max: u64) -> (r: Option<u64>)
    requires
        2 <= radix <= 10,
    ensures
        r matches Some(v) ==> spec_parse_unsigned(s@, radix as nat, max as nat) == Some(v as nat),
        r is None ==> spec_parse_unsigned(s@, radix as nat, max as nat) is None,
{
    let ghost body = if s@.len() > 0 && s@[0] == '+' {
        s@.drop_first()
    } else {
        s@
    };
    let start: usize = if s.len() > 0 && s[0] == '+' {
        1
    } else {
        0
    };
    assert(body == s@.skip(start as int));
    if start >= s.len() {
        return None;
    }
    let mut acc: u64 = 0;
    let mut i: usize = start;
    while i < s.len()
        invariant
            start <= i <= s@.len(),
            2 <= radix <= 10,
            body == s@.skip(start as int),
            body == (if s@.len() > 0 && s@[0] == '+' {
                s@.drop_first()
            } else {
                s@
            }),
            all_digits(body.take(i - start), radix as nat),
            acc as nat == digits_value(body.take(i - start), radix as nat),
            acc <= max,
        decreases s@.len() - i,
    {
        let c = s[i];
        assert(body[i - start] == c);
        let d: u64 = match digit_of(c) {
            Some(d) => {
                if d >= radix {
                    assert(!is_digit_in(body[i - start], radix as nat));
                    assert(!all_digits(body, radix as nat));
                    return None;
                }
                d
            },
            None => {
                assert(!is_digit_in(body[i - start], radix as nat));
                assert(!all_digits(body, radix as nat));
                return None;
            },
        };
        assert((acc as u128) * (radix as u128) <= (u64::MAX as u128) * 10) by (nonlinear_arith)
            requires
                acc <= u64::MAX,
                radix <= 10,
        ;
        let next: u128 = (acc as u128) * (radix as u128) + (d as u128);
        let ghost k = i - start;
        assert(body.take(k + 1).drop_last() == body.take(k));
        assert(body.take(k + 1).last() == c);
        assert(all_digits(body.take(k + 1), radix as nat)) by {
            assert forall|j: int| 0 <= j < body.take(k + 1).len() implies #[trigger] is_digit_in(
                body.take(k + 1)[j],
                radix as nat,
            ) by {
                if j < k {
                    assert(body.take(k + 1)[j] == body.take(k)[j]);
                }
            }
        }
        assert(next == digits_value(body.take(k + 1), radix as nat));
        if next > max as u128 {
            proof {
                if all_digits(body, radix as nat) {
                    lemma_digits_value_prefix(body, k + 1, radix as nat);
                    assert(digits_value(body, radix as nat) > max);
                }
            }
            return None;
        }
        acc = next as u64;
        i += 1;
    }
    assert(body.take(i - start) == body);
    Some(acc)
}

/// Reads a decimal `i64` with an optional sign, as std's `i64::from_str` does.
pub fn parse_i64(s: &[char]) -> (r: Option<i64>)
    ensures
        r matches Some(v) ==> spec_parse_i64(s@) == Some(v as int),
        r is None ==> spec_parse_i64(s@) is None,
{
    if s.len() > 0 && s[0] == '-' {
        let mut rest: Vec<char> = Vec::new();
        push_all(&mut rest, s);
        rest.remove(0);
        assert(rest@ == s@.drop_first());
        if rest.len() > 0 && rest[0] == '+' {
            assert(!is_digit_in(rest@[0], 10));
            return None;
        }
        match parse_unsigned(rest.as_slice(), 10, 0x8000_0000_0000_0000) {
            Some(v) => {
                assert(rest@.len() > 0 ==> rest@[0] != '+');
                let r: i64 = if v == 0x8000_0000_0000_0000 {
                    i64::MIN
                } else {
                    -(v as i64)
                };
                Some(r)
            },
            None => {
                assert(rest@.len() > 0 ==> rest@[0] != '+');
                None
            },
        }
    } else {
        match parse_unsigned(s, 10, 0x7fff_ffff_ffff_ffff) {
            Some(v) => Some(v as i64),
            None => None,
        }
    }
}

/// Reads a decimal `u32` (std's `u32::from_str`).
pub fn parse_u32(s: &[char]) -> (r: Option<u32>)
    ensures
        r matches Some(v) ==> spec_parse_unsigned(s@, 10, u32::MAX as nat) == Some(v as nat),
        r is None ==> spec_parse_unsigned(s@, 10, u32::MAX as nat) is None,
{
    match parse_unsigned(s, 10, u32::MAX as u64) {
        Some(v) => Some(v as u32),
        None => None,
    }
}

/// Reads a decimal `u64` (std's `u64::from_str`).
pub fn parse_u64(s: &[char]) -> (r: Option<u64>)
    ensures
        r matches Some(v) ==> spec_parse_unsigned(s@, 10, u64::MAX as nat) == Some(v as nat),
        r is None ==> spec_parse_unsigned(s@, 10, u64::MAX as nat) is None,
{
    parse_unsigned(s, 10, u64::MAX)
}

/// Reads a decimal `usize` (std's `usize::from_str`).
pub fn parse_usize(s: &[char]) -> (r: Option<usize>)
    ensures
        r matches Some(v) ==> spec_parse_unsigned(s@, 10, usize::MAX as nat) == Some(v as nat),
        r is None ==> spec_parse_unsigned(s@, 10, usize::MAX as nat) is None,
{
    match parse_unsigned(s, 10, usize::MAX as u64) {
        Some(v) => Some(v as usize),
        None => None,
    }
}

/// Reads an octal `u32` (std's `u32::from_str_radix(s, 8)`).
pub fn parse_octal_u32(s: &[char]) -> (r: Option<u32>)
    ensures
        r matches Some(v) ==> spec_parse_unsigned(s@, 8, u32::MAX as nat) == Some(v as nat),
        r is None ==> spec_parse_unsigned(s@, 8, u32::MAX as nat) is None,
{
    match parse_unsigned(s, 8, u32::MAX as u64) {
        Some(v) => Some(v as u32),
        None => None,
    }
}

// ---------------------------------------------------------------------------
// Writing numbers (the output of std's `Display` / `{:o}` for integers)
// ---------------------------------------------------------------------------

/// The character of digit `d` (below ten).
pub open spec fn digit_char(d: nat) -> char {
    if d == 0 {
        '0'
    } else if d == 1 {
        '1'
    } else if d == 2 {
        '2'
    } else if d == 3 {
        '3'
    } else if d == 4 {
        '4'
    } else if d == 5 {
        '5'
    } else if d == 6 {
        '6'
    } else if d == 7 {
        '7'
    } else if d == 8 {
        '8'
    } else {
        '9'
    }
}

/// Decimal notation of `n`, without leading zeros.
pub open spec fn spec_decimal(n: nat) -> Seq<char>
    decreases n,
{
    if n < 10 {
        seq![digit_char(n)]
    } else {
        spec_decimal(n / 10).push(digit_char(n % 10))
    }
}

/// Octal notation of `n`, without leading zeros.
pub open spec fn spec_octal(n: nat) -> Seq<char>
    decreases n,
{
    if n < 8 {
        seq![digit_char(n)]
    } else {
        spec_octal(n / 8).push(digit_char(n % 8))
    }
}

/// Decimal notation of a signed integer.
pub open spec fn spec_decimal_int(n: int) -> Seq<char> {
    if n < 0 {
        seq!['-'] + spec_decimal((-n) as nat)
    } else {
        spec_decimal(n as nat)
    }
}

/// `s` right-aligned in a field of `width` characters filled with `fill`.
pub open spec fn pad_left(s: Seq<char>, width: nat, fill: char) -> Seq<char> {
    if s.len() >= width {
        s
    } else {
        Seq::new((width - s.len()) as nat, |_i: int| fill) + s
    }
}

/// `s` left-aligned in a field of `width` characters filled with spaces.
pub open spec fn pad_right(s: Seq<char>, width: nat) -> Seq<char> {
    if s.len() >= width {
        s
    } else {
        s + Seq::new((width - s.len()) as nat, |_i: int| ' ')
    }
}

/// Appends the decimal notation of `n`.
pub fn push_decimal(dst: &mut Vec<char>, n: u64)
    ensures
        final(dst)@ == old(dst)@ + spec_decimal(n as nat),
    decreases n,
{
    if n < 10 {
        dst.push(digit_to_char(n));
    } else {
        push_decimal(dst, n / 10);
        dst.push(digit_to_char(n % 10));
    }
}

/// Appends the octal notation of `n`.
pub fn push_octal(dst: &mut Vec<char>, n: u64)
    ensures
        final(dst)@ == old(dst)@ + spec_octal(n as nat),
    decreases n,
{
    if n < 8 {
        dst.push(digit_to_char(n));
    } else {
        push_octal(dst, n / 8);
        dst.push(digit_to_char(n % 8));
    }
}

/// Decimal notation of `n`.
pub fn decimal(n: u64) -> (v: Vec<char>)
    ensures
        v@ == spec_decimal(n as nat),
{
    let mut v: Vec<char> = Vec::new();
    push_decimal(&mut v, n);
    v
}

/// Decimal notation of a signed `n`.
pub fn decimal_i64(n: i64) -> (v: Vec<char>)
    ensures
        v@ == spec_decimal_int(n as int),
{
    let mut v: Vec<char> = Vec::new();
    if n < 0 {
        v.push('-');
        let m: u64 = if n == i64::MIN {
            0x8000_0000_0000_0000u64
        } else {
            (-n) as u64
        };
        push_decimal(&mut v, m);
    } else {
        push_decimal(&mut v, n as u64);
    }
    v
}

/// Right-aligns `s` in a field of `width` characters filled with `fill`.
pub fn padded_left(s: &[char], width: usize, fill: char) -> (v: Vec<char>)
    ensures
        v@ == pad_left(s@, width as nat, fill),
{
    let mut v: Vec<char> = Vec::new();
    if s.len() < width {
        let n = width - s.len();
        let mut i: usize = 0;
        while i < n
            invariant
                i <= n,
                v@ == Seq::new(i as nat, |_j: int| fill),
            decreases n - i,
        {
            v.push(fill);
            i += 1;
            assert(v@ =~= Seq::new(i as nat, |_j: int| fill));
        }
    }
    push_all(&mut v, s);
    assert(s@.len() >= width ==> v@ =~= s@);
    v
}

/// Left-aligns `s` in a field of `width` characters filled with spaces.
pub fn padded_right(s: &[char], width: usize) -> (v: Vec<char>)
    ensures
        v@ == pad_right(s@, width as nat),
{
    let mut v: Vec<char> = Vec::new();
    push_all(&mut v, s);
    if s.len() < width {
        let n = width - s.len();
        let mut i: usize = 0;
        while i < n
            invariant
                i <= n,
                v@ == s@ + Seq::new(i as nat, |_j: int| ' '),
            decreases n - i,
        {
            v.push(' ');
            i += 1;
            assert(v@ =~= s@ + Seq::new(i as nat, |_j: int| ' '));
        }
    } else {
        assert(v@ =~= s@);
    }
    v
}

} // verus!
