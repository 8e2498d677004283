//! The lexical structure of the token text of an attribute's arguments:
//! whitespace, identifiers, and Rust's integer and string literals.
//!
//! An integer literal is decimal, or hexadecimal, octal or binary after
//! `0x`, `0o` or `0b`; `_` may separate its digits, and a suffix such as
//! `u8` may follow. A string literal is written in double quotes, with the
//! escapes `\\`, `\"`, `\'`, `\n`, `\t`, `\r`, `\0`, `\xHH` (at most `\x7F`)
//! and `\u{H...}` and line continuations, or raw (`r"..."`, `r#"..."#`);
//! a suffix may follow it too.
use vstd::prelude::*;
use crate::text::{char_from_u32, push_char};

verus! {

pub open spec fn is_ws(c: char) -> bool {
    c == ' ' || c == '\t' || c == '\n' || c == '\r'
}

pub open spec fn is_digit(c: char) -> bool {
    '0' <= c <= '9'
}

pub open spec fn is_hex_digit(c: char) -> bool {
    is_digit(c) || ('a' <= c <= 'f') || ('A' <= c <= 'F')
}

pub open spec fn is_ident_start(c: char) -> bool {
    ('a' <= c <= 'z') || ('A' <= c <= 'Z') || c == '_'
}

pub open spec fn is_ident_char(c: char) -> bool {
    is_ident_start(c) || is_digit(c)
}

/// The first position at or after `i` that is not whitespace.
pub open spec fn skip_ws(s: Seq<char>, i: int) -> int
    decreases s.len() - i,
{
    if 0 <= i < s.len() && is_ws(s[i]) {
        skip_ws(s, i + 1)
    } else {
        i
    }
}

/// The end of the run of identifier characters starting at `i`.
pub open spec fn ident_end(s: Seq<char>, i: int) -> int
    decreases s.len() - i,
{
    if 0 <= i < s.len() && is_ident_char(s[i]) {
        ident_end(s, i + 1)
    } else {
        i
    }
}

/// The value of a digit: `0`-`9`, then `a`-`f` (or `A`-`F`) for 10 to 15.
pub open spec fn digit_val(c: char) -> nat {
    if is_digit(c) {
        (c as nat - '0' as nat) as nat
    } else if 'a' <= c <= 'f' {
        (c as nat - 'a' as nat + 10) as nat
    } else {
        (c as nat - 'A' as nat + 10) as nat
    }
}

/// Whether `c` continues the digits of a literal in base `base`: a decimal
/// digit or `_`, and in base 16 also `a`-`f` and `A`-`F`.
pub open spec fn in_run(c: char, base: nat) -> bool {
    is_digit(c) || c == '_' || (base == 16 && is_hex_digit(c))
}

/// The end of the run of digits in base `base` starting at `i`.
pub open spec fn run_end(s: Seq<char>, i: int, base: nat) -> int
    decreases s.len() - i,
{
    if 0 <= i < s.len() && in_run(s[i], base) {
        run_end(s, i + 1, base)
    } else {
        i
    }
}

/// The number the digits of `s` write in base `base` (`_` is skipped).
pub open spec fn run_value(s: Seq<char>, base: nat) -> nat
    decreases s.len(),
{
    if s.len() == 0 {
        0
    } else if s.last() == '_' {
        run_value(s.drop_last(), base)
    } else {
        run_value(s.drop_last(), base) * base + digit_val(s.last())
    }
}

/// The number of digits of `s` (`_` does not count).
pub open spec fn digit_count(s: Seq<char>) -> nat
    decreases s.len(),
{
    if s.len() == 0 {
        0
    } else if s.last() == '_' {
        digit_count(s.drop_last())
    } else {
        digit_count(s.drop_last()) + 1
    }
}

/// Every digit of `s` is below `base`.
pub open spec fn digits_below(s: Seq<char>, base: nat) -> bool
    decreases s.len(),
{
    if s.len() == 0 {
        true
    } else {
        digits_below(s.drop_last(), base) && (s.last() == '_' || digit_val(s.last()) < base)
    }
}

/// The base of the integer literal at `i`, by its prefix.
pub open spec fn int_base(s: Seq<char>, i: int) -> nat {
    if 0 <= i && i + 1 < s.len() && s[i] == '0' && s[i + 1] == 'x' {
        16
    } else if 0 <= i && i + 1 < s.len() && s[i] == '0' && s[i + 1] == 'o' {
        8
    } else if 0 <= i && i + 1 < s.len() && s[i] == '0' && s[i + 1] == 'b' {
        2
    } else {
        10
    }
}

/// The value of the integer literal at `i` and the position after it (and
/// after its suffix). It needs at least one digit, each below its base; a
/// `.` after it, or an exponent (`e` and digits, or a sign), makes it a
/// float literal, which is refused.
pub open spec fn int_literal(s: Seq<char>, i: int) -> Option<(nat, int)> {
    if !(0 <= i < s.len() && is_digit(s[i])) {
        None
    } else {
        let base = int_base(s, i);
        let st = if base == 10 { i } else { i + 2 };
        let d = run_end(s, st, base);
        let t = ident_end(s, d);
        let digits = s.subrange(st, d);
        if digit_count(digits) == 0 || !digits_below(digits, base) {
            None
        } else if t < s.len() && s[t] == '.' {
            None
        } else if base == 10 && d < s.len() && (s[d] == 'e' || s[d] == 'E') {
            let k = run_end(s, d + 1, 10);
            if digit_count(s.subrange(d + 1, k)) > 0 {
                None
            } else if k == t && t < s.len() && (s[t] == '+' || s[t] == '-') {
                None
            } else {
                Some((run_value(digits, base), t))
            }
        } else {
            Some((run_value(digits, base), t))
        }
    }
}

/// The character a simple escape `\c` stands for.
pub open spec fn escaped(c: char) -> Option<char> {
    if c == 'n' {
        Some('\n')
    } else if c == 't' {
        Some('\t')
    } else if c == 'r' {
        Some('\r')
    } else if c == '0' {
        Some('\0')
    } else if c == '\\' || c == '"' || c == '\'' {
        Some(c)
    } else {
        None
    }
}

/// The value of the two hexadecimal digits at `i`.
pub open spec fn hex_pair(s: Seq<char>, i: int) -> Option<nat> {
    if 0 <= i && i + 1 < s.len() && is_hex_digit(s[i]) && is_hex_digit(s[i + 1]) {
        Some(digit_val(s[i]) * 16 + digit_val(s[i + 1]))
    } else {
        None
    }
}

/// A Unicode scalar value: at most 0x10FFFF, and not a surrogate.
pub open spec fn valid_scalar(v: nat) -> bool {
    v <= 0x10FFFF && !(0xD800 <= v <= 0xDFFF)
}

/// The escape `{H...}` of `\u{H...}` whose `{` is at `i`: one to six
/// hexadecimal digits (`_` may follow a digit) naming a scalar value; the
/// character and the position after the `}`.
pub open spec fn unicode_escape(s: Seq<char>, i: int) -> Option<(char, int)> {
    if 0 <= i && i + 1 < s.len() && s[i] == '{' && s[i + 1] != '_' {
        let e = run_end(s, i + 1, 16);
        let digits = s.subrange(i + 1, e);
        if e < s.len() && s[e] == '}' && 1 <= digit_count(digits) <= 6 && valid_scalar(run_value(digits, 16)) {
            Some((run_value(digits, 16) as char, e + 1))
        } else {
            None
        }
    } else {
        None
    }
}

/// A run ends no earlier than it starts, and within the text.
pub proof fn lemma_run_end(s: Seq<char>, i: int, base: nat)
    requires
        0 <= i <= s.len(),
    ensures
        i <= run_end(s, i, base) <= s.len(),
        forall|k: int| i <= k < run_end(s, i, base) ==> in_run(#[trigger] s[k], base),
    decreases s.len() - i,
{
    if i < s.len() && in_run(s[i], base) {
        lemma_run_end(s, i + 1, base);
    }
}

/// Whitespace is skipped forward, within the text.
pub proof fn lemma_skip_ws(s: Seq<char>, i: int)
    requires
        0 <= i <= s.len(),
    ensures
        i <= skip_ws(s, i) <= s.len(),
    decreases s.len() - i,
{
    if i < s.len() && is_ws(s[i]) {
        lemma_skip_ws(s, i + 1);
    }
}

/// The value of a string literal whose body starts at `i`, appended to
/// `acc`, and the position after its closing quote. A line continuation
/// (`\` before a line break) skips the whitespace that follows it; a
/// carriage return stands in the value only as part of `\r\n`, which reads
/// as `\n`.
pub open spec fn str_body(s: Seq<char>, i: int, acc: Seq<char>) -> Option<(Seq<char>, int)>
    decreases s.len() - i,
{
    if i < 0 || i >= s.len() {
        None
    } else if s[i] == '"' {
        Some((acc, i + 1))
    } else if s[i] == '\\' {
        if i + 1 >= s.len() {
            None
        } else if s[i + 1] == 'x' {
            match hex_pair(s, i + 2) {
                Some(b) => if b <= 0x7F {
                    str_body(s, i + 4, acc.push(b as char))
                } else {
                    None
                },
                None => None,
            }
        } else if s[i + 1] == 'u' {
            match unicode_escape(s, i + 2) {
                Some((c, e)) => {
                    proof {
                        lemma_run_end(s, i + 3, 16);
                    }
                    str_body(s, e, acc.push(c))
                },
                None => None,
            }
        } else if s[i + 1] == '\n' || s[i + 1] == '\r' {
            proof {
                lemma_skip_ws(s, i + 2);
            }
            str_body(s, skip_ws(s, i + 2), acc)
        } else {
            match escaped(s[i + 1]) {
                Some(c) => str_body(s, i + 2, acc.push(c)),
                None => None,
            }
        }
    } else if s[i] == '\r' {
        if i + 1 < s.len() && s[i + 1] == '\n' {
            str_body(s, i + 2, acc.push('\n'))
        } else {
            None
        }
    } else {
        str_body(s, i + 1, acc.push(s[i]))
    }
}

/// The end of the run of `#` starting at `i`.
pub open spec fn hashes_end(s: Seq<char>, i: int) -> int
    decreases s.len() - i,
{
    if 0 <= i < s.len() && s[i] == '#' {
        hashes_end(s, i + 1)
    } else {
        i
    }
}

/// A raw string with `n` hashes closes at `c`: a quote followed by `n`
/// hashes.
pub open spec fn raw_closes_at(s: Seq<char>, c: int, n: int) -> bool {
    &&& 0 <= c
    &&& c + 1 + n <= s.len()
    &&& s[c] == '"'
    &&& forall|m: int| c + 1 <= m < c + 1 + n ==> #[trigger] s[m] == '#'
}

/// The first position at or after `k` where a raw string with `n` hashes
/// closes.
pub open spec fn raw_close(s: Seq<char>, k: int, n: int) -> Option<int>
    decreases s.len() - k,
{
    if k < 0 || k >= s.len() {
        None
    } else if raw_closes_at(s, k, n) {
        Some(k)
    } else {
        raw_close(s, k + 1, n)
    }
}

/// The raw string literal whose `r` is at `i`: its text, taken as it
/// stands, and the position after its closing hashes.
pub open spec fn raw_str(s: Seq<char>, i: int) -> Option<(Seq<char>, int)> {
    let h = hashes_end(s, i + 1);
    let n = h - (i + 1);
    if 0 <= h < s.len() && s[h] == '"' {
        match raw_close(s, h + 1, n) {
            Some(c) => Some((s.subrange(h + 1, c), c + 1 + n)),
            None => None,
        }
    } else {
        None
    }
}

/// The position after the suffix, if any, that follows a literal ending at
/// `e`.
pub open spec fn suffix_end(s: Seq<char>, e: int) -> int {
    if 0 <= e < s.len() && is_ident_start(s[e]) {
        ident_end(s, e)
    } else {
        e
    }
}

/// The value of the string literal at `q` and the position after it (and
/// after its suffix).
pub open spec fn str_literal(s: Seq<char>, q: int) -> Option<(Seq<char>, int)> {
    let lit = if 0 <= q < s.len() && s[q] == '"' {
        str_body(s, q + 1, Seq::empty())
    } else if 0 <= q && q + 1 < s.len() && s[q] == 'r' && (s[q + 1] == '"' || s[q + 1] == '#') {
        raw_str(s, q)
    } else {
        None
    };
    match lit {
        Some((v, e)) => Some((v, suffix_end(s, e))),
        None => None,
    }
}

pub(crate) fn ws_at(s: &str, n: usize, i: usize) -> (r: bool)
    requires
        n == s@.len(),
        i < n,
    ensures
        r == is_ws(s@[i as int]),
{
    let c = s.get_char(i);
    c == ' ' || c == '\t' || c == '\n' || c == '\r'
}

pub(crate) fn digit_at(s: &str, n: usize, i: usize) -> (r: bool)
    requires
        n == s@.len(),
        i < n,
    ensures
        r == is_digit(s@[i as int]),
{
    let c = s.get_char(i);
    '0' <= c && c <= '9'
}

fn hex_digit_at(s: &str, n: usize, i: usize) -> (r: bool)
    requires
        n == s@.len(),
        i < n,
    ensures
        r == is_hex_digit(s@[i as int]),
{
    let c = s.get_char(i);
    ('0' <= c && c <= '9') || ('a' <= c && c <= 'f') || ('A' <= c && c <= 'F')
}

/// The value of the hexadecimal digit at `i`.
fn digit_val_at(s: &str, n: usize, i: usize) -> (r: u32)
    requires
        n == s@.len(),
        i < n,
        is_hex_digit(s@[i as int]),
    ensures
        r as nat == digit_val(s@[i as int]),
        r < 16,
{
    let c = s.get_char(i);
    if '0' <= c && c <= '9' {
        c as u32 - '0' as u32
    } else if 'a' <= c && c <= 'f' {
        c as u32 - 'a' as u32 + 10
    } else {
        c as u32 - 'A' as u32 + 10
    }
}

pub(crate) fn ident_start_at(s: &str, n: usize, i: usize) -> (r: bool)
    requires
        n == s@.len(),
        i < n,
    ensures
        r == is_ident_start(s@[i as int]),
{
    let c = s.get_char(i);
    ('a' <= c && c <= 'z') || ('A' <= c && c <= 'Z') || c == '_'
}

pub(crate) fn ident_char_at(s: &str, n: usize, i: usize) -> (r: bool)
    requires
        n == s@.len(),
        i < n,
    ensures
        r == is_ident_char(s@[i as int]),
{
    ident_start_at(s, n, i) || digit_at(s, n, i)
}

pub(crate) fn char_is(s: &str, n: usize, i: usize, c: char) -> (r: bool)
    requires
        n == s@.len(),
    ensures
        r == (i < n && s@[i as int] == c),
{
    i < n && s.get_char(i) == c
}

pub(crate) fn exec_skip_ws(s: &str, n: usize, i: usize) -> (r: usize)
    requires
        n == s@.len(),
        i <= n,
    ensures
        r as int == skip_ws(s@, i as int),
        i <= r <= n,
{
    let mut k = i;
    while k < n && ws_at(s, n, k)
        invariant
            n == s@.len(),
            i <= k <= n,
            skip_ws(s@, i as int) == skip_ws(s@, k as int),
        decreases n - k,
    {
        k = k + 1;
    }
    k
}

pub(crate) fn exec_ident_end(s: &str, n: usize, i: usize) -> (r: usize)
    requires
        n == s@.len(),
        i <= n,
    ensures
        r as int == ident_end(s@, i as int),
        i <= r <= n,
{
    let mut k = i;
    while k < n && ident_char_at(s, n, k)
        invariant
            n == s@.len(),
            i <= k <= n,
            ident_end(s@, i as int) == ident_end(s@, k as int),
        decreases n - k,
    {
        k = k + 1;
    }
    k
}

fn in_run_at(s: &str, n: usize, i: usize, base: u32) -> (r: bool)
    requires
        n == s@.len(),
        i < n,
    ensures
        r == in_run(s@[i as int], base as nat),
{
    digit_at(s, n, i) || char_is(s, n, i, '_') || (base == 16 && hex_digit_at(s, n, i))
}

fn exec_run_end(s: &str, n: usize, i: usize, base: u32) -> (r: usize)
    requires
        n == s@.len(),
        i <= n,
    ensures
        r as int == run_end(s@, i as int, base as nat),
        i <= r <= n,
{
    let mut k = i;
    while k < n && in_run_at(s, n, k, base)
        invariant
            n == s@.len(),
            i <= k <= n,
            run_end(s@, i as int, base as nat) == run_end(s@, k as int, base as nat),
        decreases n - k,
    {
        k = k + 1;
    }
    k
}

/// A value capped just above `lim`.
pub open spec fn capped(v: nat, lim: nat) -> nat {
    if v > lim {
        lim + 1
    } else {
        v
    }
}

/// A larger-than-`lim` value stays so after one more digit.
proof fn lemma_capped_grows(v: nat, base: nat, d: nat, lim: nat)
    requires
        v > lim,
        base >= 2,
    ensures
        v * base + d > lim,
{
    assert(v * base >= v) by (nonlinear_arith)
        requires
            base >= 2;
}

/// The digits between `i` and `d` in base `base`: their value (capped just
/// above `lim`), how many there are, and whether each is below the base.
fn scan_digits(s: &str, n: usize, i: usize, d: usize, base: u32, lim: u32) -> (r: (u32, usize, bool))
    requires
        n == s@.len(),
        i <= d <= n,
        2 <= base <= 16,
        lim <= 0x10FFFF,
        forall|k: int| i <= k < d ==> in_run(#[trigger] s@[k], base as nat),
    ensures
        r.0 as nat == capped(run_value(s@.subrange(i as int, d as int), base as nat), lim as nat),
        r.1 as nat == digit_count(s@.subrange(i as int, d as int)),
        r.2 == digits_below(s@.subrange(i as int, d as int), base as nat),
{
    let mut v: u32 = 0;
    let mut count: usize = 0;
    let mut below = true;
    let mut k = i;
    while k < d
        invariant
            n == s@.len(),
            i <= k <= d <= n,
            2 <= base <= 16,
            lim <= 0x10FFFF,
            forall|m: int| i <= m < d ==> in_run(#[trigger] s@[m], base as nat),
            v as nat == capped(run_value(s@.subrange(i as int, k as int), base as nat), lim as nat),
            count as nat == digit_count(s@.subrange(i as int, k as int)),
            count <= k - i,
            below == digits_below(s@.subrange(i as int, k as int), base as nat),
        decreases d - k,
    {
        let ghost prev = s@.subrange(i as int, k as int);
        assert(s@.subrange(i as int, k + 1).drop_last() =~= prev);
        assert(s@.subrange(i as int, k + 1).last() == s@[k as int]);
        assert(in_run(s@[k as int], base as nat));
        if !char_is(s, n, k, '_') {
            let dv = digit_val_at(s, n, k);
            if dv >= base {
                below = false;
            }
            proof {
                if run_value(prev, base as nat) > lim {
                    lemma_capped_grows(run_value(prev, base as nat), base as nat, dv as nat, lim as nat);
                }
            }
            if v > lim {
                v = lim + 1;
            } else {
                assert(v * base <= 0x10FFFF * 16) by (nonlinear_arith)
                    requires
                        v <= 0x10FFFF,
                        base <= 16;
                let w = v * base + dv;
                v = if w > lim { lim + 1 } else { w };
            }
            count = count + 1;
        }
        k = k + 1;
    }
    (v, count, below)
}

/// The integer literal at `i`: its value (or 256 when larger than a byte)
/// and the position after it.
pub(crate) fn exec_int_literal(s: &str, n: usize, i: usize) -> (r: Option<(u32, usize)>)
    requires
        n == s@.len(),
        i <= n,
    ensures
        match int_literal(s@, i as int) {
            Some((v, e)) => r matches Some((rv, re)) && re as int == e && re <= n
                && rv as nat == capped(v, 255),
            None => r is None,
        },
{
    if !(i < n && digit_at(s, n, i)) {
        return None;
    }
    let base: u32 = if char_is(s, n, i, '0') && char_is(s, n, i + 1, 'x') {
        16
    } else if char_is(s, n, i, '0') && char_is(s, n, i + 1, 'o') {
        8
    } else if char_is(s, n, i, '0') && char_is(s, n, i + 1, 'b') {
        2
    } else {
        10
    };
    assert(base as nat == int_base(s@, i as int));
    let st = if base == 10 { i } else { i + 2 };
    let d = exec_run_end(s, n, st, base);
    let t = exec_ident_end(s, n, d);
    proof {
        lemma_run_end(s@, st as int, base as nat);
    }
    let (v, count, below) = scan_digits(s, n, st, d, base, 255);
    if count == 0 || !below {
        return None;
    }
    if char_is(s, n, t, '.') {
        return None;
    }
    if base == 10 && (char_is(s, n, d, 'e') || char_is(s, n, d, 'E')) {
        let k = exec_run_end(s, n, d + 1, 10);
        proof {
            lemma_run_end(s@, d + 1, 10);
        }
        let (_, exp_digits, _) = scan_digits(s, n, d + 1, k, 10, 255);
        if exp_digits > 0 {
            return None;
        }
        if k == t && (char_is(s, n, t, '+') || char_is(s, n, t, '-')) {
            return None;
        }
    }
    Some((v, t))
}

/// Appends the character a simple escape stands for.
fn append_escaped(acc: &mut String, c: char)
    requires
        escaped(c) is Some,
    ensures
        final(acc)@ == old(acc)@.push(escaped(c)->Some_0),
{
    let e = if c == 'n' {
        '\n'
    } else if c == 't' {
        '\t'
    } else if c == 'r' {
        '\r'
    } else if c == '0' {
        '\0'
    } else {
        c
    };
    push_char(acc, e);
}

/// The `\u{...}` escape whose `{` is at `i`: its character and the position
/// after it.
fn exec_unicode_escape(s: &str, n: usize, i: usize) -> (r: Option<(char, usize)>)
    requires
        n == s@.len(),
        i <= n,
    ensures
        match unicode_escape(s@, i as int) {
            Some((c, e)) => r matches Some((rc, re)) && rc == c && re as int == e && i < re <= n,
            None => r is None,
        },
{
    if !(i < n && i + 1 < n && char_is(s, n, i, '{') && !char_is(s, n, i + 1, '_')) {
        return None;
    }
    let e = exec_run_end(s, n, i + 1, 16);
    proof {
        lemma_run_end(s@, i + 1, 16);
    }
    if !char_is(s, n, e, '}') {
        return None;
    }
    let (v, count, _) = scan_digits(s, n, i + 1, e, 16, 0x10FFFF);
    if count < 1 || count > 6 {
        return None;
    }
    match char_from_u32(v) {
        Some(c) => Some((c, e + 1)),
        None => None,
    }
}

/// The string literal body starting at `i`: its value and the position
/// after the closing quote.
fn exec_str_body(s: &str, n: usize, i: usize) -> (r: Option<(String, usize)>)
    requires
        n == s@.len(),
        i <= n,
    ensures
        match str_body(s@, i as int, Seq::empty()) {
            Some((v, e)) => r matches Some((rv, re)) && rv@ == v && re as int == e && re <= n,
            None => r is None,
        },
{
    let mut acc = String::new();
    let mut run: usize = i;
    let mut k: usize = i;
    while k < n
        invariant
            n == s@.len(),
            i <= run <= k <= n,
            str_body(s@, i as int, Seq::empty()) == str_body(s@, k as int, acc@ + s@.subrange(run as int, k as int)),
        decreases n - k,
    {
        let c = s.get_char(k);
        let ghost pending = acc@ + s@.subrange(run as int, k as int);
        if c == '"' {
            let piece = s.substring_char(run, k);
            acc.append(piece);
            return Some((acc, k + 1));
        } else if c == '\\' {
            if k + 1 >= n {
                return None;
            }
            let e = s.get_char(k + 1);
            let piece = s.substring_char(run, k);
            acc.append(piece);
            assert(acc@ == pending);
            if e == 'x' {
                if !(n - k > 3 && hex_digit_at(s, n, k + 2) && hex_digit_at(s, n, k + 3)) {
                    return None;
                }
                let b = digit_val_at(s, n, k + 2) * 16 + digit_val_at(s, n, k + 3);
                if b > 0x7F {
                    return None;
                }
                match char_from_u32(b) {
                    Some(ch) => push_char(&mut acc, ch),
                    None => return None,
                }
                k = k + 4;
            } else if e == 'u' {
                match exec_unicode_escape(s, n, k + 2) {
                    Some((ch, end)) => {
                        push_char(&mut acc, ch);
                        k = end;
                    },
                    None => return None,
                }
            } else if e == '\n' || e == '\r' {
                k = exec_skip_ws(s, n, k + 2);
            } else if e == 'n' || e == 't' || e == 'r' || e == '0' || e == '\\' || e == '"' || e == '\'' {
                append_escaped(&mut acc, e);
                k = k + 2;
            } else {
                return None;
            }
            run = k;
            assert(acc@ + s@.subrange(run as int, k as int) =~= acc@);
        } else if c == '\r' {
            if !char_is(s, n, k + 1, '\n') {
                return None;
            }
            let piece = s.substring_char(run, k);
            acc.append(piece);
            push_char(&mut acc, '\n');
            k = k + 2;
            run = k;
            assert(acc@ + s@.subrange(run as int, k as int) =~= acc@);
        } else {
            assert(pending.push(c) =~= acc@ + s@.subrange(run as int, k + 1));
            k = k + 1;
        }
    }
    None
}

fn exec_hashes_end(s: &str, n: usize, i: usize) -> (r: usize)
    requires
        n == s@.len(),
        i <= n,
    ensures
        r as int == hashes_end(s@, i as int),
        i <= r <= n,
{
    let mut k = i;
    while k < n && char_is(s, n, k, '#')
        invariant
            n == s@.len(),
            i <= k <= n,
            hashes_end(s@, i as int) == hashes_end(s@, k as int),
        decreases n - k,
    {
        k = k + 1;
    }
    k
}

/// Whether a raw string with `h` hashes closes at `c`.
fn exec_raw_closes_at(s: &str, n: usize, c: usize, h: usize) -> (r: bool)
    requires
        n == s@.len(),
        c < n,
        h <= n,
    ensures
        r == raw_closes_at(s@, c as int, h as int),
{
    if !(h < n - c && char_is(s, n, c, '"')) {
        return false;
    }
    let mut m: usize = 0;
    while m < h
        invariant
            n == s@.len(),
            c < n,
            h < n - c,
            m <= h,
            forall|j: int| c + 1 <= j < c + 1 + m ==> #[trigger] s@[j] == '#',
        decreases h - m,
    {
        if !char_is(s, n, c + 1 + m, '#') {
            return false;
        }
        m = m + 1;
    }
    true
}

/// The raw string literal whose `r` is at `i`: its text and the position
/// after it.
fn exec_raw_str(s: &str, n: usize, i: usize) -> (r: Option<(String, usize)>)
    requires
        n == s@.len(),
        i < n,
    ensures
        match raw_str(s@, i as int) {
            Some((v, e)) => r matches Some((rv, re)) && rv@ == v && re as int == e && re <= n,
            None => r is None,
        },
{
    let h = exec_hashes_end(s, n, i + 1);
    let nh = h - (i + 1);
    if !char_is(s, n, h, '"') {
        return None;
    }
    let mut c = h + 1;
    while c < n
        invariant
            n == s@.len(),
            i < h < n,
            nh == h - (i + 1),
            h as int == hashes_end(s@, i + 1),
            s@[h as int] == '"',
            h + 1 <= c <= n,
            raw_close(s@, h + 1, nh as int) == raw_close(s@, c as int, nh as int),
        decreases n - c,
    {
        if exec_raw_closes_at(s, n, c, nh) {
            assert(raw_close(s@, c as int, nh as int) == Some(c as int));
            let v = s.substring_char(h + 1, c).to_owned();
            return Some((v, c + 1 + nh));
        }
        c = c + 1;
    }
    None
}

/// The string literal at `q`: its value and the position after it.
pub(crate) fn exec_str_literal(s: &str, n: usize, q: usize) -> (r: Option<(String, usize)>)
    requires
        n == s@.len(),
        q <= n,
    ensures
        match str_literal(s@, q as int) {
            Some((v, e)) => r matches Some((rv, re)) && rv@ == v && re as int == e && re <= n,
            None => r is None,
        },
{
    let lit = if char_is(s, n, q, '"') {
        exec_str_body(s, n, q + 1)
    } else if char_is(s, n, q, 'r') && (char_is(s, n, q + 1, '"') || char_is(s, n, q + 1, '#')) {
        exec_raw_str(s, n, q)
    } else {
        None
    };
    match lit {
        Some((v, e)) => {
            if e < n && ident_start_at(s, n, e) {
                let end = exec_ident_end(s, n, e);
                Some((v, end))
            } else {
                Some((v, e))
            }
        },
        None => None,
    }
}

} // verus!
