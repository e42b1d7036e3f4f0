//! Reading and setting the ALSA mixer volume through `amixer`.
//!
//! Running `amixer` is I/O and happens outside the library; here stand the
//! parsing of its output and the argument it is given.
use vstd::prelude::*;
use crate::text::{
    chars_of, decimal_chars, find_char, find_char_in, lemma_find_char_in_bounds, parse_trimmed_u8,
    parse_u8, push_char, push_decimal, string_from_utf8_lossy, trim, utf8_lossy, all_digits, decimal_value,
    is_ascii_digit, is_white_space, digit_value, skip_white_space, drop_trailing_white_space,
};

verus! {

#[derive(Debug)]
pub enum VolumeError {
    CommandFailed(String),
    ParseError,
}

/// First index `j` in `s[i..hi]` where `%]` starts; `hi` if there is none.
pub open spec fn find_percent_close(s: Seq<char>, i: int, hi: int) -> int
    decreases hi - i,
{
    if i + 1 >= hi {
        hi
    } else if s[i] == '%' && s[i + 1] == ']' {
        i
    } else {
        find_percent_close(s, i + 1, hi)
    }
}

/// The volume a line `s[lo..hi]` shows: the text between its first `[` and
/// the first `%]` after it, trimmed and read as a `u8`.
pub open spec fn line_volume(s: Seq<char>, lo: int, hi: int) -> Option<u8> {
    let b = find_char_in(s, '[', lo, hi);
    if b >= hi {
        None
    } else {
        let q = find_percent_close(s, b + 1, hi);
        if q >= hi {
            None
        } else {
            parse_u8(trim(s.subrange(b + 1, q)))
        }
    }
}

/// The volume shown by the first line of `s` from `start` on that shows one.
/// Lines end at `\n` (a `\r` before it never matters here: it cannot be part
/// of `[`, of `%]`, or of the text between them).
pub open spec fn volume_from(s: Seq<char>, start: int) -> Option<u8>
    decreases s.len() + 1 - start,
{
    if start < 0 || start >= s.len() {
        None
    } else {
        let e = find_char_in(s, '\n', start, s.len() as int);
        match line_volume(s, start, e) {
            Some(v) => Some(v),
            None => {
                proof {
                    lemma_find_char_in_bounds(s, '\n', start, s.len() as int);
                }
                volume_from(s, e + 1)
            },
        }
    }
}

proof fn lemma_find_char_in_shift(s: Seq<char>, u: Seq<char>, c: char, i: int, hi: int, d: int)
    requires
        i <= hi,
        forall|k: int| i <= k < hi ==> s[k] == u[k + d],
    ensures
        find_char_in(s, c, i, hi) + d == find_char_in(u, c, i + d, hi + d),
    decreases hi - i,
{
    if i < hi {
        assert(s[i] == u[i + d]);
        if s[i] != c {
            lemma_find_char_in_shift(s, u, c, i + 1, hi, d);
        }
    }
}

proof fn lemma_find_percent_close_bounds(s: Seq<char>, i: int, hi: int)
    requires
        i <= hi,
    ensures
        i <= find_percent_close(s, i, hi) <= hi,
    decreases hi - i,
{
    if i + 1 < hi && !(s[i] == '%' && s[i + 1] == ']') {
        lemma_find_percent_close_bounds(s, i + 1, hi);
    }
}

proof fn lemma_find_percent_close_shift(s: Seq<char>, u: Seq<char>, i: int, hi: int, d: int)
    requires
        i <= hi,
        forall|k: int| i <= k < hi ==> s[k] == u[k + d],
    ensures
        find_percent_close(s, i, hi) + d == find_percent_close(u, i + d, hi + d),
    decreases hi - i,
{
    if i + 1 < hi {
        assert(s[i] == u[i + d]);
        assert(s[i + 1] == u[i + 1 + d]);
        if !(s[i] == '%' && s[i + 1] == ']') {
            lemma_find_percent_close_shift(s, u, i + 1, hi, d);
        }
    }
}

/// The volume a line shows depends on the characters of the line alone.
proof fn lemma_line_volume_shift(s: Seq<char>, u: Seq<char>, lo: int, hi: int, d: int)
    requires
        0 <= lo <= hi <= s.len(),
        0 <= lo + d,
        hi + d <= u.len(),
        forall|k: int| lo <= k < hi ==> s[k] == u[k + d],
    ensures
        line_volume(s, lo, hi) == line_volume(u, lo + d, hi + d),
{
    lemma_find_char_in_shift(s, u, '[', lo, hi, d);
    lemma_find_char_in_bounds(s, '[', lo, hi);
    let b = find_char_in(s, '[', lo, hi);
    if b < hi {
        lemma_find_percent_close_shift(s, u, b + 1, hi, d);
        lemma_find_percent_close_bounds(s, b + 1, hi);
        let q = find_percent_close(s, b + 1, hi);
        if q < hi {
            assert(s.subrange(b + 1, q) =~= u.subrange(b + 1 + d, q + d));
        }
    }
}

/// Reading from `start` within `t` gives the same volume when `t` follows
/// other text.
proof fn lemma_volume_from_after(p: Seq<char>, t: Seq<char>, i: int)
    requires
        0 <= i,
    ensures
        volume_from(p + t, p.len() + i) == volume_from(t, i),
    decreases t.len() + 1 - i,
{
    let s = p + t;
    if i < t.len() {
        let d = p.len() as int;
        assert forall|k: int| i <= k < t.len() implies t[k] == s[k + d] by {}
        lemma_find_char_in_shift(t, s, '\n', i, t.len() as int, d);
        lemma_find_char_in_bounds(t, '\n', i, t.len() as int);
        let e = find_char_in(t, '\n', i, t.len() as int);
        lemma_line_volume_shift(t, s, i, e, d);
        lemma_volume_from_after(p, t, e + 1);
    }
}

/// The volume of `amixer` output is that of its first line that shows one:
/// a line `line` (without a line break) that shows a volume decides, and
/// whatever follows it does not matter; a line that shows none is skipped;
/// and output of one line shows the volume of that line.
pub proof fn lemma_first_volume_line_decides(line: Seq<char>, rest: Seq<char>)
    requires
        forall|k: int| 0 <= k < line.len() ==> line[k] != '\n',
    ensures
        line_volume(line, 0, line.len() as int) matches Some(v) ==> volume_from(
            line + seq!['\n'] + rest,
            0,
        ) == Some(v),
        line_volume(line, 0, line.len() as int) is None ==> volume_from(line + seq!['\n'] + rest, 0)
            == volume_from(rest, 0),
        volume_from(line, 0) == line_volume(line, 0, line.len() as int),
{
    let p = line + seq!['\n'];
    let s = p + rest;
    let n = line.len() as int;
    assert forall|k: int| 0 <= k < n implies line[k] == s[k + 0] by {}
    assert forall|k: int| 0 <= k < n implies line[k] == p[k + 0] by {}
    lemma_find_char_in_shift(line, s, '\n', 0, n, 0);
    lemma_find_char_in_shift(line, p, '\n', 0, n, 0);
    lemma_find_char_in_no_match(line, '\n', 0, n);
    assert(find_char_in(s, '\n', n, s.len() as int) == n);
    lemma_find_char_in_split(s, '\n', 0, n, s.len() as int);
    lemma_line_volume_shift(line, s, 0, n, 0);
    lemma_volume_from_after(p, rest, 0);
    if n > 0 {
        assert(volume_from(line, n + 1) == None::<u8>);
    } else {
        assert(line_volume(line, 0, 0) == None::<u8>);
    }
}

proof fn lemma_decimal_chars_digits(n: nat)
    ensures
        decimal_chars(n).len() > 0,
        all_digits(decimal_chars(n)),
        decimal_value(decimal_chars(n)) == n,
    decreases n,
{
    if n < 10 {
        let c = ((n + '0' as u32) as u32) as char;
        assert(c as u32 == n + 48);
        assert(decimal_chars(n) =~= seq![c]);
        assert(decimal_chars(n).drop_last() =~= Seq::<char>::empty());
        assert(decimal_chars(n).last() == c);
        assert(digit_value(c) == n);
        assert(decimal_value(decimal_chars(n)) == decimal_value(decimal_chars(n).drop_last()) * 10 + digit_value(
            c,
        ));
        assert(decimal_value(Seq::<char>::empty()) == 0);
    } else {
        lemma_decimal_chars_digits(n / 10);
        let d = decimal_chars(n / 10);
        let c = ((((n % 10) + '0' as u32) as u32) as char);
        assert(c as u32 == n % 10 + 48);
        let e = decimal_chars(n);
        assert(e =~= d.push(c));
        assert(e.drop_last() =~= d);
        assert(e.last() == c);
        assert(digit_value(c) == n % 10);
        vstd::arithmetic::div_mod::lemma_fundamental_div_mod(n as int, 10);
        assert(decimal_value(e) == decimal_value(d) * 10 + digit_value(c));
        assert(decimal_value(d) == n / 10);
        assert(decimal_value(e) == n);
        assert forall|i: int| 0 <= i < e.len() implies is_ascii_digit(#[trigger] e[i]) by {
            if i < d.len() {
                assert(e[i] == d[i]);
            }
        }
    }
}

/// The number `volume_arg` writes before its `%` reads back as that number:
/// a line that shows `[` followed by it and `%]` shows that volume.
pub proof fn lemma_volume_text_roundtrip(v: u8)
    ensures
        parse_u8(trim(decimal_chars(v as nat))) == Some(v),
{
    let t = decimal_chars(v as nat);
    lemma_decimal_chars_digits(v as nat);
    assert(is_ascii_digit(t[0]));
    assert(!is_white_space(t[0]));
    assert(is_ascii_digit(t[t.len() - 1]));
    assert(!is_white_space(t[t.len() - 1]));
    assert(skip_white_space(t, 0) == 0);
    assert(drop_trailing_white_space(t, t.len() as int) == t.len());
    assert(trim(t) =~= t);
    assert(t[0] != '+');
}

proof fn lemma_find_percent_close_at(s: Seq<char>, i: int, m: int, hi: int)
    requires
        i <= m,
        m + 1 < hi,
        s[m] == '%',
        s[m + 1] == ']',
        forall|k: int| i <= k < m ==> s[k] != '%',
    ensures
        find_percent_close(s, i, hi) == m,
    decreases m - i,
{
    if i < m {
        lemma_find_percent_close_at(s, i + 1, m, hi);
    }
}

/// A line shows the number written between its first `[` and the `%]`
/// that follows: for a line `a [t%] b`, where `a` holds no `[` and `t` no
/// `%`, the volume is `t` (trimmed) read as a `u8`, whatever `b` holds.
pub proof fn lemma_line_volume_first_bracket(a: Seq<char>, t: Seq<char>, b: Seq<char>)
    requires
        forall|k: int| 0 <= k < a.len() ==> a[k] != '[',
        forall|k: int| 0 <= k < t.len() ==> t[k] != '%',
    ensures
        ({
            let line = a + seq!['['] + t + seq!['%', ']'] + b;
            line_volume(line, 0, line.len() as int) == parse_u8(trim(t))
        }),
{
    let line = a + seq!['['] + t + seq!['%', ']'] + b;
    let n = line.len() as int;
    let la = a.len() as int;
    let lt = t.len() as int;
    assert forall|k: int| 0 <= k < la implies line[k] != '[' by {
        assert(line[k] == a[k]);
    }
    lemma_find_char_in_no_match(line, '[', 0, la);
    lemma_find_char_in_split(line, '[', 0, la, n);
    assert(line[la] == '[');
    assert(find_char_in(line, '[', 0, n) == la);
    assert forall|k: int| la + 1 <= k < la + 1 + lt implies line[k] != '%' by {
        assert(line[k] == t[k - la - 1]);
    }
    assert(line[la + 1 + lt] == '%');
    assert(line[la + 2 + lt] == ']');
    lemma_find_percent_close_at(line, la + 1, la + 1 + lt, n);
    assert(line.subrange(la + 1, la + 1 + lt) =~= t);
}

proof fn lemma_find_char_in_no_match(s: Seq<char>, c: char, i: int, hi: int)
    requires
        i <= hi,
        forall|k: int| i <= k < hi ==> s[k] != c,
    ensures
        find_char_in(s, c, i, hi) == hi,
    decreases hi - i,
{
    if i < hi {
        lemma_find_char_in_no_match(s, c, i + 1, hi);
    }
}

/// When `c` is absent from `s[i..m]`, searching `s[i..hi]` continues at `m`.
proof fn lemma_find_char_in_split(s: Seq<char>, c: char, i: int, m: int, hi: int)
    requires
        i <= m <= hi,
        find_char_in(s, c, i, m) == m,
    ensures
        find_char_in(s, c, i, hi) == find_char_in(s, c, m, hi),
    decreases m - i,
{
    if i < m {
        lemma_find_char_in_split(s, c, i + 1, m, hi);
    }
}

fn find_percent_close_exec(s: &[char], i: usize, hi: usize) -> (r: usize)
    requires
        i <= hi <= s@.len(),
    ensures
        r == find_percent_close(s@, i as int, hi as int),
        i <= r <= hi,
{
    let mut j = i;
    while j < hi && j + 1 < hi && !(s[j] == '%' && s[j + 1] == ']')
        invariant
            i <= j <= hi,
            hi <= s@.len(),
            find_percent_close(s@, j as int, hi as int) == find_percent_close(s@, i as int, hi as int),
        decreases hi - j,
    {
        j += 1;
    }
    if j >= hi || j + 1 >= hi {
        hi
    } else {
        j
    }
}

fn line_volume_exec(s: &[char], lo: usize, hi: usize) -> (r: Option<u8>)
    requires
        lo <= hi <= s@.len(),
    ensures
        r == line_volume(s@, lo as int, hi as int),
{
    let b = find_char(s, '[', lo, hi);
    if b >= hi {
        return None;
    }
    let q = find_percent_close_exec(s, b + 1, hi);
    if q >= hi {
        return None;
    }
    parse_trimmed_u8(s, b + 1, q)
}

/// Extracts the first `[NN%]` value from `amixer` output.
pub fn parse_volume_percent(output: &str) -> (r: Option<u8>)
    ensures
        r == volume_from(output@, 0),
{
    let cs = chars_of(output);
    let n = cs.len();
    let mut start: usize = 0;
    while start < n
        invariant
            start <= n,
            n == cs@.len(),
            cs@ == output@,
            volume_from(cs@, start as int) == volume_from(cs@, 0),
        decreases n - start,
    {
        let e = find_char(cs.as_slice(), '\n', start, n);
        let v = line_volume_exec(cs.as_slice(), start, e);
        if v.is_some() {
            return v;
        }
        if e >= n {
            assert(volume_from(cs@, (e + 1) as int) == None::<u8>);
            return None;
        }
        start = e + 1;
    }
    None
}

/// The volume `amixer get` reported: its error output when it failed,
/// otherwise the first `[NN%]` of its output, or `ParseError` when there is
/// none. `stdout` and `stderr` are the raw bytes the command wrote.
pub fn volume_from_amixer(success: bool, stdout: &[u8], stderr: &[u8]) -> (r: Result<u8, VolumeError>)
    ensures
        !success ==> (r matches Err(VolumeError::CommandFailed(m)) && m@ == utf8_lossy(stderr@)),
        success ==> match volume_from(utf8_lossy(stdout@), 0) {
            Some(v) => r matches Ok(x) && x == v,
            None => r matches Err(VolumeError::ParseError),
        },
{
    if !success {
        return Err(VolumeError::CommandFailed(string_from_utf8_lossy(stderr)));
    }
    let text = string_from_utf8_lossy(stdout);
    match parse_volume_percent(text.as_str()) {
        Some(v) => Ok(v),
        None => Err(VolumeError::ParseError),
    }
}

/// The `amixer sset` argument for a volume: the percentage, capped at 100,
/// followed by `%`.
pub open spec fn volume_arg_text(percent: u8) -> Seq<char> {
    decimal_chars(if percent < 100 { percent as nat } else { 100 }) + seq!['%']
}

/// The argument sets the level asked for, capped at 100: it ends in `%`,
/// and what comes before reads back as `min(percent, 100)`.
pub proof fn lemma_volume_arg_sets_level(percent: u8)
    ensures
        volume_arg_text(percent).len() >= 2,
        volume_arg_text(percent).last() == '%',
        parse_u8(trim(volume_arg_text(percent).drop_last())) == Some(
            if percent < 100 {
                percent
            } else {
                100u8
            },
        ),
{
    let p: u8 = if percent < 100 {
        percent
    } else {
        100u8
    };
    lemma_volume_text_roundtrip(p);
    lemma_decimal_chars_digits(p as nat);
    assert(volume_arg_text(percent).drop_last() =~= decimal_chars(p as nat));
}

/// Builds the `amixer sset` argument for a volume (see [`volume_arg_text`]).
pub fn volume_arg(percent: u8) -> (r: String)
    ensures
        r@ == volume_arg_text(percent),
        r@ == decimal_chars(if percent < 100 { percent as nat } else { 100 }) + seq!['%'],
{
    let p: u8 = if percent < 100 { percent } else { 100 };
    let mut s = String::new();
    push_decimal(&mut s, p as u64);
    push_char(&mut s, '%');
    s
}

} // verus!
