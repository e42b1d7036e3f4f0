//! Character-level helpers shared by the parsers and message builders.
use vstd::prelude::*;

verus! {

/// The characters of `s`, in order.
pub fn chars_of(s: &str) -> (v: Vec<char>)
    ensures
        v@ == s@,
{
    let mut v: Vec<char> = Vec::new();
    for c in it: s.chars()
        invariant
            v@ == it.seq().take(it.index() as int),
    {
        v.push(c);
    }
    v
}

/// Calls `String::push`: appends one character.
#[verifier::external_body]
pub(crate) fn push_char(s: &mut String, c: char)
    ensures
        final(s)@ == old(s)@.push(c),
{
    s.push(c);
}

/// Appends the characters of `t` to `s`.
pub fn push_str(s: &mut String, t: &str)
    ensures
        final(s)@ == old(s)@ + t@,
{
    s.append(t);
}

/// Whether `s` begins with `prefix`.
pub fn has_prefix(s: &str, prefix: &str) -> (b: bool)
    ensures
        b == (prefix@.len() <= s@.len() && s@.subrange(0, prefix@.len() as int) == prefix@),
{
    let a = chars_of(s);
    let p = chars_of(prefix);
    if p.len() > a.len() {
        return false;
    }
    let mut i: usize = 0;
    while i < p.len()
        invariant
            i <= p@.len(),
            p@.len() <= a@.len(),
            a@ == s@,
            p@ == prefix@,
            forall|k: int| 0 <= k < i ==> a@[k] == p@[k],
        decreases p@.len() - i,
    {
        if a[i] != p[i] {
            assert(s@.subrange(0, prefix@.len() as int)[i as int] != prefix@[i as int]);
            return false;
        }
        i += 1;
    }
    assert(s@.subrange(0, prefix@.len() as int) =~= prefix@);
    true
}

/// A string holding the characters of `t`.
pub fn string_of(t: &str) -> (s: String)
    ensures
        s@ == t@,
{
    String::from_str(t)
}

/// The characters of `v` as a string.
pub fn string_from_chars(v: &[char]) -> (s: String)
    ensures
        s@ == v@,
{
    let mut s = String::new();
    let mut i: usize = 0;
    while i < v.len()
        invariant
            i <= v@.len(),
            s@ == v@.take(i as int),
        decreases v@.len() - i,
    {
        push_char(&mut s, v[i]);
        i += 1;
        assert(s@ =~= v@.take(i as int));
    }
    assert(v@.take(v@.len() as int) =~= v@);
    s
}

/// Unicode `White_Space`, the set `char::is_whitespace` tests.
pub open spec fn is_white_space(c: char) -> bool {
    let u = c as u32;
    ||| 0x09 <= u <= 0x0D
    ||| u == 0x20
    ||| u == 0x85
    ||| u == 0xA0
    ||| u == 0x1680
    ||| 0x2000 <= u <= 0x200A
    ||| u == 0x2028
    ||| u == 0x2029
    ||| u == 0x202F
    ||| u == 0x205F
    ||| u == 0x3000
}

/// Whether `c` is white space, as [`is_white_space`] defines it.
pub fn white_space(c: char) -> (b: bool)
    ensures
        b == is_white_space(c),
{
    let u = c as u32;
    (0x09 <= u && u <= 0x0D) || u == 0x20 || u == 0x85 || u == 0xA0 || u == 0x1680 || (0x2000 <= u
        && u <= 0x200A) || u == 0x2028 || u == 0x2029 || u == 0x202F || u == 0x205F || u == 0x3000
}

/// First index at or after `i` below `hi` that holds `c`; `hi` if none does.
pub open spec fn find_char_in(s: Seq<char>, c: char, i: int, hi: int) -> int
    decreases hi - i,
{
    if i >= hi {
        hi
    } else if s[i] == c {
        i
    } else {
        find_char_in(s, c, i + 1, hi)
    }
}

pub proof fn lemma_find_char_in_bounds(s: Seq<char>, c: char, i: int, hi: int)
    requires
        i <= hi,
    ensures
        i <= find_char_in(s, c, i, hi) <= hi,
        find_char_in(s, c, i, hi) < hi ==> s[find_char_in(s, c, i, hi)] == c,
    decreases hi - i,
{
    if i < hi && s[i] != c {
        lemma_find_char_in_bounds(s, c, i + 1, hi);
    }
}

/// Finds `c` in `s[i..hi]`, as [`find_char_in`] defines it.
pub fn find_char(s: &[char], c: char, i: usize, hi: usize) -> (r: usize)
    requires
        i <= hi <= s@.len(),
    ensures
        r == find_char_in(s@, c, i as int, hi as int),
        i <= r <= hi,
{
    let mut j = i;
    while j < hi && s[j] != c
        invariant
            i <= j <= hi,
            hi <= s@.len(),
            find_char_in(s@, c, j as int, hi as int) == find_char_in(s@, c, i as int, hi as int),
        decreases hi - j,
    {
        j += 1;
    }
    j
}

/// Index of the first character of `t` that is not white space, from `i` on.
pub open spec fn skip_white_space(t: Seq<char>, i: int) -> int
    decreases t.len() - i,
{
    if i >= t.len() {
        t.len() as int
    } else if is_white_space(t[i]) {
        skip_white_space(t, i + 1)
    } else {
        i
    }
}

/// End of `t[..j]` once trailing white space is dropped.
pub open spec fn drop_trailing_white_space(t: Seq<char>, j: int) -> int
    decreases j,
{
    if j <= 0 {
        0
    } else if is_white_space(t[j - 1]) {
        drop_trailing_white_space(t, j - 1)
    } else {
        j
    }
}

/// `t` without leading and trailing white space (`str::trim`).
pub open spec fn trim(t: Seq<char>) -> Seq<char> {
    let a = skip_white_space(t, 0);
    let b = drop_trailing_white_space(t, t.len() as int);
    if a >= b {
        Seq::empty()
    } else {
        t.subrange(a, b)
    }
}

/// `s` without leading and trailing white space, as [`trim`] defines it.
pub fn trimmed(s: &str) -> (r: String)
    ensures
        r@ == trim(s@),
{
    let cs = chars_of(s);
    let n = cs.len();
    let mut a: usize = 0;
    while a < n && white_space(cs[a])
        invariant
            a <= n,
            n == cs@.len(),
            cs@ == s@,
            skip_white_space(cs@, a as int) == skip_white_space(cs@, 0),
        decreases n - a,
    {
        a += 1;
    }
    let mut b: usize = n;
    while b > 0 && white_space(cs[b - 1])
        invariant
            b <= n,
            n == cs@.len(),
            cs@ == s@,
            drop_trailing_white_space(cs@, b as int) == drop_trailing_white_space(cs@, n as int),
        decreases b,
    {
        b -= 1;
    }
    if a >= b {
        return String::new();
    }
    string_from_chars(vstd::slice::slice_subrange(cs.as_slice(), a, b))
}

pub open spec fn is_ascii_digit(c: char) -> bool {
    '0' as u32 <= c as u32 <= '9' as u32
}

pub open spec fn digit_value(c: char) -> int {
    c as u32 - '0' as u32
}

/// The number written by the decimal digits `d`.
pub open spec fn decimal_value(d: Seq<char>) -> int
    decreases d.len(),
{
    if d.len() == 0 {
        0
    } else {
        decimal_value(d.drop_last()) * 10 + digit_value(d.last())
    }
}

pub open spec fn all_digits(d: Seq<char>) -> bool {
    forall|i: int| 0 <= i < d.len() ==> is_ascii_digit(#[trigger] d[i])
}

/// What `str::parse::<u8>` gives: an optional `+`, then one or more ASCII
/// digits whose value is at most 255.
pub open spec fn parse_u8(t: Seq<char>) -> Option<u8> {
    let d = if t.len() > 0 && t[0] == '+' {
        t.drop_first()
    } else {
        t
    };
    if d.len() == 0 || !all_digits(d) || decimal_value(d) > 255 {
        None
    } else {
        Some(decimal_value(d) as u8)
    }
}

proof fn lemma_decimal_value_nonneg(d: Seq<char>)
    requires
        all_digits(d),
    ensures
        decimal_value(d) >= 0,
    decreases d.len(),
{
    if d.len() > 0 {
        assert(all_digits(d.drop_last()));
        lemma_decimal_value_nonneg(d.drop_last());
        assert(is_ascii_digit(d[d.len() - 1]));
    }
}

/// A longer run of digits is worth at least as much as any prefix of it.
proof fn lemma_decimal_value_prefix(d: Seq<char>, k: int)
    requires
        all_digits(d),
        0 <= k <= d.len(),
    ensures
        decimal_value(d.take(k)) <= decimal_value(d),
    decreases d.len(),
{
    if k < d.len() {
        assert(all_digits(d.drop_last()));
        lemma_decimal_value_prefix(d.drop_last(), k);
        assert(d.drop_last().take(k) =~= d.take(k));
        lemma_decimal_value_nonneg(d.drop_last());
        assert(is_ascii_digit(d[d.len() - 1]));
    } else {
        assert(d.take(k) =~= d);
    }
}

/// Trims white space from `s[lo..hi]` and parses the rest as a `u8`, as
/// `str::trim` followed by `str::parse::<u8>` does.
pub fn parse_trimmed_u8(s: &[char], lo: usize, hi: usize) -> (r: Option<u8>)
    requires
        lo <= hi <= s@.len(),
    ensures
        r == parse_u8(trim(s@.subrange(lo as int, hi as int))),
{
    let ghost t = s@.subrange(lo as int, hi as int);
    // leading white space
    let mut a = lo;
    while a < hi && white_space(s[a])
        invariant
            lo <= a <= hi,
            hi <= s@.len(),
            t == s@.subrange(lo as int, hi as int),
            skip_white_space(t, (a - lo) as int) == skip_white_space(t, 0),
        decreases hi - a,
    {
        a += 1;
    }
    // trailing white space
    let mut b = hi;
    while b > a && white_space(s[b - 1])
        invariant
            a <= b <= hi,
            lo <= a,
            hi <= s@.len(),
            t == s@.subrange(lo as int, hi as int),
            drop_trailing_white_space(t, (b - lo) as int) == drop_trailing_white_space(t, t.len() as int),
            forall|j: int| (b - lo) <= j < t.len() ==> is_white_space(#[trigger] t[j]),
        decreases b - a,
    {
        b -= 1;
    }
    proof {
        lemma_trim_bounds(t, (a - lo) as int, (b - lo) as int);
    }
    let ghost tr = trim(t);
    assert(tr =~= s@.subrange(a as int, b as int));
    // optional sign, then digits
    let mut i = a;
    if i < b && s[i] == '+' {
        i += 1;
    }
    let ghost d = if tr.len() > 0 && tr[0] == '+' {
        tr.drop_first()
    } else {
        tr
    };
    assert(d =~= s@.subrange(i as int, b as int));
    if i == b {
        return None;
    }
    let ds = i;
    let mut acc: u32 = 0;
    assert(parse_u8(trim(s@.subrange(lo as int, hi as int))) == (if d.len() == 0 || !all_digits(d)
        || decimal_value(d) > 255 {
        None
    } else {
        Some(decimal_value(d) as u8)
    }));
    while i < b
        invariant
            parse_u8(trim(s@.subrange(lo as int, hi as int))) == (if d.len() == 0 || !all_digits(d)
                || decimal_value(d) > 255 {
                None
            } else {
                Some(decimal_value(d) as u8)
            }),
            d.len() > 0,
            ds <= i <= b,
            b <= s@.len(),
            d =~= s@.subrange(ds as int, b as int),
            all_digits(s@.subrange(ds as int, i as int)),
            acc == decimal_value(s@.subrange(ds as int, i as int)),
            acc <= 255,
        decreases b - i,
    {
        let c = s[i];
        let u = c as u32;
        if !(48 <= u && u <= 57) {
            proof {
                assert(!is_ascii_digit(d[(i - ds) as int]));
            }
            return None;
        }
        let ghost prev = s@.subrange(ds as int, i as int);
        let ghost next = s@.subrange(ds as int, i + 1);
        proof {
            assert(next.drop_last() =~= prev);
            assert(all_digits(next));
        }
        acc = acc * 10 + (u - 48);
        i += 1;
        if acc > 255 {
            proof {
                if all_digits(d) {
                    assert(d.take((i - ds) as int) =~= next);
                    lemma_decimal_value_prefix(d, (i - ds) as int);
                }
            }
            return None;
        }
    }
    assert(s@.subrange(ds as int, i as int) =~= d);
    Some(acc as u8)
}

proof fn lemma_trim_bounds(t: Seq<char>, a: int, b: int)
    requires
        0 <= a <= b <= t.len(),
        skip_white_space(t, a) == skip_white_space(t, 0),
        a == t.len() || !is_white_space(t[a]),
        drop_trailing_white_space(t, b) == drop_trailing_white_space(t, t.len() as int),
        b == a || !is_white_space(t[b - 1]),
    ensures
        trim(t) == (if a >= b {
            Seq::<char>::empty()
        } else {
            t.subrange(a, b)
        }),
{
    assert(skip_white_space(t, a) == a);
    if b > a {
        assert(drop_trailing_white_space(t, b) == b);
    } else {
        lemma_drop_trailing_le(t, b);
    }
}

proof fn lemma_drop_trailing_le(t: Seq<char>, j: int)
    ensures
        drop_trailing_white_space(t, j) <= (if j < 0 {
            0
        } else {
            j
        }),
    decreases j,
{
    if j > 0 && is_white_space(t[j - 1]) {
        lemma_drop_trailing_le(t, j - 1);
    }
}

/// The decimal digits of `n`, most significant first.
pub open spec fn decimal_chars(n: nat) -> Seq<char>
    decreases n,
{
    if n < 10 {
        seq![((n + '0' as u32) as u32) as char]
    } else {
        decimal_chars(n / 10).push((((n % 10) + '0' as u32) as u32) as char)
    }
}

/// Appends the decimal digits of `n` (as `format!("{}", n)` writes them).
pub fn push_decimal(s: &mut String, n: u64)
    ensures
        final(s)@ == old(s)@ + decimal_chars(n as nat),
    decreases n,
{
    if n >= 10 {
        push_decimal(s, n / 10);
    }
    let d = (n % 10) as u32;
    let c = char_from_digit(d);
    push_char(s, c);
    proof {
        if n >= 10 {
            assert(decimal_chars(n as nat) == decimal_chars((n / 10) as nat).push(c));
        }
    }
}

fn char_from_digit(d: u32) -> (c: char)
    requires
        d < 10,
    ensures
        c == ((d + '0' as u32) as u32) as char,
{
    match d {
        0 => '0',
        1 => '1',
        2 => '2',
        3 => '3',
        4 => '4',
        5 => '5',
        6 => '6',
        7 => '7',
        8 => '8',
        _ => '9',
    }
}

/// What `String::from_utf8_lossy` makes of `bytes`. Only the facts that its
/// documentation gives are stated beside the name (see `string_from_utf8_lossy`).
pub uninterp spec fn utf8_lossy(bytes: Seq<u8>) -> Seq<char>;

/// Calls `String::from_utf8_lossy` and takes the owned string. Claimed: the
/// result is [`utf8_lossy`] of the bytes, and well-formed UTF-8 decodes
/// unchanged (invalid sequences become U+FFFD, which is not stated).
#[verifier::external_body]
pub(crate) fn string_from_utf8_lossy(bytes: &[u8]) -> (s: String)
    ensures
        s@ == utf8_lossy(bytes@),
        vstd::utf8::valid_utf8(bytes@) ==> s@ == vstd::utf8::decode_utf8(bytes@),
{
    String::from_utf8_lossy(bytes).into_owned()
}

/// Whether two strings hold the same characters (`==` on `str`).
pub fn str_eq(a: &str, b: &str) -> (r: bool)
    ensures
        r == (a@ == b@),
{
    let x = a.as_bytes();
    let y = b.as_bytes();
    proof {
        vstd::utf8::encode_utf8_decode_utf8(a@);
        vstd::utf8::encode_utf8_decode_utf8(b@);
    }
    if x.len() != y.len() {
        return false;
    }
    let mut i: usize = 0;
    while i < x.len()
        invariant
            i <= x@.len(),
            x@.len() == y@.len(),
            x@ == vstd::utf8::encode_utf8(a@),
            y@ == vstd::utf8::encode_utf8(b@),
            forall|k: int| 0 <= k < i ==> x@[k] == y@[k],
        decreases x@.len() - i,
    {
        if x[i] != y[i] {
            return false;
        }
        i += 1;
    }
    assert(x@ =~= y@);
    true
}


/// Whether `t` occurs in `s` starting at position `i`.
pub open spec fn chars_occur_at(s: Seq<char>, t: Seq<char>, i: int) -> bool {
    0 <= i && i + t.len() <= s.len() && s.subrange(i, i + t.len()) == t
}

/// Whether `t` occurs anywhere in `s`.
pub open spec fn str_contains(s: Seq<char>, t: Seq<char>) -> bool {
    exists|i: int| #[trigger] chars_occur_at(s, t, i)
}

fn chars_match_at(a: &Vec<char>, p: &Vec<char>, i: usize) -> (b: bool)
    requires
        i + p@.len() <= a@.len(),
    ensures
        b == chars_occur_at(a@, p@, i as int),
{
    let mut k: usize = 0;
    while k < p.len()
        invariant
            k <= p@.len(),
            i + p@.len() <= a@.len(),
            a@.len() == a.len(),
            forall|j: int| 0 <= j < k ==> a@[i + j] == p@[j],
        decreases p@.len() - k,
    {
        if a[i + k] != p[k] {
            assert(a@.subrange(i as int, i + p@.len())[k as int] != p@[k as int]);
            return false;
        }
        k += 1;
    }
    assert(a@.subrange(i as int, i + p@.len()) =~= p@);
    true
}

/// Whether `t` occurs in `s` (`str::contains` with a string pattern).
pub fn contains_str(s: &str, t: &str) -> (b: bool)
    ensures
        b == str_contains(s@, t@),
{
    let a = chars_of(s);
    let p = chars_of(t);
    if p.len() > a.len() {
        assert forall|j: int| !chars_occur_at(s@, t@, j) by {}
        return false;
    }
    let last = a.len() - p.len();
    let mut i: usize = 0;
    while i <= last
        invariant
            p@.len() <= a@.len(),
            last == a@.len() - p@.len(),
            i <= last + 1,
            a@ == s@,
            p@ == t@,
            forall|j: int| 0 <= j < i ==> !chars_occur_at(s@, t@, j),
        decreases last + 1 - i,
    {
        if chars_match_at(&a, &p, i) {
            assert(chars_occur_at(s@, t@, i as int));
            return true;
        }
        if i == last {
            assert forall|j: int| !chars_occur_at(s@, t@, j) by {
                if 0 <= j && j <= i {
                }
            }
            return false;
        }
        i += 1;
    }
    assert forall|j: int| !chars_occur_at(s@, t@, j) by {
        if 0 <= j && j < i {
        }
    }
    false
}

} // verus!
