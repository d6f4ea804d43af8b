//! Character-level helpers shared by the signed-link, webhook and
//! command modules: conversion between `str`/`String` and character
//! vectors, decimal rendering and parsing of `u64`.

use vstd::prelude::*;
use vstd::string::*;
use vstd::std_specs::iter::IteratorSpec;

verus! {

broadcast use {vstd::string::next_postcondition, vstd::string::axiom_spec_iter};

/// Append one character to a `String` (std's `String::push`).
#[verifier::external_body]
fn string_push(s: &mut String, c: char)
    ensures
        final(s)@ == old(s)@.push(c),
{
    s.push(c);
}

/// The characters of a string slice, in order.
pub fn chars_of(s: &str) -> (v: Vec<char>)
    ensures
        v@ == s@,
{
    let mut it = s.chars();
    let mut v: Vec<char> = Vec::new();
    loop
        invariant
            it.obeys_prophetic_iter_laws(),
            it.decrease() is Some,
            v@ + it.remaining() == s@,
        decreases it.decrease()->0,
    {
        let ghost before = it.remaining();
        match it.next() {
            Some(c) => {
                v.push(c);
                assert(v@ + it.remaining() =~= s@) by {
                    assert(before =~= seq![c] + before.drop_first());
                }
            },
            None => {
                assert(v@ =~= s@);
                return v;
            },
        }
    }
}

/// A `String` holding exactly the given characters.
pub fn string_from_chars(cs: &[char]) -> (s: String)
    ensures
        s@ == cs@,
{
    let mut s = String::new();
    let mut i: usize = 0;
    while i < cs.len()
        invariant
            i <= cs.len(),
            s@ == cs@.subrange(0, i as int),
        decreases cs.len() - i,
    {
        string_push(&mut s, cs[i]);
        assert(s@ =~= cs@.subrange(0, i + 1));
        i = i + 1;
    }
    assert(cs@.subrange(0, cs.len() as int) =~= cs@);
    s
}


/// The character of a decimal digit `d` (`0 <= d < 10`).
pub open spec fn digit_char(d: int) -> char {
    (48 + d) as char
}

/// `c` is an ASCII decimal digit.
pub open spec fn is_digit(c: char) -> bool {
    '0' <= c && c <= '9'
}

/// Every character of `s` is an ASCII decimal digit.
pub open spec fn all_digits(s: Seq<char>) -> bool {
    forall|i: int| 0 <= i < s.len() ==> is_digit(#[trigger] s[i])
}

/// The number a string of decimal digits denotes.
pub open spec fn digits_value(s: Seq<char>) -> nat
    decreases s.len(),
{
    if s.len() == 0 {
        0
    } else {
        digits_value(s.drop_last()) * 10 + ((s.last() as int - 48) as nat)
    }
}

/// The shortest decimal rendering of `n` (what `format!("{n}")` prints).
pub open spec fn decimal_chars(n: nat) -> Seq<char>
    decreases n,
{
    if n < 10 {
        seq![digit_char(n as int)]
    } else {
        decimal_chars(n / 10).push(digit_char((n % 10) as int))
    }
}

/// What `str::parse::<u64>()` yields: an optional leading `+`, then at
/// least one ASCII digit and nothing else, with a value that fits.
pub open spec fn parse_u64_spec(s: Seq<char>) -> Option<u64> {
    let d = if s.len() > 0 && s[0] == '+' {
        s.drop_first()
    } else {
        s
    };
    if d.len() == 0 || !all_digits(d) || digits_value(d) > u64::MAX {
        None
    } else {
        Some(digits_value(d) as u64)
    }
}

proof fn lemma_decimal_chars(n: nat)
    ensures
        all_digits(decimal_chars(n)),
        decimal_chars(n).len() > 0,
        decimal_chars(n)[0] != '+',
        digits_value(decimal_chars(n)) == n,
    decreases n,
{
    if n >= 10 {
        lemma_decimal_chars(n / 10);
        let p = decimal_chars(n / 10);
        let s = p.push(digit_char((n % 10) as int));
        assert(s.drop_last() =~= p);
        assert(s[0] == p[0]);
        assert(s.last() as int == 48 + n % 10);
        assert(digits_value(s) == digits_value(p) * 10 + (n % 10));
    } else {
        let s = decimal_chars(n);
        assert(s.drop_last() =~= Seq::<char>::empty());
        assert(digits_value(Seq::<char>::empty()) == 0);
        assert(s.last() as int == 48 + n);
    }
}

/// Parsing the decimal rendering of a number gives the number back.
pub proof fn lemma_parse_decimal_roundtrip(n: u64)
    ensures
        parse_u64_spec(decimal_chars(n as nat)) == Some(n),
        all_digits(decimal_chars(n as nat)),
{
    lemma_decimal_chars(n as nat);
}

/// Decimal rendering of `n`, as characters.
pub fn u64_to_decimal(n: u64) -> (v: Vec<char>)
    ensures
        v@ == decimal_chars(n as nat),
    decreases n,
{
    if n < 10 {
        let c = ((48 + n) as u8) as char;
        let mut v: Vec<char> = Vec::new();
        v.push(c);
        assert(v@ =~= decimal_chars(n as nat));
        v
    } else {
        let mut v = u64_to_decimal(n / 10);
        let c = ((48 + n % 10) as u8) as char;
        v.push(c);
        v
    }
}

proof fn lemma_digits_prefix_monotone(s: Seq<char>, i: int, j: int)
    requires
        0 <= i <= j <= s.len(),
        all_digits(s),
    ensures
        digits_value(s.subrange(0, i)) <= digits_value(s.subrange(0, j)),
    decreases j - i,
{
    if i < j {
        lemma_digits_prefix_monotone(s, i, j - 1);
        assert(s.subrange(0, j).drop_last() =~= s.subrange(0, j - 1));
    }
}

/// Parse a decimal `u64` with the rules of `str::parse::<u64>()`.
pub fn parse_u64(s: &[char]) -> (r: Option<u64>)
    ensures
        r == parse_u64_spec(s@),
{
    let start: usize = if s.len() > 0 && s[0] == '+' {
        1
    } else {
        0
    };
    let ghost d = if s@.len() > 0 && s@[0] == '+' {
        s@.drop_first()
    } else {
        s@
    };
    assert(d =~= s@.subrange(start as int, s@.len() as int));
    if start == s.len() {
        return None;
    }
    let mut i: usize = start;
    while i < s.len()
        invariant
            start <= i <= s.len(),
            d =~= s@.subrange(start as int, s@.len() as int),
            d == (if s@.len() > 0 && s@[0] == '+' {
                s@.drop_first()
            } else {
                s@
            }),
            forall|k: int| 0 <= k < i - start ==> is_digit(#[trigger] d[k]),
        decreases s.len() - i,
    {
        if !(s[i] >= '0' && s[i] <= '9') {
            assert(!is_digit(d[i - start]));
            return None;
        }
        i = i + 1;
    }
    assert(all_digits(d));
    let mut value: u64 = 0;
    let mut i: usize = start;
    while i < s.len()
        invariant
            start <= i <= s.len(),
            d =~= s@.subrange(start as int, s@.len() as int),
            d == (if s@.len() > 0 && s@[0] == '+' {
                s@.drop_first()
            } else {
                s@
            }),
            all_digits(d),
            value as nat == digits_value(d.subrange(0, i - start)),
        decreases s.len() - i,
    {
        let c = s[i];
        assert(is_digit(d[i - start]));
        let dv: u64 = ((c as u32) - 48) as u64;
        assert(d.subrange(0, i + 1 - start).drop_last() =~= d.subrange(0, i - start));
        assert(d.subrange(0, i + 1 - start).last() == c);
        if value > (u64::MAX - dv) / 10 {
            proof {
                lemma_digits_prefix_monotone(d, i + 1 - start, d.len() as int);
                assert(d.subrange(0, d.len() as int) =~= d);
                assert(value * 10 + dv > u64::MAX) by (nonlinear_arith)
                    requires
                        value > (u64::MAX - dv) / 10,
                        dv <= 9,
                ;
            }
            return None;
        }
        value = value * 10 + dv;
        i = i + 1;
    }
    assert(d.subrange(0, d.len() as int) =~= d);
    Some(value)
}

/// The lowercase hexadecimal digit for `v` (`0 <= v < 16`).
pub open spec fn hex_digit(v: int) -> char {
    if v < 10 {
        (48 + v) as char
    } else {
        (87 + v) as char
    }
}

/// Lowercase hexadecimal rendering of `bytes`, two digits per byte,
/// high nibble first.
pub open spec fn hex_lower_spec(bytes: Seq<u8>) -> Seq<char>
    decreases bytes.len(),
{
    if bytes.len() == 0 {
        Seq::empty()
    } else {
        hex_lower_spec(bytes.drop_last()).push(hex_digit((bytes.last() >> 4u8) as int)).push(
            hex_digit((bytes.last() & 0x0fu8) as int),
        )
    }
}

/// Every character of a hex rendering is a hex digit, and there are two
/// per byte.
pub proof fn lemma_hex_lower_len(bytes: Seq<u8>)
    ensures
        hex_lower_spec(bytes).len() == 2 * bytes.len(),
    decreases bytes.len(),
{
    if bytes.len() > 0 {
        lemma_hex_lower_len(bytes.drop_last());
    }
}

fn hex_digit_exec(v: u8) -> (c: char)
    requires
        v < 16,
    ensures
        c == hex_digit(v as int),
{
    if v < 10 {
        ((48 + v) as u8) as char
    } else {
        ((87 + v) as u8) as char
    }
}

/// Lowercase hexadecimal rendering of a byte slice.
pub fn hex_lower(bytes: &[u8]) -> (v: Vec<char>)
    ensures
        v@ == hex_lower_spec(bytes@),
{
    let mut out: Vec<char> = Vec::new();
    let mut i: usize = 0;
    while i < bytes.len()
        invariant
            i <= bytes.len(),
            out@ == hex_lower_spec(bytes@.subrange(0, i as int)),
        decreases bytes.len() - i,
    {
        let b = bytes[i];
        assert((b >> 4u8) < 16 && (b & 0x0fu8) < 16) by (bit_vector);
        out.push(hex_digit_exec(b >> 4));
        out.push(hex_digit_exec(b & 0x0f));
        assert(bytes@.subrange(0, i + 1).drop_last() =~= bytes@.subrange(0, i as int));
        i = i + 1;
    }
    assert(bytes@.subrange(0, bytes.len() as int) =~= bytes@);
    out
}


/// Append every character of `w` to `v`.
pub fn append_chars(v: &mut Vec<char>, w: &[char])
    ensures
        final(v)@ == old(v)@ + w@,
{
    let ghost start = v@;
    let mut i: usize = 0;
    while i < w.len()
        invariant
            i <= w.len(),
            v@ == start + w@.subrange(0, i as int),
        decreases w.len() - i,
    {
        v.push(w[i]);
        assert(v@ =~= start + w@.subrange(0, i + 1));
        i = i + 1;
    }
    assert(w@.subrange(0, w.len() as int) =~= w@);
}

/// A copy of a character slice.
pub fn copy_chars(w: &[char]) -> (v: Vec<char>)
    ensures
        v@ == w@,
{
    let mut v: Vec<char> = Vec::new();
    append_chars(&mut v, w);
    assert(v@ =~= w@);
    v
}

/// The characters `w[from..to]`.
pub fn slice_chars(w: &[char], from: usize, to: usize) -> (v: Vec<char>)
    requires
        from <= to <= w@.len(),
    ensures
        v@ == w@.subrange(from as int, to as int),
{
    let mut v: Vec<char> = Vec::new();
    let mut i: usize = from;
    while i < to
        invariant
            from <= i <= to,
            to <= w@.len(),
            v@ == w@.subrange(from as int, i as int),
        decreases to - i,
    {
        v.push(w[i]);
        assert(v@ =~= w@.subrange(from as int, i + 1));
        i = i + 1;
    }
    v
}

/// Index of the last occurrence of `c` in `s`, or -1.
pub open spec fn last_index_of(s: Seq<char>, c: char) -> int
    decreases s.len(),
{
    if s.len() == 0 {
        -1
    } else if s.last() == c {
        s.len() - 1
    } else {
        last_index_of(s.drop_last(), c)
    }
}

/// Index of the first occurrence of `c` in `s`, or -1.
pub open spec fn first_index_of(s: Seq<char>, c: char) -> int
    decreases s.len(),
{
    if s.len() == 0 {
        -1
    } else if s[0] == c {
        0
    } else if first_index_of(s.drop_first(), c) < 0 {
        -1
    } else {
        first_index_of(s.drop_first(), c) + 1
    }
}

/// `last_index_of` is the position of the last occurrence.
pub proof fn lemma_last_index_of(s: Seq<char>, c: char)
    ensures
        -1 <= last_index_of(s, c) < s.len(),
        last_index_of(s, c) >= 0 ==> s[last_index_of(s, c)] == c,
        forall|j: int| last_index_of(s, c) < j < s.len() ==> s[j] != c,
    decreases s.len(),
{
    if s.len() > 0 && s.last() != c {
        let t = s.drop_last();
        lemma_last_index_of(t, c);
        assert forall|j: int| last_index_of(s, c) < j < s.len() implies s[j] != c by {
            if j < s.len() - 1 {
                assert(s[j] == t[j]);
            }
        }
    }
}

/// `first_index_of` is the position of the first occurrence.
pub proof fn lemma_first_index_of(s: Seq<char>, c: char)
    ensures
        -1 <= first_index_of(s, c) < s.len(),
        first_index_of(s, c) >= 0 ==> s[first_index_of(s, c)] == c,
        first_index_of(s, c) >= 0 ==> forall|j: int| 0 <= j < first_index_of(s, c) ==> s[j] != c,
        first_index_of(s, c) < 0 ==> forall|j: int| 0 <= j < s.len() ==> s[j] != c,
    decreases s.len(),
{
    if s.len() > 0 && s[0] != c {
        lemma_first_index_of(s.drop_first(), c);
        let t = s.drop_first();
        assert forall|j: int| 0 < j < s.len() implies s[j] == t[j - 1] by {}
    }
}

/// The position of the last occurrence of `c`, if any.
pub fn find_last(s: &[char], c: char) -> (r: Option<usize>)
    ensures
        match r {
            Some(i) => i == last_index_of(s@, c),
            None => last_index_of(s@, c) == -1,
        },
{
    proof {
        lemma_last_index_of(s@, c);
    }
    let mut i: usize = s.len();
    while i > 0
        invariant
            i <= s@.len(),
            -1 <= last_index_of(s@, c) < s@.len(),
            last_index_of(s@, c) >= 0 ==> s@[last_index_of(s@, c)] == c,
            forall|j: int| last_index_of(s@, c) < j < s@.len() ==> s@[j] != c,
            last_index_of(s@, c) < i,
        decreases i,
    {
        if s[i - 1] == c {
            return Some(i - 1);
        }
        i = i - 1;
    }
    None
}

/// The position of the first occurrence of `c`, if any.
pub fn find_first(s: &[char], c: char) -> (r: Option<usize>)
    ensures
        match r {
            Some(i) => i == first_index_of(s@, c),
            None => first_index_of(s@, c) == -1,
        },
{
    proof {
        lemma_first_index_of(s@, c);
    }
    let mut i: usize = 0;
    while i < s.len()
        invariant
            i <= s@.len(),
            -1 <= first_index_of(s@, c) < s@.len(),
            first_index_of(s@, c) >= 0 ==> s@[first_index_of(s@, c)] == c,
            first_index_of(s@, c) >= 0 ==> forall|j: int| 0 <= j < first_index_of(s@, c) ==> s@[j] != c,
            first_index_of(s@, c) < 0 ==> forall|j: int| 0 <= j < s@.len() ==> s@[j] != c,
            forall|j: int| 0 <= j < i ==> s@[j] != c,
        decreases s.len() - i,
    {
        if s[i] == c {
            return Some(i);
        }
        i = i + 1;
    }
    None
}

proof fn lemma_hex_digit_not_colon(v: int)
    requires
        0 <= v < 16,
    ensures
        hex_digit(v) != ':',
{
    if v < 10 {
        assert(hex_digit(v) as int == 48 + v);
    } else {
        assert(hex_digit(v) as int == 87 + v);
    }
}

/// A hex rendering holds no colon.
pub proof fn lemma_hex_no_colon(bytes: Seq<u8>)
    ensures
        forall|i: int| 0 <= i < hex_lower_spec(bytes).len() ==> hex_lower_spec(bytes)[i] != ':',
    decreases bytes.len(),
{
    if bytes.len() > 0 {
        let p = bytes.drop_last();
        lemma_hex_no_colon(p);
        let b = bytes.last();
        assert((b >> 4u8) < 16 && (b & 0x0fu8) < 16) by (bit_vector);
        lemma_hex_digit_not_colon((b >> 4u8) as int);
        lemma_hex_digit_not_colon((b & 0x0fu8) as int);
        let h = hex_lower_spec(bytes);
        let hp = hex_lower_spec(p);
        assert forall|i: int| 0 <= i < h.len() implies h[i] != ':' by {
            if i < hp.len() {
                assert(h[i] == hp[i]);
            }
        }
    }
}

/// Powers of ten.
pub open spec fn pow10(k: nat) -> nat
    decreases k,
{
    if k == 0 {
        1
    } else {
        10 * pow10((k - 1) as nat)
    }
}

proof fn lemma_decimal_len(n: nat, k: nat)
    requires
        k >= 1,
        n < pow10(k),
    ensures
        decimal_chars(n).len() <= k,
    decreases n,
{
    if n >= 10 {
        if k == 1 {
            reveal_with_fuel(pow10, 2);
            assert(pow10(1) == 10);
        } else {
            lemma_decimal_len(n / 10, (k - 1) as nat);
        }
    }
}

/// A `u64` renders in at most twenty digits.
pub proof fn lemma_decimal_len_u64(n: u64)
    ensures
        decimal_chars(n as nat).len() <= 20,
{
    reveal_with_fuel(pow10, 21);
    assert(pow10(20) == 100000000000000000000);
    lemma_decimal_len(n as nat, 20);
}


/// Exact string equality.
pub fn str_eq(a: &str, b: &str) -> (r: bool)
    ensures
        r == (a@ == b@),
{
    let x = a.to_owned();
    let y = b.to_owned();
    x == y
}

/// A `String` whose characters are those of `a` followed by those of `b`.
pub fn concat_str(a: &str, b: &str) -> (r: String)
    ensures
        r@ == a@ + b@,
{
    let mut v = chars_of(a);
    let w = chars_of(b);
    append_chars(&mut v, &w);
    string_from_chars(&v)
}


/// `p` is a prefix of `s`.
pub open spec fn has_prefix(s: Seq<char>, p: Seq<char>) -> bool {
    p.len() <= s.len() && s.subrange(0, p.len() as int) == p
}

/// What `str::strip_prefix` yields: the rest of `s` after `p`, if `p`
/// is a prefix.
pub open spec fn strip_prefix_spec(s: Seq<char>, p: Seq<char>) -> Option<Seq<char>> {
    if has_prefix(s, p) {
        Some(s.subrange(p.len() as int, s.len() as int))
    } else {
        None
    }
}

/// Strip the prefix `p` from `s`.
pub fn strip_prefix(s: &str, p: &str) -> (r: Option<String>)
    ensures
        match strip_prefix_spec(s@, p@) {
            Some(rest) => r is Some && r->0@ == rest,
            None => r is None,
        },
{
    let sc = chars_of(s);
    let pc = chars_of(p);
    if pc.len() > sc.len() {
        return None;
    }
    let mut i: usize = 0;
    while i < pc.len()
        invariant
            i <= pc@.len() <= sc@.len(),
            sc@ == s@,
            pc@ == p@,
            forall|j: int| 0 <= j < i ==> sc@[j] == pc@[j],
        decreases pc.len() - i,
    {
        if sc[i] != pc[i] {
            assert(sc@.subrange(0, pc@.len() as int)[i as int] != pc@[i as int]);
            return None;
        }
        i = i + 1;
    }
    assert(sc@.subrange(0, pc@.len() as int) =~= pc@);
    let rest = slice_chars(&sc, pc.len(), sc.len());
    Some(string_from_chars(&rest))
}

/// `c` has the Unicode `White_Space` property (`char::is_whitespace`).
pub open spec fn is_whitespace(c: char) -> bool {
    let u = c as u32;
    (0x9 <= u && u <= 0xd) || u == 0x20 || u == 0x85 || u == 0xa0 || u == 0x1680 || (0x2000 <= u
        && u <= 0x200a) || u == 0x2028 || u == 0x2029 || u == 0x202f || u == 0x205f || u == 0x3000
}

fn is_whitespace_exec(c: char) -> (r: bool)
    ensures
        r == is_whitespace(c),
{
    let u = c as u32;
    (0x9 <= u && u <= 0xd) || u == 0x20 || u == 0x85 || u == 0xa0 || u == 0x1680 || (0x2000 <= u
        && u <= 0x200a) || u == 0x2028 || u == 0x2029 || u == 0x202f || u == 0x205f || u == 0x3000
}

/// Number of leading whitespace characters.
pub open spec fn leading_ws(s: Seq<char>) -> nat
    decreases s.len(),
{
    if s.len() > 0 && is_whitespace(s[0]) {
        1 + leading_ws(s.drop_first())
    } else {
        0
    }
}

/// Number of trailing whitespace characters.
pub open spec fn trailing_ws(s: Seq<char>) -> nat
    decreases s.len(),
{
    if s.len() > 0 && is_whitespace(s.last()) {
        1 + trailing_ws(s.drop_last())
    } else {
        0
    }
}

/// What `str::trim` yields: `s` without leading and trailing whitespace.
pub open spec fn trim_spec(s: Seq<char>) -> Seq<char> {
    let l = leading_ws(s);
    if l == s.len() {
        Seq::empty()
    } else {
        s.subrange(l as int, s.len() - trailing_ws(s))
    }
}

proof fn lemma_leading_ws(s: Seq<char>, i: int)
    requires
        0 <= i <= s.len(),
        forall|j: int| 0 <= j < i ==> is_whitespace(#[trigger] s[j]),
        i == s.len() || !is_whitespace(s[i]),
    ensures
        leading_ws(s) == i,
    decreases i,
{
    if i > 0 {
        let t = s.drop_first();
        assert forall|j: int| 0 <= j < i - 1 implies is_whitespace(#[trigger] t[j]) by {
            assert(t[j] == s[j + 1]);
        }
        if i - 1 < t.len() {
            assert(t[i - 1] == s[i]);
        }
        lemma_leading_ws(t, i - 1);
    }
}

proof fn lemma_trailing_ws(s: Seq<char>, k: int)
    requires
        0 <= k <= s.len(),
        forall|j: int| s.len() - k <= j < s.len() ==> is_whitespace(#[trigger] s[j]),
        k == s.len() || !is_whitespace(s[s.len() - k - 1]),
    ensures
        trailing_ws(s) == k,
    decreases k,
{
    if k > 0 {
        let t = s.drop_last();
        assert forall|j: int| t.len() - (k - 1) <= j < t.len() implies is_whitespace(#[trigger] t[j]) by {
            assert(t[j] == s[j]);
        }
        if k - 1 < t.len() {
            assert(t[t.len() - (k - 1) - 1] == s[s.len() - k - 1]);
        }
        lemma_trailing_ws(t, k - 1);
    }
}

/// `s` without leading and trailing whitespace.
pub fn trim(s: &[char]) -> (r: Vec<char>)
    ensures
        r@ == trim_spec(s@),
{
    let mut i: usize = 0;
    while i < s.len() && is_whitespace_exec(s[i])
        invariant
            i <= s@.len(),
            forall|j: int| 0 <= j < i ==> is_whitespace(#[trigger] s@[j]),
        decreases s.len() - i,
    {
        i = i + 1;
    }
    proof {
        lemma_leading_ws(s@, i as int);
    }
    if i == s.len() {
        return Vec::new();
    }
    let mut k: usize = 0;
    while k < s.len() - i && is_whitespace_exec(s[s.len() - k - 1])
        invariant
            i < s@.len(),
            k <= s@.len() - i,
            forall|j: int| s@.len() - k <= j < s@.len() ==> is_whitespace(#[trigger] s@[j]),
        decreases s.len() - i - k,
    {
        k = k + 1;
    }
    proof {
        if k < s.len() - i {
        } else {
            assert(!is_whitespace(s@[i as int]));
            assert(false);
        }
        lemma_trailing_ws(s@, k as int);
    }
    slice_chars(s, i, s.len() - k)
}


/// Append the characters of `s` to `v`.
pub fn push_str_chars(v: &mut Vec<char>, s: &str)
    ensures
        final(v)@ == old(v)@ + s@,
{
    let w = chars_of(s);
    append_chars(v, &w);
}

/// `s` is empty or whitespace only (`s.trim().is_empty()`).
pub fn is_blank(s: &str) -> (r: bool)
    ensures
        r == (trim_spec(s@).len() == 0),
{
    let cs = chars_of(s);
    let t = trim(&cs);
    t.len() == 0
}


/// `p` occurs in `s` at position `i`.
pub open spec fn occurs_at(s: Seq<char>, p: Seq<char>, i: int) -> bool {
    0 <= i && i + p.len() <= s.len() && s.subrange(i, i + p.len()) == p
}

/// The first position at or after `k` where `p` occurs in `s`, or -1.
pub open spec fn first_occurrence_from(s: Seq<char>, p: Seq<char>, k: int) -> int
    decreases s.len() + 1 - k,
{
    if k < 0 || k + p.len() > s.len() || k > s.len() {
        -1
    } else if occurs_at(s, p, k) {
        k
    } else {
        first_occurrence_from(s, p, k + 1)
    }
}

/// What `s.split(p).next()` yields: `s` up to the first occurrence of
/// `p`, or all of `s`.
pub open spec fn split_head(s: Seq<char>, p: Seq<char>) -> Seq<char> {
    let i = first_occurrence_from(s, p, 0);
    if i < 0 {
        s
    } else {
        s.subrange(0, i)
    }
}

fn matches_at(s: &[char], p: &[char], i: usize) -> (r: bool)
    requires
        i + p@.len() <= s@.len(),
    ensures
        r == occurs_at(s@, p@, i as int),
{
    let mut j: usize = 0;
    while j < p.len()
        invariant
            j <= p@.len(),
            i + p@.len() <= s@.len(),
            s@.len() == s.len(),
            forall|t: int| 0 <= t < j ==> s@[i + t] == p@[t],
        decreases p.len() - j,
    {
        let k = i + j;
        if s[k] != p[j] {
            assert(s@.subrange(i as int, i + p@.len())[j as int] != p@[j as int]);
            return false;
        }
        j = j + 1;
    }
    assert(s@.subrange(i as int, i + p@.len()) =~= p@);
    true
}

/// The first position where `p` occurs in `s`.
pub fn find_sub(s: &[char], p: &[char]) -> (r: Option<usize>)
    ensures
        match r {
            Some(i) => i == first_occurrence_from(s@, p@, 0),
            None => first_occurrence_from(s@, p@, 0) == -1,
        },
{
    let mut i: usize = 0;
    if p.len() > s.len() {
        return None;
    }
    let last = s.len() - p.len();
    while i <= last
        invariant
            p@.len() <= s@.len(),
            last == s@.len() - p@.len(),
            i <= last + 1,
            first_occurrence_from(s@, p@, 0) == first_occurrence_from(s@, p@, i as int),
        decreases s.len() - i,
    {
        if matches_at(s, p, i) {
            return Some(i);
        }
        if i == last {
            assert(first_occurrence_from(s@, p@, i + 1) == -1);
            return None;
        }
        i = i + 1;
    }
    None
}

/// `s.split(p).next().unwrap_or(s)` as characters.
pub fn split_first(s: &[char], p: &[char]) -> (r: Vec<char>)
    ensures
        r@ == split_head(s@, p@),
{
    match find_sub(s, p) {
        Some(i) => {
            proof {
                lemma_first_occurrence_bounds(s@, p@, 0);
            }
            slice_chars(s, 0, i)
        },
        None => copy_chars(s),
    }
}

/// A found occurrence lies inside `s`.
pub proof fn lemma_first_occurrence_bounds(s: Seq<char>, p: Seq<char>, k: int)
    ensures
        first_occurrence_from(s, p, k) >= 0 ==> k <= first_occurrence_from(s, p, k) && occurs_at(
            s,
            p,
            first_occurrence_from(s, p, k),
        ),
        first_occurrence_from(s, p, k) >= -1,
    decreases s.len() + 1 - k,
{
    if !(k < 0 || k + p.len() > s.len() || k > s.len()) && !occurs_at(s, p, k) {
        lemma_first_occurrence_bounds(s, p, k + 1);
    }
}

/// ASCII lower-casing of one character.
pub open spec fn ascii_lower_char(c: char) -> char {
    if 'A' <= c <= 'Z' {
        ((c as u32) + 32) as char
    } else {
        c
    }
}

/// `str::to_ascii_lowercase`.
pub open spec fn ascii_lower(s: Seq<char>) -> Seq<char> {
    Seq::new(s.len(), |i: int| ascii_lower_char(s[i]))
}

/// ASCII lower-case a character sequence.
pub fn to_ascii_lower(s: &[char]) -> (r: Vec<char>)
    ensures
        r@ == ascii_lower(s@),
{
    let mut r: Vec<char> = Vec::new();
    let mut i: usize = 0;
    while i < s.len()
        invariant
            i <= s@.len(),
            r@ == ascii_lower(s@).subrange(0, i as int),
        decreases s.len() - i,
    {
        let c = s[i];
        let d = if 'A' <= c && c <= 'Z' {
            let u: u32 = (c as u32) + 32;
            (u as u8) as char
        } else {
            c
        };
        r.push(d);
        assert(r@ =~= ascii_lower(s@).subrange(0, i + 1));
        i = i + 1;
    }
    assert(ascii_lower(s@).subrange(0, s@.len() as int) =~= ascii_lower(s@));
    r
}

} // verus!
