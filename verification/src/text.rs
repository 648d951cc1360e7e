//! Character-level helpers shared by the string-handling code of the crate.
//!
//! Strings are viewed as sequences of `char` (`s@`); every helper here is
//! specified over those sequences.

use vstd::prelude::*;

verus! {

/// Appends `c` to `s` (std's `String::push`).
///
/// Trusted: std documents `push` as appending the given `char` to the end
/// of the string, which is what the contract states.
#[verifier::external_body]
pub(crate) fn push_char(s: &mut String, c: char)
    ensures
        final(s)@ == old(s)@.push(c),
{
    s.push(c);
}

/// The characters of `s`, in order.
pub fn chars_of(s: &str) -> (v: Vec<char>)
    ensures
        v@ == s@,
{
    broadcast use vstd::string::group_string_axioms;
    let mut v: Vec<char> = Vec::new();
    for c in it: s.chars()
        invariant
            it.seq() == s@,
            v@ == it.seq().take(it.index() as int),
    {
        v.push(c);
        assert(v@ == it.seq().take(it.index() + 1));
    }
    assert(v@ == s@.take(s@.len() as int));
    v
}


/// Index of the first `x` in `s` at or after position `i`.
pub open spec fn first_from<T>(s: Seq<T>, x: T, i: int) -> Option<int>
    decreases s.len() - i,
{
    if i < 0 || i >= s.len() {
        None
    } else if s[i] == x {
        Some(i)
    } else {
        first_from(s, x, i + 1)
    }
}

/// Index of the first `x` in `s` (for characters, what `str::find` gives, counted in chars).
pub open spec fn first_index<T>(s: Seq<T>, x: T) -> Option<int> {
    first_from(s, x, 0)
}

/// Index of the last `c` in `s` strictly before position `j`.
pub open spec fn last_before<T>(s: Seq<T>, c: T, j: int) -> Option<int>
    decreases j,
{
    if j <= 0 || j > s.len() {
        None
    } else if s[j - 1] == c {
        Some(j - 1)
    } else {
        last_before(s, c, j - 1)
    }
}

/// Index of the last `c` in `s`.
pub open spec fn last_index<T>(s: Seq<T>, c: T) -> Option<int> {
    last_before(s, c, s.len() as int)
}

proof fn lemma_first_from_push<T>(s: Seq<T>, x: T, c: T, i: int)
    requires
        0 <= i <= s.len(),
    ensures
        first_from(s.push(x), c, i) == (if first_from(s, c, i) is Some {
            first_from(s, c, i)
        } else if x == c {
            Some(s.len() as int)
        } else {
            None
        }),
    decreases s.len() - i,
{
    if i < s.len() {
        assert(s.push(x)[i] == s[i]);
        lemma_first_from_push(s, x, c, i + 1);
    } else {
        assert(s.push(x)[i] == x);
        assert(first_from(s.push(x), c, i + 1) is None);
    }
}

/// Appending `x` to `s` keeps the first position of every value already in
/// `s`, and makes `x` found at the end when it was absent.
pub proof fn lemma_first_index_push<T>(s: Seq<T>, x: T, c: T)
    ensures
        first_index(s.push(x), c) == (if first_index(s, c) is Some {
            first_index(s, c)
        } else if x == c {
            Some(s.len() as int)
        } else {
            None
        }),
{
    lemma_first_from_push(s, x, c, 0);
}

proof fn lemma_last_before_prefix<T>(s: Seq<T>, x: T, c: T, j: int)
    requires
        0 <= j <= s.len(),
    ensures
        last_before(s.push(x), c, j) == last_before(s, c, j),
    decreases j,
{
    if j > 0 {
        assert(s.push(x)[j - 1] == s[j - 1]);
        lemma_last_before_prefix(s, x, c, j - 1);
    }
}

/// Appending `x` to `s` makes the last position of `x` the end, and keeps
/// the last position of every other value.
pub proof fn lemma_last_index_push<T>(s: Seq<T>, x: T, c: T)
    ensures
        last_index(s.push(x), c) == (if x == c {
            Some(s.len() as int)
        } else {
            last_index(s, c)
        }),
{
    lemma_last_before_prefix(s, x, c, s.len() as int);
}

/// Whether `p` occurs in `s` starting at position `i`.
pub open spec fn matches_at(s: Seq<char>, p: Seq<char>, i: int) -> bool {
    0 <= i && i + p.len() <= s.len() && s.subrange(i, i + p.len()) == p
}

/// Start of the first occurrence of `p` in `s` at or after position `i`.
pub open spec fn first_match_from(s: Seq<char>, p: Seq<char>, i: int) -> Option<int>
    decreases s.len() + 1 - i,
{
    if i < 0 || i + p.len() > s.len() {
        None
    } else if matches_at(s, p, i) {
        Some(i)
    } else {
        first_match_from(s, p, i + 1)
    }
}

proof fn lemma_first_match_from_bounds(s: Seq<char>, p: Seq<char>, i: int)
    ensures
        first_match_from(s, p, i) matches Some(k) ==> i <= k && matches_at(s, p, k),
    decreases s.len() + 1 - i,
{
    if i < 0 || i + p.len() > s.len() {
    } else if matches_at(s, p, i) {
    } else {
        lemma_first_match_from_bounds(s, p, i + 1);
    }
}

/// The occurrence [`first_match`] finds lies within `s`.
pub proof fn lemma_first_match_bounds(s: Seq<char>, p: Seq<char>)
    ensures
        first_match(s, p) matches Some(k) ==> 0 <= k && k + p.len() <= s.len() && s.subrange(
            k,
            k + p.len(),
        ) == p,
{
    lemma_first_match_from_bounds(s, p, 0);
}

/// Start of the first occurrence of `p` in `s` (what `str::find` with a pattern gives, in chars).
pub open spec fn first_match(s: Seq<char>, p: Seq<char>) -> Option<int> {
    first_match_from(s, p, 0)
}

proof fn lemma_first_from_bounds<T>(s: Seq<T>, c: T, i: int)
    ensures
        first_from(s, c, i) matches Some(k) ==> i <= k < s.len() && s[k] == c,
        first_from(s, c, i) matches Some(k) ==> forall|j: int| i <= j < k ==> s[j] != c,
        first_from(s, c, i) is None && 0 <= i ==> forall|j: int| i <= j < s.len() ==> s[j] != c,
    decreases s.len() - i,
{
    if i < 0 || i >= s.len() {
    } else if s[i] == c {
    } else {
        lemma_first_from_bounds(s, c, i + 1);
    }
}

/// Facts about [`first_index`]: the index found holds `c`, and nothing before it does.
pub proof fn lemma_first_index<T>(s: Seq<T>, c: T)
    ensures
        first_index(s, c) matches Some(k) ==> 0 <= k < s.len() && s[k] == c && forall|j: int|
            0 <= j < k ==> s[j] != c,
        first_index(s, c) is None ==> forall|j: int| 0 <= j < s.len() ==> s[j] != c,
{
    lemma_first_from_bounds(s, c, 0);
}

proof fn lemma_last_before_bounds<T>(s: Seq<T>, c: T, j: int)
    ensures
        last_before(s, c, j) matches Some(k) ==> 0 <= k < j <= s.len() && s[k] == c,
        last_before(s, c, j) matches Some(k) ==> forall|m: int| k < m < j ==> s[m] != c,
        last_before(s, c, j) is None && j <= s.len() ==> forall|m: int| 0 <= m < j ==> s[m] != c,
    decreases j,
{
    if j <= 0 || j > s.len() {
    } else if s[j - 1] == c {
    } else {
        lemma_last_before_bounds(s, c, j - 1);
    }
}

/// Facts about [`last_index`]: the index found holds `c`, and nothing after it does.
pub proof fn lemma_last_index<T>(s: Seq<T>, c: T)
    ensures
        last_index(s, c) matches Some(k) ==> 0 <= k < s.len() && s[k] == c && forall|m: int|
            k < m < s.len() ==> s[m] != c,
        last_index(s, c) is None ==> forall|m: int| 0 <= m < s.len() ==> s[m] != c,
{
    lemma_last_before_bounds(s, c, s.len() as int);
}

/// The first position of `c` in `cs`.
pub fn find_char(cs: &Vec<char>, c: char) -> (r: Option<usize>)
    ensures
        r matches Some(k) ==> first_index(cs@, c) == Some(k as int),
        r is None ==> first_index(cs@, c) is None,
{
    let mut i: usize = 0;
    while i < cs.len()
        invariant
            i <= cs@.len(),
            first_from(cs@, c, 0) == first_from(cs@, c, i as int),
        decreases cs@.len() - i,
    {
        if cs[i] == c {
            return Some(i);
        }
        i = i + 1;
    }
    None
}

/// The last position of `c` in `cs`.
pub fn rfind_char(cs: &Vec<char>, c: char) -> (r: Option<usize>)
    ensures
        r matches Some(k) ==> last_index(cs@, c) == Some(k as int),
        r is None ==> last_index(cs@, c) is None,
{
    let mut j: usize = cs.len();
    while j > 0
        invariant
            j <= cs@.len(),
            last_before(cs@, c, cs@.len() as int) == last_before(cs@, c, j as int),
        decreases j,
    {
        if cs[j - 1] == c {
            return Some(j - 1);
        }
        j = j - 1;
    }
    None
}

/// Whether `p` occurs in `cs` at position `i`.
fn matches_at_exec(cs: &Vec<char>, p: &Vec<char>, i: usize) -> (r: bool)
    requires
        i + p@.len() <= cs@.len(),
    ensures
        r == matches_at(cs@, p@, i as int),
{
    let n: usize = cs.len();
    let mut k: usize = 0;
    while k < p.len()
        invariant
            n == cs@.len(),
            i + p@.len() <= cs@.len(),
            k <= p@.len(),
            forall|m: int| 0 <= m < k ==> cs@[i + m] == p@[m],
        decreases p@.len() - k,
    {
        assert(i + k < cs@.len());
        if cs[i + k] != p[k] {
            assert(cs@.subrange(i as int, i + p@.len())[k as int] != p@[k as int]);
            return false;
        }
        k = k + 1;
    }
    assert(cs@.subrange(i as int, i + p@.len()) =~= p@);
    true
}

/// The first position at which `p` occurs in `cs`.
pub fn find_pattern(cs: &Vec<char>, p: &Vec<char>) -> (r: Option<usize>)
    ensures
        r matches Some(k) ==> first_match(cs@, p@) == Some(k as int),
        r is None ==> first_match(cs@, p@) is None,
{
    if p.len() > cs.len() {
        return None;
    }
    let last: usize = cs.len() - p.len();
    let mut i: usize = 0;
    while i <= last
        invariant
            p@.len() <= cs@.len(),
            last == cs@.len() - p@.len(),
            i <= last,
            first_match_from(cs@, p@, 0) == first_match_from(cs@, p@, i as int),
        decreases last - i,
    {
        if matches_at_exec(cs, p, i) {
            return Some(i);
        }
        if i == last {
            return None;
        }
        i = i + 1;
    }
    None
}

/// A `String` holding `cs[lo..hi]`.
pub fn string_of_range(cs: &Vec<char>, lo: usize, hi: usize) -> (r: String)
    requires
        lo <= hi <= cs@.len(),
    ensures
        r@ == cs@.subrange(lo as int, hi as int),
{
    let mut r = String::new();
    let mut i: usize = lo;
    while i < hi
        invariant
            lo <= i <= hi <= cs@.len(),
            r@ == cs@.subrange(lo as int, i as int),
        decreases hi - i,
    {
        push_char(&mut r, cs[i]);
        assert(r@ =~= cs@.subrange(lo as int, i + 1));
        i = i + 1;
    }
    r
}

/// Whether two character sequences are equal.
pub fn chars_eq(a: &Vec<char>, b: &Vec<char>) -> (r: bool)
    ensures
        r == (a@ == b@),
{
    if a.len() != b.len() {
        return false;
    }
    let mut i: usize = 0;
    while i < a.len()
        invariant
            a@.len() == b@.len(),
            i <= a@.len(),
            forall|k: int| 0 <= k < i ==> a@[k] == b@[k],
        decreases a@.len() - i,
    {
        if a[i] != b[i] {
            return false;
        }
        i = i + 1;
    }
    assert(a@ =~= b@);
    true
}

/// Whether two strings hold the same characters.
pub fn str_eq(a: &str, b: &str) -> (r: bool)
    ensures
        r == (a@ == b@),
{
    let ac = chars_of(a);
    let bc = chars_of(b);
    chars_eq(&ac, &bc)
}


/// The UTF-16 code units of one Unicode scalar value: one unit below
/// `0x10000`, otherwise a high and a low surrogate.
pub open spec fn utf16_of_char(c: char) -> Seq<u16> {
    let v = c as u32;
    if v < 0x10000 {
        seq![v as u16]
    } else {
        let w = (v - 0x10000) as int;
        seq![(0xD800 + w / 0x400) as u16, (0xDC00 + w % 0x400) as u16]
    }
}

/// The UTF-16 encoding of a character sequence.
pub open spec fn utf16_encode(s: Seq<char>) -> Seq<u16>
    decreases s.len(),
{
    if s.len() == 0 {
        Seq::empty()
    } else {
        utf16_encode(s.drop_last()) + utf16_of_char(s.last())
    }
}

/// The UTF-16 encoding of `s`.
pub fn encode_utf16(s: &str) -> (r: Vec<u16>)
    ensures
        r@ == utf16_encode(s@),
{
    let cs = chars_of(s);
    let mut r: Vec<u16> = Vec::new();
    let mut i: usize = 0;
    while i < cs.len()
        invariant
            i <= cs@.len(),
            cs@ == s@,
            r@ == utf16_encode(cs@.take(i as int)),
        decreases cs@.len() - i,
    {
        let c = cs[i];
        proof {
            vstd::utf8::char_is_scalar(c);
        }
        let v: u32 = c as u32;
        if v < 0x10000 {
            r.push(v as u16);
        } else {
            let w: u32 = v - 0x10000;
            assert(w < 0x100000);
            r.push((0xD800 + w / 0x400) as u16);
            r.push((0xDC00 + w % 0x400) as u16);
        }
        assert(cs@.take(i + 1).drop_last() =~= cs@.take(i as int));
        assert(r@ =~= utf16_encode(cs@.take(i + 1)));
        i = i + 1;
    }
    assert(cs@.take(cs@.len() as int) =~= cs@);
    r
}

/// Upper-case hexadecimal digit for a value below 16.
pub open spec fn hex_char(d: nat) -> char {
    if d < 10 {
        (('0' as u32) + d) as char
    } else {
        (('A' as u32) + (d - 10)) as char
    }
}

/// The last `n` upper-case hexadecimal digits of `v`, most significant first
/// (`format!("{:0n$X}", v)` for values below `16^n`).
pub open spec fn hex_digits(v: nat, n: nat) -> Seq<char>
    decreases n,
{
    if n == 0 {
        Seq::empty()
    } else {
        hex_digits(v / 16, (n - 1) as nat).push(hex_char(v % 16))
    }
}

fn hex_char_exec(d: u64) -> (c: char)
    requires
        d < 16,
    ensures
        c == hex_char(d as nat),
{
    if d == 0 { '0' } else if d == 1 { '1' } else if d == 2 { '2' } else if d == 3 { '3' }
    else if d == 4 { '4' } else if d == 5 { '5' } else if d == 6 { '6' } else if d == 7 { '7' }
    else if d == 8 { '8' } else if d == 9 { '9' } else if d == 10 { 'A' } else if d == 11 { 'B' }
    else if d == 12 { 'C' } else if d == 13 { 'D' } else if d == 14 { 'E' } else { 'F' }
}

/// Appends the last `n` hexadecimal digits of `v` to `out`.
pub fn push_hex(out: &mut Vec<char>, v: u64, n: usize)
    ensures
        final(out)@ == old(out)@ + hex_digits(v as nat, n as nat),
    decreases n,
{
    if n == 0 {
        assert(old(out)@ + hex_digits(v as nat, 0) =~= old(out)@);
        return;
    }
    push_hex(out, v / 16, n - 1);
    out.push(hex_char_exec(v % 16));
    assert(final(out)@ =~= old(out)@ + hex_digits(v as nat, n as nat));
}

/// A `String` holding `cs`.
pub fn string_of_chars(cs: &Vec<char>) -> (r: String)
    ensures
        r@ == cs@,
{
    let r = string_of_range(cs, 0, cs.len());
    assert(cs@.subrange(0, cs@.len() as int) =~= cs@);
    r
}


/// Whether `c` is an ASCII decimal digit.
pub open spec fn is_digit(c: char) -> bool {
    48 <= (c as u32) <= 57
}

/// The value of a decimal digit.
pub open spec fn digit_value(c: char) -> int {
    (c as u32) - 48
}

/// Whether every character of `d` is a decimal digit.
pub open spec fn all_digits(d: Seq<char>) -> bool {
    forall|i: int| 0 <= i < d.len() ==> is_digit(#[trigger] d[i])
}

/// The number written by the decimal digits `d`, most significant first.
pub open spec fn decimal_value(d: Seq<char>) -> int
    decreases d.len(),
{
    if d.len() == 0 {
        0
    } else {
        decimal_value(d.drop_last()) * 10 + digit_value(d.last())
    }
}

/// What `str::parse::<i32>` gives: an optional `+` or `-` followed by at
/// least one decimal digit and nothing else, whose value fits in an `i32`.
pub open spec fn parse_i32(s: Seq<char>) -> Option<i32> {
    let d = unsigned_part(s);
    if d.len() == 0 || !all_digits(d) {
        None
    } else {
        let v = if is_negative(s) { -decimal_value(d) } else { decimal_value(d) };
        if i32::MIN <= v <= i32::MAX { Some(v as i32) } else { None }
    }
}

/// Whether `s` starts with a minus sign.
pub open spec fn is_negative(s: Seq<char>) -> bool {
    s.len() > 0 && s[0] == '-'
}

/// `s` without its leading sign, if it has one.
pub open spec fn unsigned_part(s: Seq<char>) -> Seq<char> {
    if s.len() > 0 && (s[0] == '-' || s[0] == '+') { s.skip(1) } else { s }
}

proof fn lemma_decimal_prefix_monotone(d: Seq<char>, k: int, m: int)
    requires
        0 <= k <= m <= d.len(),
        all_digits(d),
    ensures
        0 <= decimal_value(d.take(k)) <= decimal_value(d.take(m)),
    decreases m - k,
{
    if k == m {
        lemma_decimal_nonneg(d.take(k));
    } else {
        lemma_decimal_prefix_monotone(d, k, m - 1);
        assert(d.take(m).drop_last() =~= d.take(m - 1));
        assert(is_digit(d[m - 1]));
    }
}

proof fn lemma_decimal_nonneg(d: Seq<char>)
    requires
        all_digits(d),
    ensures
        decimal_value(d) >= 0,
    decreases d.len(),
{
    if d.len() > 0 {
        assert(all_digits(d.drop_last())) by {
            assert forall|i: int| 0 <= i < d.drop_last().len() implies is_digit(
                #[trigger] d.drop_last()[i],
            ) by {
                assert(d.drop_last()[i] == d[i]);
            }
        }
        lemma_decimal_nonneg(d.drop_last());
        assert(is_digit(d[d.len() - 1]));
    }
}

/// Parses `cs[lo..hi]` as `str::parse::<i32>` does.
pub fn parse_i32_range(cs: &Vec<char>, lo: usize, hi: usize) -> (r: Option<i32>)
    requires
        lo <= hi <= cs@.len(),
    ensures
        r == parse_i32(cs@.subrange(lo as int, hi as int)),
{
    let ghost s = cs@.subrange(lo as int, hi as int);
    let mut i: usize = lo;
    let mut neg = false;
    if lo < hi && cs[lo] == '-' {
        neg = true;
        i = lo + 1;
    } else if lo < hi && cs[lo] == '+' {
        i = lo + 1;
    }
    let start = i;
    let ghost d = cs@.subrange(start as int, hi as int);
    assert(d =~= unsigned_part(s));
    if start == hi {
        return None;
    }
    let mut acc: u64 = 0;
    while i < hi
        invariant
            lo <= start <= i <= hi <= cs@.len(),
            start < hi,
            s == cs@.subrange(lo as int, hi as int),
            d == cs@.subrange(start as int, hi as int),
            d == unsigned_part(s),
            neg == is_negative(s),
            all_digits(d.take(i - start)),
            acc == decimal_value(d.take(i - start)),
            acc <= 0x8000_0000,
        decreases hi - i,
    {
        let c = cs[i];
        proof {
            vstd::utf8::char_is_scalar(c);
        }
        let cv: u32 = c as u32;
        assert(d[i - start] == c);
        if cv < 48 || cv > 57 {
            assert(!is_digit(d[i - start]));
            return None;
        }
        assert(d.take(i + 1 - start).drop_last() =~= d.take(i - start));
        assert(all_digits(d.take(i + 1 - start))) by {
            assert forall|k: int| 0 <= k < d.take(i + 1 - start).len() implies is_digit(
                #[trigger] d.take(i + 1 - start)[k],
            ) by {
                if k < i - start {
                    assert(d.take(i - start)[k] == d.take(i + 1 - start)[k]);
                }
            }
        }
        acc = acc * 10 + (cv - 48) as u64;
        if acc > 0x8000_0000 {
            proof {
                if all_digits(d) {
                    lemma_decimal_prefix_monotone(d, i + 1 - start, d.len() as int);
                    assert(d.take(d.len() as int) =~= d);
                }
            }
            return None;
        }
        i = i + 1;
    }
    assert(d.take(i - start) =~= d);
    if neg {
        let v: i64 = -(acc as i64);
        Some(v as i32)
    } else if acc > 0x7FFF_FFFF {
        None
    } else {
        Some(acc as i32)
    }
}

} // verus!
