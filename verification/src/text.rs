//! Character-level text helpers: ASCII case folding, substring search,
//! Unicode whitespace trimming and decimal parsing of unsigned integers.
use vstd::prelude::*;

verus! {

/// ASCII lower-casing of one character: `A`..=`Z` become `a`..=`z`, all else stays.
pub open spec fn lower_char(c: char) -> char {
    if 'A' <= c && c <= 'Z' {
        ((c as u32) + 32) as char
    } else {
        c
    }
}

/// ASCII upper-casing of one character: `a`..=`z` become `A`..=`Z`, all else stays.
pub open spec fn upper_char(c: char) -> char {
    if 'a' <= c && c <= 'z' {
        ((c as u32) - 32) as char
    } else {
        c
    }
}

/// ASCII lower-casing of a whole text, character by character.
pub open spec fn ascii_lower(s: Seq<char>) -> Seq<char> {
    s.map_values(|c: char| lower_char(c))
}

/// ASCII upper-casing of a whole text, character by character.
pub open spec fn ascii_upper(s: Seq<char>) -> Seq<char> {
    s.map_values(|c: char| upper_char(c))
}

/// `pat` occurs in `s` as a contiguous run starting at index `i`.
pub open spec fn occurs_at(s: Seq<char>, pat: Seq<char>, i: int) -> bool {
    0 <= i && i + pat.len() <= s.len() && s.subrange(i, i + pat.len()) == pat
}

/// `pat` occurs somewhere in `s` as a contiguous run.
pub open spec fn has_infix(s: Seq<char>, pat: Seq<char>) -> bool {
    exists|i: int| occurs_at(s, pat, i)
}

/// The characters with the Unicode `White_Space` property, which is what
/// `char::is_whitespace` and `str::trim` use.
pub open spec fn is_unicode_space(c: char) -> bool {
    ||| ('\u{9}' <= c && c <= '\u{d}')
    ||| c == ' '
    ||| c == '\u{85}'
    ||| c == '\u{a0}'
    ||| c == '\u{1680}'
    ||| ('\u{2000}' <= c && c <= '\u{200a}')
    ||| c == '\u{2028}'
    ||| c == '\u{2029}'
    ||| c == '\u{202f}'
    ||| c == '\u{205f}'
    ||| c == '\u{3000}'
}

/// `t` is `s` with its leading and trailing whitespace removed.
pub open spec fn is_trim_of(s: Seq<char>, t: Seq<char>) -> bool {
    exists|a: int, b: int|
        #![trigger s.subrange(a, b)]
        {
            &&& 0 <= a <= b <= s.len()
            &&& t == s.subrange(a, b)
            &&& forall|i: int| 0 <= i < a ==> is_unicode_space(#[trigger] s[i])
            &&& forall|i: int| b <= i < s.len() ==> is_unicode_space(#[trigger] s[i])
            &&& a < b ==> !is_unicode_space(s[a]) && !is_unicode_space(s[b - 1])
        }
}

/// The text `s` with its leading and trailing whitespace removed.
pub open spec fn trimmed(s: Seq<char>) -> Seq<char> {
    choose|t: Seq<char>| is_trim_of(s, t)
}

/// A text has one trimmed form.
proof fn lemma_trim_unique(s: Seq<char>, t1: Seq<char>, t2: Seq<char>)
    requires
        is_trim_of(s, t1),
        is_trim_of(s, t2),
    ensures
        t1 == t2,
{
    let (a1, b1) = choose|a: int, b: int|
        #![trigger s.subrange(a, b)]
        {
            &&& 0 <= a <= b <= s.len()
            &&& t1 == s.subrange(a, b)
            &&& forall|i: int| 0 <= i < a ==> is_unicode_space(#[trigger] s[i])
            &&& forall|i: int| b <= i < s.len() ==> is_unicode_space(#[trigger] s[i])
            &&& a < b ==> !is_unicode_space(s[a]) && !is_unicode_space(s[b - 1])
        };
    let (a2, b2) = choose|a: int, b: int|
        #![trigger s.subrange(a, b)]
        {
            &&& 0 <= a <= b <= s.len()
            &&& t2 == s.subrange(a, b)
            &&& forall|i: int| 0 <= i < a ==> is_unicode_space(#[trigger] s[i])
            &&& forall|i: int| b <= i < s.len() ==> is_unicode_space(#[trigger] s[i])
            &&& a < b ==> !is_unicode_space(s[a]) && !is_unicode_space(s[b - 1])
        };
    if a1 < b1 && a2 < b2 {
        if a1 < a2 {
            assert(is_unicode_space(s[a1]));
        }
        if a2 < a1 {
            assert(is_unicode_space(s[a2]));
        }
        if b1 < b2 {
            assert(is_unicode_space(s[b2 - 1]));
        }
        if b2 < b1 {
            assert(is_unicode_space(s[b1 - 1]));
        }
        assert(a1 == a2 && b1 == b2);
    } else if a1 < b1 {
        if a1 < a2 {
            assert(is_unicode_space(s[a1]));
        } else {
            assert(is_unicode_space(s[a1]));
        }
    } else if a2 < b2 {
        if a2 < a1 {
            assert(is_unicode_space(s[a2]));
        } else {
            assert(is_unicode_space(s[a2]));
        }
    } else {
        assert(t1 =~= t2);
    }
}

/// Whether two texts are equal.
pub fn str_eq(a: &str, b: &str) -> (r: bool)
    ensures
        r == (a@ == b@),
{
    let x = a.to_owned();
    let y = b.to_owned();
    x == y
}

/// Whether `c` and `d` agree once `c` is lower-cased.
fn lower_eq(c: char, d: char) -> (r: bool)
    ensures
        r == (lower_char(c) == d),
{
    if 'A' <= c && c <= 'Z' {
        let v: u32 = (c as u32) + 32;
        assert(((c as u32) + 32) as char as u32 == (c as u32) + 32);
        v == (d as u32)
    } else {
        c == d
    }
}

/// Whether `c` and `d` agree once `c` is upper-cased.
fn upper_eq(c: char, d: char) -> (r: bool)
    ensures
        r == (upper_char(c) == d),
{
    if 'a' <= c && c <= 'z' {
        let v: u32 = (c as u32) - 32;
        assert(((c as u32) - 32) as char as u32 == (c as u32) - 32);
        v == (d as u32)
    } else {
        c == d
    }
}

/// The characters of `s`, one per element.
pub fn chars_of(s: &str) -> (v: Vec<char>)
    ensures
        v@ == s@,
{
    let n = s.unicode_len();
    let mut v: Vec<char> = Vec::new();
    let mut i: usize = 0;
    while i < n
        invariant
            n == s@.len(),
            i <= n,
            v@ == s@.subrange(0, i as int),
        decreases n - i,
    {
        let c = s.get_char(i);
        v.push(c);
        i = i + 1;
    }
    v
}

/// Whether `s`, lower-cased in ASCII, equals `lit`.
pub fn eq_lower(s: &str, lit: &str) -> (r: bool)
    ensures
        r == (ascii_lower(s@) == lit@),
{
    let a = chars_of(s);
    let b = chars_of(lit);
    if a.len() != b.len() {
        assert(ascii_lower(s@).len() != lit@.len());
        return false;
    }
    let mut i: usize = 0;
    while i < a.len()
        invariant
            a@ == s@,
            b@ == lit@,
            a.len() == b.len(),
            i <= a.len(),
            forall|j: int| 0 <= j < i ==> lower_char(#[trigger] a@[j]) == b@[j],
        decreases a.len() - i,
    {
        if !lower_eq(a[i], b[i]) {
            assert(ascii_lower(s@)[i as int] != lit@[i as int]);
            return false;
        }
        i = i + 1;
    }
    assert(ascii_lower(s@) =~= lit@);
    true
}

/// Whether `s`, upper-cased in ASCII, equals `lit`.
pub fn eq_upper(s: &str, lit: &str) -> (r: bool)
    ensures
        r == (ascii_upper(s@) == lit@),
{
    let a = chars_of(s);
    let b = chars_of(lit);
    if a.len() != b.len() {
        assert(ascii_upper(s@).len() != lit@.len());
        return false;
    }
    let mut i: usize = 0;
    while i < a.len()
        invariant
            a@ == s@,
            b@ == lit@,
            a.len() == b.len(),
            i <= a.len(),
            forall|j: int| 0 <= j < i ==> upper_char(#[trigger] a@[j]) == b@[j],
        decreases a.len() - i,
    {
        if !upper_eq(a[i], b[i]) {
            assert(ascii_upper(s@)[i as int] != lit@[i as int]);
            return false;
        }
        i = i + 1;
    }
    assert(ascii_upper(s@) =~= lit@);
    true
}

/// Whether `pat` occurs in the ASCII lower-casing of `hay`.
pub fn contains_lower(hay: &str, pat: &str) -> (r: bool)
    ensures
        r == has_infix(ascii_lower(hay@), pat@),
{
    let h = chars_of(hay);
    let p = chars_of(pat);
    let ghost lh = ascii_lower(hay@);
    if p.len() > h.len() {
        assert forall|i: int| !occurs_at(lh, pat@, i) by {}
        return false;
    }
    let last = h.len() - p.len();
    let mut i: usize = 0;
    while i <= last
        invariant
            h@ == hay@,
            p@ == pat@,
            lh == ascii_lower(hay@),
            p.len() <= h.len(),
            last == h.len() - p.len(),
            i <= last + 1,
            forall|k: int| 0 <= k < i ==> !occurs_at(lh, pat@, k),
        decreases last + 1 - i,
    {
        let mut j: usize = 0;
        let mut ok = true;
        while j < p.len()
            invariant
                h@ == hay@,
                p@ == pat@,
                lh == ascii_lower(hay@),
                i <= last,
                last == h.len() - p.len(),
                j <= p.len(),
                ok == (forall|m: int| 0 <= m < j ==> lh[i + m] == #[trigger] pat@[m]),
            decreases p.len() - j,
        {
            if !lower_eq(h[i + j], p[j]) {
                ok = false;
            }
            j = j + 1;
        }
        if ok {
            assert(lh.subrange(i as int, i + pat@.len()) =~= pat@);
            assert(occurs_at(lh, pat@, i as int));
            return true;
        }
        assert(!occurs_at(lh, pat@, i as int)) by {
            let m = choose|m: int| 0 <= m < p.len() && lh[i + m] != #[trigger] pat@[m];
            if lh.subrange(i as int, i + pat@.len()) == pat@ {
                assert(lh.subrange(i as int, i + pat@.len())[m] == lh[i + m]);
            }
        }
        i = i + 1;
    }
    assert forall|k: int| !occurs_at(lh, pat@, k) by {
        if 0 <= k && k <= last as int {
        } else {
        }
    }
    false
}

/// Whether `c` has the Unicode `White_Space` property.
pub fn is_space(c: char) -> (r: bool)
    ensures
        r == is_unicode_space(c),
{
    ('\u{9}' <= c && c <= '\u{d}') || c == ' ' || c == '\u{85}' || c == '\u{a0}' || c
        == '\u{1680}' || ('\u{2000}' <= c && c <= '\u{200a}') || c == '\u{2028}' || c
        == '\u{2029}' || c == '\u{202f}' || c == '\u{205f}' || c == '\u{3000}'
}

/// `s` without its leading and trailing Unicode whitespace.
pub fn trim(s: &str) -> (r: &str)
    ensures
        is_trim_of(s@, r@),
        r@ == trimmed(s@),
{
    let v = chars_of(s);
    let n = v.len();
    let mut a: usize = 0;
    while a < n && is_space(v[a])
        invariant
            v@ == s@,
            n == v.len(),
            a <= n,
            forall|i: int| 0 <= i < a ==> is_unicode_space(#[trigger] s@[i]),
        decreases n - a,
    {
        a = a + 1;
    }
    let mut b: usize = n;
    while b > a && is_space(v[b - 1])
        invariant
            v@ == s@,
            n == v.len(),
            a <= b <= n,
            forall|i: int| b <= i < n ==> is_unicode_space(#[trigger] s@[i]),
        decreases b,
    {
        b = b - 1;
    }
    let r = s.substring_char(a, b);
    assert(a < b ==> !is_unicode_space(s@[a as int]) && !is_unicode_space(s@[b - 1]));
    assert(is_trim_of(s@, r@)) by {
        assert(r@ == s@.subrange(a as int, b as int));
    }
    proof {
        let t = trimmed(s@);
        lemma_trim_unique(s@, t, r@);
    }
    r
}

/// Why a text is not an unsigned decimal number, in the order in which
/// `str::parse` for an unsigned integer type reports it.
#[derive(Debug, Clone, Copy, PartialEq, Eq)]
pub enum IntErrorKind {
    Empty,
    InvalidDigit,
    PosOverflow,
}

/// The decimal digit value of `c`.
pub open spec fn digit_value(c: char) -> int {
    (c as int) - ('0' as int)
}

pub open spec fn is_digit(c: char) -> bool {
    '0' <= c && c <= '9'
}

/// Reads the digits of `d` left to right onto `acc`, failing at the first
/// non-digit, or as soon as the running value exceeds `max`.
pub open spec fn scan_digits(d: Seq<char>, acc: int, max: int) -> Result<int, IntErrorKind>
    decreases d.len(),
{
    if d.len() == 0 {
        Ok(acc)
    } else if !is_digit(d[0]) {
        Err(IntErrorKind::InvalidDigit)
    } else if acc * 10 + digit_value(d[0]) > max {
        Err(IntErrorKind::PosOverflow)
    } else {
        scan_digits(d.drop_first(), acc * 10 + digit_value(d[0]), max)
    }
}

/// What parsing `s` as an unsigned integer with largest value `max` gives:
/// an optional `+`, then at least one decimal digit, with the value at most `max`.
pub open spec fn parse_unsigned(s: Seq<char>, max: int) -> Result<int, IntErrorKind> {
    if s.len() == 0 {
        Err(IntErrorKind::Empty)
    } else if s.len() == 1 && (s[0] == '+' || s[0] == '-') {
        Err(IntErrorKind::InvalidDigit)
    } else if s[0] == '+' {
        scan_digits(s.drop_first(), 0, max)
    } else {
        scan_digits(s, 0, max)
    }
}

proof fn lemma_scan_bounded(d: Seq<char>, acc: int, max: int)
    requires
        0 <= acc <= max,
    ensures
        scan_digits(d, acc, max) matches Ok(v) ==> 0 <= v <= max,
    decreases d.len(),
{
    if d.len() > 0 && is_digit(d[0]) && acc * 10 + digit_value(d[0]) <= max {
        lemma_scan_bounded(d.drop_first(), acc * 10 + digit_value(d[0]), max);
    }
}

fn parse_unsigned_exec(s: &str, max: u64) -> (r: Result<u64, IntErrorKind>)
    requires
        max <= u32::MAX,
    ensures
        match (r, parse_unsigned(s@, max as int)) {
            (Ok(a), Ok(b)) => a == b,
            (Err(a), Err(b)) => a == b,
            _ => false,
        },
{
    let v = chars_of(s);
    let n = v.len();
    if n == 0 {
        return Err(IntErrorKind::Empty);
    }
    if n == 1 && (v[0] == '+' || v[0] == '-') {
        return Err(IntErrorKind::InvalidDigit);
    }
    let start: usize = if v[0] == '+' { 1 } else { 0 };
    let ghost d = s@.subrange(start as int, n as int);
    assert(parse_unsigned(s@, max as int) == scan_digits(d, 0, max as int)) by {
        if start == 1 {
            assert(d =~= s@.drop_first());
        } else {
            assert(d =~= s@);
        }
    }
    let mut acc: u64 = 0;
    let mut i: usize = start;
    while i < n
        invariant
            v@ == s@,
            n == v.len(),
            start <= i <= n,
            acc <= max,
            max <= u32::MAX,
            d == s@.subrange(start as int, n as int),
            parse_unsigned(s@, max as int) == scan_digits(d, 0, max as int),
            scan_digits(d, 0, max as int) == scan_digits(
                s@.subrange(i as int, n as int),
                acc as int,
                max as int,
            ),
        decreases n - i,
    {
        let ghost rest = s@.subrange(i as int, n as int);
        let c = v[i];
        assert(rest.len() > 0 && rest[0] == c);
        if !('0' <= c && c <= '9') {
            return Err(IntErrorKind::InvalidDigit);
        }
        let dv: u64 = ((c as u32) - ('0' as u32)) as u64;
        let next: u64 = acc * 10 + dv;
        assert(dv as int == digit_value(c));
        if next > max {
            return Err(IntErrorKind::PosOverflow);
        }
        assert(rest.drop_first() =~= s@.subrange(i + 1, n as int));
        acc = next;
        i = i + 1;
    }
    assert(s@.subrange(n as int, n as int).len() == 0);
    Ok(acc)
}

/// Parses `s` as a `u16` the way `str::parse::<u16>` does.
pub fn parse_u16(s: &str) -> (r: Result<u16, IntErrorKind>)
    ensures
        match (r, parse_unsigned(s@, u16::MAX as int)) {
            (Ok(a), Ok(b)) => a == b,
            (Err(a), Err(b)) => a == b,
            _ => false,
        },
{
    match parse_unsigned_exec(s, 0xffff) {
        Ok(v) => {
            proof {
                lemma_parse_bounded(s@, 0xffff);
            }
            Ok(v as u16)
        },
        Err(e) => Err(e),
    }
}

/// Parses `s` as a `u32` the way `str::parse::<u32>` does.
pub fn parse_u32(s: &str) -> (r: Result<u32, IntErrorKind>)
    ensures
        match (r, parse_unsigned(s@, u32::MAX as int)) {
            (Ok(a), Ok(b)) => a == b,
            (Err(a), Err(b)) => a == b,
            _ => false,
        },
{
    match parse_unsigned_exec(s, 0xffff_ffff) {
        Ok(v) => {
            proof {
                lemma_parse_bounded(s@, 0xffff_ffff);
            }
            Ok(v as u32)
        },
        Err(e) => Err(e),
    }
}

proof fn lemma_parse_bounded(s: Seq<char>, max: int)
    requires
        0 <= max,
    ensures
        parse_unsigned(s, max) matches Ok(v) ==> 0 <= v <= max,
{
    if s.len() > 0 {
        lemma_scan_bounded(s.drop_first(), 0, max);
        lemma_scan_bounded(s, 0, max);
    }
}

} // verus!
