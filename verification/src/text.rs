//! Text handling shared by the configuration layers: whitespace trimming
//! and unsigned decimal parsing, each with its mathematical definition.

use vstd::prelude::*;
use vstd::std_specs::iter::IteratorSpec;

verus! {

/// Whether `c` carries the Unicode `White_Space` property.
pub open spec fn is_whitespace(c: char) -> bool {
    let n = c as u32;
    ||| 0x09 <= n <= 0x0D
    ||| n == 0x20
    ||| n == 0x85
    ||| n == 0xA0
    ||| n == 0x1680
    ||| 0x2000 <= n <= 0x200A
    ||| n == 0x2028
    ||| n == 0x2029
    ||| n == 0x202F
    ||| n == 0x205F
    ||| n == 0x3000
}

/// `s` without its leading whitespace.
pub open spec fn trim_start(s: Seq<char>) -> Seq<char>
    decreases s.len(),
{
    if s.len() > 0 && is_whitespace(s.first()) {
        trim_start(s.drop_first())
    } else {
        s
    }
}

/// `s` without its trailing whitespace.
pub open spec fn trim_end(s: Seq<char>) -> Seq<char>
    decreases s.len(),
{
    if s.len() > 0 && is_whitespace(s.last()) {
        trim_end(s.drop_last())
    } else {
        s
    }
}

/// `s` without leading and trailing whitespace.
pub open spec fn trimmed(s: Seq<char>) -> Seq<char> {
    trim_end(trim_start(s))
}

/// Executable test for the `White_Space` property.
pub fn char_is_whitespace(c: char) -> (b: bool)
    ensures
        b == is_whitespace(c),
{
    let n: u32 = c as u32;
    (0x09 <= n && n <= 0x0D) || n == 0x20 || n == 0x85 || n == 0xA0 || n == 0x1680 || (0x2000 <= n
        && n <= 0x200A) || n == 0x2028 || n == 0x2029 || n == 0x202F || n == 0x205F || n == 0x3000
}

/// Trimming removes exactly the whitespace at the two ends: the trimmed
/// text is the part of `s` between the returned positions, everything
/// outside them is whitespace, and what is left neither begins nor ends
/// with whitespace.
pub proof fn lemma_trimmed_bounds(s: Seq<char>) -> (ends: (int, int))
    ensures
        0 <= ends.0 <= ends.1 <= s.len(),
        trimmed(s) == s.subrange(ends.0, ends.1),
        forall|k: int| 0 <= k < ends.0 ==> is_whitespace(#[trigger] s[k]),
        forall|k: int| ends.1 <= k < s.len() ==> is_whitespace(#[trigger] s[k]),
        ends.0 < ends.1 ==> !is_whitespace(s[ends.0]) && !is_whitespace(s[ends.1 - 1]),
{
    let start = lemma_trim_start_bound(s);
    let rest = s.subrange(start, s.len() as int);
    let kept = lemma_trim_end_bound(rest);
    assert forall|k: int| start + kept <= k < s.len() implies is_whitespace(#[trigger] s[k]) by {
        assert(s[k] == rest[k - start]);
    }
    (start, start + kept)
}

/// `trim_start` drops the whitespace before the returned position and
/// nothing else.
proof fn lemma_trim_start_bound(s: Seq<char>) -> (start: int)
    ensures
        0 <= start <= s.len(),
        trim_start(s) == s.subrange(start, s.len() as int),
        forall|k: int| 0 <= k < start ==> is_whitespace(#[trigger] s[k]),
        start < s.len() ==> !is_whitespace(s[start]),
    decreases s.len(),
{
    if s.len() > 0 && is_whitespace(s.first()) {
        let inner = lemma_trim_start_bound(s.drop_first());
        assert forall|k: int| 0 <= k < inner + 1 implies is_whitespace(#[trigger] s[k]) by {
            if k > 0 {
                assert(s[k] == s.drop_first()[k - 1]);
            }
        }
        inner + 1
    } else {
        0
    }
}

/// `trim_end` drops the whitespace from the returned position on and
/// nothing else.
proof fn lemma_trim_end_bound(s: Seq<char>) -> (end: int)
    ensures
        0 <= end <= s.len(),
        trim_end(s) == s.subrange(0, end),
        forall|k: int| end <= k < s.len() ==> is_whitespace(#[trigger] s[k]),
        0 < end ==> !is_whitespace(s[end - 1]),
    decreases s.len(),
{
    if s.len() > 0 && is_whitespace(s.last()) {
        let inner = lemma_trim_end_bound(s.drop_last());
        assert forall|k: int| inner <= k < s.len() implies is_whitespace(#[trigger] s[k]) by {
            if k < s.len() - 1 {
                assert(s[k] == s.drop_last()[k]);
            }
        }
        inner
    } else {
        s.len() as int
    }
}

/// The converse: a part of `s` with only whitespace outside it, which
/// neither begins nor ends with whitespace, is the trimmed text.
pub proof fn lemma_trimmed_from_bounds(s: Seq<char>, start: int, end: int)
    requires
        0 <= start <= end <= s.len(),
        forall|k: int| 0 <= k < start ==> is_whitespace(#[trigger] s[k]),
        forall|k: int| end <= k < s.len() ==> is_whitespace(#[trigger] s[k]),
        start < end ==> !is_whitespace(s[start]) && !is_whitespace(s[end - 1]),
    ensures
        trimmed(s) == s.subrange(start, end),
{
    if start < end {
        lemma_trim_start_skips(s, start);
        let rest = s.subrange(start, s.len() as int);
        lemma_trim_end_skips(rest, end - start);
    } else {
        lemma_trim_start_skips(s, s.len() as int);
    }
}

/// Dropping `i` leading whitespace characters does not change what
/// `trim_start` returns.
proof fn lemma_trim_start_skips(s: Seq<char>, i: int)
    requires
        0 <= i <= s.len(),
        forall|k: int| 0 <= k < i ==> is_whitespace(#[trigger] s[k]),
    ensures
        trim_start(s) == trim_start(s.subrange(i, s.len() as int)),
    decreases i,
{
    if i == 0 {
        assert(s.subrange(0, s.len() as int) =~= s);
    } else {
        lemma_trim_start_skips(s.drop_first(), i - 1);
        assert(s.drop_first().subrange(i - 1, s.len() - 1) =~= s.subrange(i, s.len() as int));
    }
}

/// Dropping trailing whitespace characters from position `j` on does not
/// change what `trim_end` returns.
proof fn lemma_trim_end_skips(s: Seq<char>, j: int)
    requires
        0 <= j <= s.len(),
        forall|k: int| j <= k < s.len() ==> is_whitespace(#[trigger] s[k]),
    ensures
        trim_end(s) == trim_end(s.subrange(0, j)),
    decreases s.len() - j,
{
    if j == s.len() {
        assert(s.subrange(0, j) =~= s);
    } else {
        lemma_trim_end_skips(s.drop_last(), j);
        assert(s.drop_last().subrange(0, j) =~= s.subrange(0, j));
    }
}

/// Returns `s` without leading and trailing whitespace.
pub fn trim(s: &str) -> (r: &str)
    ensures
        r@ == trimmed(s@),
{
    let n: usize = s.unicode_len();
    let mut i: usize = 0;
    let mut start: usize = 0;
    let mut end: usize = 0;
    for c in it: s.chars()
        invariant
            it.seq() == s@,
            n == s@.len(),
            i == it.index(),
            start <= end <= i,
            forall|k: int| 0 <= k < start ==> is_whitespace(#[trigger] s@[k]),
            forall|k: int| end <= k < i ==> is_whitespace(#[trigger] s@[k]),
            start < end ==> !is_whitespace(s@[start as int]) && !is_whitespace(s@[end - 1]),
            start == end ==> start == 0,
    {
        if !char_is_whitespace(c) {
            if start == end {
                start = i;
            }
            end = i + 1;
        }
        i = i + 1;
    }
    proof {
        lemma_trimmed_from_bounds(s@, start as int, end as int);
    }
    s.substring_char(start, end)
}

/// Whether `c` is one of the ASCII digits `0` to `9`.
pub open spec fn is_digit(c: char) -> bool {
    0x30 <= c as u32 <= 0x39
}

/// The value of an ASCII digit, and zero for any other character.
pub open spec fn digit_value(c: char) -> nat {
    if is_digit(c) {
        (c as u32 - 0x30) as nat
    } else {
        0
    }
}

/// Whether `s` consists of ASCII digits only.
pub open spec fn all_digits(s: Seq<char>) -> bool {
    forall|i: int| 0 <= i < s.len() ==> is_digit(#[trigger] s[i])
}

/// The number that a sequence of digits denotes in base ten.
pub open spec fn decimal_value(s: Seq<char>) -> nat
    decreases s.len(),
{
    if s.len() == 0 {
        0
    } else {
        10 * decimal_value(s.drop_last()) + digit_value(s.last())
    }
}

/// The part of `s` that has to be digits: all of it, but for one leading `+`.
pub open spec fn unsigned_digits(s: Seq<char>) -> Seq<char> {
    if s.len() > 0 && s[0] == '+' {
        s.drop_first()
    } else {
        s
    }
}

/// The number that `s` denotes, where it is the decimal text of a number
/// no larger than `max`: an optional `+` followed by at least one ASCII
/// digit and nothing else. Leading zeros are accepted.
pub open spec fn parse_unsigned(s: Seq<char>, max: nat) -> Option<nat> {
    let digits = unsigned_digits(s);
    if digits.len() > 0 && all_digits(digits) && decimal_value(digits) <= max {
        Some(decimal_value(digits))
    } else {
        None
    }
}

/// A prefix of a digit sequence never denotes more than the whole.
pub proof fn lemma_decimal_value_prefix(s: Seq<char>, k: int)
    requires
        0 <= k <= s.len(),
    ensures
        decimal_value(s.subrange(0, k)) <= decimal_value(s),
    decreases s.len() - k,
{
    if k == s.len() {
        assert(s.subrange(0, k) =~= s);
    } else {
        lemma_decimal_value_prefix(s.drop_last(), k);
        assert(s.drop_last().subrange(0, k) =~= s.subrange(0, k));
    }
}

/// The ASCII digit of a value below ten.
pub open spec fn digit_char(d: nat) -> char
    recommends
        d < 10,
{
    (0x30 + d) as char
}

/// The decimal text of `n`: its digits, without sign or leading zeros.
pub open spec fn decimal_text(n: nat) -> Seq<char>
    decreases n,
{
    if n < 10 {
        seq![digit_char(n)]
    } else {
        decimal_text(n / 10).push(digit_char(n % 10))
    }
}

/// Every number up to `max` is read back from its decimal text, with a
/// leading `+` or without.
pub proof fn lemma_parse_reads_decimal_text(n: nat, max: nat)
    requires
        n <= max,
    ensures
        parse_unsigned(decimal_text(n), max) == Some(n),
        parse_unsigned(seq!['+'] + decimal_text(n), max) == Some(n),
{
    lemma_decimal_text_value(n);
    let text = decimal_text(n);
    assert(text[0] != '+');
    assert((seq!['+'] + text).drop_first() =~= text);
}

/// The decimal text of `n` is a nonempty sequence of digits that denotes
/// `n`.
proof fn lemma_decimal_text_value(n: nat)
    ensures
        decimal_text(n).len() > 0,
        all_digits(decimal_text(n)),
        decimal_value(decimal_text(n)) == n,
    decreases n,
{
    if n < 10 {
        let text = seq![digit_char(n)];
        assert(text.drop_last() =~= Seq::<char>::empty());
        assert(decimal_value(text.drop_last()) == 0);
    } else {
        lemma_decimal_text_value(n / 10);
        let head = decimal_text(n / 10);
        assert(head.push(digit_char(n % 10)).drop_last() =~= head);
    }
}

/// The value of `c` where it is an ASCII digit.
pub fn digit_of(c: char) -> (r: Option<u64>)
    ensures
        r is Some <==> is_digit(c),
        r matches Some(d) ==> d == digit_value(c),
{
    let n: u32 = c as u32;
    if 0x30 <= n && n <= 0x39 {
        Some((n - 0x30) as u64)
    } else {
        None
    }
}

/// Reads `s` as the decimal text of a number no larger than `max`.
pub fn parse_decimal(s: &str, max: u64) -> (r: Option<u64>)
    ensures
        match parse_unsigned(s@, max as nat) {
            Some(v) => r == Some(v as u64),
            None => r is None,
        },
{
    let n: usize = s.unicode_len();
    let ghost digits = unsigned_digits(s@);
    let ghost skip = s@.len() - digits.len();
    let mut i: usize = 0;
    let mut seen: usize = 0;
    let mut acc: u64 = 0;
    for c in it: s.chars()
        invariant
            it.seq() == s@,
            n == s@.len(),
            i == it.index(),
            digits == unsigned_digits(s@),
            skip == s@.len() - digits.len(),
            i == 0 ==> seen == 0,
            i > 0 ==> seen == i - skip,
            all_digits(digits.subrange(0, seen as int)),
            acc == decimal_value(digits.subrange(0, seen as int)),
            acc <= max,
    {
        let sign = i == 0 && c == '+';
        if !sign {
            let ghost longer = digits.subrange(0, seen + 1);
            assert(longer.drop_last() =~= digits.subrange(0, seen as int));
            let next: Option<u64> = match digit_of(c) {
                Some(d) => match acc.checked_mul(10) {
                    Some(m) => m.checked_add(d),
                    None => None,
                },
                None => None,
            };
            match next {
                Some(v) if v <= max => {
                    acc = v;
                    seen = seen + 1;
                },
                _ => {
                    proof {
                        if is_digit(c) {
                            lemma_decimal_value_prefix(digits, seen + 1);
                        }
                    }
                    return None;
                },
            }
        }
        i = i + 1;
    }
    assert(digits.subrange(0, seen as int) =~= digits);
    if seen == 0 {
        None
    } else {
        Some(acc)
    }
}

/// Reads `s` as the decimal text of a 16-bit unsigned number.
pub fn parse_u16(s: &str) -> (r: Option<u16>)
    ensures
        match parse_unsigned(s@, u16::MAX as nat) {
            Some(v) => r == Some(v as u16),
            None => r is None,
        },
{
    match parse_decimal(s, 0xFFFF) {
        Some(v) => Some(v as u16),
        None => None,
    }
}

/// Reads `s` as the decimal text of a 32-bit unsigned number.
pub fn parse_u32(s: &str) -> (r: Option<u32>)
    ensures
        match parse_unsigned(s@, u32::MAX as nat) {
            Some(v) => r == Some(v as u32),
            None => r is None,
        },
{
    match parse_decimal(s, 0xFFFF_FFFF) {
        Some(v) => Some(v as u32),
        None => None,
    }
}

/// Whether `a` and `b` hold the same characters.
pub fn text_eq(a: &str, b: &str) -> (r: bool)
    ensures
        r == (a@ == b@),
{
    let n: usize = a.unicode_len();
    let mut other = b.chars();
    let mut i: usize = 0;
    for c in it: a.chars()
        invariant
            it.seq() == a@,
            n == a@.len(),
            i == it.index(),
            i <= b@.len(),
            other.remaining() == b@.subrange(i as int, b@.len() as int),
            a@.subrange(0, i as int) == b@.subrange(0, i as int),
    {
        match other.next() {
            Some(d) => {
                if c != d {
                    return false;
                }
            },
            None => {
                return false;
            },
        }
        i = i + 1;
    }
    let rest = other.next();
    assert(a@.subrange(0, i as int) =~= a@);
    rest.is_none()
}

} // verus!
