//! Reading a line of input: trimming white space and parsing a decimal
//! number that fits in 32 bits.

use vstd::prelude::*;

verus! {

/// The characters that count as white space: the Unicode property
/// `White_Space`.
pub open spec fn is_space(c: char) -> bool {
    let u = c as u32;
    (0x09 <= u <= 0x0D) || u == 0x20 || u == 0x85 || u == 0xA0 || u == 0x1680 || (0x2000 <= u
        <= 0x200A) || u == 0x2028 || u == 0x2029 || u == 0x202F || u == 0x205F || u == 0x3000
}

/// `s` without its leading white space.
pub open spec fn trimmed_start(s: Seq<char>) -> Seq<char>
    decreases s.len(),
{
    if s.len() > 0 && is_space(s[0]) {
        trimmed_start(s.skip(1))
    } else {
        s
    }
}

/// `s` without its trailing white space.
pub open spec fn trimmed_end(s: Seq<char>) -> Seq<char>
    decreases s.len(),
{
    if s.len() > 0 && is_space(s.last()) {
        trimmed_end(s.drop_last())
    } else {
        s
    }
}

/// `s` without leading and trailing white space.
pub open spec fn trimmed(s: Seq<char>) -> Seq<char> {
    trimmed_end(trimmed_start(s))
}

/// Whether `c` is one of the ten decimal digits.
pub open spec fn is_digit(c: char) -> bool {
    '0' <= c <= '9'
}

/// The value of a decimal digit; 0 for any other character.
pub open spec fn digit_value(c: char) -> nat {
    if is_digit(c) {
        (c as u32 - '0' as u32) as nat
    } else {
        0
    }
}

/// Whether every character of `s` is a decimal digit.
pub open spec fn all_digits(s: Seq<char>) -> bool {
    forall|i: int| 0 <= i < s.len() ==> is_digit(#[trigger] s[i])
}

/// The number that a sequence of decimal digits writes, most significant
/// digit first.
pub open spec fn digits_value(s: Seq<char>) -> nat
    decreases s.len(),
{
    if s.len() == 0 {
        0
    } else {
        10 * digits_value(s.drop_last()) + digit_value(s.last())
    }
}

/// `s` without one leading plus sign, if it has one.
pub open spec fn unsigned_part(s: Seq<char>) -> Seq<char> {
    if s.len() > 0 && s[0] == '+' {
        s.skip(1)
    } else {
        s
    }
}

/// The number that `s` writes: an optional plus sign, then one or more
/// decimal digits and nothing else, with a value of at most `u32::MAX`.
/// Any other text writes no number.
pub open spec fn number_in(s: Seq<char>) -> Option<u32> {
    let body = unsigned_part(s);
    if body.len() > 0 && all_digits(body) && digits_value(body) <= u32::MAX {
        Some(digits_value(body) as u32)
    } else {
        None
    }
}

/// The guess that a line of input holds: the number in the trimmed line.
pub open spec fn guess_in(line: Seq<char>) -> Option<u32> {
    number_in(trimmed(line))
}

/// A prefix of a digit sequence writes no larger a number than the whole.
pub proof fn lemma_prefix_value(s: Seq<char>, n: int)
    requires
        0 <= n <= s.len(),
    ensures
        digits_value(s.take(n)) <= digits_value(s),
    decreases s.len(),
{
    if n == s.len() {
        assert(s.take(n) =~= s);
    } else {
        assert(s.drop_last().take(n) =~= s.take(n));
        lemma_prefix_value(s.drop_last(), n);
    }
}

/// Tells whether `c` is white space.
pub fn is_whitespace(c: char) -> (r: bool)
    ensures
        r == is_space(c),
{
    let u: u32 = c as u32;
    (0x09 <= u && u <= 0x0D) || u == 0x20 || u == 0x85 || u == 0xA0 || u == 0x1680 || (0x2000 <= u
        && u <= 0x200A) || u == 0x2028 || u == 0x2029 || u == 0x202F || u == 0x205F || u == 0x3000
}

/// The characters of `s`, in order.
pub fn chars_of(s: &str) -> (v: Vec<char>)
    ensures
        v@ == s@,
{
    let mut v: Vec<char> = Vec::new();
    for c in it: s.chars()
        invariant
            it.seq() == s@,
            v@ == it.seq().take(it.index()),
    {
        v.push(c);
        assert(it.seq().take(it.index() + 1) =~= it.seq().take(it.index()).push(c));
    }
    assert(s@.take(s@.len() as int) =~= s@);
    v
}

/// The positions between which the trimmed text lies: `chars` from `r.0`
/// up to, not including, `r.1` is `chars` without the white space around
/// it.
pub fn trim_span(chars: &Vec<char>) -> (r: (usize, usize))
    ensures
        r.0 <= r.1 <= chars@.len(),
        chars@.subrange(r.0 as int, r.1 as int) == trimmed(chars@),
{
    let n: usize = chars.len();
    let mut a: usize = 0;
    proof {
        assert(chars@.skip(0) =~= chars@);
    }
    while a < n && is_whitespace(chars[a])
        invariant
            a <= n,
            n == chars@.len(),
            trimmed_start(chars@) == trimmed_start(chars@.skip(a as int)),
        decreases n - a,
    {
        proof {
            assert(chars@.skip(a as int).skip(1) =~= chars@.skip(a + 1));
        }
        a = a + 1;
    }
    let ghost t = chars@.skip(a as int);
    let mut b: usize = n;
    proof {
        assert(trimmed_start(chars@) == t);
        assert(t.take(b - a) =~= t);
    }
    while b > a && is_whitespace(chars[b - 1])
        invariant
            a <= b <= n,
            n == chars@.len(),
            t == chars@.skip(a as int),
            trimmed_end(t) == trimmed_end(t.take(b - a)),
        decreases b - a,
    {
        proof {
            assert(t.take(b - a).drop_last() =~= t.take(b - a - 1));
        }
        b = b - 1;
    }
    proof {
        assert(t.take(b - a) =~= chars@.subrange(a as int, b as int));
    }
    (a, b)
}

/// The positions, counted in characters, between which the trimmed line
/// lies.
pub fn trim_bounds(s: &str) -> (r: (usize, usize))
    ensures
        r.0 <= r.1 <= s@.len(),
        s@.subrange(r.0 as int, r.1 as int) == trimmed(s@),
{
    let chars = chars_of(s);
    trim_span(&chars)
}

/// Reads the characters of `chars` from `a` up to, not including, `b` as
/// a number: an optional plus sign and then decimal digits, with a value
/// that fits in 32 bits.
pub fn number_between(chars: &Vec<char>, a: usize, b: usize) -> (r: Option<u32>)
    requires
        a <= b <= chars@.len(),
    ensures
        r == number_in(chars@.subrange(a as int, b as int)),
{
    let ghost whole = chars@.subrange(a as int, b as int);
    let mut i: usize = a;
    if i < b && chars[i] == '+' {
        i = i + 1;
    }
    let first: usize = i;
    let ghost body = unsigned_part(whole);
    proof {
        assert(body =~= chars@.subrange(first as int, b as int));
    }
    if first == b {
        return None;
    }
    let mut acc: u64 = 0;
    while i < b
        invariant
            first <= i <= b <= chars@.len(),
            body == chars@.subrange(first as int, b as int),
            body == unsigned_part(chars@.subrange(a as int, b as int)),
            all_digits(body.take(i - first)),
            acc == digits_value(body.take(i - first)),
            acc <= u32::MAX,
        decreases b - i,
    {
        let c: char = chars[i];
        let ghost k = i - first;
        proof {
            assert(body[k] == c);
            assert(body.take(k + 1).drop_last() =~= body.take(k));
            assert(body.take(k + 1).last() == c);
            assert(digits_value(body.take(k + 1)) == 10 * digits_value(body.take(k))
                + digit_value(c));
        }
        if !(c >= '0' && c <= '9') {
            assert(!is_digit(body[k]));
            return None;
        }
        let d: u64 = (c as u32 - '0' as u32) as u64;
        let next: u64 = acc * 10 + d;
        if next > 0xFFFF_FFFF {
            proof {
                lemma_prefix_value(body, k + 1);
            }
            return None;
        }
        acc = next;
        i = i + 1;
    }
    proof {
        assert(body.take(i - first) =~= body);
    }
    Some(acc as u32)
}

/// Reads a line as a guess: the white space around it is dropped, and
/// what is left must be a decimal number that fits in 32 bits.
pub fn parse_guess(line: &str) -> (r: Option<u32>)
    ensures
        r == guess_in(line@),
{
    let chars = chars_of(line);
    let (a, b) = trim_span(&chars);
    number_between(&chars, a, b)
}

} // verus!
