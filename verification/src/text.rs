//! Character-level helpers shared by the parsers and the renderers.

use vstd::prelude::*;
use vstd::std_specs::iter::IteratorSpec;

verus! {

/// `String::push` appends one character to the end of the string.
pub assume_specification[ String::push ](s: &mut String, ch: char)
    ensures
        final(s)@ == old(s)@.push(ch),
;

/// The characters of `s`, in order.
pub fn to_chars(s: &str) -> (v: Vec<char>)
    ensures
        v@ == s@,
{
    let mut it = s.chars();
    let mut v: Vec<char> = Vec::new();
    loop
        invariant
            v@ + it.remaining() == s@,
            it.decrease() is Some,
        ensures
            v@ == s@,
        decreases it.decrease()->0,
    {
        match it.next() {
            Some(c) => {
                v.push(c);
            },
            None => {
                break;
            },
        }
    }
    v
}

/// A string holding exactly the characters of `s`.
pub fn from_chars(s: &[char]) -> (r: String)
    ensures
        r@ == s@,
{
    let mut r = String::new();
    let mut i: usize = 0;
    while i < s.len()
        invariant
            i <= s.len(),
            r@ == s@.take(i as int),
        decreases s.len() - i,
    {
        r.push(s[i]);
        i = i + 1;
    }
    r
}

/// The index of the first `c` in `s` at or after `from`, or the length of `s`
/// when there is none.
pub open spec fn find_from(s: Seq<char>, c: char, from: int) -> int
    decreases s.len() - from,
{
    if from >= s.len() {
        s.len() as int
    } else if s[from] == c {
        from
    } else {
        find_from(s, c, from + 1)
    }
}

/// What `find_from` returns lies between `from` and the end, stands on a `c`
/// unless it is the end, and nothing before it from `from` on is a `c`.
pub proof fn lemma_find_from(s: Seq<char>, c: char, from: int)
    requires
        0 <= from <= s.len(),
    ensures
        from <= find_from(s, c, from) <= s.len(),
        find_from(s, c, from) < s.len() ==> s[find_from(s, c, from)] == c,
        forall|j: int| from <= j < find_from(s, c, from) ==> s[j] != c,
    decreases s.len() - from,
{
    if from < s.len() && s[from] != c {
        lemma_find_from(s, c, from + 1);
    }
}

/// Finds the first `c` in `s` at or after `from`; gives the length of `s`
/// when there is none.
pub fn find_char(s: &[char], c: char, from: usize) -> (i: usize)
    ensures
        i == find_from(s@, c, from as int),
        i <= s.len(),
        from <= s.len() ==> from <= i,
{
    if from >= s.len() {
        return s.len();
    }
    let mut i: usize = from;
    while i < s.len() && s[i] != c
        invariant
            from <= i <= s.len(),
            find_from(s@, c, from as int) == find_from(s@, c, i as int),
        decreases s.len() - i,
    {
        i = i + 1;
    }
    i
}

/// Whether `s` begins with the characters of `prefix`.
pub fn starts_with(s: &[char], prefix: &[char]) -> (b: bool)
    ensures
        b == prefix@.is_prefix_of(s@),
{
    if prefix.len() > s.len() {
        return false;
    }
    let mut i: usize = 0;
    while i < prefix.len()
        invariant
            i <= prefix.len() <= s.len(),
            forall|j: int| 0 <= j < i ==> s@[j] == prefix@[j],
        decreases prefix.len() - i,
    {
        if s[i] != prefix[i] {
            return false;
        }
        i = i + 1;
    }
    true
}

/// Whether `c` occurs in `s`.
pub fn contains_char(s: &str, c: char) -> (b: bool)
    ensures
        b == s@.contains(c),
{
    let chars = to_chars(s);
    let i = find_char(chars.as_slice(), c, 0);
    proof {
        lemma_find_from(chars@, c, 0);
    }
    i < chars.len()
}

/// Whether `c` is one of the ten decimal digits.
pub open spec fn is_digit(c: char) -> bool {
    '0' <= c <= '9'
}

/// The number that the digit `c` stands for.
pub open spec fn digit_value(c: char) -> nat
    recommends
        is_digit(c),
{
    (c as nat - '0' as nat) as nat
}

/// The number that a run of decimal digits denotes, most significant first;
/// the empty run denotes zero.
pub open spec fn digits_value(s: Seq<char>) -> nat
    decreases s.len(),
{
    if s.len() == 0 {
        0
    } else {
        digits_value(s.drop_last()) * 10 + digit_value(s.last())
    }
}

/// Whether every character of `s` is a decimal digit.
pub open spec fn all_digits(s: Seq<char>) -> bool {
    forall|i: int| 0 <= i < s.len() ==> is_digit(#[trigger] s[i])
}

/// `s` without one leading plus sign, if it has one.
pub open spec fn unsigned_part(s: Seq<char>) -> Seq<char> {
    if s.len() > 0 && s[0] == '+' {
        s.skip(1)
    } else {
        s
    }
}

/// The number written in `s`: an optional plus sign followed by one or more
/// decimal digits and nothing else, denoting a value that fits in `usize`.
/// Any other text denotes no number.
pub open spec fn parse_number(s: Seq<char>) -> Option<usize> {
    let body = unsigned_part(s);
    if body.len() > 0 && all_digits(body) && digits_value(body) <= usize::MAX {
        Some(digits_value(body) as usize)
    } else {
        None
    }
}

/// A run of digits denotes at least what any of its prefixes denotes.
pub proof fn lemma_digits_value_grows(s: Seq<char>, k: int)
    requires
        0 <= k <= s.len(),
    ensures
        digits_value(s.take(k)) <= digits_value(s),
    decreases s.len() - k,
{
    if k == s.len() {
        assert(s.take(k) =~= s);
    } else {
        lemma_digits_value_grows(s, k + 1);
        assert(s.take(k + 1).drop_last() =~= s.take(k));
    }
}

/// Reads the number written in `s`, if `s` is a number.
pub fn parse_usize(s: &[char]) -> (r: Option<usize>)
    ensures
        r == parse_number(s@),
{
    let start: usize = if s.len() > 0 && s[0] == '+' {
        1
    } else {
        0
    };
    let ghost body = unsigned_part(s@);
    if start >= s.len() {
        return None;
    }
    let mut value: usize = 0;
    let mut i: usize = start;
    while i < s.len()
        invariant
            start <= i <= s.len(),
            body == s@.skip(start as int),
            body == unsigned_part(s@),
            forall|j: int| 0 <= j < i - start ==> is_digit(#[trigger] body[j]),
            value == digits_value(body.take(i - start)),
        decreases s.len() - i,
    {
        let c = s[i];
        if !(c >= '0' && c <= '9') {
            assert(!is_digit(body[i - start]));
            return None;
        }
        let d: usize = (c as u32 - '0' as u32) as usize;
        assert(body.take(i - start + 1).drop_last() =~= body.take(i - start));
        proof {
            lemma_digits_value_grows(body, i - start + 1);
        }
        if value > (usize::MAX - d) / 10 {
            return None;
        }
        value = value * 10 + d;
        i = i + 1;
    }
    assert(body.take(i - start) =~= body);
    Some(value)
}

/// The character that writes the digit `d`.
pub open spec fn digit_char(d: nat) -> char
    recommends
        d < 10,
{
    if d == 0 {
        '0'
    } else if d == 1 {
        '1'
    } else if d == 2 {
        '2'
    } else if d == 3 {
        '3'
    } else if d == 4 {
        '4'
    } else if d == 5 {
        '5'
    } else if d == 6 {
        '6'
    } else if d == 7 {
        '7'
    } else if d == 8 {
        '8'
    } else {
        '9'
    }
}

/// The decimal writing of `n`, without sign or leading zeros.
pub open spec fn decimal(n: nat) -> Seq<char>
    decreases n,
{
    if n < 10 {
        seq![digit_char(n)]
    } else {
        decimal(n / 10).push(digit_char(n % 10))
    }
}

fn digit_of(d: usize) -> (c: char)
    requires
        d < 10,
    ensures
        c == digit_char(d as nat),
{
    if d == 0 {
        '0'
    } else if d == 1 {
        '1'
    } else if d == 2 {
        '2'
    } else if d == 3 {
        '3'
    } else if d == 4 {
        '4'
    } else if d == 5 {
        '5'
    } else if d == 6 {
        '6'
    } else if d == 7 {
        '7'
    } else if d == 8 {
        '8'
    } else {
        '9'
    }
}

/// Appends the decimal writing of `n` to `out`.
pub fn push_decimal(out: &mut String, n: usize)
    ensures
        final(out)@ == old(out)@ + decimal(n as nat),
    decreases n,
{
    if n >= 10 {
        push_decimal(out, n / 10);
    }
    out.push(digit_of(n % 10));
}

} // verus!
