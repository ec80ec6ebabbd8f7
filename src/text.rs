//! The small textual grammar of mapping descriptors: decimal numbers of one
//! to three digits, character searches and literal comparisons.

use vstd::prelude::*;

verus! {

pub open spec fn is_digit(c: char) -> bool {
    '0' <= c && c <= '9'
}

pub open spec fn digit_value(c: char) -> nat {
    (c as int - '0' as int) as nat
}

/// The value of a string of decimal digits, most significant first.
pub open spec fn decimal_value(s: Seq<char>) -> nat
    decreases s.len(),
{
    if s.len() == 0 {
        0
    } else {
        decimal_value(s.drop_last()) * 10 + digit_value(s.last())
    }
}

pub open spec fn all_digits(s: Seq<char>) -> bool {
    forall|i: int| 0 <= i < s.len() ==> is_digit(#[trigger] s[i])
}

/// A 7-bit number written with one to three decimal digits.
pub open spec fn seven_bit_of(s: Seq<char>) -> Option<u8> {
    if 1 <= s.len() <= 3 && all_digits(s) && decimal_value(s) <= 127 {
        Some(decimal_value(s) as u8)
    } else {
        None
    }
}

/// The index of the first occurrence of `c` in `s`, or `s.len()` when there is none.
pub open spec fn first_index_of(s: Seq<char>, c: char) -> int
    decreases s.len(),
{
    if s.len() == 0 {
        0
    } else if s[0] == c {
        0
    } else {
        first_index_of(s.drop_first(), c) + 1
    }
}

proof fn lemma_first_index_of(s: Seq<char>, c: char, k: int)
    requires
        0 <= k <= s.len(),
        k < s.len() ==> s[k] == c,
        forall|j: int| 0 <= j < k ==> s[j] != c,
    ensures
        first_index_of(s, c) == k,
    decreases s.len(),
{
    if s.len() > 0 && s[0] != c {
        assert forall|j: int| 0 <= j < k - 1 implies s.drop_first()[j] != c by {
            assert(s.drop_first()[j] == s[j + 1]);
        }
        lemma_first_index_of(s.drop_first(), c, k - 1);
    }
}

/// The characters of a string, one by one.
pub fn chars_of(s: &str) -> (r: Vec<char>)
    ensures
        r@ == s@,
{
    let n = s.unicode_len();
    let mut r: Vec<char> = Vec::new();
    let mut i: usize = 0;
    while i < n
        invariant
            n == s@.len(),
            i <= n,
            r@ == s@.take(i as int),
        decreases n - i,
    {
        r.push(s.get_char(i));
        i += 1;
        assert(r@ =~= s@.take(i as int));
    }
    assert(s@.take(n as int) =~= s@);
    r
}

/// Reads `s[from..to]` as a 7-bit number written with one to three digits.
pub fn parse_seven_bit(s: &Vec<char>, from: usize, to: usize) -> (r: Option<u8>)
    requires
        from <= to <= s@.len(),
    ensures
        r == seven_bit_of(s@.subrange(from as int, to as int)),
{
    let ghost t = s@.subrange(from as int, to as int);
    if to - from < 1 || to - from > 3 {
        return None;
    }
    let mut acc: u32 = 0;
    let mut i: usize = from;
    while i < to
        invariant
            from <= i <= to,
            to <= s@.len(),
            to - from <= 3,
            t == s@.subrange(from as int, to as int),
            acc == decimal_value(t.take(i - from)),
            all_digits(t.take(i - from)),
            acc < 1000,
            i - from <= 2 ==> acc < 100,
            i - from <= 1 ==> acc < 10,
            i == from ==> acc == 0,
        decreases to - i,
    {
        let c = s[i];
        if !('0' <= c && c <= '9') {
            assert(t[i - from] == s@[i as int]);
            assert(!is_digit(t.take(to - from)[i - from]));
            return None;
        }
        assert(t[i - from] == c);
        acc = acc * 10 + (c as u32 - '0' as u32);
        i += 1;
        assert(t.take(i - from).drop_last() =~= t.take(i - from - 1));
        assert(all_digits(t.take(i - from))) by {
            assert forall|j: int| 0 <= j < i - from implies is_digit(#[trigger] t.take(i - from)[j]) by {
                if j < i - from - 1 {
                    assert(t.take(i - from)[j] == t.take(i - from - 1)[j]);
                }
            }
        }
    }
    assert(t.take(to - from) =~= t);
    if acc <= 127 {
        Some(acc as u8)
    } else {
        None
    }
}

/// The index of the first `c` in `s[from..]`, counted from `from`, or the
/// length of that range when there is none.
pub fn find_char(s: &Vec<char>, from: usize, c: char) -> (r: usize)
    requires
        from <= s@.len(),
    ensures
        r == first_index_of(s@.subrange(from as int, s@.len() as int), c),
        r <= s@.len() - from,
{
    let ghost t = s@.subrange(from as int, s@.len() as int);
    let mut i: usize = from;
    while i < s.len()
        invariant
            from <= i <= s@.len(),
            t == s@.subrange(from as int, s@.len() as int),
            forall|j: int| 0 <= j < i - from ==> t[j] != c,
        decreases s@.len() - i,
    {
        if s[i] == c {
            proof {
                lemma_first_index_of(t, c, i - from);
            }
            return i - from;
        }
        i += 1;
    }
    proof {
        lemma_first_index_of(t, c, i - from);
    }
    i - from
}

/// Whether two strings hold the same characters.
pub fn str_eq(a: &str, b: &str) -> (r: bool)
    ensures
        r == (a@ == b@),
{
    let n = a.unicode_len();
    let m = b.unicode_len();
    if n != m {
        return false;
    }
    let mut i: usize = 0;
    while i < n
        invariant
            n == a@.len(),
            m == b@.len(),
            n == m,
            i <= n,
            forall|j: int| 0 <= j < i ==> a@[j] == b@[j],
        decreases n - i,
    {
        if a.get_char(i) != b.get_char(i) {
            return false;
        }
        i += 1;
    }
    assert(a@ =~= b@);
    true
}

} // verus!
