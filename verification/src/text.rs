//! Character-level helpers: decimal rendering, trimming and building strings.

use vstd::prelude::*;
use crate::interop::{is_whitespace, string_from_chars, char_is_whitespace};

verus! {

/// The character sequences of a sequence of strings.
pub open spec fn views(v: Seq<String>) -> Seq<Seq<char>> {
    v.map_values(|s: String| s@)
}

/// The character sequence held by an optional string.
pub open spec fn opt_view(o: Option<String>) -> Option<Seq<char>> {
    match o {
        Some(s) => Some(s@),
        None => None,
    }
}

/// A copy of an optional string.
pub fn clone_opt_string(o: &Option<String>) -> (r: Option<String>)
    ensures
        r == *o,
{
    match o {
        Some(s) => Some(s.clone()),
        None => None,
    }
}

/// `prefix` followed by `rest`, as a new string.
pub fn concat_str(prefix: &str, rest: &str) -> (m: String)
    ensures
        m@ == prefix@ + rest@,
{
    let mut m = prefix.to_string();
    m.append(rest);
    m
}

/// The ASCII digit for `d`, which is below ten.
pub open spec fn digit_char(d: nat) -> char {
    (48 + d) as char
}

/// The decimal rendering of `n`, most significant digit first, without leading zeros.
pub open spec fn decimal(n: nat) -> Seq<char>
    decreases n,
{
    if n < 10 {
        seq![digit_char(n)]
    } else {
        decimal(n / 10).push(digit_char(n % 10))
    }
}

fn push_decimal(n: u64, out: &mut Vec<char>)
    ensures
        final(out)@ == old(out)@ + decimal(n as nat),
    decreases n,
{
    if n >= 10 {
        push_decimal(n / 10, out);
    }
    let d: u8 = (n % 10) as u8;
    let c: char = (48u8 + d) as char;
    out.push(c);
    proof {
        assert(c == digit_char((n % 10) as nat));
    }
}

/// Renders `n` in decimal, as `u64`'s `Display` does.
pub fn decimal_string(n: u64) -> (s: String)
    ensures
        s@ == decimal(n as nat),
{
    let mut digits: Vec<char> = Vec::new();
    push_decimal(n, &mut digits);
    assert(digits@ == decimal(n as nat));
    string_from_chars(&digits)
}

/// The characters of `s`, in order.
pub fn chars_of(s: &str) -> (v: Vec<char>)
    ensures
        v@ == s@,
{
    let n = s.unicode_len();
    let mut v: Vec<char> = Vec::new();
    for i in 0..n
        invariant
            n == s@.len(),
            v@ == s@.take(i as int),
    {
        v.push(s.get_char(i));
        assert(v@ == s@.take(i + 1));
    }
    assert(s@.take(n as int) == s@);
    v
}

/// Index of the first character of `s` that is not whitespace, or `s.len()` if none.
pub open spec fn first_non_space(s: Seq<char>) -> nat
    decreases s.len(),
{
    if s.len() == 0 {
        0
    } else if char_is_whitespace(s[0]) {
        1 + first_non_space(s.drop_first())
    } else {
        0
    }
}

/// Length of the prefix of `s` that remains after dropping trailing whitespace.
pub open spec fn last_non_space_end(s: Seq<char>) -> nat
    decreases s.len(),
{
    if s.len() == 0 {
        0
    } else if char_is_whitespace(s.last()) {
        last_non_space_end(s.drop_last())
    } else {
        s.len()
    }
}

/// `s` without leading and trailing whitespace, as `str::trim` gives it.
pub open spec fn trimmed(s: Seq<char>) -> Seq<char> {
    let lo = first_non_space(s);
    let hi = last_non_space_end(s);
    if lo >= hi {
        Seq::empty()
    } else {
        s.subrange(lo as int, hi as int)
    }
}

proof fn lemma_first_non_space_step(s: Seq<char>, i: int)
    requires
        0 <= i < s.len(),
        char_is_whitespace(s[i]),
    ensures
        first_non_space(s.skip(i)) == 1 + first_non_space(s.skip(i + 1)),
{
    assert(s.skip(i).drop_first() =~= s.skip(i + 1));
}

proof fn lemma_last_non_space_step(s: Seq<char>, j: int)
    requires
        0 < j <= s.len(),
        char_is_whitespace(s[j - 1]),
    ensures
        last_non_space_end(s.take(j)) == last_non_space_end(s.take(j - 1)),
{
    assert(s.take(j).drop_last() =~= s.take(j - 1));
}

pub(crate) proof fn lemma_last_non_space_bound(s: Seq<char>)
    ensures
        last_non_space_end(s) <= s.len(),
    decreases s.len(),
{
    if s.len() > 0 {
        lemma_last_non_space_bound(s.drop_last());
    }
}

/// `s` without leading and trailing whitespace.
pub fn trim_chars(s: &Vec<char>) -> (t: Vec<char>)
    ensures
        t@ == trimmed(s@),
{
    let n = s.len();
    let mut lo: usize = 0;
    assert(s@.skip(0) =~= s@);
    while lo < n && is_whitespace(s[lo])
        invariant
            lo <= n,
            n == s@.len(),
            first_non_space(s@) == lo + first_non_space(s@.skip(lo as int)),
        decreases n - lo,
    {
        proof {
            lemma_first_non_space_step(s@, lo as int);
        }
        lo = lo + 1;
    }
    assert(first_non_space(s@) == lo) by {
        if lo < n {
            assert(s@.skip(lo as int)[0] == s@[lo as int]);
        } else {
            assert(s@.skip(lo as int).len() == 0);
        }
    }
    let mut hi: usize = n;
    assert(s@.take(n as int) =~= s@);
    while hi > lo && is_whitespace(s[hi - 1])
        invariant
            lo <= hi <= n,
            n == s@.len(),
            first_non_space(s@) == lo,
            lo < n ==> !char_is_whitespace(s@[lo as int]),
            lo < n ==> lo < hi,
            last_non_space_end(s@) == last_non_space_end(s@.take(hi as int)),
        decreases hi,
    {
        proof {
            lemma_last_non_space_step(s@, hi as int);
        }
        hi = hi - 1;
    }
    let mut t: Vec<char> = Vec::new();
    if lo < hi {
        assert(last_non_space_end(s@) == hi) by {
            assert(s@.take(hi as int).last() == s@[hi - 1]);
        }
        let mut k: usize = lo;
        while k < hi
            invariant
                lo <= k <= hi <= n,
                n == s@.len(),
                t@ == s@.subrange(lo as int, k as int),
            decreases hi - k,
        {
            t.push(s[k]);
            assert(t@ =~= s@.subrange(lo as int, k + 1));
            k = k + 1;
        }
    } else {
        proof {
            lemma_last_non_space_bound(s@.take(hi as int));
        }
        assert(t@ =~= Seq::<char>::empty());
    }
    t
}

} // verus!
