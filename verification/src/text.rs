//! Building text: joining parts, decimal numerals, integer literals.

use itertools::Itertools;
use vstd::prelude::*;

verus! {

/// The parts in order, with `sep` between each two neighbours.
pub open spec fn joined(parts: Seq<Seq<char>>, sep: Seq<char>) -> Seq<char>
    decreases parts.len(),
{
    if parts.len() == 0 {
        Seq::empty()
    } else if parts.len() == 1 {
        parts[0]
    } else {
        joined(parts.drop_last(), sep) + sep + parts.last()
    }
}

/// What each string of a sequence holds.
pub open spec fn contents(parts: Seq<String>) -> Seq<Seq<char>> {
    parts.map_values(|part: String| part@)
}

/// The numeral of one decimal digit.
pub open spec fn digit(d: nat) -> Seq<char> {
    if d == 0 {
        "0"@
    } else if d == 1 {
        "1"@
    } else if d == 2 {
        "2"@
    } else if d == 3 {
        "3"@
    } else if d == 4 {
        "4"@
    } else if d == 5 {
        "5"@
    } else if d == 6 {
        "6"@
    } else if d == 7 {
        "7"@
    } else if d == 8 {
        "8"@
    } else {
        "9"@
    }
}

/// The decimal numeral of `n`, without leading zeros.
pub open spec fn decimal(n: nat) -> Seq<char>
    decreases n,
{
    if n < 10 {
        digit(n)
    } else {
        decimal(n / 10) + digit(n % 10)
    }
}

/// An integer literal as the target reads it: the digits without the
/// underscores that may group them.
pub open spec fn ungrouped(literal: Seq<char>) -> Seq<char> {
    literal.filter(|c: char| c != '_')
}

/// `itertools::Itertools::join` on the strings of a vector: each element
/// as it is, with `sep` between each two. The separator is at most one
/// character long, so that the capacity the outside function reserves (the
/// separator's length times the number of elements) cannot overflow.
#[verifier::external_body]
pub(crate) fn join(parts: &Vec<String>, sep: &str) -> (r: String)
    requires
        sep@.len() <= 1,
    ensures
        r@ == joined(contents(parts@), sep@),
{
    parts.iter().join(sep)
}

/// `String::push`: one character more at the end.
#[verifier::external_body]
pub(crate) fn push(text: &mut String, c: char)
    ensures
        final(text)@ == old(text)@.push(c),
{
    text.push(c)
}

/// The parts with one space between each two.
pub fn spaced(parts: &Vec<String>) -> (r: String)
    ensures
        r@ == joined(contents(parts@), " "@),
{
    proof {
        reveal_strlit(" ");
    }
    join(parts, " ")
}

fn digit_text(d: u64) -> (r: &'static str)
    requires
        d < 10,
    ensures
        r@ == digit(d as nat),
{
    if d == 0 {
        "0"
    } else if d == 1 {
        "1"
    } else if d == 2 {
        "2"
    } else if d == 3 {
        "3"
    } else if d == 4 {
        "4"
    } else if d == 5 {
        "5"
    } else if d == 6 {
        "6"
    } else if d == 7 {
        "7"
    } else if d == 8 {
        "8"
    } else {
        "9"
    }
}

/// The decimal numeral of `n`.
pub fn numeral(n: u64) -> (r: String)
    ensures
        r@ == decimal(n as nat),
    decreases n,
{
    if n < 10 {
        String::from_str(digit_text(n))
    } else {
        let mut out = numeral(n / 10);
        out.append(digit_text(n % 10));
        out
    }
}

/// Remove the underscores from an integer literal.
pub fn integer(value: &str) -> (r: String)
    ensures
        r@ == ungrouped(value@),
{
    let mut out = String::new();
    proof {
        reveal(Seq::filter);
    }
    let n: usize = value.unicode_len();
    let mut i: usize = 0;
    while i < n
        invariant
            n == value@.len(),
            i <= n,
            out@ == ungrouped(value@.take(i as int)),
        decreases n - i,
    {
        let c = value.get_char(i);
        proof {
            let before = value@.take(i as int);
            let after = value@.take(i + 1);
            assert(after.drop_last() == before);
            assert(after.last() == c);
            reveal(Seq::filter);
            assert(ungrouped(after) == if c != '_' {
                ungrouped(before).push(c)
            } else {
                ungrouped(before)
            });
        }
        if c != '_' {
            push(&mut out, c);
        }
        i += 1;
    }
    assert(value@.take(n as int) == value@);
    out
}

} // verus!
