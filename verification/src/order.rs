//! The order in which names are written: that of a dictionary, character by
//! character. A set of names has one listing in that order, so a text that
//! lists a set in it is fixed by the set.

use crate::text::contents;
use vstd::prelude::*;

verus! {

/// `a` stands before `b` in a dictionary, or is `b`.
pub open spec fn before(a: Seq<char>, b: Seq<char>) -> bool
    decreases a.len(),
{
    if a.len() == 0 {
        true
    } else if b.len() == 0 {
        false
    } else if a[0] != b[0] {
        a[0] < b[0]
    } else {
        before(a.skip(1), b.skip(1))
    }
}

/// Each name stands before those behind it, and is none of them.
pub open spec fn in_order(names: Seq<Seq<char>>) -> bool {
    forall|i: int, j: int|
        0 <= i < j < names.len() ==> before(#[trigger] names[i], #[trigger] names[j])
            && names[i] != names[j]
}

/// The names of a set, listed in order.
pub open spec fn ordered(names: Set<Seq<char>>) -> Seq<Seq<char>> {
    choose|listing: Seq<Seq<char>>| in_order(listing) && listing.to_set() == names
}

/// Two names that stand before each other are one name.
pub proof fn before_both_ways(a: Seq<char>, b: Seq<char>)
    requires
        before(a, b),
        before(b, a),
    ensures
        a == b,
    decreases a.len(),
{
    if a.len() == 0 || b.len() == 0 {
        assert(a =~= b);
    } else {
        before_both_ways(a.skip(1), b.skip(1));
        assert(a =~= seq![a[0]] + a.skip(1));
        assert(b =~= seq![b[0]] + b.skip(1));
    }
}

/// Of two names one stands before the other.
pub proof fn before_one_way(a: Seq<char>, b: Seq<char>)
    ensures
        before(a, b) || before(b, a),
    decreases a.len(),
{
    if a.len() != 0 && b.len() != 0 && a[0] == b[0] {
        before_one_way(a.skip(1), b.skip(1));
    }
}

/// What stands before a name stands before all that the name stands before.
pub proof fn before_on(a: Seq<char>, b: Seq<char>, c: Seq<char>)
    requires
        before(a, b),
        before(b, c),
    ensures
        before(a, c),
    decreases a.len(),
{
    if a.len() != 0 && b.len() != 0 && c.len() != 0 && a[0] == b[0] && b[0] == c[0] {
        before_on(a.skip(1), b.skip(1), c.skip(1));
    }
}

/// Two listings in order of the same names are one listing.
pub proof fn one_listing(x: Seq<Seq<char>>, y: Seq<Seq<char>>)
    requires
        in_order(x),
        in_order(y),
        x.to_set() == y.to_set(),
    ensures
        x == y,
    decreases x.len(),
{
    if x.len() == 0 {
        if y.len() > 0 {
            assert(y.to_set().contains(y[0]));
            assert(x.contains(y[0]));
        }
        assert(x =~= y);
    } else if y.len() == 0 {
        assert(x.to_set().contains(x[0]));
        assert(y.contains(x[0]));
    } else {
        assert(x.to_set().contains(x[0]));
        assert(y.contains(x[0]));
        let j = choose|j: int| 0 <= j < y.len() && y[j] == x[0];
        assert(y.to_set().contains(y[0]));
        assert(x.contains(y[0]));
        let i = choose|i: int| 0 <= i < x.len() && x[i] == y[0];
        if i > 0 {
            assert(before(x[0], x[i]) && x[0] != x[i]);
            if j > 0 {
                assert(before(y[0], y[j]));
            } else {
                assert(before(y[0], y[j])) by {
                    before_one_way(y[0], y[0]);
                }
            }
            before_both_ways(x[0], y[0]);
        }
        assert(x[0] == y[0]);
        let p = x.skip(1);
        let q = y.skip(1);
        assert forall|a: int, b: int| 0 <= a < b < p.len() implies before(
            #[trigger] p[a],
            #[trigger] p[b],
        ) && p[a] != p[b] by {
            assert(p[a] == x[a + 1] && p[b] == x[b + 1]);
        }
        assert forall|a: int, b: int| 0 <= a < b < q.len() implies before(
            #[trigger] q[a],
            #[trigger] q[b],
        ) && q[a] != q[b] by {
            assert(q[a] == y[a + 1] && q[b] == y[b + 1]);
        }
        assert forall|name: Seq<char>| p.to_set().contains(name) == q.to_set().contains(
            name,
        ) by {
            if p.contains(name) {
                let k = choose|k: int| 0 <= k < p.len() && p[k] == name;
                assert(x[k + 1] == name);
                assert(x.to_set().contains(name));
                assert(y.contains(name));
                let m = choose|m: int| 0 <= m < y.len() && y[m] == name;
                assert(before(x[0], x[k + 1]) && x[0] != x[k + 1]);
                assert(q[m - 1] == name);
            }
            if q.contains(name) {
                let k = choose|k: int| 0 <= k < q.len() && q[k] == name;
                assert(y[k + 1] == name);
                assert(y.to_set().contains(name));
                assert(x.contains(name));
                let m = choose|m: int| 0 <= m < x.len() && x[m] == name;
                assert(before(y[0], y[k + 1]) && y[0] != y[k + 1]);
                assert(p[m - 1] == name);
            }
        }
        assert(p.to_set() =~= q.to_set());
        one_listing(p, q);
        assert(x =~= seq![x[0]] + p);
        assert(y =~= seq![y[0]] + q);
    }
}

/// A listing in order is the listing in order of its names.
pub proof fn ordered_is(listing: Seq<Seq<char>>)
    requires
        in_order(listing),
    ensures
        ordered(listing.to_set()) == listing,
{
    let chosen = ordered(listing.to_set());
    assert(in_order(listing) && listing.to_set() == listing.to_set());
    one_listing(chosen, listing);
}

/// Whether `a` stands before `b` in a dictionary, or is `b`.
pub fn precedes(a: &String, b: &String) -> (r: bool)
    ensures
        r == before(a@, b@),
{
    let n: usize = a.as_str().unicode_len();
    let m: usize = b.as_str().unicode_len();
    let mut i: usize = 0;
    assert(a@.skip(0) =~= a@ && b@.skip(0) =~= b@);
    while i < n && i < m
        invariant
            n == a@.len(),
            m == b@.len(),
            i <= n,
            i <= m,
            before(a@, b@) == before(a@.skip(i as int), b@.skip(i as int)),
        decreases n - i,
    {
        let x = a.as_str().get_char(i);
        let y = b.as_str().get_char(i);
        assert(a@.skip(i as int)[0] == x && b@.skip(i as int)[0] == y);
        if x != y {
            return x < y;
        }
        assert(a@.skip(i as int).skip(1) =~= a@.skip(i + 1));
        assert(b@.skip(i as int).skip(1) =~= b@.skip(i + 1));
        i += 1;
    }
    i == n
}

/// The names in order. None of them may occur twice.
pub fn sort(names: Vec<String>) -> (r: Vec<String>)
    requires
        contents(names@).no_duplicates(),
    ensures
        contents(r@) == ordered(contents(names@).to_set()),
        in_order(contents(r@)),
        contents(r@).to_set() == contents(names@).to_set(),
{
    let ghost given = contents(names@);
    let mut out: Vec<String> = Vec::new();
    let mut i: usize = 0;
    for name in iter: names.into_iter()
        invariant
            i == iter.index(),
            contents(iter.seq()) == given,
            given.no_duplicates(),
            in_order(contents(out@)),
            contents(out@).to_set() == given.take(i as int).to_set(),
            out.len() == i,
            given.len() == names.len(),
    {
        assert(name@ == given[i as int]);
        assert(i < names.len());
        let ghost sorted = contents(out@);
        let mut at: usize = 0;
        while at < out.len() && precedes(&out[at], &name)
            invariant
                at <= out.len(),
                sorted == contents(out@),
                forall|k: int| 0 <= k < at ==> before(#[trigger] sorted[k], name@),
            decreases out.len() - at,
        {
            at += 1;
        }
        out.insert(at, name);
        proof {
            let grown = contents(out@);
            assert(grown =~= sorted.insert(at as int, given[i as int]));
            assert(!sorted.contains(given[i as int])) by {
                if sorted.contains(given[i as int]) {
                    assert(sorted.to_set().contains(given[i as int]));
                    assert(given.take(i as int).contains(given[i as int]));
                }
            }
            assert forall|a: int, b: int| 0 <= a < b < grown.len() implies before(
                #[trigger] grown[a],
                #[trigger] grown[b],
            ) && grown[a] != grown[b] by {
                if b == at {
                    assert(grown[a] == sorted[a]);
                    assert(sorted.contains(sorted[a]));
                } else if a == at {
                    assert(grown[b] == sorted[b - 1]);
                    assert(sorted.contains(sorted[b - 1]));
                    before_one_way(sorted[at as int], given[i as int]);
                    if b - 1 > at {
                        assert(before(sorted[at as int], sorted[b - 1]));
                        before_on(given[i as int], sorted[at as int], sorted[b - 1]);
                    }
                } else {
                    let p = if a < at { a } else { a - 1 };
                    let q = if b < at { b } else { b - 1 };
                    assert(grown[a] == sorted[p] && grown[b] == sorted[q]);
                }
            }
            let fewer = given.take(i as int);
            let more = given.take(i as int + 1);
            assert(grown.to_set() =~= more.to_set()) by {
                assert forall|name: Seq<char>| grown.contains(name) == more.contains(name) by {
                    if grown.contains(name) {
                        let k = choose|k: int| 0 <= k < grown.len() && grown[k] == name;
                        if k == at {
                            assert(more[i as int] == name);
                        } else {
                            let p = if k < at { k } else { k - 1 };
                            assert(sorted[p] == name);
                            assert(sorted.to_set().contains(name));
                            assert(fewer.contains(name));
                            let m = choose|m: int| 0 <= m < fewer.len() && fewer[m] == name;
                            assert(more[m] == name);
                        }
                    }
                    if more.contains(name) {
                        let m = choose|m: int| 0 <= m < more.len() && more[m] == name;
                        if m == i {
                            assert(grown[at as int] == name);
                        } else {
                            assert(fewer[m] == name);
                            assert(fewer.to_set().contains(name));
                            assert(sorted.contains(name));
                            let k = choose|k: int| 0 <= k < sorted.len() && sorted[k] == name;
                            let p = if k < at { k } else { k + 1 };
                            assert(grown[p] == name);
                        }
                    }
                }
            }
        }
        i += 1;
    }
    proof {
        assert(given.take(given.len() as int) =~= given);
        ordered_is(contents(out@));
    }
    out
}

} // verus!
