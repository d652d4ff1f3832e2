//! Sets of names: what a module exports, which modules it depends on, which
//! variables a scope declares.

use crate::order::{in_order, ordered, sort};
use crate::text::contents;
use im::HashSet;
use vstd::prelude::*;

verus! {

/// `im::HashSet`. Nothing is known of a set but what the functions below say
/// of its members.
#[verifier::external_type_specification]
#[verifier::external_body]
#[verifier::reject_recursive_types(A)]
#[verifier::reject_recursive_types(S)]
pub struct ExHashSet<A, S>(HashSet<A, S>);

/// The names that a set holds.
pub uninterp spec fn members(set: HashSet<String>) -> Set<Seq<char>>;

/// `im::HashSet::new`: a set that holds nothing.
#[verifier::external_body]
pub(crate) fn empty() -> (set: HashSet<String>)
    ensures
        members(set) == Set::<Seq<char>>::empty(),
{
    HashSet::new()
}

/// `im::HashSet::insert`: the set holds the name afterwards, and what it
/// held before.
#[verifier::external_body]
pub(crate) fn insert(set: &mut HashSet<String>, name: String)
    ensures
        members(*final(set)) == members(*old(set)).insert(name@),
{
    let _ = set.insert(name);
}

/// `im::HashSet::iter`: each name of the set once. The order is the
/// hasher's, and nothing is said of it.
#[verifier::external_body]
pub(crate) fn listed(set: &HashSet<String>) -> (names: Vec<String>)
    ensures
        contents(names@).no_duplicates(),
        contents(names@).to_set() == members(*set),
{
    set.iter().cloned().collect()
}

/// The names of a set in the order in which they are written.
pub fn in_order_of(set: &HashSet<String>) -> (names: Vec<String>)
    ensures
        contents(names@) == ordered(members(*set)),
        in_order(contents(names@)),
        contents(names@).to_set() == members(*set),
{
    sort(listed(set))
}

} // verus!
