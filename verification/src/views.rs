//! Sequence-of-views helpers: the mathematical value of a vector of library
//! values is the sequence of their views, and every contract in this crate
//! states itself over such sequences.

use vstd::prelude::*;

verus! {

/// The views of a sequence's elements, in order.
pub open spec fn views_of<A: View>(s: Seq<A>) -> Seq<A::V> {
    Seq::new(s.len(), |i: int| s[i]@)
}

pub broadcast proof fn views_of_len<A: View>(s: Seq<A>)
    ensures
        #[trigger] views_of(s).len() == s.len(),
{
}

pub broadcast proof fn views_of_index<A: View>(s: Seq<A>, i: int)
    requires
        0 <= i < s.len(),
    ensures
        #[trigger] views_of(s)[i] == s[i]@,
{
}

pub broadcast proof fn views_of_push<A: View>(s: Seq<A>, x: A)
    ensures
        #[trigger] views_of(s.push(x)) == views_of(s).push(x@),
{
    assert(views_of(s.push(x)) =~= views_of(s).push(x@));
}

pub broadcast proof fn views_of_concat<A: View>(s: Seq<A>, t: Seq<A>)
    ensures
        #[trigger] views_of(s + t) == views_of(s) + views_of(t),
{
    assert(views_of(s + t) =~= views_of(s) + views_of(t));
}

pub broadcast group group_views {
    views_of_len,
    views_of_index,
    views_of_push,
    views_of_concat,
}

} // verus!
