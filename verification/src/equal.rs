//! Equality of vectors, element by element.

use vstd::prelude::*;
use vstd::std_specs::cmp::PartialEqSpec;

verus! {

/// Whether two sequences are equally long and equal element by element.
pub open spec fn equal_elements<T: PartialEq>(first: Seq<T>, second: Seq<T>) -> bool {
    &&& first.len() == second.len()
    &&& forall|i: int| 0 <= i < first.len() ==> (#[trigger] first[i]).eq_spec(&second[i])
}

/// Whether two vectors are equally long and equal element by element.
pub(crate) fn same_elements<T: PartialEq>(first: &Vec<T>, second: &Vec<T>) -> (same: bool)
    requires
        T::obeys_eq_spec(),
    ensures
        same == equal_elements(first@, second@),
{
    if first.len() != second.len() {
        return false;
    }
    let mut at: usize = 0;
    while at < first.len()
        invariant
            at <= first@.len(),
            first@.len() == second@.len(),
            T::obeys_eq_spec(),
            forall|i: int| 0 <= i < at ==> (#[trigger] first@[i]).eq_spec(&second@[i]),
        decreases first@.len() - at,
    {
        if !first[at].eq(&second[at]) {
            return false;
        }
        at += 1;
    }
    true
}

} // verus!
