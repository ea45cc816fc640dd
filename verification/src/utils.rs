//! Small helpers on vectors.

use vstd::prelude::*;

verus! {

/// Returns a copy of the first element of `vec` for which `callback` answers
/// `true`, or nothing where it answers `false` for every element. The callback
/// is asked about the elements in order, up to the one that is returned.
pub fn find_element<T, F>(vec: &Vec<T>, callback: F) -> (r: Option<T>) where
    T: Clone,
    F: Fn(&T) -> bool,

    requires
        forall|i: int| 0 <= i < vec.len() ==> call_requires(callback, (&#[trigger] vec[i],)),
    ensures
        match r {
            Some(found) => exists|i: int|
                {
                    &&& 0 <= i < vec.len()
                    &&& call_ensures(callback, (&#[trigger] vec[i],), true)
                    &&& cloned(vec[i], found)
                    &&& forall|j: int|
                        0 <= j < i ==> call_ensures(callback, (&#[trigger] vec[j],), false)
                },
            None => forall|i: int|
                0 <= i < vec.len() ==> call_ensures(callback, (&#[trigger] vec[i],), false),
        },
{
    let mut k: usize = 0;
    while k < vec.len()
        invariant
            0 <= k <= vec.len(),
            forall|i: int| 0 <= i < vec.len() ==> call_requires(callback, (&#[trigger] vec[i],)),
            forall|j: int| 0 <= j < k ==> call_ensures(callback, (&#[trigger] vec[j],), false),
        decreases vec.len() - k,
    {
        if callback(&vec[k]) {
            return Some(vec[k].clone());
        }
        k += 1;
    }
    None
}

} // verus!
