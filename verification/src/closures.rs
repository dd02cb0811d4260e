//! Closures: a higher-order function constrained to invoke its argument at
//! most once, and a transform mapped over a sequence to produce a new one.

use vstd::prelude::*;

verus! {

/// Invokes a call-once closure and passes its answer through: whatever the
/// closure promises of its result holds of the result returned here.
pub fn apply_function<F: FnOnce() -> i32>(f: F) -> (r: i32)
    requires
        f.requires(()),
    ensures
        f.ensures((), r),
{
    f()
}

/// Maps the transform "add one" over a sequence of numbers, yielding a new
/// sequence of the same length with every entry one larger.
pub fn add_one_each(v: &Vec<i32>) -> (r: Vec<i32>)
    requires
        forall|i: int| 0 <= i < v@.len() ==> v@[i] < i32::MAX,
    ensures
        r@.len() == v@.len(),
        forall|i: int| 0 <= i < v@.len() ==> r@[i] == v@[i] + 1,
{
    let mut r: Vec<i32> = Vec::new();
    let mut idx: usize = 0;
    while idx < v.len()
        invariant
            0 <= idx <= v@.len(),
            r@.len() == idx,
            forall|i: int| 0 <= i < v@.len() ==> v@[i] < i32::MAX,
            forall|i: int| 0 <= i < idx ==> r@[i] == v@[i] + 1,
        decreases v@.len() - idx,
    {
        r.push(v[idx] + 1);
        idx += 1;
    }
    r
}

} // verus!
