//! The sequence-building convenience written as an ordinary function: given
//! the arguments as a slice, it yields a fresh sequence holding exactly
//! those values in argument order — the longhand a repeated-argument macro
//! would expand to.

use vstd::prelude::*;

verus! {

/// Builds a fresh sequence from the given arguments: zero arguments yield
/// the empty sequence, and N arguments yield exactly those N values in
/// argument order.
pub fn build_sequence<T: Copy>(args: &[T]) -> (r: Vec<T>)
    ensures
        r@ == args@,
{
    let mut temp_vec: Vec<T> = Vec::new();
    let mut idx: usize = 0;
    while idx < args.len()
        invariant
            0 <= idx <= args@.len(),
            temp_vec@ == args@.take(idx as int),
        decreases args@.len() - idx,
    {
        temp_vec.push(args[idx]);
        proof {
            assert(temp_vec@ =~= args@.take(idx as int + 1));
        }
        idx += 1;
    }
    proof {
        assert(temp_vec@ =~= args@);
    }
    temp_vec
}

} // verus!
