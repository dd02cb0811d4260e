//! Control flow as expressions: a conditional that yields a value, an
//! unconditional loop that exits with a value, and a condition-tested
//! countdown that yields the narrated values in order.

use vstd::prelude::*;

verus! {

/// A conditional used as an expression: both branches yield the same type,
/// five on the true branch and six on the false one.
pub fn if_branch_value(condition: bool) -> (number: u32)
    ensures
        condition ==> number == 5,
        !condition ==> number == 6,
{
    if condition {
        5
    } else {
        6
    }
}

/// An unconditional loop that counts up and exits with a value: once the
/// counter reaches `stop`, the loop breaks with twice the counter.
pub fn count_then_double(stop: u32) -> (result: u32)
    requires
        1 <= stop,
        2 * stop <= u32::MAX,
    ensures
        result == 2 * stop,
{
    let mut counter: u32 = 0;
    let mut result: u32 = 0;
    loop
        invariant_except_break
            counter < stop,
        invariant
            2 * stop <= u32::MAX,
        ensures
            result == 2 * stop,
        decreases stop - counter,
    {
        counter += 1;
        if counter == stop {
            result = counter * 2;
            break;
        }
    }
    result
}

/// A condition-tested countdown: the values a while loop narrates from
/// `start` down to one, in order.
pub fn countdown_values(start: u32) -> (values: Vec<u32>)
    ensures
        values@.len() == start,
        forall|i: int| 0 <= i < start ==> values@[i] == start - i,
{
    let mut number: u32 = start;
    let mut values: Vec<u32> = Vec::new();
    while number != 0
        invariant
            number <= start,
            values@.len() == start - number,
            forall|i: int| 0 <= i < values@.len() ==> values@[i] == start - i,
        decreases number,
    {
        values.push(number);
        number -= 1;
    }
    values
}

} // verus!
