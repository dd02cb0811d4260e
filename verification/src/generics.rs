//! Generic code: a maximum routine over any copyable, totally-ordered
//! element type, a character instance of the same routine, and aggregate
//! types parameterized over one or two abstract element types.

use vstd::prelude::*;
use vstd::std_specs::cmp::PartialOrdSpec;
use core::cmp::Ordering;

verus! {

/// `a` compares less than or equal to `b` under the type's own ordering.
pub open spec fn elem_le<T: PartialOrd>(a: T, b: T) -> bool {
    a.partial_cmp_spec(&b) matches Some(Ordering::Less | Ordering::Equal)
}

/// `a` compares strictly greater than `b` under the type's own ordering.
pub open spec fn elem_gt<T: PartialOrd>(a: T, b: T) -> bool {
    a.partial_cmp_spec(&b) == Some(Ordering::Greater)
}

/// The type's ordering restricts to a total order on the elements of `s`:
/// every pair of elements is comparable, strictly-greater implies
/// less-or-equal the other way around, and less-or-equal is transitive.
pub open spec fn totally_ordered<T: PartialOrd>(s: Seq<T>) -> bool {
    &&& forall|i: int, j: int|
        0 <= i < s.len() && 0 <= j < s.len() ==> (#[trigger] s[i].partial_cmp_spec(&s[j])) is Some
    &&& forall|i: int, j: int|
        0 <= i < s.len() && 0 <= j < s.len() && #[trigger] elem_gt(s[i], s[j]) ==> elem_le(
            s[j],
            s[i],
        )
    &&& forall|i: int, j: int, k: int|
        #![trigger elem_le(s[i], s[j]), elem_le(s[j], s[k])]
        0 <= i < s.len() && 0 <= j < s.len() && 0 <= k < s.len() && elem_le(s[i], s[j]) && elem_le(
            s[j],
            s[k],
        ) ==> elem_le(s[i], s[k])
}

/// Under a total order, every element compares less than or equal to itself.
proof fn lemma_elem_le_reflexive<T: PartialOrd>(s: Seq<T>, i: int)
    requires
        totally_ordered(s),
        0 <= i < s.len(),
    ensures
        elem_le(s[i], s[i]),
{
    if s[i].partial_cmp_spec(&s[i]) == Some(Ordering::Greater) {
        assert(elem_gt(s[i], s[i]));
    }
}

/// The maximum of a non-empty slice of a copyable, totally-ordered element
/// type: the result is one of the elements, and no element exceeds it.
pub fn largest<T: PartialOrd + Copy>(list: &[T]) -> (max: T)
    requires
        list@.len() >= 1,
        T::obeys_partial_cmp_spec(),
        totally_ordered(list@),
    ensures
        exists|i: int| 0 <= i < list@.len() && max == list@[i],
        forall|i: int| 0 <= i < list@.len() ==> elem_le(#[trigger] list@[i], max),
{
    let mut max = list[0];
    proof {
        lemma_elem_le_reflexive(list@, 0);
    }
    let mut idx: usize = 1;
    while idx < list.len()
        invariant
            1 <= idx <= list@.len(),
            T::obeys_partial_cmp_spec(),
            totally_ordered(list@),
            exists|j: int| 0 <= j < idx && max == list@[j],
            forall|j: int| 0 <= j < idx ==> elem_le(#[trigger] list@[j], max),
        decreases list@.len() - idx,
    {
        let item = list[idx];
        if item > max {
            proof {
                lemma_elem_le_reflexive(list@, idx as int);
                let j = choose|j: int| 0 <= j < idx && max == list@[j];
                assert(elem_gt(list@[idx as int], list@[j]));
                assert(elem_le(list@[j], list@[idx as int]));
            }
            max = item;
        } else {
            proof {
                let j = choose|j: int| 0 <= j < idx && max == list@[j];
                assert(list@[idx as int].partial_cmp_spec(&list@[j]) is Some);
            }
        }
        idx += 1;
    }
    max
}

/// The maximum of a non-empty slice of characters, ordered by their scalar
/// values: the result is one of the elements, and no element exceeds it.
pub fn largest_char(list: &[char]) -> (max: char)
    requires
        list@.len() >= 1,
    ensures
        exists|i: int| 0 <= i < list@.len() && max == list@[i],
        forall|i: int| 0 <= i < list@.len() ==> #[trigger] list@[i] as u32 <= max as u32,
{
    let mut max = list[0];
    let mut idx: usize = 1;
    while idx < list.len()
        invariant
            1 <= idx <= list@.len(),
            exists|j: int| 0 <= j < idx && max == list@[j],
            forall|j: int| 0 <= j < idx ==> #[trigger] list@[j] as u32 <= max as u32,
        decreases list@.len() - idx,
    {
        let item = list[idx];
        if item as u32 > max as u32 {
            max = item;
        }
        idx += 1;
    }
    max
}

/// A point whose two coordinates share one abstract element type.
pub struct Point<T> {
    pub x: T,
    pub y: T,
}

impl<T> Point<T> {
    /// A borrow of the first coordinate.
    pub fn x(&self) -> (r: &T)
        ensures
            *r == self.x,
    {
        &self.x
    }
}

/// A point whose two coordinates may have different abstract element types.
pub struct PointMix<T, U> {
    pub x: T,
    pub y: U,
}

impl<T, U> PointMix<T, U> {
    /// Pairs an abscissa of one type with an ordinate of another.
    pub fn new(x: T, y: U) -> (p: PointMix<T, U>)
        ensures
            p.x == x,
            p.y == y,
    {
        PointMix { x, y }
    }
}

} // verus!
