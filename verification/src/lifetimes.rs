//! Borrowed references whose validity windows are declared as part of the
//! signature: the longer of two string slices, an excerpt holding a borrowed
//! fragment, and the extraction of the fragment it holds.

use vstd::prelude::*;
use vstd::string::StringSliceAdditionalSpecFns;
use vstd::string::StrSliceExecFns;

verus! {

/// The longer of two string slices, measured in bytes of their UTF-8
/// encodings; on a tie, the second one. The result borrows from the
/// shorter-lived of the inputs.
pub fn longest<'a>(x: &'a str, y: &'a str) -> (r: &'a str)
    ensures
        x.spec_bytes().len() > y.spec_bytes().len() ==> r@ == x@,
        x.spec_bytes().len() <= y.spec_bytes().len() ==> r@ == y@,
{
    if x.as_bytes().len() > y.as_bytes().len() {
        x
    } else {
        y
    }
}

/// The number of characters before the first period of a text, or the
/// whole length when none occurs.
pub open spec fn first_period(s: Seq<char>) -> int
    decreases s.len(),
{
    if s.len() == 0 {
        0
    } else if s[0] == '.' {
        0
    } else {
        1 + first_period(s.drop_first())
    }
}

/// The first sentence of a text: everything before the first period, or
/// the whole text when it has none.
pub fn first_sentence<'a>(s: &'a str) -> (r: &'a str)
    ensures
        r@ == s@.subrange(0, first_period(s@)),
{
    let len = s.unicode_len();
    let mut i: usize = 0;
    while i < len && s.get_char(i) != '.'
        invariant
            len == s@.len(),
            0 <= i <= len,
            forall|k: int| 0 <= k < i ==> s@[k] != '.',
        decreases len - i,
    {
        i += 1;
    }
    proof {
        lemma_first_period_at(s@, i as int);
    }
    s.substring_char(0, i)
}

/// If no period occurs before position `i`, and either `i` is the length or
/// a period stands at `i`, then `i` is where the first period is counted.
proof fn lemma_first_period_at(s: Seq<char>, i: int)
    requires
        0 <= i <= s.len(),
        forall|k: int| 0 <= k < i ==> s[k] != '.',
        i < s.len() ==> s[i] == '.',
    ensures
        first_period(s) == i,
    decreases i,
{
    if s.len() == 0 {
    } else if i == 0 {
    } else {
        lemma_first_period_at(s.drop_first(), i - 1);
    }
}

/// An excerpt that holds a borrowed fragment of a longer text; the
/// fragment's validity window is declared as part of the type.
pub struct ImportantExcerpt<'a> {
    pub part: &'a str,
}

impl<'a> ImportantExcerpt<'a> {
    /// The fixed level of any excerpt.
    pub fn level(&self) -> (r: i32)
        ensures
            r == 3,
    {
        3
    }

    /// Hands the borrowed fragment back out; the caller's narration around
    /// it does not change what is returned.
    pub fn announce_and_return_part(&self) -> (r: &str)
        ensures
            r@ == self.part@,
    {
        self.part
    }
}

} // verus!
