//! Finding the first occurrence of an item in a sequence.

use vstd::prelude::*;

verus! {

/// The index of the first item of `s` that equals `x`, if there is one.
pub open spec fn position<T>(s: Seq<T>, x: T) -> Option<int>
    decreases s.len(),
{
    if s.len() == 0 {
        None
    } else {
        match position(s.drop_last(), x) {
            Some(i) => Some(i),
            None => if s.last() == x {
                Some(s.len() - 1)
            } else {
                None
            },
        }
    }
}

/// Whether `i` is the first index of `s` that holds `x`.
pub open spec fn is_first<T>(s: Seq<T>, x: T, i: int) -> bool {
    &&& 0 <= i < s.len()
    &&& s[i] == x
    &&& forall|j: int| 0 <= j < i ==> s[j] != x
}

/// Whether no item of `s` equals `x`.
pub open spec fn absent<T>(s: Seq<T>, x: T) -> bool {
    forall|j: int| 0 <= j < s.len() ==> s[j] != x
}

/// Whether no two items of `s` are equal.
pub open spec fn distinct<T>(s: Seq<T>) -> bool {
    forall|i: int, j: int| 0 <= i < j < s.len() ==> s[i] != s[j]
}

/// `position` finds the first occurrence, and finds none only where there
/// is none.
pub proof fn position_is_first<T>(s: Seq<T>, x: T)
    ensures
        match position(s, x) {
            Some(i) => is_first(s, x, i),
            None => absent(s, x),
        },
    decreases s.len(),
{
    if s.len() > 0 {
        let front = s.drop_last();
        position_is_first(front, x);
        assert(forall|j: int| 0 <= j < front.len() ==> front[j] == s[j]);
    }
}

/// The first occurrence is the one that `position` finds.
pub proof fn first_is_position<T>(s: Seq<T>, x: T, i: int)
    requires
        is_first(s, x, i),
    ensures
        position(s, x) == Some(i),
{
    position_is_first(s, x);
}

/// Scanning from the front: where `x` is absent from the first `i` items
/// and the next item differs from it, `x` is absent from the first `i + 1`.
pub proof fn scan_passes<T>(s: Seq<T>, x: T, i: int)
    requires
        0 <= i < s.len(),
        position(s.take(i), x) is None,
        s[i] != x,
    ensures
        position(s.take(i + 1), x) is None,
{
    assert(s.take(i + 1).drop_last() =~= s.take(i));
}

/// Scanning from the front: where `x` is absent from the first `i` items
/// and the next item equals it, `i` is the position of `x`.
pub proof fn scan_finds<T>(s: Seq<T>, x: T, i: int)
    requires
        0 <= i < s.len(),
        position(s.take(i), x) is None,
        s[i] == x,
    ensures
        position(s, x) == Some(i),
{
    position_is_first(s.take(i), x);
    assert(forall|j: int| 0 <= j < i ==> s[j] == s.take(i)[j]);
    first_is_position(s, x, i);
}

/// Scanning from the front: where `x` is absent from all the items, it has
/// no position.
pub proof fn scan_ends<T>(s: Seq<T>, x: T)
    requires
        position(s.take(s.len() as int), x) is None,
    ensures
        position(s, x) is None,
{
    assert(s.take(s.len() as int) =~= s);
}

/// In a sequence without repetitions, every item stands at its position.
pub proof fn position_of_distinct<T>(s: Seq<T>, i: int)
    requires
        distinct(s),
        0 <= i < s.len(),
    ensures
        position(s, s[i]) == Some(i),
{
    position_is_first(s, s[i]);
}

} // verus!
