//! Lists by the views of their elements, and the first element that meets a condition.
use vstd::prelude::*;

verus! {

/// The views of the elements of a list.
pub open spec fn views<T: View>(items: Seq<T>) -> Seq<T::V> {
    items.map_values(|item: T| item@)
}

/// The element at `i` meets `pred`, and none before it does.
pub open spec fn is_first<T>(s: Seq<T>, pred: spec_fn(T) -> bool, i: int) -> bool {
    &&& 0 <= i < s.len()
    &&& pred(s[i])
    &&& forall|j: int| 0 <= j < i ==> !pred(#[trigger] s[j])
}

/// The position of the first element that meets `pred`, if any does.
pub open spec fn find_first<T>(s: Seq<T>, pred: spec_fn(T) -> bool) -> Option<int> {
    if exists|i: int| is_first(s, pred, i) {
        Some(choose|i: int| is_first(s, pred, i))
    } else {
        None
    }
}

/// A position is the first that meets `pred` exactly when the search gives it, and
/// the search gives none exactly when no element meets `pred`.
pub proof fn find_first_characterised<T>(s: Seq<T>, pred: spec_fn(T) -> bool)
    ensures
        forall|i: int| is_first(s, pred, i) <==> find_first(s, pred) == Some(i),
        find_first(s, pred) is None <==> forall|i: int| 0 <= i < s.len() ==> !pred(#[trigger] s[i]),
{
    assert forall|i: int, j: int| is_first(s, pred, i) && is_first(s, pred, j) implies i == j by {}
    if exists|i: int| 0 <= i < s.len() && pred(#[trigger] s[i]) {
        let i = choose|i: int| 0 <= i < s.len() && pred(#[trigger] s[i]);
        lemma_first_exists(s, pred, i);
    }
}

/// Where an element meets `pred`, there is a first that does.
proof fn lemma_first_exists<T>(s: Seq<T>, pred: spec_fn(T) -> bool, i: int)
    requires
        0 <= i < s.len(),
        pred(s[i]),
    ensures
        exists|k: int| is_first(s, pred, k),
    decreases i,
{
    if exists|j: int| 0 <= j < i && pred(#[trigger] s[j]) {
        let j = choose|j: int| 0 <= j < i && pred(#[trigger] s[j]);
        lemma_first_exists(s, pred, j);
    } else {
        assert(is_first(s, pred, i));
    }
}

/// A position in a list, as an integer.
pub open spec fn position_view(position: Option<usize>) -> Option<int> {
    match position {
        Some(i) => Some(i as int),
        None => None,
    }
}

/// The position of the first element that `matches`, where `matches` decides `pred`.
pub(crate) fn position<T: View>(
    items: &[T],
    matches: impl Fn(&T) -> bool,
    Ghost(pred): Ghost<spec_fn(T::V) -> bool>,
) -> (r: Option<usize>)
    requires
        forall|item: &T| #[trigger] call_requires(matches, (item,)),
        forall|item: &T, b: bool| #[trigger] call_ensures(matches, (item,), b) ==> b == pred(item@),
    ensures
        find_first(views(items@), pred) == position_view(r),
        r matches Some(i) ==> i < items@.len() && is_first(views(items@), pred, i as int),
{
    let ghost all = views(items@);
    proof {
        find_first_characterised(all, pred);
    }
    let mut i: usize = 0;
    while i < items.len()
        invariant
            i <= items@.len(),
            all == views(items@),
            forall|item: &T| #[trigger] call_requires(matches, (item,)),
            forall|item: &T, b: bool|
                #[trigger] call_ensures(matches, (item,), b) ==> b == pred(item@),
            forall|j: int| 0 <= j < i ==> !pred(#[trigger] all[j]),
            forall|k: int| is_first(all, pred, k) <==> find_first(all, pred) == Some(k),
        decreases items@.len() - i,
    {
        if matches(&items[i]) {
            assert(is_first(all, pred, i as int));
            return Some(i);
        }
        i += 1;
    }
    None
}

} // verus!
