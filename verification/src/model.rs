//! What a vector of objects stands for in contracts.

use vstd::prelude::*;

verus! {

/// The views of `items`, in their order.
pub open spec fn views<T: View>(items: Seq<T>) -> Seq<T::V> {
    items.map_values(|item: T| item@)
}

/// No items have no views.
pub proof fn views_empty<T: View>()
    ensures
        views(Seq::<T>::empty()) == Seq::<T::V>::empty(),
{
}

/// One more item at the end is one more view at the end.
pub proof fn views_push<T: View>(items: Seq<T>, item: T)
    ensures
        views(items.push(item)) == views(items).push(item@),
{
}

/// Items put behind others are views put behind the others' views.
pub proof fn views_add<T: View>(front: Seq<T>, back: Seq<T>)
    ensures
        views(front + back) == views(front) + views(back),
{
}

} // verus!
