use vstd::prelude::*;

verus! {

/// The items of `list` as values of the model, in the same order.
pub open spec fn each_view<T: View>(list: Seq<T>) -> Seq<T::V> {
    list.map_values(|item: T| item@)
}

} // verus!
