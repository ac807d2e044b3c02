//! Views of the containers that records are built from.

use vstd::prelude::*;

verus! {

/// The views of the items of a sequence, in order.
pub open spec fn each_view<T: View>(items: Seq<T>) -> Seq<T::V> {
    Seq::new(items.len(), |i: int| items[i]@)
}

/// The view of an optional item.
pub open spec fn opt_view<T: View>(item: Option<T>) -> Option<T::V> {
    match item {
        Some(inner) => Some(inner@),
        None => None,
    }
}

} // verus!
