use vstd::prelude::*;

use crate::index::Index;
use crate::traits::{AsSlice, IntoSliceTo, truncated};

verus! {

/// Taking the prefix of `b` elements of a view and then truncating that
/// prefix in place to `a` elements yields the same elements as taking the
/// prefix of `a` elements directly: what `into_slice_to(b)` followed by
/// `truncate(a)` promises of the elements equals what `into_slice_to(a)`
/// promises.
pub proof fn lemma_slice_to_then_truncate<V: IntoSliceTo<I>, I: Index>(v: &V, a: I, b: I)
    requires
        a.as_index() <= b.as_index() <= v.elems().len(),
    ensures
        truncated(v.elems().subrange(0, b.as_index() as int), a.as_index()) == v.elems().subrange(
            0,
            a.as_index() as int,
        ),
{
    if a.as_index() < b.as_index() {
        assert(v.elems().subrange(0, b.as_index() as int).subrange(0, a.as_index() as int)
            =~= v.elems().subrange(0, a.as_index() as int));
    }
}

} // verus!
