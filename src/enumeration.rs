//! Turning a native collection, read one index at a time, into a `Vec`.
use vstd::prelude::*;

verus! {

/// Calls `item` on each index below `count`, in increasing order, and collects
/// what it returns: the element at index `i` is what `item(i)` gave.
pub fn collect_indexed<T, F: Fn(usize) -> T>(count: usize, item: F) -> (r: Vec<T>)
    requires
        forall|i: usize| i < count ==> item.requires((i,)),
    ensures
        r.len() == count,
        forall|i: int| 0 <= i < count ==> item.ensures((i as usize,), #[trigger] r[i]),
{
    let mut r: Vec<T> = Vec::new();
    let mut index: usize = 0;
    while index < count
        invariant
            index <= count,
            r.len() == index,
            forall|i: usize| i < count ==> item.requires((i,)),
            forall|i: int| 0 <= i < index ==> item.ensures((i as usize,), #[trigger] r[i]),
        decreases count - index,
    {
        let v = item(index);
        r.push(v);
        index += 1;
    }
    r
}

} // verus!
