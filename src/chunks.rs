//! Splitting a batch into chunks whose statements stay within the store's
//! limit on bound parameters.
use vstd::prelude::*;

verus! {

/// The most parameters that one statement may bind.
pub const MAX_PARAMETERS: usize = 65535;

/// How many entities of `field_count` fields one statement takes.
pub open spec fn chunk_len(field_count: usize) -> int {
    MAX_PARAMETERS as int / field_count as int
}

/// The half-open index ranges of the chunks of a batch of `num_items`
/// entities of `field_count` fields each: consecutive, covering the batch
/// from the start, each of `chunk_len(field_count)` entities but the last,
/// which is not empty and not longer. An empty batch has no chunk.
pub fn get_chunks(num_items: usize, field_count: usize) -> (r: Vec<(usize, usize)>)
    requires
        0 < field_count <= MAX_PARAMETERS,
    ensures
        num_items == 0 <==> r@.len() == 0,
        r@.len() > 0 ==> r@[0].0 == 0 && r@[r@.len() - 1].1 == num_items,
        r@.len() > 0 ==> 0 < r@[r@.len() - 1].1 - r@[r@.len() - 1].0 <= chunk_len(field_count),
        forall|i: int|
            0 <= i < r@.len() - 1 ==> (#[trigger] r@[i]).1 == r@[i + 1].0 && r@[i].1 - r@[i].0
                == chunk_len(field_count),
{
    let size = MAX_PARAMETERS / field_count;
    assert(size >= 1) by (nonlinear_arith)
        requires
            size == MAX_PARAMETERS / field_count,
            0 < field_count <= MAX_PARAMETERS,
    ;
    let mut r: Vec<(usize, usize)> = Vec::new();
    let mut start: usize = 0;
    while start < num_items
        invariant
            size as int == chunk_len(field_count),
            size >= 1,
            start <= num_items,
            r@.len() == 0 ==> start == 0,
            r@.len() > 0 ==> r@[0].0 == 0 && r@[r@.len() - 1].1 == start,
            r@.len() > 0 ==> 0 < r@[r@.len() - 1].1 - r@[r@.len() - 1].0 <= size,
            r@.len() > 0 && start < num_items ==> r@[r@.len() - 1].1 - r@[r@.len() - 1].0 == size,
            forall|i: int|
                0 <= i < r@.len() - 1 ==> (#[trigger] r@[i]).1 == r@[i + 1].0 && r@[i].1 - r@[i].0
                    == size,
        decreases num_items - start,
    {
        let end = if num_items - start < size {
            num_items
        } else {
            start + size
        };
        r.push((start, end));
        start = end;
    }
    r
}

} // verus!
