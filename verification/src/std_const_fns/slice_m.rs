//! Element access on slices.

use vstd::prelude::*;
use vstd::slice::slice_index_get;

verus! {

/// The first element of the slice, or `None` when it is empty.
pub fn first<T>(this: &[T]) -> (r: Option<&T>)
    ensures
        match r {
            Some(x) => this@.len() > 0 && *x == this@[0],
            None => this@.len() == 0,
        },
{
    if this.len() == 0 {
        None
    } else {
        Some(slice_index_get(this, 0))
    }
}

/// The last element of the slice, or `None` when it is empty.
pub fn last<T>(this: &[T]) -> (r: Option<&T>)
    ensures
        match r {
            Some(x) => this@.len() > 0 && *x == this@[this@.len() - 1],
            None => this@.len() == 0,
        },
{
    if this.len() == 0 {
        None
    } else {
        Some(slice_index_get(this, this.len() - 1))
    }
}

/// The element at `index`, or `None` when the index is out of bounds.
pub fn get<T>(this: &[T], index: usize) -> (r: Option<&T>)
    ensures
        match r {
            Some(x) => index < this@.len() && *x == this@[index as int],
            None => index >= this@.len(),
        },
{
    if index < this.len() {
        Some(slice_index_get(this, index))
    } else {
        None
    }
}

} // verus!
