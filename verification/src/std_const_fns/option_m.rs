//! Queries on `Option`.

use vstd::prelude::*;

verus! {

/// Whether the option holds a value.
pub fn is_some<T>(this: &Option<T>) -> (r: bool)
    ensures
        r == (*this is Some),
{
    match this {
        Some(_) => true,
        None => false,
    }
}

/// Whether the option is empty.
pub fn is_none<T>(this: &Option<T>) -> (r: bool)
    ensures
        r == (*this is None),
{
    match this {
        Some(_) => false,
        None => true,
    }
}

} // verus!
