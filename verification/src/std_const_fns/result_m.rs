//! Queries on `Result`.

use vstd::prelude::*;

verus! {

/// Whether the result is a success.
pub fn is_ok<T, E>(this: &Result<T, E>) -> (r: bool)
    ensures
        r == (*this is Ok),
{
    match this {
        Ok(_) => true,
        Err(_) => false,
    }
}

/// Whether the result is an error.
pub fn is_err<T, E>(this: &Result<T, E>) -> (r: bool)
    ensures
        r == (*this is Err),
{
    match this {
        Ok(_) => false,
        Err(_) => true,
    }
}

} // verus!
