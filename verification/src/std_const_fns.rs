//! Small, fully specified building blocks over slices, integers, options
//! and results, grouped by the type they operate on.

pub mod option_m;
pub mod result_m;
pub mod slice_m;
pub mod usize_m;
