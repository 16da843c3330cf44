use vstd::prelude::*;

pub mod error;
pub mod handle;
pub mod lifecycle;
pub mod native;
pub mod result;
pub mod value;

verus! {

/// The sum of two integers, where it fits in 64 bits.
pub fn add(a: i64, b: i64) -> (r: i64)
    requires
        i64::MIN <= a + b <= i64::MAX,
    ensures
        r == a + b,
{
    a + b
}

} // verus!
