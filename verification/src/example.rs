//! A first function for callers written in C, and a small comparison of
//! devices by name.

use vstd::prelude::*;
use vstd::string::StringSliceAdditionalSpecFns;

verus! {

/// Comparison of a value with one of another type.
pub trait Equality<T>: Sized {
    fn equals(s: Self, other: T) -> bool;
}

/// A kernel device, known by its name.
#[derive(Debug, Clone, Copy)]
pub struct KDev<'a> {
    pub name: &'a str,
}

impl<'a, 'b> Equality<KDev<'b>> for KDev<'a> {
    /// Two devices are equal where their names hold the same bytes.
    fn equals(s: Self, o: KDev<'b>) -> (equal: bool)
        ensures
            equal == (s.name.spec_bytes() == o.name.spec_bytes()),
    {
        let left = s.name.as_bytes();
        let right = o.name.as_bytes();
        if left.len() != right.len() {
            return false;
        }
        let mut i: usize = 0;
        while i < left.len()
            invariant
                i <= left@.len(),
                left@.len() == right@.len(),
                left@ == s.name.spec_bytes(),
                right@ == o.name.spec_bytes(),
                forall|j: int| 0 <= j < i ==> left@[j] == right@[j],
            decreases left@.len() - i,
        {
            if left[i] != right[i] {
                return false;
            }
            i += 1;
        }
        assert(left@ =~= right@);
        true
    }
}

/// The sum of the two numbers.
pub fn example_rust_binding(left: u32, right: u32) -> (sum: u32)
    requires
        left + right <= u32::MAX,
    ensures
        sum == left + right,
{
    left + right
}

} // verus!
