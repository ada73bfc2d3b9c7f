//! The marker for types that can be viewed through a dynamically sized type.

use vstd::prelude::*;

verus! {

/// Types that can be "unsized" to the dynamically sized type `T`: an array to
/// a slice, a value to a view of it through one of its traits.
pub trait Unsize<T: ?Sized> {
}

} // verus!
