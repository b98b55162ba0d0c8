use vstd::prelude::*;

verus! {

/// Whether values of `T` take no space, as `()` does: a response whose body
/// type is such carries no body to decode.
pub fn is_unit_type<T>() -> (unit: bool)
    ensures
        unit == (vstd::layout::size_of::<T>() == 0),
{
    core::mem::size_of::<T>() == 0
}

} // verus!
