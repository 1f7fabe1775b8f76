use vstd::prelude::*;

verus! {

/// A decoded value that was produced without borrowing from its input.
#[derive(Debug)]
pub struct Detach<T>(pub T);

/// Unwraps a [`Detach`], returning the plain value it holds.
pub fn detach<T>(wrapped: Detach<T>) -> (r: T)
    ensures
        r == wrapped.0,
{
    wrapped.0
}

} // verus!
