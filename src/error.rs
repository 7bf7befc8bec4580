use vstd::prelude::*;

verus! {

/// Error types with a variant that says the end of the parsed input was reached
/// unexpectedly.
pub trait Eoi: Sized {
    /// The value of the error type that notes an unexpected end of input.
    fn eoi() -> Self;
}

/// A parse error: an arbitrary error payload tagged with an input position.
#[derive(Debug, PartialEq, Eq, PartialOrd, Ord, Hash, Clone, Copy)]
pub struct Error<E> {
    pub position: usize,
    pub e: E,
}

impl<E> Error<E> {
    /// Creates a new error. Callers mostly use the `ParserHelper` methods instead.
    pub fn new(position: usize, e: E) -> (r: Self)
        ensures
            r.position == position,
            r.e == e,
    {
        Error { position, e }
    }
}

} // verus!
