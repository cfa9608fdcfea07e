use vstd::prelude::*;

verus! {

/// A complex number: a real and an imaginary component of the same scalar
/// type. The program only ever constructs such values and reads the
/// components back, so no arithmetic is defined on them.
#[derive(Clone, Copy, Debug)]
pub struct Complex<T> {
    pub re: T,
    pub im: T,
}

impl<T> Complex<T> {
    /// Builds a complex number holding exactly the given components.
    pub fn new(re: T, im: T) -> (c: Complex<T>)
        ensures
            c.re == re,
            c.im == im,
    {
        Complex { re, im }
    }
}

} // verus!
