//! Element-wise operations on one-dimensional numeric arrays.
//!
//! The element type is generic: the scalar arithmetic (addition,
//! multiplication) is supplied by the caller as a closure, and the verified
//! code proves that every element of the result is related to the operands'
//! corresponding elements exactly as that closure's contract says.

pub mod array;
pub mod complex;
