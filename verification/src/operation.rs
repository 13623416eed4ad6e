//! Marker traits declaring what the shell does with an operation: tell it
//! and expect no answer, expect exactly one answer, or expect a sequence of
//! answers.
use vstd::prelude::*;

use crate::capability::Operation;

verus! {

/// An operation the shell is told about and never answers.
pub trait Notify: Operation<Output = ()> {}

/// An operation the shell answers exactly once.
pub trait Request: Operation {}

/// An operation the shell answers a sequence of times.
pub trait Stream: Operation {}

} // verus!
