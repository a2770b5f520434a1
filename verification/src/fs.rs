//! The filesystems of the two runtimes, as values to name them by.

use vstd::prelude::*;

verus! {

/// The filesystem as `tokio` gives it.
#[derive(Default, Clone, Copy, Debug, PartialEq, Eq, Hash)]
pub struct TokioFs {}

/// The filesystem as `async_std` gives it.
#[derive(Default, Clone, Copy, Debug, PartialEq, Eq, Hash)]
pub struct AsyncStdFs {}

} // verus!
