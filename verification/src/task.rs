//! The executors of the two runtimes, as values to name them by.

use vstd::prelude::*;

verus! {

/// The executor of the `tokio` runtime.
#[derive(Default, Clone, Copy, Debug, PartialEq, Eq, Hash)]
pub struct TokioExecutor {}

/// The executor of the `async_std` runtime.
#[derive(Default, Clone, Copy, Debug, PartialEq, Eq, Hash)]
pub struct AsyncStdExecutor {}

} // verus!
