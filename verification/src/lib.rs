//! Adapts resources polled in the buffer-filling style to the slice-returning
//! style: the decisions of the adapter, stated and proved, with the polling
//! itself left to the caller.

pub mod compat;
pub mod error;
pub mod fs;
pub mod poll;
pub mod read;
pub mod seek;
pub mod task;
