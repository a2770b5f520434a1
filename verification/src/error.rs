//! Failures of the inner resource: their kinds, and the one failure that the
//! adapter makes itself.

use std::io::Error;
use std::io::ErrorKind;
use vstd::prelude::*;

verus! {

/// An I/O failure, carried through as it came.
#[verifier::external_type_specification]
#[verifier::external_body]
pub struct ExError(Error);

/// The kinds of failure that the adapter tells apart.
#[derive(Clone, Copy, Debug, PartialEq, Eq, Structural)]
pub enum Kind {
    /// The operation could not go on without blocking.
    WouldBlock,
    /// The operation was interrupted.
    Interrupted,
    /// The generic kind, which says nothing more.
    Other,
    /// Any kind but those three.
    Remaining,
}

/// The text of the failure that stands in for an interrupted operation.
pub const INTERRUPTED: &'static str = "Interrupted.";

/// The kind that `std::io::Error::kind` reports of `err`.
pub uninterp spec fn kind_of(err: Error) -> Kind;

/// The failure that `std::io::Error::other` makes of `message`.
pub uninterp spec fn other_error(message: Seq<char>) -> Error;

/// Calls `std::io::Error::kind`. Trusted: the result is the kind that the
/// failure carries, told apart as far as `Kind` goes.
#[verifier::external_body]
pub(crate) fn kind(err: &Error) -> (kind: Kind)
    ensures
        kind == kind_of(*err),
{
    match err.kind() {
        ErrorKind::WouldBlock => Kind::WouldBlock,
        ErrorKind::Interrupted => Kind::Interrupted,
        ErrorKind::Other => Kind::Other,
        _ => Kind::Remaining,
    }
}

/// Calls `std::io::Error::other`. Trusted: the result is fixed by `message`
/// and is of the generic kind, as that function is a shortcut for
/// `Error::new` with `ErrorKind::Other`.
#[verifier::external_body]
pub(crate) fn other(message: &str) -> (err: Error)
    ensures
        err == other_error(message@),
        kind_of(err) == Kind::Other,
{
    Error::other(message)
}

/// The failure reported in place of an interrupted operation.
pub fn interrupted() -> (err: Error)
    ensures
        err == other_error(INTERRUPTED@),
        kind_of(err) == Kind::Other,
{
    other(INTERRUPTED)
}

} // verus!
