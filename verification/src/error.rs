//! The uniform failure shape of the capability surface.
//!
//! Every fallible operation on a backend resolves to one error type,
//! [`IoError`], parameterized by the backend's own associated error. The
//! contract distinguishes exactly two kinds of failure: an operation the
//! backend chose not to implement, and a failure the backend itself reports.

use vstd::prelude::*;

use crate::op::Op;

verus! {

/// The failure reported by any operation of the capability surface.
///
/// `NotSupported(op)` is the contract-level default outcome of calling an
/// operation the backend has not overridden; it names the declined operation.
/// `Backend(e)` carries a failure the backend itself reported, in the
/// backend's single associated error type.
#[derive(Debug)]
pub enum IoError<E> {
    NotSupported(Op),
    Backend(E),
}

impl<E> IoError<E> {
    /// Whether this failure means the backend does not implement the
    /// operation, as opposed to having tried it and failed.
    pub fn is_not_supported(&self) -> (b: bool)
        ensures
            b == (*self is NotSupported),
    {
        match self {
            IoError::NotSupported(_) => true,
            IoError::Backend(_) => false,
        }
    }

    /// The operation a `NotSupported` failure declined, if this is one.
    pub fn declined_op(&self) -> (r: Option<Op>)
        ensures
            r matches Some(op) ==> *self == IoError::<E>::NotSupported(op),
            r is None ==> *self is Backend,
    {
        match self {
            IoError::NotSupported(op) => Some(*op),
            IoError::Backend(_) => None,
        }
    }
}

/// The contract's default outcome for an operation the backend has not
/// overridden: the "not supported" failure naming that operation.
pub fn unsupported<T, E>(op: Op) -> (r: Result<T, IoError<E>>)
    ensures
        r == Err::<T, IoError<E>>(IoError::NotSupported(op)),
{
    Err(IoError::NotSupported(op))
}

} // verus!
