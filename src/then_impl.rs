//! Running a function on the value that an `Option` or a `Result` holds.

use vstd::prelude::*;

verus! {

/// A container that may hold a value of type `T`.
pub trait Then<T>: Sized {
    /// The value held, if any.
    spec fn held(&self) -> Option<T>;

    /// Calls `op` on the value held, and gives back what it returned;
    /// gives nothing, without calling `op`, where no value is held.
    fn then_apply<R, F: FnOnce(T) -> R>(self, op: F) -> (r: Option<R>)
        requires
            self.held() matches Some(v) ==> op.requires((v,)),
        ensures
            r is Some <==> self.held() is Some,
            r matches Some(x) ==> self.held() matches Some(v) && op.ensures((v,), x),
    ;
}

impl<T, E> Then<T> for Result<T, E> {
    open spec fn held(&self) -> Option<T> {
        match self {
            Ok(v) => Some(*v),
            Err(_) => None,
        }
    }

    fn then_apply<R, F: FnOnce(T) -> R>(self, op: F) -> (r: Option<R>) {
        match self {
            Ok(v) => Some(op(v)),
            Err(_) => None,
        }
    }
}

impl<T> Then<T> for Option<T> {
    open spec fn held(&self) -> Option<T> {
        *self
    }

    fn then_apply<R, F: FnOnce(T) -> R>(self, op: F) -> (r: Option<R>) {
        match self {
            Some(v) => Some(op(v)),
            None => None,
        }
    }
}

} // verus!
