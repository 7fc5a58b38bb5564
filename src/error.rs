use vstd::prelude::*;

verus! {

/// The error of a checkout.
#[derive(Debug, Clone, PartialEq, Eq)]
pub enum RunError<E> {
    /// An error returned from user code or from the connection manager.
    User(E),
    /// No connection became available within the connection timeout.
    TimedOut,
}

impl<E> From<E> for RunError<E> {
    fn from(error: E) -> (r: Self)
        ensures
            r == RunError::User(error),
    {
        RunError::User(error)
    }
}

impl<E> vstd::std_specs::convert::FromSpecImpl<E> for RunError<E> {
    open spec fn obeys_from_spec() -> bool {
        true
    }

    open spec fn from_spec(v: E) -> Self {
        RunError::User(v)
    }
}

} // verus!
