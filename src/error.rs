use vstd::prelude::*;

verus! {

/// Failures reported by sessions, input bindings and the frame cycle.
#[derive(Clone, Copy, Debug, PartialEq, Eq, Structural)]
pub enum XrError {
    /// A path string is empty or breaks the path syntax.
    InvalidPath,
    /// A backend refused a second binding of one path; the category checks of
    /// this library report `ActionCreationError` instead.
    DuplicateBinding,
    /// The path is unknown to the session, or already bound to another category.
    ActionCreationError,
    /// An action handle was used after its session was torn down, or on another session.
    StaleAction,
    /// The session was torn down.
    SessionClosed,
    /// A frame operation was called out of the wait, begin, end order.
    OutOfOrder,
    /// A frame token does not belong to the frame in flight.
    MismatchedFrame,
    /// The device or tracking connection is gone; the session is unusable.
    RuntimeLost,
    /// Two callers drove the same session at once. The `&mut` receivers of the
    /// frame and binding operations rule this out for callers of this library.
    ConcurrentAccess,
}

} // verus!
