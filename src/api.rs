use vstd::prelude::*;

use crate::error::XrError;
use crate::session::{fresh_session, RenderSession, SessionCreateInfo};

verus! {

/// Issues sessions, each under an identity no earlier session of this
/// instance had.
pub struct Instance {
    next_session: u64,
}

impl Instance {
    /// The identity the next session gets.
    pub closed spec fn next_id(&self) -> u64 {
        self.next_session
    }

    /// An instance that has issued no session.
    pub fn new() -> (r: Instance)
        ensures
            r.next_id() == 0,
    {
        Instance { next_session: 0 }
    }

    /// Creates an idle session with the options in `info` under the next
    /// identity. Fails with `RuntimeLost` once the identities are used up, and
    /// then changes nothing.
    pub fn create_session(&mut self, info: SessionCreateInfo) -> (r: Result<RenderSession, XrError>)
        ensures
            old(self).next_id() == u64::MAX ==> r is Err && r->Err_0 == XrError::RuntimeLost
                && final(self).next_id() == old(self).next_id(),
            old(self).next_id() < u64::MAX ==> r is Ok && r->Ok_0.wf() && r->Ok_0@ == fresh_session(
                old(self).next_id(),
                info,
            ) && final(self).next_id() == old(self).next_id() + 1,
    {
        if self.next_session == u64::MAX {
            return Err(XrError::RuntimeLost);
        }
        let id = self.next_session;
        self.next_session = id + 1;
        Ok(RenderSession::new(id, info))
    }
}

/// A source of sessions.
pub trait InstanceTrait {
    /// Creates a session with the requested options.
    fn create_session(&mut self, info: SessionCreateInfo) -> Result<RenderSession, XrError>;
}

impl InstanceTrait for Instance {
    fn create_session(&mut self, info: SessionCreateInfo) -> Result<RenderSession, XrError> {
        Instance::create_session(self, info)
    }
}

/// An input whose value a runtime backend can read on demand.
pub trait ActionInputTrait<A> {
    /// The current value.
    fn get(&self) -> Result<A, XrError>;
}

/// A haptic output a runtime backend can drive.
pub trait HapticTrait {}

} // verus!
