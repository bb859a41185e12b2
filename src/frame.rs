use vstd::prelude::*;

use crate::error::XrError;

verus! {

/// Where a session stands in its frame cycle.
#[derive(Clone, Copy, Debug, PartialEq, Eq, Structural)]
pub enum FrameState {
    Idle,
    FrameWaited,
    FrameBegun,
}

/// The cycle number after `c`; it wraps to 0 after `u64::MAX`.
pub open spec fn next_cycle(c: u64) -> u64 {
    if c == u64::MAX {
        0
    } else {
        (c + 1) as u64
    }
}

/// The wait, begin, end discipline of one session: one frame in flight at a time,
/// each frame under its own cycle number.
#[derive(Clone, Copy, Debug, PartialEq, Eq, Structural)]
pub struct FrameCycle {
    pub state: FrameState,
    pub cycle: u64,
}

impl FrameCycle {
    /// An idle cycle that has run no frame yet.
    pub fn new() -> (r: FrameCycle)
        ensures
            r == (FrameCycle { state: FrameState::Idle, cycle: 0 }),
    {
        FrameCycle { state: FrameState::Idle, cycle: 0 }
    }

    /// From `Idle`, opens the next frame and returns its cycle number;
    /// otherwise fails with `OutOfOrder` and changes nothing.
    pub fn wait(&mut self) -> (r: Result<u64, XrError>)
        ensures
            old(self).state == FrameState::Idle ==> r == Ok::<u64, XrError>(
                next_cycle(old(self).cycle),
            ) && *final(self) == (FrameCycle {
                state: FrameState::FrameWaited,
                cycle: next_cycle(old(self).cycle),
            }),
            old(self).state != FrameState::Idle ==> r == Err::<u64, XrError>(XrError::OutOfOrder)
                && *final(self) == *old(self),
    {
        if self.state != FrameState::Idle {
            return Err(XrError::OutOfOrder);
        }
        let next = if self.cycle == u64::MAX {
            0
        } else {
            self.cycle + 1
        };
        self.state = FrameState::FrameWaited;
        self.cycle = next;
        Ok(next)
    }

    /// From `FrameWaited`, begins the frame; otherwise fails with `OutOfOrder`
    /// and changes nothing.
    pub fn begin(&mut self) -> (r: Result<(), XrError>)
        ensures
            old(self).state == FrameState::FrameWaited ==> r == Ok::<(), XrError>(())
                && *final(self) == (FrameCycle { state: FrameState::FrameBegun, ..*old(self) }),
            old(self).state != FrameState::FrameWaited ==> r == Err::<(), XrError>(
                XrError::OutOfOrder,
            ) && *final(self) == *old(self),
    {
        if self.state != FrameState::FrameWaited {
            return Err(XrError::OutOfOrder);
        }
        self.state = FrameState::FrameBegun;
        Ok(())
    }

    /// Closes the begun frame numbered `cycle` and returns to `Idle`. Fails with
    /// `OutOfOrder` when no frame is begun, and with `MismatchedFrame` when `cycle`
    /// is not the current one; a failure changes nothing.
    pub fn end(&mut self, cycle: u64) -> (r: Result<(), XrError>)
        ensures
            old(self).state != FrameState::FrameBegun ==> r == Err::<(), XrError>(
                XrError::OutOfOrder,
            ) && *final(self) == *old(self),
            old(self).state == FrameState::FrameBegun && cycle != old(self).cycle ==> r == Err::<
                (),
                XrError,
            >(XrError::MismatchedFrame) && *final(self) == *old(self),
            old(self).state == FrameState::FrameBegun && cycle == old(self).cycle ==> r == Ok::<
                (),
                XrError,
            >(()) && *final(self) == (FrameCycle { state: FrameState::Idle, ..*old(self) }),
    {
        if self.state != FrameState::FrameBegun {
            return Err(XrError::OutOfOrder);
        }
        if cycle != self.cycle {
            return Err(XrError::MismatchedFrame);
        }
        self.state = FrameState::Idle;
        Ok(())
    }
}

} // verus!
