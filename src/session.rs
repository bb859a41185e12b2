use vstd::prelude::*;
use vstd::string::StringSliceAdditionalSpecFns;

use crate::error::XrError;
use crate::frame::{next_cycle, FrameCycle, FrameState};
use crate::input::{
    bindings_after, bound_kind, create_outcome, Action, ActionKind, InputModel, InputSession,
};
use crate::path::{entries_after, slot_of, valid_path, Path};

verus! {

/// Size in pixels of the image rendered for one eye.
#[derive(Clone, Copy, Debug, PartialEq, Eq, Structural)]
pub struct Resolution {
    pub width: u32,
    pub height: u32,
}

/// Pixel format of the session's render targets.
#[derive(Clone, Copy, Debug, PartialEq, Eq, Structural)]
pub enum PixelFormat {
    Rgba8Unorm,
    Rgba8UnormSrgb,
    Bgra8Unorm,
    Bgra8UnormSrgb,
}

/// The options a session is created with.
#[derive(Clone, Copy, Debug, PartialEq, Eq, Structural)]
pub struct SessionCreateInfo {
    /// How many views `locate_views` hands out per frame.
    pub view_count: usize,
    /// The pixel format of the render targets.
    pub preferred_format: PixelFormat,
    /// The per-eye resolution the display reports.
    pub resolution: Resolution,
}

/// The token of one frame in flight: the session and cycle it was issued for.
#[derive(Debug, PartialEq, Eq, Structural)]
pub struct FrameData {
    pub session: u64,
    pub cycle: u64,
}

/// Mathematical model of a render session.
pub struct SessionModel {
    pub id: u64,
    pub closed: bool,
    pub lost: bool,
    pub frame: FrameCycle,
    pub input: InputModel,
    pub info: SessionCreateInfo,
}

/// The failure every operation reports first: `SessionClosed` after teardown,
/// then `RuntimeLost` once the runtime was lost.
pub open spec fn standing_error(m: SessionModel) -> Option<XrError> {
    if m.closed {
        Some(XrError::SessionClosed)
    } else if m.lost {
        Some(XrError::RuntimeLost)
    } else {
        None
    }
}

/// `m` with the runtime marked lost.
pub open spec fn mark_lost(m: SessionModel) -> SessionModel {
    SessionModel { lost: true, ..m }
}

/// `m` with its frame cycle replaced.
pub open spec fn with_frame(m: SessionModel, f: FrameCycle) -> SessionModel {
    SessionModel { frame: f, ..m }
}

/// What `wait_frame` returns; `alive` tells whether the display connection holds.
pub open spec fn wait_result(m: SessionModel, alive: bool) -> Result<FrameData, XrError> {
    if standing_error(m) is Some {
        Err(standing_error(m)->0)
    } else if m.frame.state != FrameState::Idle {
        Err(XrError::OutOfOrder)
    } else if !alive {
        Err(XrError::RuntimeLost)
    } else {
        Ok(FrameData { session: m.id, cycle: next_cycle(m.frame.cycle) })
    }
}

/// The session after `wait_frame`.
pub open spec fn after_wait(m: SessionModel, alive: bool) -> SessionModel {
    if standing_error(m) is Some || m.frame.state != FrameState::Idle {
        m
    } else if !alive {
        mark_lost(m)
    } else {
        with_frame(m, FrameCycle { state: FrameState::FrameWaited, cycle: next_cycle(m.frame.cycle) })
    }
}

/// What `begin_frame` returns.
pub open spec fn begin_result(m: SessionModel) -> Result<(), XrError> {
    if standing_error(m) is Some {
        Err(standing_error(m)->0)
    } else if m.frame.state != FrameState::FrameWaited {
        Err(XrError::OutOfOrder)
    } else {
        Ok(())
    }
}

/// The session after `begin_frame`.
pub open spec fn after_begin(m: SessionModel) -> SessionModel {
    if begin_result(m) is Ok {
        with_frame(m, FrameCycle { state: FrameState::FrameBegun, ..m.frame })
    } else {
        m
    }
}

/// Whether the runtime located exactly the configured number of views.
pub open spec fn views_located<V>(m: SessionModel, located: Option<Vec<V>>) -> bool {
    located is Some && located->0@.len() == m.info.view_count
}

/// What `locate_views` returns; `located` is what the runtime reported, `None`
/// when tracking is unavailable.
pub open spec fn locate_result<V>(m: SessionModel, located: Option<Vec<V>>) -> Result<Vec<V>, XrError> {
    if standing_error(m) is Some {
        Err(standing_error(m)->0)
    } else if m.frame.state != FrameState::FrameBegun {
        Err(XrError::OutOfOrder)
    } else if !views_located(m, located) {
        Err(XrError::RuntimeLost)
    } else {
        Ok(located->0)
    }
}

/// The session after `locate_views`.
pub open spec fn after_locate<V>(m: SessionModel, located: Option<Vec<V>>) -> SessionModel {
    if standing_error(m) is None && m.frame.state == FrameState::FrameBegun && !views_located(m, located) {
        mark_lost(m)
    } else {
        m
    }
}

/// What `end_frame` returns.
pub open spec fn end_result(m: SessionModel, d: FrameData) -> Result<(), XrError> {
    if standing_error(m) is Some {
        Err(standing_error(m)->0)
    } else if m.frame.state != FrameState::FrameBegun {
        Err(XrError::OutOfOrder)
    } else if d.session != m.id || d.cycle != m.frame.cycle {
        Err(XrError::MismatchedFrame)
    } else {
        Ok(())
    }
}

/// The session after `end_frame`.
pub open spec fn after_end(m: SessionModel, d: FrameData) -> SessionModel {
    if end_result(m, d) is Ok {
        with_frame(m, FrameCycle { state: FrameState::Idle, ..m.frame })
    } else {
        m
    }
}

/// What `poll` returns for `a` when the runtime reports `current`.
pub open spec fn poll_result<T>(m: SessionModel, a: Action, current: T) -> Result<T, XrError> {
    if m.closed {
        Err(XrError::StaleAction)
    } else if m.lost {
        Err(XrError::RuntimeLost)
    } else if a.session != m.id || bound_kind(m.input.bindings, a.path) != Some(a.kind) {
        Err(XrError::StaleAction)
    } else {
        Ok(current)
    }
}

/// What `create_action` returns.
pub open spec fn create_result(m: SessionModel, kind: ActionKind, p: Path) -> Result<Action, XrError> {
    if standing_error(m) is Some {
        Err(standing_error(m)->0)
    } else {
        create_outcome(m.input, kind, p)
    }
}

/// The session after `create_action`.
pub open spec fn after_create(m: SessionModel, kind: ActionKind, p: Path) -> SessionModel {
    if standing_error(m) is Some {
        m
    } else {
        SessionModel {
            input: InputModel { bindings: bindings_after(m.input, kind, p), ..m.input },
            ..m
        }
    }
}

/// What `headset_location` returns when the runtime's estimate is `estimate`.
pub open spec fn headset_result<P>(m: SessionModel, estimate: P) -> Result<P, XrError> {
    if standing_error(m) is Some {
        Err(standing_error(m)->0)
    } else {
        Ok(estimate)
    }
}

/// The session after `teardown`: closed, with no bindings left.
pub open spec fn after_teardown(m: SessionModel) -> SessionModel {
    SessionModel {
        closed: true,
        input: InputModel { bindings: Seq::empty(), ..m.input },
        ..m
    }
}

/// The model of a session just created with identity `id`.
pub open spec fn fresh_session(id: u64, info: SessionCreateInfo) -> SessionModel {
    SessionModel {
        id,
        closed: false,
        lost: false,
        frame: FrameCycle { state: FrameState::Idle, cycle: 0 },
        input: InputModel { owner: id, paths: Seq::empty(), bindings: Seq::empty() },
        info,
    }
}

/// One rendering session: its frame cycle and its input bindings, against one
/// display connection. The runtime's answers (whether the display is alive,
/// the located views, the headset pose, an action's value) are handed in by
/// the caller that talks to the runtime.
pub struct RenderSession {
    id: u64,
    closed: bool,
    lost: bool,
    frame: FrameCycle,
    input: InputSession,
    info: SessionCreateInfo,
}

impl View for RenderSession {
    type V = SessionModel;

    closed spec fn view(&self) -> SessionModel {
        SessionModel {
            id: self.id,
            closed: self.closed,
            lost: self.lost,
            frame: self.frame,
            input: self.input@,
            info: self.info,
        }
    }
}

impl RenderSession {
    /// The input session is well formed and belongs to this session.
    pub closed spec fn wf(&self) -> bool {
        self.input.wf() && self.input@.owner == self.id
    }

    /// A well-formed session's bindings belong to it.
    pub proof fn lemma_wf_owner(&self)
        requires
            self.wf(),
        ensures
            self@.input.owner == self@.id,
    {
    }

    /// A fresh idle session with identity `id`.
    pub fn new(id: u64, info: SessionCreateInfo) -> (r: RenderSession)
        ensures
            r.wf(),
            r@ == fresh_session(id, info),
    {
        let r = RenderSession {
            id,
            closed: false,
            lost: false,
            frame: FrameCycle::new(),
            input: InputSession::new(id),
            info,
        };
        assert(r@.input.paths =~= Seq::<Seq<u8>>::empty());
        assert(r@.input.bindings =~= Seq::<crate::input::Binding>::empty());
        r
    }

    /// This session's identity.
    pub fn id(&self) -> (r: u64)
        ensures
            r == self@.id,
    {
        self.id
    }

    /// The current frame state.
    pub fn state(&self) -> (r: FrameState)
        ensures
            r == self@.frame.state,
    {
        self.frame.state
    }

    /// Whether the session was torn down.
    pub fn is_closed(&self) -> (r: bool)
        ensures
            r == self@.closed,
    {
        self.closed
    }

    /// Whether the runtime was lost.
    pub fn is_lost(&self) -> (r: bool)
        ensures
            r == self@.lost,
    {
        self.lost
    }

    /// The per-eye resolution; legal in every state.
    pub fn resolution(&self) -> (r: Resolution)
        ensures
            r == self@.info.resolution,
    {
        self.info.resolution
    }

    /// The render target format; legal in every state.
    pub fn format(&self) -> (r: PixelFormat)
        ensures
            r == self@.info.preferred_format,
    {
        self.info.preferred_format
    }

    /// The number of views located per frame.
    pub fn view_count(&self) -> (r: usize)
        ensures
            r == self@.info.view_count,
    {
        self.info.view_count
    }

    /// Waits for the next frame. Fails with `SessionClosed` after teardown,
    /// `RuntimeLost` after loss, with `OutOfOrder` while a frame is in flight, and with
    /// `RuntimeLost` (marking the session lost) when `alive` says the display
    /// connection is gone; else returns the token of a fresh cycle.
    pub fn wait_frame(&mut self, alive: bool) -> (r: Result<FrameData, XrError>)
        requires
            old(self).wf(),
        ensures
            final(self).wf(),
            r == wait_result(old(self)@, alive),
            final(self)@ == after_wait(old(self)@, alive),
    {
        if self.closed {
            return Err(XrError::SessionClosed);
        }
        if self.lost {
            return Err(XrError::RuntimeLost);
        }
        if self.frame.state != FrameState::Idle {
            return Err(XrError::OutOfOrder);
        }
        if !alive {
            self.lost = true;
            return Err(XrError::RuntimeLost);
        }
        match self.frame.wait() {
            Ok(cycle) => Ok(FrameData { session: self.id, cycle }),
            Err(e) => Err(e),
        }
    }

    /// Begins the waited frame; `OutOfOrder` without a preceding wait.
    pub fn begin_frame(&mut self) -> (r: Result<(), XrError>)
        requires
            old(self).wf(),
        ensures
            final(self).wf(),
            r == begin_result(old(self)@),
            final(self)@ == after_begin(old(self)@),
    {
        if self.closed {
            return Err(XrError::SessionClosed);
        }
        if self.lost {
            return Err(XrError::RuntimeLost);
        }
        self.frame.begin()
    }

    /// Hands out the views the runtime located for the begun frame. Fails with
    /// `OutOfOrder` before `begin_frame`, and with `RuntimeLost` (marking the
    /// session lost) when tracking gave no views or not `view_count` of them.
    pub fn locate_views<V>(&mut self, located: Option<Vec<V>>) -> (r: Result<Vec<V>, XrError>)
        requires
            old(self).wf(),
        ensures
            final(self).wf(),
            r == locate_result(old(self)@, located),
            final(self)@ == after_locate(old(self)@, located),
    {
        if self.closed {
            return Err(XrError::SessionClosed);
        }
        if self.lost {
            return Err(XrError::RuntimeLost);
        }
        if self.frame.state != FrameState::FrameBegun {
            return Err(XrError::OutOfOrder);
        }
        match located {
            Some(views) => {
                if views.len() == self.info.view_count {
                    Ok(views)
                } else {
                    self.lost = true;
                    Err(XrError::RuntimeLost)
                }
            },
            None => {
                self.lost = true;
                Err(XrError::RuntimeLost)
            },
        }
    }

    /// Submits the begun frame and returns to `Idle`. Fails with `OutOfOrder`
    /// when no frame is begun and with `MismatchedFrame` when `data` is not the
    /// token of the frame in flight.
    pub fn end_frame(&mut self, data: FrameData) -> (r: Result<(), XrError>)
        requires
            old(self).wf(),
        ensures
            final(self).wf(),
            r == end_result(old(self)@, data),
            final(self)@ == after_end(old(self)@, data),
    {
        if self.closed {
            return Err(XrError::SessionClosed);
        }
        if self.lost {
            return Err(XrError::RuntimeLost);
        }
        if self.frame.state != FrameState::FrameBegun {
            return Err(XrError::OutOfOrder);
        }
        if data.session != self.id {
            return Err(XrError::MismatchedFrame);
        }
        self.frame.end(data.cycle)
    }

    /// The headset pose `estimate` reported by the runtime; legal in every
    /// frame state, failing only after teardown or loss.
    pub fn headset_location<P>(&self, estimate: P) -> (r: Result<P, XrError>)
        ensures
            r == headset_result(self@, estimate),
    {
        if self.closed {
            return Err(XrError::SessionClosed);
        }
        if self.lost {
            return Err(XrError::RuntimeLost);
        }
        Ok(estimate)
    }

    /// Interns a path string in this session's registry.
    pub fn intern(&mut self, s: &str) -> (r: Result<Path, XrError>)
        requires
            old(self).wf(),
        ensures
            final(self).wf(),
            old(self)@.closed ==> r == Err::<Path, XrError>(XrError::SessionClosed)
                && final(self)@ == old(self)@,
            !old(self)@.closed && valid_path(s.spec_bytes()) ==> r == Ok::<Path, XrError>(
                Path { owner: old(self)@.id, index: slot_of(old(self)@.input.paths, s.spec_bytes()) as usize },
            ) && final(self)@ == (SessionModel {
                input: InputModel { paths: entries_after(old(self)@.input.paths, s.spec_bytes()), ..old(self)@.input },
                ..old(self)@
            }),
            !old(self)@.closed && !valid_path(s.spec_bytes()) ==> r == Err::<Path, XrError>(
                XrError::InvalidPath,
            ) && final(self)@ == old(self)@,
    {
        if self.closed {
            return Err(XrError::SessionClosed);
        }
        self.input.intern(s)
    }

    /// Binds `p` to the category `kind` and returns the handle; see
    /// [create_outcome] for when that fails.
    pub fn create_action(&mut self, kind: ActionKind, p: Path) -> (r: Result<Action, XrError>)
        requires
            old(self).wf(),
        ensures
            final(self).wf(),
            r == create_result(old(self)@, kind, p),
            final(self)@ == after_create(old(self)@, kind, p),
    {
        if self.closed {
            return Err(XrError::SessionClosed);
        }
        if self.lost {
            return Err(XrError::RuntimeLost);
        }
        self.input.create(kind, p)
    }

    /// Binds `p` as a boolean action.
    pub fn create_action_bool(&mut self, p: Path) -> (r: Result<Action, XrError>)
        requires
            old(self).wf(),
        ensures
            final(self).wf(),
            r == create_result(old(self)@, ActionKind::Boolean, p),
            final(self)@ == after_create(old(self)@, ActionKind::Boolean, p),
    {
        self.create_action(ActionKind::Boolean, p)
    }

    /// Binds `p` as a scalar action.
    pub fn create_action_float(&mut self, p: Path) -> (r: Result<Action, XrError>)
        requires
            old(self).wf(),
        ensures
            final(self).wf(),
            r == create_result(old(self)@, ActionKind::Float, p),
            final(self)@ == after_create(old(self)@, ActionKind::Float, p),
    {
        self.create_action(ActionKind::Float, p)
    }

    /// Binds `p` as a two-dimensional vector action.
    pub fn create_action_vec2(&mut self, p: Path) -> (r: Result<Action, XrError>)
        requires
            old(self).wf(),
        ensures
            final(self).wf(),
            r == create_result(old(self)@, ActionKind::Vector2, p),
            final(self)@ == after_create(old(self)@, ActionKind::Vector2, p),
    {
        self.create_action(ActionKind::Vector2, p)
    }

    /// Binds `p` as a pose action.
    pub fn create_action_pose(&mut self, p: Path) -> (r: Result<Action, XrError>)
        requires
            old(self).wf(),
        ensures
            final(self).wf(),
            r == create_result(old(self)@, ActionKind::Pose, p),
            final(self)@ == after_create(old(self)@, ActionKind::Pose, p),
    {
        self.create_action(ActionKind::Pose, p)
    }

    /// Binds `p` as a haptic output.
    pub fn create_action_haptics(&mut self, p: Path) -> (r: Result<Action, XrError>)
        requires
            old(self).wf(),
        ensures
            final(self).wf(),
            r == create_result(old(self)@, ActionKind::Haptic, p),
            final(self)@ == after_create(old(self)@, ActionKind::Haptic, p),
    {
        self.create_action(ActionKind::Haptic, p)
    }

    /// The current value of `a`, as the runtime reports it in `current`. Fails
    /// with `StaleAction` after teardown or for a handle this session does not hold.
    pub fn poll<T>(&self, a: &Action, current: T) -> (r: Result<T, XrError>)
        requires
            self.wf(),
        ensures
            r == poll_result(self@, *a, current),
    {
        if self.closed {
            return Err(XrError::StaleAction);
        }
        if self.lost {
            return Err(XrError::RuntimeLost);
        }
        if a.session != self.id {
            return Err(XrError::StaleAction);
        }
        match self.input.lookup(a.path) {
            Some(k) => {
                if k == a.kind {
                    Ok(current)
                } else {
                    Err(XrError::StaleAction)
                }
            },
            None => Err(XrError::StaleAction),
        }
    }

    /// Tears the session down: every handle and token it issued goes stale.
    pub fn teardown(&mut self)
        requires
            old(self).wf(),
        ensures
            final(self).wf(),
            final(self)@ == after_teardown(old(self)@),
    {
        self.closed = true;
        self.input.clear();
        assert(self@.input.bindings =~= Seq::<crate::input::Binding>::empty());
    }

    /// The number of bound actions.
    pub fn binding_count(&self) -> (r: usize)
        requires
            self.wf(),
        ensures
            r == self@.input.bindings.len(),
    {
        self.input.binding_count()
    }
}

} // verus!
