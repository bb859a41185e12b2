use vstd::prelude::*;

use crate::error::XrError;
use crate::frame::{FrameCycle, FrameState};
use crate::input::{bound_kind, Action, ActionKind, Binding};
use crate::path::{distinct_entries, entries_after, slot_of, valid_path, Path};
use crate::session::{
    after_begin, after_create, after_end, after_locate, after_teardown, after_wait, begin_result,
    create_result, end_result, standing_error, headset_result, locate_result, poll_result, wait_result,
    with_frame, FrameData, SessionModel,
};

verus! {

/// Binding an unbound path makes it bound to the new category.
proof fn lemma_bound_after_push(bs: Seq<Binding>, b: Binding)
    requires
        bound_kind(bs, b.path) is None,
    ensures
        bound_kind(bs.push(b), b.path) == Some(b.kind),
{
    let bs2 = bs.push(b);
    assert(bs2[bs.len() as int].path == b.path);
    let i = choose|i: int| 0 <= i < bs2.len() && bs2[i].path == b.path;
    if i < bs.len() {
        assert(bs[i].path == b.path);
    }
}

/// Interning a valid path a second time returns the same path and leaves the
/// registry as the first time left it.
pub proof fn intern_is_idempotent(entries: Seq<Seq<u8>>, s: Seq<u8>)
    requires
        distinct_entries(entries),
        valid_path(s),
    ensures
        slot_of(entries_after(entries, s), s) == slot_of(entries, s),
        entries_after(entries_after(entries, s), s) == entries_after(entries, s),
{
    if !(exists|i: int| 0 <= i < entries.len() && entries[i] == s) {
        let e1 = entries.push(s);
        assert(e1[entries.len() as int] == s);
        let i = choose|i: int| 0 <= i < e1.len() && e1[i] == s;
        if i < entries.len() {
            assert(entries[i] == s);
        }
    }
}

/// Once a path is bound as a boolean, binding it as a scalar fails with
/// `ActionCreationError`.
pub proof fn bool_then_float_fails(m: SessionModel, p: Path)
    requires
        create_result(m, ActionKind::Boolean, p) is Ok,
    ensures
        create_result(after_create(m, ActionKind::Boolean, p), ActionKind::Float, p) == Err::<
            Action,
            XrError,
        >(XrError::ActionCreationError),
{
    if bound_kind(m.input.bindings, p) is None {
        lemma_bound_after_push(m.input.bindings, Binding { path: p, kind: ActionKind::Boolean });
    }
}

/// Binding a path as a boolean twice succeeds both times with the same handle,
/// adds nothing the second time, and that handle polls to the runtime's value.
pub proof fn bool_twice_polls_identically<T>(m: SessionModel, p: Path, current: T)
    requires
        m.input.owner == m.id,
        create_result(m, ActionKind::Boolean, p) is Ok,
    ensures
        create_result(after_create(m, ActionKind::Boolean, p), ActionKind::Boolean, p)
            == create_result(m, ActionKind::Boolean, p),
        after_create(after_create(m, ActionKind::Boolean, p), ActionKind::Boolean, p)
            == after_create(m, ActionKind::Boolean, p),
        poll_result(
            after_create(m, ActionKind::Boolean, p),
            create_result(m, ActionKind::Boolean, p)->Ok_0,
            current,
        ) == Ok::<T, XrError>(current),
{
    if bound_kind(m.input.bindings, p) is None {
        lemma_bound_after_push(m.input.bindings, Binding { path: p, kind: ActionKind::Boolean });
    }
}

/// `begin_frame` fails with `OutOfOrder` unless a frame was waited for.
pub proof fn begin_without_wait_fails(m: SessionModel)
    requires
        standing_error(m) is None,
        m.frame.state != FrameState::FrameWaited,
    ensures
        begin_result(m) == Err::<(), XrError>(XrError::OutOfOrder),
        after_begin(m) == m,
{
}

/// `end_frame` on a begun frame with a token of another cycle or session fails
/// with `MismatchedFrame` and leaves the frame begun.
pub proof fn end_with_foreign_token_fails(m: SessionModel, d: FrameData)
    requires
        standing_error(m) is None,
        m.frame.state == FrameState::FrameBegun,
        d.session != m.id || d.cycle != m.frame.cycle,
    ensures
        end_result(m, d) == Err::<(), XrError>(XrError::MismatchedFrame),
        after_end(m, d) == m,
{
}

/// From `Idle`, wait, begin, locate and end with the waited token all succeed,
/// return the session to `Idle` with its bindings and paths untouched, and a
/// next wait succeeds.
pub proof fn full_cycle_returns_to_idle<V>(m: SessionModel, views: Vec<V>)
    requires
        standing_error(m) is None,
        m.frame.state == FrameState::Idle,
        views@.len() == m.info.view_count,
    ensures
        ({
            let m1 = after_wait(m, true);
            let t = wait_result(m, true)->Ok_0;
            let m2 = after_begin(m1);
            let m3 = after_locate(m2, Some(views));
            let m4 = after_end(m3, t);
            &&& wait_result(m, true) is Ok
            &&& begin_result(m1) is Ok
            &&& locate_result(m2, Some(views)) == Ok::<Vec<V>, XrError>(views)
            &&& end_result(m3, t) is Ok
            &&& m4.frame.state == FrameState::Idle
            &&& m4.input == m.input
            &&& standing_error(m4) is None
            &&& wait_result(m4, true) is Ok
        }),
{
}

/// After teardown every handle fails to poll with `StaleAction` and every
/// token fails `end_frame` with `SessionClosed`.
pub proof fn teardown_stales_everything<T>(m: SessionModel, a: Action, current: T, d: FrameData)
    ensures
        poll_result(after_teardown(m), a, current) == Err::<T, XrError>(XrError::StaleAction),
        end_result(after_teardown(m), d) == Err::<(), XrError>(XrError::SessionClosed),
{
}

/// While the session is open and the runtime is not lost, `headset_location`
/// succeeds whatever the frame state.
pub proof fn headset_in_every_state<P>(m: SessionModel, estimate: P, f: FrameCycle)
    requires
        !m.closed,
        !m.lost,
    ensures
        headset_result(with_frame(m, f), estimate) == Ok::<P, XrError>(estimate),
{
}

} // verus!
