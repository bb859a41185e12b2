use xr_api::path::check_path;
use xr_api::{
    Action, ActionKind, FrameCycle, FrameData, FrameState, Instance, Path, PathRegistry,
    PixelFormat, RenderSession, Resolution, SessionCreateInfo, XrError,
};

fn info(view_count: usize) -> SessionCreateInfo {
    SessionCreateInfo {
        view_count,
        preferred_format: PixelFormat::Bgra8UnormSrgb,
        resolution: Resolution { width: 1832, height: 1920 },
    }
}

fn session(inst: &mut Instance, view_count: usize) -> RenderSession {
    inst.create_session(info(view_count)).unwrap()
}

fn run_cycle(s: &mut RenderSession) -> Result<Vec<u32>, XrError> {
    let token = s.wait_frame(true)?;
    s.begin_frame()?;
    let views = s.locate_views(Some(vec![0u32; s.view_count()]))?;
    s.end_frame(token)?;
    Ok(views)
}

#[test]
fn intern_twice_gives_same_path() {
    let mut reg = PathRegistry::new(7);
    let a = reg.intern("/user/hand/left/input/trigger/value").unwrap();
    let b = reg.intern("/user/hand/left/input/trigger/value").unwrap();
    assert_eq!(a, b);
    assert_eq!(a, Path { owner: 7, index: 0 });
    assert_eq!(reg.len(), 1);
}

#[test]
fn intern_distinct_paths_take_next_slots() {
    let mut reg = PathRegistry::new(3);
    let a = reg.intern("/user/head").unwrap();
    let b = reg.intern("/user/hand/right").unwrap();
    let c = reg.intern("/user/head").unwrap();
    assert_eq!(a.index, 0);
    assert_eq!(b.index, 1);
    assert_eq!(c, a);
    assert_eq!(reg.len(), 2);
}

#[test]
fn intern_rejects_malformed_paths() {
    let mut reg = PathRegistry::new(0);
    for bad in ["", "/", "user/head", "/user//head", "/user/head/", "/User/head", "/user head", "/ü"] {
        assert_eq!(reg.intern(bad), Err(XrError::InvalidPath), "{bad}");
    }
    assert_eq!(reg.len(), 0);
    assert!(reg.intern("/a-b_c.d/0/9").is_ok());
}

#[test]
fn path_syntax_check() {
    assert!(check_path(b"/x"));
    assert!(check_path(b"/interaction_profiles/khr/simple_controller"));
    assert!(!check_path(b"/x/"));
    assert!(!check_path(b"//x"));
    assert!(!check_path(b"x"));
    assert!(!check_path(b""));
}

#[test]
fn bool_then_float_fails() {
    let mut inst = Instance::new();
    let mut s = session(&mut inst, 2);
    let p = s.intern("/user/hand/left/input/select/click").unwrap();
    let a = s.create_action_bool(p).unwrap();
    assert_eq!(a.kind, ActionKind::Boolean);
    assert_eq!(s.create_action_float(p), Err(XrError::ActionCreationError));
    assert_eq!(s.binding_count(), 1);
}

#[test]
fn bool_twice_polls_identically() {
    let mut inst = Instance::new();
    let mut s = session(&mut inst, 2);
    let p = s.intern("/user/hand/left/input/select/click").unwrap();
    let a1 = s.create_action_bool(p).unwrap();
    let a2 = s.create_action_bool(p).unwrap();
    assert_eq!(a1, a2);
    assert_eq!(s.binding_count(), 1);
    assert_eq!(s.poll(&a1, true), Ok(true));
    assert_eq!(s.poll(&a2, true), Ok(true));
    assert_eq!(s.poll(&a1, false), s.poll(&a2, false));
}

#[test]
fn every_category_binds_and_polls() {
    let mut inst = Instance::new();
    let mut s = session(&mut inst, 2);
    let p1 = s.intern("/user/hand/left/input/trigger/value").unwrap();
    let p2 = s.intern("/user/hand/left/input/thumbstick").unwrap();
    let p3 = s.intern("/user/hand/left/input/grip/pose").unwrap();
    let p4 = s.intern("/user/hand/left/output/haptic").unwrap();
    let f = s.create_action_float(p1).unwrap();
    let v = s.create_action_vec2(p2).unwrap();
    let g = s.create_action_pose(p3).unwrap();
    let h = s.create_action_haptics(p4).unwrap();
    assert_eq!(s.poll(&f, 0.5f32), Ok(0.5f32));
    assert_eq!(s.poll(&v, (0.25f32, -1.0f32)), Ok((0.25f32, -1.0f32)));
    assert_eq!(g.kind, ActionKind::Pose);
    assert_eq!(h.kind, ActionKind::Haptic);
    assert_eq!(s.binding_count(), 4);
    assert_eq!(s.create_action(ActionKind::Float, p1), Ok(f));
    assert_eq!(s.create_action(ActionKind::Boolean, p2), Err(XrError::ActionCreationError));
}

#[test]
fn unknown_path_cannot_be_bound() {
    let mut inst = Instance::new();
    let mut a = session(&mut inst, 2);
    let mut b = session(&mut inst, 2);
    let pb = b.intern("/user/head").unwrap();
    assert_eq!(a.create_action_bool(pb), Err(XrError::ActionCreationError));
    let forged = Path { owner: a.id(), index: 5 };
    assert_eq!(a.create_action_bool(forged), Err(XrError::ActionCreationError));
    assert_eq!(a.binding_count(), 0);
}

#[test]
fn foreign_or_mistyped_handle_is_stale() {
    let mut inst = Instance::new();
    let mut a = session(&mut inst, 2);
    let mut b = session(&mut inst, 2);
    let pa = a.intern("/user/head").unwrap();
    let pb = b.intern("/user/head").unwrap();
    let ha = a.create_action_pose(pa).unwrap();
    let hb = b.create_action_pose(pb).unwrap();
    assert_eq!(a.poll(&hb, 1u8), Err(XrError::StaleAction));
    let wrong_kind = Action { kind: ActionKind::Boolean, ..ha };
    assert_eq!(a.poll(&wrong_kind, 1u8), Err(XrError::StaleAction));
    assert_eq!(a.poll(&ha, 1u8), Ok(1u8));
}

#[test]
fn begin_without_wait_is_out_of_order() {
    let mut inst = Instance::new();
    let mut s = session(&mut inst, 2);
    assert_eq!(s.begin_frame(), Err(XrError::OutOfOrder));
    assert_eq!(s.state(), FrameState::Idle);
    let t = s.wait_frame(true).unwrap();
    s.begin_frame().unwrap();
    assert_eq!(s.begin_frame(), Err(XrError::OutOfOrder));
    s.end_frame(t).unwrap();
    assert_eq!(s.begin_frame(), Err(XrError::OutOfOrder));
}

#[test]
fn end_with_token_of_other_cycle_is_mismatched() {
    let mut inst = Instance::new();
    let mut a = session(&mut inst, 2);
    let mut b = session(&mut inst, 2);
    let ta = a.wait_frame(true).unwrap();
    let tb = b.wait_frame(true).unwrap();
    a.begin_frame().unwrap();
    assert_eq!(a.end_frame(tb), Err(XrError::MismatchedFrame));
    let stale = FrameData { session: a.id(), cycle: ta.cycle + 1 };
    assert_eq!(a.end_frame(stale), Err(XrError::MismatchedFrame));
    assert_eq!(a.state(), FrameState::FrameBegun);
    assert_eq!(a.end_frame(ta), Ok(()));
    assert_eq!(a.state(), FrameState::Idle);
}

#[test]
fn end_before_begin_is_out_of_order() {
    let mut inst = Instance::new();
    let mut s = session(&mut inst, 2);
    let t = s.wait_frame(true).unwrap();
    let copy = FrameData { session: t.session, cycle: t.cycle };
    assert_eq!(s.end_frame(copy), Err(XrError::OutOfOrder));
    assert_eq!(s.state(), FrameState::FrameWaited);
}

#[test]
fn wait_twice_is_out_of_order() {
    let mut inst = Instance::new();
    let mut s = session(&mut inst, 2);
    let t = s.wait_frame(true).unwrap();
    assert_eq!(t.cycle, 1);
    assert_eq!(s.wait_frame(true), Err(XrError::OutOfOrder));
}

#[test]
fn full_cycle_returns_to_idle() {
    let mut inst = Instance::new();
    let mut s = session(&mut inst, 2);
    let t = s.wait_frame(true).unwrap();
    assert_eq!(s.state(), FrameState::FrameWaited);
    s.begin_frame().unwrap();
    assert_eq!(s.state(), FrameState::FrameBegun);
    assert_eq!(s.locate_views(Some(vec!['l', 'r'])), Ok(vec!['l', 'r']));
    assert_eq!(s.end_frame(t), Ok(()));
    assert_eq!(s.state(), FrameState::Idle);
    let t2 = s.wait_frame(true).unwrap();
    assert_eq!(t2.cycle, 2);
}

#[test]
fn locate_before_begin_is_out_of_order() {
    let mut inst = Instance::new();
    let mut s = session(&mut inst, 2);
    assert_eq!(s.locate_views(Some(vec![1u8, 2u8])), Err(XrError::OutOfOrder));
    assert!(!s.is_lost());
}

#[test]
fn teardown_stales_actions_and_tokens() {
    let mut inst = Instance::new();
    let mut s = session(&mut inst, 2);
    let p = s.intern("/user/hand/right/input/a/click").unwrap();
    let a = s.create_action_bool(p).unwrap();
    let t = s.wait_frame(true).unwrap();
    s.begin_frame().unwrap();
    s.teardown();
    assert!(s.is_closed());
    assert_eq!(s.poll(&a, true), Err(XrError::StaleAction));
    assert_eq!(s.end_frame(t), Err(XrError::SessionClosed));
    assert_eq!(s.binding_count(), 0);
    assert_eq!(s.wait_frame(true), Err(XrError::SessionClosed));
    assert_eq!(s.create_action_bool(p), Err(XrError::SessionClosed));
    assert_eq!(s.intern("/user/head"), Err(XrError::SessionClosed));
    assert_eq!(s.headset_location(0u8), Err(XrError::SessionClosed));
}

#[test]
fn headset_location_in_every_state() {
    let mut inst = Instance::new();
    let mut s = session(&mut inst, 2);
    assert_eq!(s.headset_location([0.0f32, 1.6, 0.0]), Ok([0.0f32, 1.6, 0.0]));
    let t = s.wait_frame(true).unwrap();
    assert_eq!(s.headset_location(1u8), Ok(1u8));
    s.begin_frame().unwrap();
    assert_eq!(s.headset_location(2u8), Ok(2u8));
    s.locate_views(Some(vec![(), ()])).unwrap();
    assert_eq!(s.headset_location(3u8), Ok(3u8));
    s.end_frame(t).unwrap();
    assert_eq!(s.headset_location(4u8), Ok(4u8));
}

#[test]
fn thousand_cycles_with_two_views() {
    let mut inst = Instance::new();
    let mut s = session(&mut inst, 2);
    let p = s.intern("/user/hand/left/input/trigger/value").unwrap();
    let a = s.create_action_float(p).unwrap();
    for i in 0..1000u64 {
        let views = run_cycle(&mut s).unwrap();
        assert_eq!(views.len(), 2);
        assert_eq!(s.state(), FrameState::Idle);
        assert_eq!(s.binding_count(), 1);
        assert_eq!(s.poll(&a, i as f32), Ok(i as f32));
    }
    assert_eq!(s.wait_frame(true).unwrap().cycle, 1001);
}

#[test]
fn lost_display_is_fatal() {
    let mut inst = Instance::new();
    let mut s = session(&mut inst, 2);
    let p = s.intern("/user/head").unwrap();
    let a = s.create_action_pose(p).unwrap();
    assert_eq!(s.wait_frame(false), Err(XrError::RuntimeLost));
    assert!(s.is_lost());
    assert_eq!(s.state(), FrameState::Idle);
    assert_eq!(s.wait_frame(true), Err(XrError::RuntimeLost));
    assert_eq!(s.begin_frame(), Err(XrError::RuntimeLost));
    assert_eq!(s.poll(&a, 0u8), Err(XrError::RuntimeLost));
    assert_eq!(s.headset_location(0u8), Err(XrError::RuntimeLost));
    assert_eq!(s.create_action_pose(p), Err(XrError::RuntimeLost));
}

#[test]
fn lost_tracking_is_fatal() {
    let mut inst = Instance::new();
    let mut s = session(&mut inst, 2);
    let t = s.wait_frame(true).unwrap();
    s.begin_frame().unwrap();
    assert_eq!(s.locate_views::<u8>(None), Err(XrError::RuntimeLost));
    assert!(s.is_lost());
    assert_eq!(s.end_frame(t), Err(XrError::RuntimeLost));
}

#[test]
fn wrong_view_count_is_lost_tracking() {
    let mut inst = Instance::new();
    let mut s = session(&mut inst, 2);
    s.wait_frame(true).unwrap();
    s.begin_frame().unwrap();
    assert_eq!(s.locate_views(Some(vec![1u8])), Err(XrError::RuntimeLost));
    assert!(s.is_lost());
}

#[test]
fn queries_hold_in_every_state() {
    let mut inst = Instance::new();
    let mut s = session(&mut inst, 2);
    assert_eq!(s.resolution(), Resolution { width: 1832, height: 1920 });
    assert_eq!(s.format(), PixelFormat::Bgra8UnormSrgb);
    s.wait_frame(true).unwrap();
    assert_eq!(s.resolution(), Resolution { width: 1832, height: 1920 });
    assert_eq!(s.format(), PixelFormat::Bgra8UnormSrgb);
    assert_eq!(s.view_count(), 2);
    assert_eq!(s.state(), FrameState::FrameWaited);
}

#[test]
fn instance_issues_distinct_sessions() {
    let mut inst = Instance::new();
    let a = session(&mut inst, 2);
    let b = session(&mut inst, 1);
    assert_eq!(a.id(), 0);
    assert_eq!(b.id(), 1);
    assert_eq!(b.view_count(), 1);
    assert_eq!(a.state(), FrameState::Idle);
}

#[test]
fn frame_cycle_number_wraps() {
    let mut f = FrameCycle { state: FrameState::Idle, cycle: u64::MAX };
    assert_eq!(f.wait(), Ok(0));
    assert_eq!(f.begin(), Ok(()));
    assert_eq!(f.end(u64::MAX), Err(XrError::MismatchedFrame));
    assert_eq!(f.end(0), Ok(()));
    assert_eq!(f, FrameCycle { state: FrameState::Idle, cycle: 0 });
}
