use liquid_glass::{FramePlan, GlassState, Teardown};

#[test]
fn new_effect_runs_with_its_tint() {
    let s = GlassState::new((1, 2, 3));
    assert!(s.is_running());
    assert_eq!(s.tint(), (1, 2, 3));
}

#[test]
fn first_frame_sizes_the_canvas() {
    let mut s = GlassState::new((255, 255, 255));
    assert_eq!(
        s.plan_frame(300, 150),
        FramePlan::Draw { width: 300, height: 150, resize: Some((300, 150)) }
    );
}

#[test]
fn same_size_draws_without_resizing() {
    let mut s = GlassState::new((255, 255, 255));
    s.plan_frame(300, 150);
    assert_eq!(s.plan_frame(300, 150), FramePlan::Draw { width: 300, height: 150, resize: None });
    assert_eq!(
        s.plan_frame(301, 150),
        FramePlan::Draw { width: 301, height: 150, resize: Some((301, 150)) }
    );
    assert_eq!(
        s.plan_frame(301, 149),
        FramePlan::Draw { width: 301, height: 149, resize: Some((301, 149)) }
    );
}

#[test]
fn empty_element_draws_nothing() {
    let mut s = GlassState::new((255, 255, 255));
    assert_eq!(s.plan_frame(0, 100), FramePlan::Skip);
    assert_eq!(s.plan_frame(100, 0), FramePlan::Skip);
    assert_eq!(s.plan_frame(-5, -5), FramePlan::Skip);
    s.plan_frame(40, 30);
    assert_eq!(s.plan_frame(0, 0), FramePlan::Skip);
    // the skipped frame did not forget the size last drawn at
    assert_eq!(s.plan_frame(40, 30), FramePlan::Draw { width: 40, height: 30, resize: None });
}

#[test]
fn set_tint_reads_hex() {
    let mut s = GlassState::new((255, 255, 255));
    s.set_tint("#ffd166");
    assert_eq!(s.tint(), (0xff, 0xd1, 0x66));
    s.set_tint("not a colour");
    assert_eq!(s.tint(), (255, 255, 255));
}

#[test]
fn destroy_cancels_frame_and_listener() {
    let mut s = GlassState::new((255, 255, 255));
    s.frame_requested(4);
    s.frame_requested(5);
    s.pointer_tracking_started();
    let t = s.destroy();
    assert_eq!(t, Teardown { cancel_frame: Some(5), remove_pointer_listener: true });
    assert!(!s.is_running());
}

#[test]
fn destroy_without_frame_or_listener() {
    let mut s = GlassState::new((255, 255, 255));
    assert_eq!(s.destroy(), Teardown { cancel_frame: None, remove_pointer_listener: false });
}

#[test]
fn destroy_twice() {
    let mut s = GlassState::new((255, 255, 255));
    s.frame_requested(9);
    s.pointer_tracking_started();
    s.destroy();
    let second = s.destroy();
    assert_eq!(second, Teardown { cancel_frame: Some(9), remove_pointer_listener: false });
    assert!(!s.is_running());
}

#[test]
fn destroyed_effect_stays_stopped() {
    let mut s = GlassState::new((255, 255, 255));
    s.destroy();
    s.set_tint("#000000");
    s.plan_frame(10, 10);
    s.frame_requested(3);
    s.pointer_tracking_started();
    assert!(!s.is_running());
}
