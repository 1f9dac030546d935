use orbit_sandbox::clock::Clock;
use orbit_sandbox::math::SCALE;
use orbit_sandbox::metrics::{build_title, should_report, u32_decimal, Metrics};
use orbit_sandbox::session::{FrameAction, InputEvent, Key, Session};

const TICK_NS: u64 = 16_666_667; // one sixtieth of a second

#[test]
fn three_elapsed_ticks_drive_exactly_three_cycles() {
    let mut clock = Clock::new(TICK_NS);
    clock.advance(3 * TICK_NS);
    let mut cycles = 0;
    while clock.has_pending_tick() {
        clock.consume_tick();
        cycles += 1;
    }
    assert_eq!(cycles, 3);
    assert_eq!(clock.acc_ns, 0);
}

#[test]
fn fractional_tick_remainders_are_preserved() {
    let mut clock = Clock::new(TICK_NS);
    clock.advance(2 * TICK_NS + 123);
    assert_eq!(clock.pending(), 2);
    let mut cycles = 0;
    while clock.has_pending_tick() {
        clock.consume_tick();
        cycles += 1;
    }
    assert_eq!(cycles, 2);
    assert_eq!(clock.acc_ns, 123);
    clock.advance(TICK_NS - 123);
    assert_eq!(clock.pending(), 1);
}

#[test]
fn metrics_tick_counter_wraps_at_the_update_rate() {
    let mut m = Metrics::new(60);
    for _ in 0..59 {
        m.count_update();
    }
    assert_eq!(m.clk, 59);
    m.count_update();
    assert_eq!(m.clk, 0);
    assert_eq!(m.updates, 60);
}

#[test]
fn take_report_resets_the_counters() {
    let mut m = Metrics::new(60);
    m.count_update();
    m.count_update();
    m.count_render();
    assert_eq!(m.take_report(), (2, 1));
    assert_eq!((m.updates, m.frames), (0, 0));
}

#[test]
fn reports_are_due_after_more_than_one_second() {
    assert!(!should_report(0));
    assert!(!should_report(1));
    assert!(should_report(2));
}

#[test]
fn decimal_rendering_is_exact() {
    assert_eq!(u32_decimal(0), "0");
    assert_eq!(u32_decimal(7), "7");
    assert_eq!(u32_decimal(60), "60");
    assert_eq!(u32_decimal(1_234_567_890), "1234567890");
    assert_eq!(u32_decimal(u32::MAX), "4294967295");
}

#[test]
fn the_title_line_has_the_documented_shape() {
    assert_eq!(
        build_title("Protect Joe", 60, 59),
        "Protect Joe | Updates: 60 | FPS: 59"
    );
}

#[test]
fn a_fresh_report_line_shows_zeros() {
    assert_eq!(build_title("T", 0, 0), "T | Updates: 0 | FPS: 0");
}

#[test]
fn stopping_leaves_the_camera_untouched() {
    let mut s = Session::new(TICK_NS, 60, SCALE);
    let before = (s.camera.distance, s.camera.rotation, s.camera.target);
    s.handle_event(&InputEvent::KeyDown(Key::Escape));
    assert_eq!((s.camera.distance, s.camera.rotation, s.camera.target), before);
}

#[test]
fn quit_and_escape_stop_the_session() {
    let mut s = Session::new(TICK_NS, 60, SCALE);
    assert!(s.running);
    assert_eq!(s.handle_event(&InputEvent::Quit), FrameAction::Stop);
    assert!(!s.running);

    let mut s2 = Session::new(TICK_NS, 60, SCALE);
    assert_eq!(s2.handle_event(&InputEvent::KeyDown(Key::Escape)), FrameAction::Stop);
    assert!(!s2.running);
}

#[test]
fn resize_events_update_the_camera_and_reapply_the_viewport() {
    let mut s = Session::new(TICK_NS, 60, SCALE);
    let a = s.handle_event(&InputEvent::WindowResized { w: 1024, h: 768 });
    assert_eq!(a, FrameAction::ApplyViewport { w: 1024, h: 768 });
    assert_eq!(s.camera.aspect_ratio(), (1024, 768));
    assert!(s.running);
}

#[test]
fn wheel_events_zoom_the_camera() {
    let mut s = Session::new(TICK_NS, 60, SCALE);
    let a = s.handle_event(&InputEvent::MouseWheel { y: -1 });
    assert_eq!(a, FrameAction::Proceed);
    assert_eq!(s.camera.distance, 1_100_000);
}

#[test]
fn key_events_toggle_movement_flags() {
    let mut s = Session::new(TICK_NS, 60, SCALE);
    s.handle_event(&InputEvent::KeyDown(Key::Forward));
    assert!(s.camera.flags.forward);
    s.handle_event(&InputEvent::KeyUp(Key::Forward));
    assert!(!s.camera.flags.forward);
    s.handle_event(&InputEvent::KeyDown(Key::Faster));
    assert!(s.camera.flags.faster);
}

#[test]
fn mouse_motion_rotates_only_while_the_button_is_held() {
    let mut s = Session::new(TICK_NS, 60, SCALE);
    s.handle_event(&InputEvent::MouseMotion { dx: 50, dy: 10, rotating: false });
    assert_eq!(s.camera.rotation.y, 0);
    s.handle_event(&InputEvent::MouseMotion { dx: 50, dy: 10, rotating: true });
    assert_ne!(s.camera.rotation.y, 0);
}

#[test]
fn a_full_frame_of_the_loop_counts_its_cycles() {
    let mut s = Session::new(TICK_NS, 60, SCALE);
    s.advance_time(3 * TICK_NS);
    let mut cycles = 0;
    while s.tick_pending() {
        s.handle_event(&InputEvent::Other);
        s.tick_movement();
        s.complete_cycle();
        cycles += 1;
    }
    assert_eq!(cycles, 3);
    assert_eq!(s.metrics.updates, 3);
    assert_eq!(s.metrics.frames, 3);
    assert_eq!(s.metrics.clk, 3);
}
