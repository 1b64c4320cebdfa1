use countdown_timer::controller::handle_event;
use countdown_timer::controller::ControlCommand;
use countdown_timer::controller::TimerEvent;
use countdown_timer::controller::TICK_INTERVAL_MS;
use countdown_timer::data::TimerData;
use countdown_timer::data::TimerState;
use countdown_timer::display::format_mm_ss;
use countdown_timer::start_button::StartButton;

#[test]
fn paused_remaining_ignores_the_clock() {
    let t = TimerData::new(5_000, 42_000, TimerState::Paused);
    assert_eq!(t.remaining_seconds(0), 42);
    assert_eq!(t.remaining_seconds(5_000), 42);
    assert_eq!(t.remaining_seconds(1_000_000), 42);
}

#[test]
fn running_remaining_counts_down_and_floors_at_zero() {
    let t = TimerData::new(1_000, 10_000, TimerState::Running);
    assert_eq!(t.remaining_seconds(1_000), 10);
    assert_eq!(t.remaining_seconds(4_500), 6); // 6.5s left, truncated
    assert_eq!(t.remaining_seconds(11_000), 0);
    assert_eq!(t.remaining_seconds(50_000), 0); // long overrun stays clamped
}

#[test]
fn running_remaining_clamps_a_backwards_clock() {
    let t = TimerData::new(10_000, 3_000, TimerState::Running);
    // A reading earlier than the start counts as no elapsed time.
    assert_eq!(t.remaining_seconds(4_000), 3);
}

#[test]
fn is_expired_is_a_pure_time_comparison() {
    let t = TimerData::new(1_000, 10_000, TimerState::Running);
    assert!(!t.is_expired(10_999));
    assert!(t.is_expired(11_000));
    assert!(t.is_expired(999_999));
    // Independent of the state.
    let p = TimerData::new(1_000, 10_000, TimerState::Paused);
    assert!(p.is_expired(11_000));
    assert!(!p.is_expired(10_999));
}

#[test]
fn check_timed_out_transitions_and_is_idempotent() {
    let mut t = TimerData::new(0, 1_000, TimerState::Running);
    t.check_timed_out(500);
    assert!(t.get_state() == TimerState::Running);
    t.check_timed_out(1_000);
    assert!(t.get_state() == TimerState::Expired);
    assert_eq!(t.remaining_seconds(1_000), 0);
    let display_after_first = t.to_string(2_000);
    t.check_timed_out(2_000);
    assert!(t.get_state() == TimerState::Expired);
    assert_eq!(t.to_string(2_000), display_after_first);
}

#[test]
fn resume_only_acts_on_a_paused_timer() {
    let mut t = TimerData::new(0, 60_000, TimerState::Paused);
    t.resume(7_000);
    assert!(t.get_state() == TimerState::Running);
    assert_eq!(t.remaining_seconds(7_000), 60);

    let mut running = TimerData::new(3_000, 9_000, TimerState::Running);
    running.resume(8_000);
    assert!(running.get_state() == TimerState::Running);
    assert_eq!(running.remaining_seconds(8_000), 4);

    let mut expired = TimerData::new(0, 0, TimerState::Expired);
    expired.resume(8_000);
    assert!(expired.get_state() == TimerState::Expired);
}

#[test]
fn pause_stores_the_remaining_time() {
    // Construct with 60s, running; pause after 10s.
    let mut t = TimerData::new(0, 60_000, TimerState::Running);
    t.pause(10_000);
    assert!(t.get_state() == TimerState::Paused);
    assert_eq!(t.remaining_seconds(10_000), 50);
    assert_eq!(t.remaining_seconds(500_000), 50);
}

#[test]
fn pause_clamps_an_overrun_timer_to_zero() {
    let mut t = TimerData::new(0, 1_000, TimerState::Running);
    t.pause(5_000);
    assert!(t.get_state() == TimerState::Paused);
    assert_eq!(t.remaining_seconds(5_000), 0);
}

#[test]
fn pause_then_resume_keeps_remaining_seconds() {
    let mut t = TimerData::new(0, 60_000, TimerState::Running);
    let before = t.remaining_seconds(10_000);
    t.pause(10_000);
    t.resume(10_000);
    assert_eq!(t.remaining_seconds(10_000), before);
    // And the countdown continues as if never interrupted.
    assert_eq!(t.remaining_seconds(25_000), 35);
}

#[test]
fn formatting_pads_to_two_digits() {
    assert_eq!(format_mm_ss(0), "00:00");
    assert_eq!(format_mm_ss(61), "01:01");
    assert_eq!(format_mm_ss(50), "00:50");
    assert_eq!(format_mm_ss(9), "00:09");
    assert_eq!(format_mm_ss(60), "01:00");
    assert_eq!(format_mm_ss(599), "09:59");
    assert_eq!(format_mm_ss(3_599), "59:59");
    assert_eq!(format_mm_ss(5_999), "99:59");
    // Beyond 99 minutes the minute field just grows.
    assert_eq!(format_mm_ss(6_000), "100:00");
}

#[test]
fn to_string_renders_the_remaining_time() {
    let t = TimerData::new(0, 61_900, TimerState::Paused);
    assert_eq!(t.to_string(0), "01:01");
    let r = TimerData::new(0, 61_900, TimerState::Running);
    assert_eq!(r.to_string(1_900), "01:00");
}

#[test]
fn scenario_resume_then_expire_on_a_tick() {
    // Construct with 60s, paused; resume; 60.2s later a tick fires.
    let mut t = TimerData::new(0, 60_000, TimerState::Paused);
    t.resume(1_000);
    let cmd = handle_event(&mut t, TimerEvent::Tick, 61_200);
    assert!(t.get_state() == TimerState::Expired);
    assert_eq!(t.remaining_seconds(61_200), 0);
    assert_eq!(t.to_string(61_200), "00:00");
    assert!(cmd.schedule_tick);
    assert!(cmd.refresh_display);
}

#[test]
fn connected_event_starts_the_tick_cycle() {
    let mut t = TimerData::new(0, 60_000, TimerState::Paused);
    let cmd = handle_event(&mut t, TimerEvent::Connected, 0);
    assert_eq!(
        cmd,
        ControlCommand { schedule_tick: true, refresh_display: false }
    );
    assert!(t.get_state() == TimerState::Paused);
    assert_eq!(t.remaining_seconds(0), 60);
}

#[test]
fn button_click_toggles_and_ignores_expired() {
    let mut t = TimerData::new(0, 60_000, TimerState::Paused);
    let cmd = handle_event(&mut t, TimerEvent::ButtonClick, 2_000);
    assert!(t.get_state() == TimerState::Running);
    assert_eq!(
        cmd,
        ControlCommand { schedule_tick: false, refresh_display: false }
    );

    handle_event(&mut t, TimerEvent::ButtonClick, 12_000);
    assert!(t.get_state() == TimerState::Paused);
    assert_eq!(t.remaining_seconds(99_000), 50);

    let mut expired = TimerData::new(0, 0, TimerState::Expired);
    handle_event(&mut expired, TimerEvent::ButtonClick, 5_000);
    assert!(expired.get_state() == TimerState::Expired);
}

#[test]
fn ticks_keep_coming_whatever_the_state() {
    let mut paused = TimerData::new(0, 60_000, TimerState::Paused);
    assert!(handle_event(&mut paused, TimerEvent::Tick, 100).schedule_tick);
    let mut expired = TimerData::new(0, 0, TimerState::Expired);
    assert!(handle_event(&mut expired, TimerEvent::Tick, 100).schedule_tick);
    assert_eq!(TICK_INTERVAL_MS, 200);
}

#[test]
fn start_button_constructs() {
    let _b = StartButton::new();
}
