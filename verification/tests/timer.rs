use pomodoro::timer::{App, PomoColor, PomoState, Settings};

fn settings_ms(work: u64, short: u64, long: u64, cycles: u32) -> Settings {
    Settings {
        work_time: work,
        short_wait_time: short,
        long_wait_time: long,
        work_cycles: cycles,
        dark_mode: false,
    }
}

#[test]
fn settings_new_converts_minutes_to_millis() {
    let s = Settings::new(25, 5, 20, 4, true);
    assert_eq!(s.work_time, 25 * 60000);
    assert_eq!(s.short_wait_time, 5 * 60000);
    assert_eq!(s.long_wait_time, 20 * 60000);
    assert_eq!(s.work_cycles, 4);
    assert!(s.dark_mode);
}

#[test]
fn get_inner_projects_the_countdown() {
    assert_eq!(PomoState::Menu.get_inner(), None);
    assert_eq!(PomoState::Work { time_left: 5 }.get_inner(), Some(5));
    assert_eq!(PomoState::ShortWait { time_left: 9 }.get_inner(), Some(9));
    assert_eq!(PomoState::LongWait { time_left: 2 }.get_inner(), Some(2));
}

#[test]
fn new_session_is_idle_and_unpaused() {
    let app = App::new(settings_ms(10, 5, 7, 3), 42);
    assert_eq!(app.state, PomoState::Menu);
    assert_eq!(app.cycle, None);
    assert!(!app.paused);
    assert_eq!(app.last_update_time, 42);
}

#[test]
fn one_tick_before_the_work_boundary_leaves_one_millisecond() {
    let work: u64 = 25 * 60000;
    let mut app = App::new(settings_ms(work, 5 * 60000, 20 * 60000, 4), 0);
    app.start(1000);
    app.advance(1000 + work as u128 - 1);
    assert_eq!(app.state, PomoState::Work { time_left: 1 });
    assert_eq!(app.cycle, Some(4));
}

#[test]
fn exhausting_work_starts_a_short_break_when_cycles_remain() {
    let work: u64 = 25 * 60000;
    let mut app = App::new(settings_ms(work, 5 * 60000, 20 * 60000, 4), 0);
    app.start(1000);
    app.advance(1000 + work as u128);
    assert_eq!(app.state, PomoState::ShortWait { time_left: 5 * 60000 });
    assert_eq!(app.cycle, Some(4));
}

#[test]
fn exhausting_work_starts_the_long_break_on_a_single_cycle_set() {
    let work: u64 = 25 * 60000;
    let mut app = App::new(settings_ms(work, 5 * 60000, 20 * 60000, 1), 0);
    app.start(1000);
    app.advance(1000 + work as u128);
    assert_eq!(app.state, PomoState::LongWait { time_left: 20 * 60000 });
    assert_eq!(app.cycle, Some(1));
}

/// Drives the running phase to exhaustion with a single late tick.
fn exhaust(app: &mut App) {
    let left: u64 = app.state.get_inner().expect("a countdown must be running");
    app.advance(app.last_update_time + left as u128);
}

#[test]
fn three_cycle_set_loops_back_to_the_full_count() {
    let mut app = App::new(settings_ms(10, 5, 7, 3), 0);
    app.start(100);
    assert_eq!(app.state, PomoState::Work { time_left: 10 });
    assert_eq!(app.cycle, Some(3));
    exhaust(&mut app);
    assert_eq!(app.state, PomoState::ShortWait { time_left: 5 });
    assert_eq!(app.cycle, Some(3));
    exhaust(&mut app);
    assert_eq!(app.state, PomoState::Work { time_left: 10 });
    assert_eq!(app.cycle, Some(2));
    exhaust(&mut app);
    assert_eq!(app.state, PomoState::ShortWait { time_left: 5 });
    assert_eq!(app.cycle, Some(2));
    exhaust(&mut app);
    assert_eq!(app.state, PomoState::Work { time_left: 10 });
    assert_eq!(app.cycle, Some(1));
    exhaust(&mut app);
    assert_eq!(app.state, PomoState::LongWait { time_left: 7 });
    assert_eq!(app.cycle, Some(1));
    exhaust(&mut app);
    assert_eq!(app.state, PomoState::Work { time_left: 10 });
    assert_eq!(app.cycle, Some(3));
}

#[test]
fn overshoot_is_discarded_at_a_transition() {
    let mut app = App::new(settings_ms(10, 5, 7, 2), 0);
    app.start(100);
    // 40 ms late past the boundary: the short break still starts in full.
    app.advance(150);
    assert_eq!(app.state, PomoState::ShortWait { time_left: 5 });
}

#[test]
fn paused_ticks_change_only_the_recorded_time() {
    let mut app = App::new(settings_ms(10, 5, 7, 2), 0);
    app.start(100);
    app.toggle_pause();
    assert!(app.paused);
    app.advance(1_000_000);
    assert_eq!(app.state, PomoState::Work { time_left: 10 });
    assert_eq!(app.cycle, Some(2));
    assert_eq!(app.last_update_time, 1_000_000);
    app.advance(u128::MAX);
    assert_eq!(app.state, PomoState::Work { time_left: 10 });
    assert_eq!(app.cycle, Some(2));
    assert_eq!(app.last_update_time, u128::MAX);
}

#[test]
fn resuming_after_a_pause_applies_no_jump() {
    let mut app = App::new(settings_ms(100, 5, 7, 2), 0);
    app.start(100);
    app.toggle_pause();
    app.advance(10_000);
    app.toggle_pause();
    assert!(!app.paused);
    // Only the 3 ms since the last paused tick count.
    app.advance(10_003);
    assert_eq!(app.state, PomoState::Work { time_left: 97 });
}

#[test]
fn ratio_is_one_while_paused_in_every_phase() {
    let mut app = App::new(settings_ms(10, 5, 7, 2), 0);
    app.toggle_pause();
    assert_eq!(app.get_ratio_parts(), (1, 1));
    app.state = PomoState::Work { time_left: 4 };
    app.cycle = Some(2);
    assert_eq!(app.get_ratio_parts(), (1, 1));
    app.state = PomoState::ShortWait { time_left: 3 };
    assert_eq!(app.get_ratio_parts(), (1, 1));
    app.state = PomoState::LongWait { time_left: 6 };
    assert_eq!(app.get_ratio_parts(), (1, 1));
}

#[test]
fn ratio_is_remaining_over_duration_while_running() {
    let mut app = App::new(settings_ms(10, 5, 8, 2), 0);
    assert_eq!(app.get_ratio_parts(), (0, 1));
    app.start(100);
    assert_eq!(app.get_ratio_parts(), (10, 10));
    app.advance(104);
    assert_eq!(app.get_ratio_parts(), (6, 10));
    app.state = PomoState::LongWait { time_left: 2 };
    app.cycle = Some(1);
    assert_eq!(app.get_ratio_parts(), (2, 8));
}

#[test]
fn start_mid_break_discards_the_break() {
    let mut app = App::new(settings_ms(10, 5, 7, 4), 0);
    app.state = PomoState::ShortWait { time_left: 3 };
    app.cycle = Some(2);
    app.start(500);
    assert_eq!(app.state, PomoState::Work { time_left: 10 });
    assert_eq!(app.cycle, Some(4));
    assert_eq!(app.last_update_time, 500);
}

#[test]
fn idle_ticks_change_only_the_recorded_time() {
    let mut app = App::new(settings_ms(10, 5, 7, 2), 77);
    app.advance(1_000_000_000);
    assert_eq!(app.state, PomoState::Menu);
    assert_eq!(app.cycle, None);
    assert!(!app.paused);
    assert_eq!(app.last_update_time, 1_000_000_000);
}

#[test]
fn a_clock_reading_in_the_past_counts_as_no_elapsed_time() {
    let mut app = App::new(settings_ms(10, 5, 7, 2), 0);
    app.start(1000);
    app.advance(400);
    assert_eq!(app.state, PomoState::Work { time_left: 10 });
    assert_eq!(app.last_update_time, 400);
}

#[test]
fn state_text_shows_the_pause_marker() {
    let mut app = App::new(settings_ms(10, 5, 7, 2), 0);
    app.start(0);
    app.toggle_pause();
    assert_eq!(app.get_state_text(), "PAUSED");
}

#[test]
fn state_text_prompts_while_idle() {
    let app = App::new(settings_ms(10, 5, 7, 2), 0);
    assert_eq!(
        app.get_state_text(),
        "Press 's' to start, 'q' to quit, 'p' to pause"
    );
}

#[test]
fn state_text_labels_each_running_phase() {
    let mut app = App::new(settings_ms(25 * 60000, 5 * 60000, 20 * 60000, 4), 0);
    app.start(0);
    assert_eq!(app.get_state_text(), "Work: 25:00 - Cycle 1/4");
    app.state = PomoState::ShortWait { time_left: 5 * 60000 };
    assert_eq!(app.get_state_text(), "Short break: 05:00 - Cycle 1/4");
    app.state = PomoState::Work { time_left: 125000 };
    app.cycle = Some(2);
    assert_eq!(app.get_state_text(), "Work: 02:05 - Cycle 3/4");
    app.state = PomoState::LongWait { time_left: 20 * 60000 };
    app.cycle = Some(1);
    assert_eq!(app.get_state_text(), "Long break: 20:00");
}

#[test]
fn colors_track_the_phase() {
    let mut app = App::new(settings_ms(10, 5, 7, 2), 0);
    assert_eq!(app.get_color(), PomoColor::Neutral);
    app.state = PomoState::ShortWait { time_left: 3 };
    app.cycle = Some(2);
    assert_eq!(app.get_color(), PomoColor::ShortAccent);
    app.state = PomoState::LongWait { time_left: 6 };
    app.cycle = Some(1);
    assert_eq!(app.get_color(), PomoColor::LongAccent);
}

#[test]
fn work_shade_runs_from_green_to_red() {
    let mut app = App::new(settings_ms(10, 5, 7, 2), 0);
    app.start(0);
    assert_eq!(app.get_color(), PomoColor::Shade { red: 0, green: 255 });
    app.state = PomoState::Work { time_left: 5 };
    assert_eq!(app.get_color(), PomoColor::Shade { red: 128, green: 127 });
    app.state = PomoState::Work { time_left: 1 };
    assert_eq!(app.get_color(), PomoColor::Shade { red: 230, green: 25 });
}

#[test]
fn paused_work_shade_is_full_green() {
    let mut app = App::new(settings_ms(10, 5, 7, 2), 0);
    app.start(0);
    app.state = PomoState::Work { time_left: 1 };
    app.toggle_pause();
    assert_eq!(app.get_color(), PomoColor::Shade { red: 0, green: 255 });
}

#[test]
fn update_reads_the_clock_but_keeps_an_idle_session_idle() {
    let mut app = App::new(settings_ms(10, 5, 7, 2), 0);
    app.update();
    assert_eq!(app.state, PomoState::Menu);
    assert_eq!(app.cycle, None);
}

#[test]
fn update_advances_a_running_session_by_wall_time() {
    let mut app = App::new(settings_ms(u64::MAX, 5, 7, 2), 0);
    app.start(pomodoro::clock::get_sys_time());
    app.update();
    // Essentially no wall time passed, so the huge countdown is still running.
    assert!(matches!(app.state, PomoState::Work { .. }));
}
