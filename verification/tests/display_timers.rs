use rustberry_poe_monitor::clock::{elapsed_since, NANOS_PER_SEC};
use rustberry_poe_monitor::display::{
    handle_periodic_display, handle_screen_timeout, shift_pattern, update_pixel_shift,
    DisplayCommand, DisplayConfig, DisplayState, Offset, SHIFT_INTERVAL,
};

const SEC: u64 = NANOS_PER_SEC;

fn config(timeout_s: u64, periodic: bool, on_s: u64, off_s: u64) -> DisplayConfig {
    DisplayConfig {
        screen_timeout: timeout_s * SEC,
        enable_periodic_off: periodic,
        periodic_on_duration: on_s * SEC,
        periodic_off_duration: off_s * SEC,
    }
}

#[test]
fn elapsed_is_the_difference_or_zero() {
    assert_eq!(elapsed_since(10, 3), 7);
    assert_eq!(elapsed_since(3, 3), 0);
    assert_eq!(elapsed_since(3, 10), 0);
    assert_eq!(elapsed_since(u64::MAX, 0), u64::MAX);
    assert_eq!(elapsed_since(0, u64::MAX), 0);
}

#[test]
fn units_are_nanoseconds() {
    assert_eq!(NANOS_PER_SEC, 1_000_000_000);
    assert_eq!(SHIFT_INTERVAL, 60 * NANOS_PER_SEC);
}

#[test]
fn new_state_is_on_undimmed_and_unshifted() {
    let state = DisplayState::new(42);
    assert_eq!(
        state,
        DisplayState {
            start_time: 42,
            screen_dimmed: false,
            is_display_periodically_on: true,
            last_periodic_toggle_time: 42,
            shift_index: 0,
            shift_offset: Offset { x: 0, y: 0 },
            last_shift_time: 42,
        }
    );
}

#[test]
fn pattern_has_two_different_offsets() {
    assert_eq!(
        shift_pattern(),
        [Offset { x: 0, y: 0 }, Offset { x: 1, y: 0 }]
    );
}

#[test]
fn display_dims_once_when_the_timeout_is_reached() {
    let cfg = config(300, false, 0, 0);
    let mut state = DisplayState::new(0);
    let mut dims = 0;
    for tick in 0..=200u64 {
        let now = tick * 5 * SEC;
        let commands = state.tick(&cfg, now);
        if tick < 60 {
            assert!(commands.is_empty(), "tick {}", tick);
            assert!(!state.screen_dimmed);
        } else if tick == 60 {
            assert_eq!(commands, vec![DisplayCommand::Dim]);
            assert!(state.screen_dimmed);
        } else {
            assert!(commands.is_empty(), "tick {}", tick);
            assert!(state.screen_dimmed);
        }
        dims += commands
            .iter()
            .filter(|&&c| c == DisplayCommand::Dim)
            .count();
    }
    assert_eq!(dims, 1);
}

#[test]
fn timeout_is_measured_from_the_start_time() {
    let mut state = DisplayState::new(1_000 * SEC);
    assert_eq!(handle_screen_timeout(1_299 * SEC, 300 * SEC, &mut state), None);
    assert!(!state.screen_dimmed);
    assert_eq!(
        handle_screen_timeout(1_300 * SEC - 1, 300 * SEC, &mut state),
        None
    );
    assert_eq!(
        handle_screen_timeout(1_300 * SEC, 300 * SEC, &mut state),
        Some(DisplayCommand::Dim)
    );
    assert!(state.screen_dimmed);
    assert_eq!(state.start_time, 1_000 * SEC);
}

#[test]
fn zero_timeout_never_dims() {
    let mut state = DisplayState::new(0);
    for &now in &[0, 1, SEC, 1_000_000 * SEC, u64::MAX] {
        assert_eq!(handle_screen_timeout(now, 0, &mut state), None);
        assert!(!state.screen_dimmed);
    }
}

#[test]
fn shortest_timeout_dims_after_one_nanosecond() {
    let mut state = DisplayState::new(0);
    assert_eq!(handle_screen_timeout(0, 1, &mut state), None);
    assert_eq!(
        handle_screen_timeout(1, 1, &mut state),
        Some(DisplayCommand::Dim)
    );
}

#[test]
fn dimmed_display_stays_dimmed() {
    let mut state = DisplayState::new(0);
    state.screen_dimmed = true;
    for &now in &[0, 299 * SEC, 300 * SEC, 10_000 * SEC] {
        assert_eq!(handle_screen_timeout(now, 300 * SEC, &mut state), None);
        assert!(state.screen_dimmed);
    }
}

#[test]
fn dimming_ignores_a_clock_that_runs_backwards() {
    let mut state = DisplayState::new(500 * SEC);
    assert_eq!(handle_screen_timeout(0, 300 * SEC, &mut state), None);
    assert!(!state.screen_dimmed);
}

#[test]
fn periodic_cycle_powers_off_and_on() {
    let cfg = config(0, true, 600, 60);
    let mut state = DisplayState::new(0);
    assert_eq!(handle_periodic_display(&cfg, 599 * SEC, &mut state), None);
    assert!(state.is_display_periodically_on);
    assert_eq!(state.last_periodic_toggle_time, 0);
    assert_eq!(
        handle_periodic_display(&cfg, 600 * SEC, &mut state),
        Some(DisplayCommand::PowerOff)
    );
    assert!(!state.is_display_periodically_on);
    assert_eq!(state.last_periodic_toggle_time, 600 * SEC);
    assert_eq!(handle_periodic_display(&cfg, 659 * SEC, &mut state), None);
    assert!(!state.is_display_periodically_on);
    assert_eq!(
        handle_periodic_display(&cfg, 660 * SEC, &mut state),
        Some(DisplayCommand::PowerOn)
    );
    assert!(state.is_display_periodically_on);
    assert_eq!(state.last_periodic_toggle_time, 660 * SEC);
    assert_eq!(handle_periodic_display(&cfg, 1_259 * SEC, &mut state), None);
    assert_eq!(
        handle_periodic_display(&cfg, 1_260 * SEC, &mut state),
        Some(DisplayCommand::PowerOff)
    );
}

#[test]
fn periodic_cycle_does_nothing_when_disabled() {
    let cfg = config(0, false, 600, 60);
    let mut state = DisplayState::new(0);
    for tick in 0..2_000u64 {
        assert_eq!(handle_periodic_display(&cfg, tick * 5 * SEC, &mut state), None);
        assert_eq!(state, DisplayState::new(0));
    }
}

#[test]
fn late_tick_restarts_the_phase_at_its_own_time() {
    let cfg = config(0, true, 600, 60);
    let mut state = DisplayState::new(0);
    assert_eq!(
        handle_periodic_display(&cfg, 617 * SEC, &mut state),
        Some(DisplayCommand::PowerOff)
    );
    assert_eq!(state.last_periodic_toggle_time, 617 * SEC);
    assert_eq!(handle_periodic_display(&cfg, 676 * SEC, &mut state), None);
    assert_eq!(
        handle_periodic_display(&cfg, 677 * SEC, &mut state),
        Some(DisplayCommand::PowerOn)
    );
}

#[test]
fn zero_durations_toggle_on_every_tick() {
    let cfg = config(0, true, 0, 0);
    let mut state = DisplayState::new(0);
    assert_eq!(
        handle_periodic_display(&cfg, 0, &mut state),
        Some(DisplayCommand::PowerOff)
    );
    assert_eq!(
        handle_periodic_display(&cfg, 0, &mut state),
        Some(DisplayCommand::PowerOn)
    );
    assert_eq!(
        handle_periodic_display(&cfg, 5, &mut state),
        Some(DisplayCommand::PowerOff)
    );
}

#[test]
fn phases_never_outlast_their_duration_by_more_than_a_tick() {
    let cfg = config(0, true, 600, 60);
    let interval = 7 * SEC;
    let mut state = DisplayState::new(0);
    let mut longest_on = 0;
    let mut longest_off = 0;
    let mut toggles = 0;
    for tick in 0..5_000u64 {
        let now = tick * interval;
        let before = state;
        let command = handle_periodic_display(&cfg, now, &mut state);
        let lasted = now - before.last_periodic_toggle_time;
        if before.is_display_periodically_on {
            longest_on = longest_on.max(lasted);
        } else {
            longest_off = longest_off.max(lasted);
        }
        if command.is_some() {
            toggles += 1;
        }
    }
    assert!(toggles > 10);
    assert!(longest_on >= 600 * SEC && longest_on <= 600 * SEC + interval);
    assert!(longest_off >= 60 * SEC && longest_off <= 60 * SEC + interval);
    assert_eq!(longest_on, 602 * SEC);
    assert_eq!(longest_off, 63 * SEC);
}

#[test]
fn dimmed_display_is_still_cycled() {
    let cfg = config(300, true, 600, 60);
    let mut state = DisplayState::new(0);
    assert_eq!(state.tick(&cfg, 300 * SEC), vec![DisplayCommand::Dim]);
    assert!(state.screen_dimmed && state.is_display_periodically_on);
    assert_eq!(state.tick(&cfg, 600 * SEC), vec![DisplayCommand::PowerOff]);
    assert!(state.screen_dimmed && !state.is_display_periodically_on);
    assert_eq!(state.tick(&cfg, 660 * SEC), vec![DisplayCommand::PowerOn]);
    assert!(state.screen_dimmed && state.is_display_periodically_on);
}

#[test]
fn dim_comes_before_power_when_both_are_due() {
    let cfg = config(600, true, 600, 60);
    let mut state = DisplayState::new(0);
    assert_eq!(
        state.tick(&cfg, 600 * SEC),
        vec![DisplayCommand::Dim, DisplayCommand::PowerOff]
    );
    assert!(state.screen_dimmed);
    assert!(!state.is_display_periodically_on);
}

#[test]
fn display_can_dim_while_powered_off() {
    let cfg = config(630, true, 600, 60);
    let mut state = DisplayState::new(0);
    assert_eq!(state.tick(&cfg, 600 * SEC), vec![DisplayCommand::PowerOff]);
    assert_eq!(state.tick(&cfg, 630 * SEC), vec![DisplayCommand::Dim]);
    assert!(state.screen_dimmed && !state.is_display_periodically_on);
}

#[test]
fn shift_alternates_every_sixty_seconds() {
    let cfg = config(0, false, 0, 0);
    let mut state = DisplayState::new(0);
    state.tick(&cfg, 60 * SEC - 1);
    assert_eq!((state.shift_index, state.shift_offset), (0, Offset { x: 0, y: 0 }));
    assert_eq!(state.last_shift_time, 0);
    state.tick(&cfg, 60 * SEC);
    assert_eq!((state.shift_index, state.shift_offset), (1, Offset { x: 1, y: 0 }));
    assert_eq!(state.last_shift_time, 60 * SEC);
    state.tick(&cfg, 120 * SEC - 1);
    assert_eq!((state.shift_index, state.shift_offset), (1, Offset { x: 1, y: 0 }));
    state.tick(&cfg, 120 * SEC);
    assert_eq!((state.shift_index, state.shift_offset), (0, Offset { x: 0, y: 0 }));
    assert_eq!(state.last_shift_time, 120 * SEC);
    state.tick(&cfg, 180 * SEC);
    assert_eq!((state.shift_index, state.shift_offset), (1, Offset { x: 1, y: 0 }));
}

#[test]
fn shift_has_a_period_of_two_minutes_on_five_second_ticks() {
    let cfg = config(0, false, 0, 0);
    let mut state = DisplayState::new(0);
    for tick in 0..1_000u64 {
        let now = tick * 5 * SEC;
        state.tick(&cfg, now);
        let expected = if (now / (60 * SEC)) % 2 == 0 {
            Offset { x: 0, y: 0 }
        } else {
            Offset { x: 1, y: 0 }
        };
        assert_eq!(state.shift_offset, expected, "at {} s", now / SEC);
    }
}

#[test]
fn shift_does_not_care_about_the_other_timers() {
    let plain = config(0, false, 0, 0);
    let busy = config(100, true, 35, 20);
    let mut a = DisplayState::new(0);
    let mut b = DisplayState::new(0);
    let mut toggles = 0;
    for tick in 0..500u64 {
        let now = tick * 5 * SEC;
        a.tick(&plain, now);
        let was_on = b.is_display_periodically_on;
        b.tick(&busy, now);
        if was_on != b.is_display_periodically_on {
            toggles += 1;
        }
        assert_eq!(a.shift_index, b.shift_index);
        assert_eq!(a.shift_offset, b.shift_offset);
        assert_eq!(a.last_shift_time, b.last_shift_time);
    }
    assert!(toggles > 10);
    assert!(b.screen_dimmed && !a.screen_dimmed);
}

#[test]
fn shift_walks_a_longer_pattern_and_wraps() {
    let pattern = [
        Offset { x: 0, y: 0 },
        Offset { x: 1, y: 0 },
        Offset { x: 1, y: 1 },
    ];
    let mut state = DisplayState::new(0);
    let mut seen = Vec::new();
    for step in 1..=7u64 {
        update_pixel_shift(step * 10, 10, &pattern, &mut state);
        seen.push((state.shift_index, state.shift_offset, state.last_shift_time));
    }
    assert_eq!(
        seen,
        vec![
            (1, pattern[1], 10),
            (2, pattern[2], 20),
            (0, pattern[0], 30),
            (1, pattern[1], 40),
            (2, pattern[2], 50),
            (0, pattern[0], 60),
            (1, pattern[1], 70),
        ]
    );
}

#[test]
fn shift_waits_for_the_interval() {
    let pattern = shift_pattern();
    let mut state = DisplayState::new(100);
    update_pixel_shift(109, 10, &pattern, &mut state);
    assert_eq!(state, DisplayState::new(100));
    update_pixel_shift(50, 10, &pattern, &mut state);
    assert_eq!(state, DisplayState::new(100));
    update_pixel_shift(110, 10, &pattern, &mut state);
    assert_eq!(state.shift_index, 1);
    assert_eq!(state.shift_offset, Offset { x: 1, y: 0 });
    assert_eq!(state.last_shift_time, 110);
}

#[test]
fn shift_with_zero_interval_advances_on_every_call() {
    let pattern = shift_pattern();
    let mut state = DisplayState::new(0);
    update_pixel_shift(0, 0, &pattern, &mut state);
    assert_eq!(state.shift_index, 1);
    update_pixel_shift(0, 0, &pattern, &mut state);
    assert_eq!(state.shift_index, 0);
}

#[test]
fn shift_from_a_cursor_outside_the_pattern_wraps_into_it() {
    let pattern = [
        Offset { x: 0, y: 0 },
        Offset { x: 1, y: 0 },
        Offset { x: 1, y: 1 },
    ];
    let mut state = DisplayState::new(0);
    state.shift_index = 7;
    update_pixel_shift(10, 10, &pattern, &mut state);
    assert_eq!(state.shift_index, 2);
    assert_eq!(state.shift_offset, pattern[2]);
    state.shift_index = usize::MAX - 1;
    update_pixel_shift(20, 10, &pattern, &mut state);
    assert_eq!(state.shift_index, (usize::MAX % 3 + 3) % 3);
    assert_eq!(state.shift_offset, pattern[state.shift_index]);
}

#[test]
fn render_offset_is_none_while_powered_off() {
    let mut state = DisplayState::new(0);
    assert_eq!(state.render_offset(), Some(Offset { x: 0, y: 0 }));
    state.shift_offset = Offset { x: 1, y: 0 };
    assert_eq!(state.render_offset(), Some(Offset { x: 1, y: 0 }));
    state.is_display_periodically_on = false;
    assert_eq!(state.render_offset(), None);
    state.screen_dimmed = true;
    assert_eq!(state.render_offset(), None);
    state.is_display_periodically_on = true;
    assert_eq!(state.render_offset(), Some(Offset { x: 1, y: 0 }));
}
