#![allow(non_snake_case)]

use tomatina::button::Color;
use tomatina::manager::{color_for, loggable_time_remaining, ButtonPress, Manager};
use tomatina::time::{Duration, Instant};
use tomatina::tracker::{State, TrackerConfig};

#[test]
fn test_loggable_time_remaining_returns_None_if_not_near_a_multiple_of_1_minute() {
    assert_eq!(
        loggable_time_remaining(Duration::from_millis(90_000), Duration::from_millis(50)),
        None
    );
    assert_eq!(
        loggable_time_remaining(Duration::from_millis(60_026), Duration::from_millis(50)),
        None
    );
    assert_eq!(
        loggable_time_remaining(Duration::from_millis(59_974), Duration::from_millis(50)),
        None
    );
}

#[test]
fn test_loggable_time_remaining_returns_Some_if_near_a_multiple_of_1_minute() {
    assert_eq!(
        loggable_time_remaining(Duration::from_millis(120_025), Duration::from_millis(50)),
        Some(Duration::from_millis(120_000)),
    );
    assert_eq!(
        loggable_time_remaining(Duration::from_millis(119_975), Duration::from_millis(50)),
        Some(Duration::from_millis(120_000)),
    );
}

#[test]
fn loggable_time_remaining_at_the_edges_of_the_window() {
    let interval = Duration::from_millis(50);
    assert_eq!(
        loggable_time_remaining(Duration::from_millis(60_000), interval),
        Some(Duration::from_millis(60_000))
    );
    assert_eq!(
        loggable_time_remaining(Duration::from_millis(60_024), interval),
        Some(Duration::from_millis(60_000))
    );
    assert_eq!(
        loggable_time_remaining(Duration::from_millis(59_975), interval),
        Some(Duration::from_millis(60_000))
    );
    assert_eq!(loggable_time_remaining(Duration::from_millis(0), interval), Some(Duration::from_millis(0)));
    assert_eq!(loggable_time_remaining(Duration::from_millis(30_000), interval), None);
}

#[test]
fn loggable_time_remaining_cuts_to_whole_seconds() {
    // 180_010 + 250 = 180_260, within 500 of three minutes: cut to 180 s.
    assert_eq!(
        loggable_time_remaining(Duration::from_millis(180_010), Duration::from_millis(500)),
        Some(Duration::from_secs(180))
    );
}

#[test]
fn colors_follow_the_phase() {
    assert_eq!(color_for(State::PendingWork), Color(255, 0, 0));
    assert_eq!(color_for(State::PendingShortBreak), Color(255, 0, 0));
    assert_eq!(color_for(State::PendingLongBreak), Color(255, 0, 0));
    assert_eq!(color_for(State::Working), Color(0, 255, 0));
    assert_eq!(color_for(State::ShortBreak), Color(0, 0, 255));
    assert_eq!(color_for(State::LongBreak), Color(255, 0, 255));
}

#[test]
fn button_bytes_decode_to_presses() {
    assert_eq!(ButtonPress::from_byte(b'1'), Some(ButtonPress::Primary));
    assert_eq!(ButtonPress::from_byte(b'2'), Some(ButtonPress::Secondary));
    assert_eq!(ButtonPress::from_byte(b'3'), None);
    assert_eq!(ButtonPress::from_byte(0), None);
}

fn manager_at(t: u64) -> Manager {
    Manager::new(TrackerConfig::default(), Instant::from_millis(t), Duration::from_millis(50))
}

#[test]
fn step_acknowledges_on_a_primary_press_and_changes_the_color() {
    let mut manager = manager_at(0);
    let outcome = manager.step(Some(ButtonPress::Primary), Instant::from_millis(0));
    assert_eq!(outcome.previous, State::PendingWork);
    assert_eq!(outcome.current, State::Working);
    assert_eq!(outcome.color, Some(Color(0, 255, 0)));
    assert_eq!(manager.tracker.state, State::Working);
}

#[test]
fn step_ignores_a_secondary_press() {
    let mut manager = manager_at(0);
    let outcome = manager.step(Some(ButtonPress::Secondary), Instant::from_millis(10));
    assert_eq!(outcome.current, State::PendingWork);
    assert_eq!(outcome.color, None);
    assert_eq!(outcome.announcement, None);
}

#[test]
fn step_announces_whole_minutes_and_ends_the_phase() {
    let mut manager = manager_at(0);
    manager.step(Some(ButtonPress::Primary), Instant::from_millis(0));
    // Nineteen minutes in: one minute left.
    let outcome = manager.step(None, Instant::from_millis(19 * 60_000 + 20));
    assert_eq!(outcome.color, None);
    assert_eq!(outcome.announcement, Some(Duration::from_secs(60)));
    let outcome = manager.step(None, Instant::from_millis(19 * 60_000 + 500));
    assert_eq!(outcome.announcement, None);
    // Twenty minutes in: the work phase is over.
    let outcome = manager.step(None, Instant::from_millis(20 * 60_000));
    assert_eq!(outcome.previous, State::Working);
    assert_eq!(outcome.current, State::PendingShortBreak);
    assert_eq!(outcome.color, Some(Color(255, 0, 0)));
    assert_eq!(outcome.announcement, None);
    assert_eq!(manager.tracker.completed_intervals(), 1);
}
