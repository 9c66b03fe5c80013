use battery_notifier::battery::BatteryStatus;
use battery_notifier::clock::{Timestamp, LAST_SECOND};
use battery_notifier::config::Config;
use battery_notifier::engine::{Action, AlertState, Decision};
use battery_notifier::level::BatteryNotificationLevel;
use battery_notifier::notify::{SoundClip, Urgency};

fn at(secs: i64) -> Timestamp {
    Timestamp::new(secs, 0).unwrap()
}

fn at_nanos(secs: i64, nanos: u32) -> Timestamp {
    Timestamp::new(secs, nanos).unwrap()
}

#[test]
fn initial_state_has_no_level_and_no_handle() {
    let state: AlertState<u32> = AlertState::new(at(100));
    assert_eq!(state.last_level, BatteryNotificationLevel::NoConflict);
    assert_eq!(state.active_handle, None);
    assert_eq!(state.process_start_time, at(100));
}

#[test]
fn start_reads_the_clock() {
    let state: AlertState<u32> = AlertState::start();
    assert_eq!(state.last_level, BatteryNotificationLevel::NoConflict);
    assert_eq!(state.active_handle, None);
    assert!(state.process_start_time.secs >= 0);
    assert!(state.process_start_time.secs <= LAST_SECOND);
    assert!(state.process_start_time.nanos < 1_000_000_000);
}

#[test]
fn warn_alert_carries_the_rendered_texts() {
    let config = Config::default();
    let mut state: AlertState<u32> = AlertState::new(at(0));
    let action = state.step_at(BatteryStatus::Discharging, 10, &config, at(1));
    match action {
        Action::Alert { dismiss, level, urgency, title, content, sound } => {
            assert_eq!(dismiss, None);
            assert_eq!(level, BatteryNotificationLevel::Warn);
            assert_eq!(urgency, Urgency::NORMAL);
            assert_eq!(title, "Battery low");
            assert_eq!(content, "Charge: 10%.\nPlease connect your laptop");
            assert_eq!(sound, SoundClip::Warn);
        }
        _ => panic!("an alert was due"),
    }
    assert_eq!(state.last_level, BatteryNotificationLevel::Warn);
    assert_eq!(state.active_handle, None);
}

#[test]
fn reminder_and_threat_alerts_have_their_urgency_and_clip() {
    let config = Config::default();
    let mut state: AlertState<u32> = AlertState::new(at(0));
    match state.step_at(BatteryStatus::NotCharging, 30, &config, at(1)) {
        Action::Alert { level, urgency, title, content, sound, .. } => {
            assert_eq!(level, BatteryNotificationLevel::Reminder);
            assert_eq!(urgency, Urgency::LOW);
            assert_eq!(title, "Battery somewhat low");
            assert_eq!(content, "Charge: 30%");
            assert_eq!(sound, SoundClip::Reminder);
        }
        _ => panic!("an alert was due"),
    }
    match state.step_at(BatteryStatus::Discharging, 5, &config, at(2)) {
        Action::Alert { level, urgency, title, content, sound, .. } => {
            assert_eq!(level, BatteryNotificationLevel::Threat);
            assert_eq!(urgency, Urgency::CRITICAL);
            assert_eq!(title, "Battery very low");
            assert_eq!(
                content,
                "Charge: 5%.\n\nYour computer will shut down soon! You'll regret this!"
            );
            assert_eq!(sound, SoundClip::Threat);
        }
        _ => panic!("an alert was due"),
    }
}

#[test]
fn second_tick_with_the_same_sample_is_idle() {
    let config = Config::default();
    let mut state: AlertState<u32> = AlertState::new(at(0));
    assert!(state.step_at(BatteryStatus::Discharging, 10, &config, at(1)).fires());
    state.attach(7);
    let second = state.step_at(BatteryStatus::Discharging, 10, &config, at(2));
    assert_eq!(second.decision(), Decision::Nothing);
    assert!(!second.fires());
    assert_eq!(state.last_level, BatteryNotificationLevel::Warn);
    assert_eq!(state.active_handle, Some(7));
}

#[test]
fn second_charging_tick_is_idle() {
    let config = Config::default();
    let mut state: AlertState<u32> = AlertState::new(at(0));
    assert_eq!(
        state.step_at(BatteryStatus::Charging, 80, &config, at(60)).decision(),
        Decision::Charging
    );
    assert_eq!(
        state.step_at(BatteryStatus::Charging, 80, &config, at(61)).decision(),
        Decision::Nothing
    );
    assert_eq!(state.last_level, BatteryNotificationLevel::Charging);
}

#[test]
fn debounce_fires_three_times_in_five_ticks() {
    let config = Config::default();
    let mut state: AlertState<u32> = AlertState::new(at(0));
    let charges: [u8; 5] = [25, 25, 10, 10, 25];
    let expected_levels = [
        Some(BatteryNotificationLevel::Reminder),
        None,
        Some(BatteryNotificationLevel::Warn),
        None,
        Some(BatteryNotificationLevel::Reminder),
    ];
    let mut fired = 0;
    let mut next_handle: u32 = 1;
    let mut shown: Option<u32> = None;
    let mut tick = 0;
    while tick < 5 {
        let action = state.step_at(BatteryStatus::Discharging, charges[tick], &config, at(10));
        match action {
            Action::Alert { dismiss, level, .. } => {
                assert_eq!(Some(level), expected_levels[tick]);
                assert_eq!(dismiss, shown);
                assert_eq!(state.active_handle, None);
                state.attach(next_handle);
                shown = Some(next_handle);
                next_handle += 1;
                fired += 1;
            }
            Action::Nothing => {
                assert_eq!(expected_levels[tick], None);
                assert_eq!(state.active_handle, shown);
            }
            _ => panic!("the battery is not charging"),
        }
        tick += 1;
    }
    assert_eq!(fired, 3);
    assert_eq!(state.last_level, BatteryNotificationLevel::Reminder);
}

#[test]
fn charging_at_start_is_silent() {
    let config = Config::default();
    let mut state: AlertState<u32> = AlertState::new(at(1000));
    let action = state.step_at(BatteryStatus::Charging, 50, &config, at(1004));
    assert_eq!(action.decision(), Decision::PluggedInAtStart);
    assert_eq!(state.last_level, BatteryNotificationLevel::Charging);
    assert_eq!(state.active_handle, None);
}

#[test]
fn charging_five_seconds_after_start_is_still_silent() {
    let config = Config::default();
    let mut state: AlertState<u32> = AlertState::new(at(1000));
    let action = state.step_at(BatteryStatus::Charging, 50, &config, at(1005));
    assert_eq!(action.decision(), Decision::PluggedInAtStart);
    assert_eq!(state.last_level, BatteryNotificationLevel::Charging);
}

#[test]
fn charging_just_over_five_seconds_after_start_plays() {
    let config = Config::default();
    let mut state: AlertState<u32> = AlertState::new(at(1000));
    state.attach(3);
    match state.step_at(BatteryStatus::Charging, 50, &config, at_nanos(1005, 1)) {
        Action::Charging { dismiss, sound } => {
            assert_eq!(dismiss, Some(3));
            assert_eq!(sound, SoundClip::Charging);
        }
        _ => panic!("charging began"),
    }
    assert_eq!(state.last_level, BatteryNotificationLevel::Charging);
    assert_eq!(state.active_handle, None);
}

#[test]
fn charging_between_five_and_six_seconds_after_start_plays() {
    let config = Config::default();
    let mut state: AlertState<u32> = AlertState::new(at(1000));
    let action = state.step_at(BatteryStatus::Charging, 50, &config, at_nanos(1005, 999_999_999));
    assert_eq!(action.decision(), Decision::Charging);
}

#[test]
fn charging_keeps_the_handle_during_the_grace_period() {
    let config = Config::default();
    let mut state: AlertState<u32> = AlertState::new(at(1000));
    assert!(state.step_at(BatteryStatus::Discharging, 3, &config, at(1001)).fires());
    state.attach(9);
    let action = state.step_at(BatteryStatus::Charging, 3, &config, at(1002));
    assert_eq!(action.decision(), Decision::PluggedInAtStart);
    assert_eq!(state.active_handle, Some(9));
}

#[test]
fn charging_after_the_grace_period_dismisses_and_plays() {
    let config = Config::default();
    let mut state: AlertState<u32> = AlertState::new(at(1000));
    assert!(state.step_at(BatteryStatus::Discharging, 3, &config, at(1001)).fires());
    state.attach(9);
    match state.step_at(BatteryStatus::Charging, 3, &config, at(1006)) {
        Action::Charging { dismiss, sound } => {
            assert_eq!(dismiss, Some(9));
            assert_eq!(sound, SoundClip::Charging);
        }
        _ => panic!("charging began"),
    }
    assert_eq!(state.last_level, BatteryNotificationLevel::Charging);
    assert_eq!(state.active_handle, None);
}

#[test]
fn uptime_is_compared_to_the_nanosecond() {
    let config = Config::default();
    let mut early: AlertState<u32> = AlertState::new(at_nanos(1000, 500_000_000));
    assert_eq!(
        early.step_at(BatteryStatus::Charging, 50, &config, at_nanos(1005, 500_000_000)).decision(),
        Decision::PluggedInAtStart
    );
    let mut late: AlertState<u32> = AlertState::new(at_nanos(1000, 500_000_000));
    assert_eq!(
        late.step_at(BatteryStatus::Charging, 50, &config, at_nanos(1005, 500_000_001)).decision(),
        Decision::Charging
    );
    let mut borrowed: AlertState<u32> = AlertState::new(at_nanos(1000, 999_999_999));
    assert_eq!(
        borrowed.step_at(BatteryStatus::Charging, 50, &config, at(1006)).decision(),
        Decision::Charging
    );
    let mut short: AlertState<u32> = AlertState::new(at_nanos(1000, 999_999_999));
    assert_eq!(
        short.step_at(BatteryStatus::Charging, 50, &config, at_nanos(1005, 999_999_999)).decision(),
        Decision::PluggedInAtStart
    );
}

#[test]
fn uptime_runs_on_past_midnight() {
    let config = Config::default();
    // started ten seconds before a midnight, ticked ten seconds after it
    let mut state: AlertState<u32> = AlertState::new(at(86_390));
    assert_eq!(
        state.step_at(BatteryStatus::Charging, 50, &config, at(86_410)).decision(),
        Decision::Charging
    );
}

#[test]
fn uptime_of_a_clock_set_back_is_negative() {
    let config = Config::default();
    let mut state: AlertState<u32> = AlertState::new(at(86_399));
    assert_eq!(
        state.step_at(BatteryStatus::Charging, 50, &config, at(10)).decision(),
        Decision::PluggedInAtStart
    );
    let mut barely: AlertState<u32> = AlertState::new(at_nanos(100, 1));
    assert_eq!(
        barely.step_at(BatteryStatus::Charging, 50, &config, at(100)).decision(),
        Decision::PluggedInAtStart
    );
}

#[test]
fn uptime_spans_every_moment_that_can_be_told() {
    assert_eq!(chrono::DateTime::<chrono::Utc>::MAX_UTC.timestamp(), LAST_SECOND);
    let config = Config::default();
    let mut state: AlertState<u32> = AlertState::new(at(0));
    assert_eq!(
        state
            .step_at(BatteryStatus::Charging, 50, &config, at_nanos(LAST_SECOND, 999_999_999))
            .decision(),
        Decision::Charging
    );
    let mut backwards: AlertState<u32> = AlertState::new(at_nanos(LAST_SECOND, 999_999_999));
    assert_eq!(
        backwards.step_at(BatteryStatus::Charging, 50, &config, at(0)).decision(),
        Decision::PluggedInAtStart
    );
}

#[test]
fn unknown_status_does_nothing() {
    let config = Config::default();
    let mut state: AlertState<u32> = AlertState::new(at(0));
    let action = state.step_at(BatteryStatus::Unknown, 3, &config, at(100));
    assert_eq!(action.decision(), Decision::Nothing);
    assert_eq!(state.last_level, BatteryNotificationLevel::NoConflict);
}

#[test]
fn charge_above_every_band_does_nothing() {
    let config = Config::default();
    let mut state: AlertState<u32> = AlertState::new(at(0));
    assert!(state.step_at(BatteryStatus::Discharging, 20, &config, at(1)).fires());
    state.attach(1);
    let action = state.step_at(BatteryStatus::Discharging, 90, &config, at(2));
    assert_eq!(action.decision(), Decision::Nothing);
    assert_eq!(state.last_level, BatteryNotificationLevel::Reminder);
    assert_eq!(state.active_handle, Some(1));
}

#[test]
fn alert_after_charging_fires_again() {
    let config = Config::default();
    let mut state: AlertState<u32> = AlertState::new(at(0));
    assert!(state.step_at(BatteryStatus::Discharging, 10, &config, at(1)).fires());
    assert_eq!(
        state.step_at(BatteryStatus::Charging, 10, &config, at(20)).decision(),
        Decision::Charging
    );
    assert_eq!(
        state.step_at(BatteryStatus::Discharging, 10, &config, at(30)).decision(),
        Decision::Alert(BatteryNotificationLevel::Warn)
    );
}

#[test]
fn failed_emission_still_advances_the_level() {
    let config = Config::default();
    let mut state: AlertState<u32> = AlertState::new(at(0));
    assert!(state.step_at(BatteryStatus::Discharging, 10, &config, at(1)).fires());
    // nothing is attached: showing the notification failed
    assert!(!state.step_at(BatteryStatus::Discharging, 10, &config, at(2)).fires());
    assert_eq!(state.active_handle, None);
}

#[test]
fn step_uses_the_current_time() {
    let config = Config::default();
    let mut state: AlertState<u32> = AlertState::start();
    let action = state.step(BatteryStatus::Charging, 50, &config);
    assert_eq!(action.decision(), Decision::PluggedInAtStart);
    assert_eq!(state.last_level, BatteryNotificationLevel::Charging);
    assert_eq!(state.step(BatteryStatus::Discharging, 4, &config).decision(),
        Decision::Alert(BatteryNotificationLevel::Threat));
}
