//! The alert engine: the state machine that decides on every poll tick
//! whether an alert is due, and that never alerts twice in a row at the
//! same severity.

use vstd::prelude::*;
use crate::battery::BatteryStatus;
use crate::clock::{nanos_between, Timestamp};
use crate::config::{rendered, Bound, Config};
use crate::level::BatteryNotificationLevel;
use crate::notify::{SoundClip, Urgency};

verus! {

/// The seconds after start during which a battery found charging is
/// taken for one that was plugged in all along.
pub const STARTUP_GRACE_SECONDS: i64 = 5;

/// Whether an uptime, in nanoseconds, lies beyond the grace period.
pub open spec fn grace_is_over(uptime: int) -> bool {
    uptime > STARTUP_GRACE_SECONDS * 1_000_000_000
}

/// What a tick asks for, without the texts and the handle.
#[derive(Clone, Copy, Debug, PartialEq, Eq, Structural)]
pub enum Decision {
    /// Nothing is due.
    Nothing,
    /// The battery was charging when the notifier started: the level is
    /// noted and nothing is shown or played.
    PluggedInAtStart,
    /// Charging began: the shown notification goes and the charging
    /// clip is played.
    Charging,
    /// The charge entered another tier: an alert of that tier is due.
    Alert(BatteryNotificationLevel),
}

/// What the caller has to do after a tick.
pub enum Action<H> {
    /// Nothing is due.
    Nothing,
    /// The battery was charging when the notifier started.
    PluggedInAtStart,
    /// Dismiss the notification of `dismiss`, then play `sound`.
    Charging { dismiss: Option<H>, sound: SoundClip },
    /// Dismiss the notification of `dismiss`, show a new one with the
    /// given urgency and texts, then play `sound`.
    Alert {
        dismiss: Option<H>,
        level: BatteryNotificationLevel,
        urgency: Urgency,
        title: String,
        content: String,
        sound: SoundClip,
    },
}

/// What the engine remembers between ticks.
pub struct AlertState<H> {
    pub last_level: BatteryNotificationLevel,
    pub active_handle: Option<H>,
    pub process_start_time: Timestamp,
}

/// The urgency of an alert of each tier.
pub open spec fn urgency_of(level: BatteryNotificationLevel) -> Urgency {
    match level {
        BatteryNotificationLevel::Reminder => Urgency::LOW,
        BatteryNotificationLevel::Warn => Urgency::NORMAL,
        _ => Urgency::CRITICAL,
    }
}

/// The bound of a configuration that belongs to each tier.
pub open spec fn bound_of(config: Config, level: BatteryNotificationLevel) -> Bound {
    match level {
        BatteryNotificationLevel::Reminder => config.reminder,
        BatteryNotificationLevel::Warn => config.warn,
        _ => config.threat,
    }
}

/// What a tick decides, given the level last alerted at, the status,
/// the tier that the charge classifies as, and the nanoseconds since
/// start.
pub open spec fn decision(
    last: BatteryNotificationLevel,
    status: BatteryStatus,
    current: BatteryNotificationLevel,
    uptime: int,
) -> Decision {
    match status {
        BatteryStatus::Charging => if last == BatteryNotificationLevel::Charging {
            Decision::Nothing
        } else if grace_is_over(uptime) {
            Decision::Charging
        } else {
            Decision::PluggedInAtStart
        },
        BatteryStatus::Discharging | BatteryStatus::NotCharging => if current
            != BatteryNotificationLevel::NoConflict && current != last {
            Decision::Alert(current)
        } else {
            Decision::Nothing
        },
        BatteryStatus::Unknown => Decision::Nothing,
    }
}

/// The level that is remembered after a decision.
pub open spec fn level_after(last: BatteryNotificationLevel, decided: Decision)
    -> BatteryNotificationLevel
{
    match decided {
        Decision::Nothing => last,
        Decision::PluggedInAtStart | Decision::Charging => BatteryNotificationLevel::Charging,
        Decision::Alert(level) => level,
    }
}

impl<H> Action<H> {
    /// The decision that the action carries out.
    pub open spec fn decided(self) -> Decision {
        match self {
            Action::Nothing => Decision::Nothing,
            Action::PluggedInAtStart => Decision::PluggedInAtStart,
            Action::Charging { .. } => Decision::Charging,
            Action::Alert { level, .. } => Decision::Alert(level),
        }
    }

    /// The decision that the action carries out.
    pub fn decision(&self) -> (decided: Decision)
        ensures
            decided == self.decided(),
    {
        match self {
            Action::Nothing => Decision::Nothing,
            Action::PluggedInAtStart => Decision::PluggedInAtStart,
            Action::Charging { .. } => Decision::Charging,
            Action::Alert { level, .. } => Decision::Alert(*level),
        }
    }

    /// Whether the action shows a notification.
    pub fn fires(&self) -> (fires: bool)
        ensures
            fires == (self.decided() is Alert),
    {
        match self {
            Action::Alert { .. } => true,
            _ => false,
        }
    }
}

/// How one tick at `now` leads from the state `before` to the state
/// `after` and the action `action`.
pub open spec fn ticked<H>(
    before: AlertState<H>,
    after: AlertState<H>,
    action: Action<H>,
    status: BatteryStatus,
    capacity: u8,
    config: Config,
    now: Timestamp,
) -> bool {
    let decided = decision(
        before.last_level,
        status,
        config.level_at(capacity),
        nanos_between(now, before.process_start_time),
    );
    &&& action.decided() == decided
    &&& after.process_start_time == before.process_start_time
    &&& after.last_level == level_after(before.last_level, decided)
    &&& match action {
        Action::Nothing | Action::PluggedInAtStart => after.active_handle == before.active_handle,
        Action::Charging { dismiss, sound } => {
            &&& dismiss == before.active_handle
            &&& sound == SoundClip::Charging
            &&& after.active_handle is None
        },
        Action::Alert { dismiss, level, urgency, title, content, sound } => {
            &&& dismiss == before.active_handle
            &&& urgency == urgency_of(level)
            &&& title@ == rendered(bound_of(config, level).title@, capacity)
            &&& content@ == rendered(bound_of(config, level).content@, capacity)
            &&& sound == urgency.sound()
            &&& after.active_handle is None
        },
    }
}

impl<H> AlertState<H> {
    /// The start time is a moment.
    pub open spec fn wf(&self) -> bool {
        self.process_start_time.wf()
    }

    /// The state of a notifier that started at `now`: nothing alerted
    /// yet and nothing shown.
    pub fn new(now: Timestamp) -> (state: AlertState<H>)
        requires
            now.wf(),
        ensures
            state.wf(),
            state.last_level == BatteryNotificationLevel::NoConflict,
            state.active_handle is None,
            state.process_start_time == now,
    {
        AlertState {
            last_level: BatteryNotificationLevel::NoConflict,
            active_handle: None,
            process_start_time: now,
        }
    }

    /// The state of a notifier that starts at the current moment.
    pub fn start() -> (state: AlertState<H>)
        ensures
            state.wf(),
            state.last_level == BatteryNotificationLevel::NoConflict,
            state.active_handle is None,
    {
        AlertState::new(Timestamp::now())
    }

    /// Notes the handle of the notification that was shown for the last
    /// alert. Where showing it failed, nothing is noted and the level
    /// stays as the tick left it.
    pub fn attach(&mut self, handle: H)
        ensures
            final(self).active_handle == Some(handle),
            final(self).last_level == old(self).last_level,
            final(self).process_start_time == old(self).process_start_time,
    {
        self.active_handle = Some(handle);
    }

    /// One tick at the time `now`.
    pub fn step_at(&mut self, status: BatteryStatus, capacity: u8, config: &Config, now: Timestamp)
        -> (action: Action<H>)
        requires
            old(self).wf(),
            now.wf(),
        ensures
            final(self).wf(),
            ticked(*old(self), *final(self), action, status, capacity, *config, now),
    {
        match status {
            BatteryStatus::Charging => {
                if self.last_level == BatteryNotificationLevel::Charging {
                    return Action::Nothing;
                }
                self.last_level = BatteryNotificationLevel::Charging;
                if now.is_more_than(STARTUP_GRACE_SECONDS, self.process_start_time) {
                    Action::Charging { dismiss: self.active_handle.take(), sound: SoundClip::Charging }
                } else {
                    Action::PluggedInAtStart
                }
            },
            BatteryStatus::Discharging | BatteryStatus::NotCharging => {
                let current = config.classify(capacity);
                let (urgency, bound) = match current {
                    BatteryNotificationLevel::Reminder => (Urgency::LOW, &config.reminder),
                    BatteryNotificationLevel::Warn => (Urgency::NORMAL, &config.warn),
                    BatteryNotificationLevel::Threat => (Urgency::CRITICAL, &config.threat),
                    _ => {
                        return Action::Nothing;
                    },
                };
                if self.last_level == current {
                    return Action::Nothing;
                }
                self.last_level = current;
                Action::Alert {
                    dismiss: self.active_handle.take(),
                    level: current,
                    urgency,
                    title: bound.render_title(capacity),
                    content: bound.render_content(capacity),
                    sound: urgency.get_sound(),
                }
            },
            BatteryStatus::Unknown => Action::Nothing,
        }
    }

    /// One tick at the current moment.
    pub fn step(&mut self, status: BatteryStatus, capacity: u8, config: &Config) -> (action: Action<H>)
        requires
            old(self).wf(),
        ensures
            final(self).wf(),
            exists|now: Timestamp|
                #[trigger] now.wf() && ticked(
                    *old(self),
                    *final(self),
                    action,
                    status,
                    capacity,
                    *config,
                    now,
                ),
    {
        let now = Timestamp::now();
        self.step_at(status, capacity, config, now)
    }
}

/// A tick that follows another with the same status and charge does
/// nothing, whatever the times of the two ticks and whether or not a
/// handle was attached in between: no notification is shown, and the
/// level and the handle stay as they were.
pub proof fn lemma_repeated_tick_is_idle<H>(
    before: AlertState<H>,
    between: AlertState<H>,
    resumed: AlertState<H>,
    after: AlertState<H>,
    first: Action<H>,
    second: Action<H>,
    status: BatteryStatus,
    capacity: u8,
    config: Config,
    first_now: Timestamp,
    second_now: Timestamp,
)
    requires
        ticked(before, between, first, status, capacity, config, first_now),
        resumed.last_level == between.last_level,
        resumed.process_start_time == between.process_start_time,
        ticked(resumed, after, second, status, capacity, config, second_now),
    ensures
        second == Action::<H>::Nothing,
        after.last_level == resumed.last_level,
        after.active_handle == resumed.active_handle,
{
}

/// A battery found charging within the grace period after start is
/// noted as charging, and nothing is dismissed, shown or played.
pub proof fn lemma_charging_at_start_is_silent<H>(
    before: AlertState<H>,
    after: AlertState<H>,
    action: Action<H>,
    capacity: u8,
    config: Config,
    now: Timestamp,
)
    requires
        before.last_level != BatteryNotificationLevel::Charging,
        !grace_is_over(nanos_between(now, before.process_start_time)),
        ticked(before, after, action, BatteryStatus::Charging, capacity, config, now),
    ensures
        action == Action::<H>::PluggedInAtStart,
        after.last_level == BatteryNotificationLevel::Charging,
        after.active_handle == before.active_handle,
{
}

/// A tick shows a notification exactly when the battery is not being
/// charged and the charge lies in a tier other than the one last
/// alerted at; the notification that was shown before is then dismissed
/// and the new tier is remembered.
pub proof fn lemma_alert_on_change_of_tier<H>(
    before: AlertState<H>,
    after: AlertState<H>,
    action: Action<H>,
    status: BatteryStatus,
    capacity: u8,
    config: Config,
    now: Timestamp,
)
    requires
        ticked(before, after, action, status, capacity, config, now),
    ensures
        action is Alert <==> (status == BatteryStatus::Discharging || status
            == BatteryStatus::NotCharging) && config.level_at(capacity)
            != BatteryNotificationLevel::NoConflict && config.level_at(capacity)
            != before.last_level,
        action is Alert ==> action->Alert_dismiss == before.active_handle && after.last_level
            == config.level_at(capacity) && action->Alert_level == config.level_at(capacity),
{
}

} // verus!
