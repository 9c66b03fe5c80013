//! A scripted battery: a list of states that is walked on a timer.

use vstd::prelude::*;
use vstd::string::*;
use crate::clock::{nanos_between, Timestamp};

verus! {

/// One state of the script: the status text and the charge.
#[derive(Debug, Clone)]
pub struct DebugState {
    pub status: String,
    pub capacity: u8,
}

/// What a [`DebugState`] holds, as plain values.
pub struct DebugStateView {
    pub status: Seq<char>,
    pub capacity: u8,
}

impl View for DebugState {
    type V = DebugStateView;

    open spec fn view(&self) -> DebugStateView {
        DebugStateView { status: self.status@, capacity: self.capacity }
    }
}

/// The script: its states in order, and the seconds that each one lasts.
#[derive(Debug, Clone)]
pub struct DebugSettings {
    pub states: Vec<DebugState>,
    pub seconds_between: i64,
}

impl DebugSettings {
    /// A script of the given states and dwell time.
    pub fn new(states: Vec<DebugState>, seconds_between: i64) -> (settings: DebugSettings)
        ensures
            settings.states == states,
            settings.seconds_between == seconds_between,
    {
        DebugSettings { states, seconds_between }
    }

    /// Whether the script has a state to start in.
    pub fn is_playable(&self) -> (playable: bool)
        ensures
            playable == (self.states@.len() > 0),
    {
        self.states.len() > 0
    }
}

/// A script that is being played: the state it is in and the time at
/// which it entered that state.
pub struct SimulatedBattery {
    pub settings: DebugSettings,
    pub current_state: usize,
    pub last_update_at: Timestamp,
}

/// The index after `current` in a script of `len` states, the first
/// state following the last.
pub open spec fn following_state(current: int, len: int) -> int {
    if current + 1 >= len {
        0
    } else {
        current + 1
    }
}

impl SimulatedBattery {
    /// The script has a current state, and the time of its last move is
    /// a moment.
    pub open spec fn wf(&self) -> bool {
        &&& self.current_state < self.settings.states@.len()
        &&& self.last_update_at.wf()
    }

    /// Whether the dwell time has passed at `now`.
    pub open spec fn is_due(&self, now: Timestamp) -> bool {
        nanos_between(now, self.last_update_at) >= self.settings.seconds_between * 1_000_000_000
    }

    /// The index of the state that a sample taken at `now` reports.
    pub open spec fn state_at(&self, now: Timestamp) -> int {
        if self.is_due(now) {
            following_state(self.current_state as int, self.settings.states@.len() as int)
        } else {
            self.current_state as int
        }
    }

    /// Starts a script in its first state at `now`.
    pub fn new(settings: DebugSettings, now: Timestamp) -> (battery: SimulatedBattery)
        requires
            settings.states@.len() > 0,
            now.wf(),
        ensures
            battery.wf(),
            battery.settings == settings,
            battery.current_state == 0,
            battery.last_update_at == now,
    {
        SimulatedBattery { settings, current_state: 0, last_update_at: now }
    }

    /// The state the script is in.
    pub fn get_state(&self) -> (state: DebugState)
        requires
            self.wf(),
        ensures
            state@ == self.settings.states@[self.current_state as int]@,
    {
        let state = &self.settings.states[self.current_state];
        DebugState { status: state.status.clone(), capacity: state.capacity }
    }

    /// Whether the dwell time has passed at `now`.
    pub fn should_move_to_next_state(&self, now: Timestamp) -> (due: bool)
        requires
            self.wf(),
            now.wf(),
        ensures
            due == self.is_due(now),
    {
        now.is_at_least(self.settings.seconds_between, self.last_update_at)
    }

    /// Moves to the following state, the first one after the last.
    pub fn next_state(&mut self)
        requires
            old(self).wf(),
        ensures
            final(self).wf(),
            final(self).settings == old(self).settings,
            final(self).last_update_at == old(self).last_update_at,
            final(self).current_state == following_state(
                old(self).current_state as int,
                old(self).settings.states@.len() as int,
            ),
    {
        let len = self.settings.states.len();
        let mut next_state: usize = self.current_state + 1;
        if next_state >= len {
            next_state = 0;
        }
        self.current_state = next_state;
    }

    /// Samples the script at `now`: where the dwell time has passed, the
    /// script first moves to the following state and notes `now` as the
    /// time of the move; else nothing changes. The state it is then in
    /// is returned.
    pub fn sample_at(&mut self, now: Timestamp) -> (state: DebugState)
        requires
            old(self).wf(),
            now.wf(),
        ensures
            final(self).wf(),
            final(self).settings == old(self).settings,
            final(self).current_state == old(self).state_at(now),
            final(self).last_update_at == if old(self).is_due(now) {
                now
            } else {
                old(self).last_update_at
            },
            state@ == old(self).settings.states@[old(self).state_at(now)]@,
    {
        if self.should_move_to_next_state(now) {
            self.last_update_at = now;
            self.next_state();
        }
        self.get_state()
    }

    /// Samples the script at the current moment.
    pub fn sample(&mut self) -> (state: DebugState)
        requires
            old(self).wf(),
        ensures
            final(self).wf(),
            final(self).settings == old(self).settings,
            exists|now: Timestamp|
                #[trigger] now.wf() && final(self).current_state == old(self).state_at(now)
                    && final(self).last_update_at == (if old(self).is_due(now) {
                    now
                } else {
                    old(self).last_update_at
                }) && state@ == old(self).settings.states@[old(self).state_at(now)]@,
    {
        let now = Timestamp::now();
        self.sample_at(now)
    }
}

/// A sample taken before the dwell time has passed reports the state the
/// script is in; one taken after it reports the following state, counted
/// round the length of the script.
pub proof fn lemma_sample_holds_then_advances(battery: SimulatedBattery, now: Timestamp)
    requires
        battery.wf(),
    ensures
        nanos_between(now, battery.last_update_at) < battery.settings.seconds_between
            * 1_000_000_000
            ==> battery.state_at(now) == battery.current_state,
        nanos_between(now, battery.last_update_at) >= battery.settings.seconds_between
            * 1_000_000_000
            ==> battery.state_at(now) == (battery.current_state + 1) % (
            battery.settings.states@.len() as int),
        0 <= battery.state_at(now) < battery.settings.states@.len(),
{
    let len = battery.settings.states@.len() as int;
    let current = battery.current_state as int;
    if current + 1 < len {
        vstd::arithmetic::div_mod::lemma_small_mod((current + 1) as nat, len as nat);
    } else {
        vstd::arithmetic::div_mod::lemma_mod_self_0(len);
    }
}

} // verus!
