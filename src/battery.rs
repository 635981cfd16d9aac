use vstd::prelude::*;

use crate::config::Notification;
use crate::fsm::{Fsm, FsmKey, FsmState};
use crate::text::same_text;

verus! {

/// The states of the battery.
#[derive(Debug, Clone, Copy, PartialEq, Eq, Hash, Structural)]
pub enum State {
    Charging,
    Discharging,
    Full,
    Low,
    Critical,
}

impl FsmKey for State {
    open spec fn ordinal_spec(&self) -> nat {
        match self {
            State::Charging => 0,
            State::Discharging => 1,
            State::Full => 2,
            State::Low => 3,
            State::Critical => 4,
        }
    }

    fn ordinal(&self) -> (r: usize) {
        match self {
            State::Charging => 0,
            State::Discharging => 1,
            State::Full => 2,
            State::Low => 3,
            State::Critical => 4,
        }
    }
}

/// What one tick hands to the machine: the battery's level and status, the
/// thresholds, the notification of each state (where one is configured),
/// and the notifications queued for sending.
pub struct Data<'a> {
    pub current_level: u32,
    pub status: String,
    pub low_level: u32,
    pub critical_level: u32,
    pub critical: Option<&'a Notification>,
    pub low: Option<&'a Notification>,
    pub full: Option<&'a Notification>,
    pub charging: Option<&'a Notification>,
    pub discharging: Option<&'a Notification>,
    pub outbox: Vec<&'a Notification>,
}

/// The sequence that holds the payload, if there is one.
pub open spec fn queued<'a>(payload: Option<&'a Notification>) -> Seq<&'a Notification> {
    match payload {
        Some(n) => seq![n],
        None => Seq::empty(),
    }
}

/// The state that the battery rules lead to from `from`, for a reading of
/// status `status` and charge level `level`; `None` where they call for no
/// move. Thresholds are tested critical first, so a level at or below the
/// critical one is never taken for merely low.
pub open spec fn next_of(from: State, status: Seq<char>, level: u32, low_level: u32, critical_level: u32) -> Option<State> {
    let charging = status == "Charging"@;
    let discharging = status == "Discharging"@;
    let full = status == "Full"@;
    let critical = discharging && level <= critical_level;
    let low = discharging && level <= low_level;
    match from {
        State::Charging => if full {
            Some(State::Full)
        } else if critical {
            Some(State::Critical)
        } else if low {
            Some(State::Low)
        } else if discharging {
            Some(State::Discharging)
        } else {
            None
        },
        State::Discharging => if charging {
            Some(State::Charging)
        } else if full {
            Some(State::Full)
        } else if critical {
            Some(State::Critical)
        } else if low {
            Some(State::Low)
        } else {
            None
        },
        State::Full => if charging {
            Some(State::Charging)
        } else if discharging {
            Some(State::Discharging)
        } else {
            None
        },
        State::Low => if charging {
            Some(State::Charging)
        } else if critical {
            Some(State::Critical)
        } else {
            None
        },
        State::Critical => if charging {
            Some(State::Charging)
        } else {
            None
        },
    }
}

impl<'a> Data<'a> {
    /// The state that the battery rules lead to from `from` on this reading.
    pub open spec fn rule(self, from: State) -> Option<State> {
        next_of(from, self.status@, self.current_level, self.low_level, self.critical_level)
    }

    /// The notification configured for state `s`.
    pub open spec fn payload(self, s: State) -> Option<&'a Notification> {
        match s {
            State::Charging => self.charging,
            State::Discharging => self.discharging,
            State::Full => self.full,
            State::Low => self.low,
            State::Critical => self.critical,
        }
    }

    /// `other` holds the same reading as `self`: all but the outbox agree.
    pub open spec fn same_reading(self, other: Data<'a>) -> bool {
        &&& other.current_level == self.current_level
        &&& other.status == self.status
        &&& other.low_level == self.low_level
        &&& other.critical_level == self.critical_level
        &&& other.critical == self.critical
        &&& other.low == self.low
        &&& other.full == self.full
        &&& other.charging == self.charging
        &&& other.discharging == self.discharging
    }

    /// `after` holds the same reading as `self`, and its outbox is that of
    /// `self` with `payload` (if any) queued at the end.
    pub open spec fn announced(self, after: Data<'a>, payload: Option<&'a Notification>) -> bool {
        &&& self.same_reading(after)
        &&& after.outbox@ == self.outbox@ + queued(payload)
    }
}

/// Queues `payload`, if there is one.
fn announce<'a>(data: &mut Data<'a>, payload: Option<&'a Notification>)
    ensures
        old(data).announced(*final(data), payload),
{
    if let Some(n) = payload {
        data.outbox.push(n);
    }
    assert(data.outbox@ =~= old(data).outbox@ + queued(payload));
}

fn is_charging(data: &Data) -> (r: bool)
    ensures
        r == (data.status@ == "Charging"@),
{
    same_text(data.status.as_str(), "Charging")
}

fn is_discharging(data: &Data) -> (r: bool)
    ensures
        r == (data.status@ == "Discharging"@),
{
    same_text(data.status.as_str(), "Discharging")
}

fn is_full(data: &Data) -> (r: bool)
    ensures
        r == (data.status@ == "Full"@),
{
    same_text(data.status.as_str(), "Full")
}

/// The handler of the charging state.
pub struct ChargingState;

/// The handler of the discharging state.
pub struct DischargingState;

/// The handler of the full state.
pub struct FullState;

/// The handler of the low state.
pub struct LowState;

/// The handler of the critical state.
pub struct CriticalState;

impl<'a> FsmState<State, Data<'a>> for ChargingState {
    open spec fn next_spec(&self, data: Data<'a>) -> Option<State> {
        data.rule(State::Charging)
    }

    open spec fn entered(&self, before: Data<'a>, after: Data<'a>) -> bool {
        before.announced(after, before.charging)
    }

    open spec fn exited(&self, before: Data<'a>, after: Data<'a>) -> bool {
        after == before
    }

    fn enter(&self, data: &mut Data<'a>) {
        let payload = data.charging;
        announce(data, payload);
    }

    fn next_state(&self, data: &Data<'a>) -> (r: Option<State>) {
        if is_full(data) {
            Some(State::Full)
        } else if is_discharging(data) && data.current_level <= data.critical_level {
            Some(State::Critical)
        } else if is_discharging(data) && data.current_level <= data.low_level {
            Some(State::Low)
        } else if is_discharging(data) {
            Some(State::Discharging)
        } else {
            None
        }
    }

    fn exit(&self, data: &mut Data<'a>) {
    }
}

impl<'a> FsmState<State, Data<'a>> for DischargingState {
    open spec fn next_spec(&self, data: Data<'a>) -> Option<State> {
        data.rule(State::Discharging)
    }

    open spec fn entered(&self, before: Data<'a>, after: Data<'a>) -> bool {
        before.announced(after, before.discharging)
    }

    open spec fn exited(&self, before: Data<'a>, after: Data<'a>) -> bool {
        after == before
    }

    fn enter(&self, data: &mut Data<'a>) {
        let payload = data.discharging;
        announce(data, payload);
    }

    fn next_state(&self, data: &Data<'a>) -> (r: Option<State>) {
        if is_charging(data) {
            Some(State::Charging)
        } else if is_full(data) {
            Some(State::Full)
        } else if is_discharging(data) && data.current_level <= data.critical_level {
            Some(State::Critical)
        } else if is_discharging(data) && data.current_level <= data.low_level {
            Some(State::Low)
        } else {
            None
        }
    }

    fn exit(&self, data: &mut Data<'a>) {
    }
}

impl<'a> FsmState<State, Data<'a>> for FullState {
    open spec fn next_spec(&self, data: Data<'a>) -> Option<State> {
        data.rule(State::Full)
    }

    open spec fn entered(&self, before: Data<'a>, after: Data<'a>) -> bool {
        before.announced(after, before.full)
    }

    open spec fn exited(&self, before: Data<'a>, after: Data<'a>) -> bool {
        after == before
    }

    fn enter(&self, data: &mut Data<'a>) {
        let payload = data.full;
        announce(data, payload);
    }

    fn next_state(&self, data: &Data<'a>) -> (r: Option<State>) {
        if is_charging(data) {
            Some(State::Charging)
        } else if is_discharging(data) {
            Some(State::Discharging)
        } else {
            None
        }
    }

    fn exit(&self, data: &mut Data<'a>) {
    }
}

impl<'a> FsmState<State, Data<'a>> for LowState {
    open spec fn next_spec(&self, data: Data<'a>) -> Option<State> {
        data.rule(State::Low)
    }

    open spec fn entered(&self, before: Data<'a>, after: Data<'a>) -> bool {
        before.announced(after, before.low)
    }

    open spec fn exited(&self, before: Data<'a>, after: Data<'a>) -> bool {
        after == before
    }

    fn enter(&self, data: &mut Data<'a>) {
        let payload = data.low;
        announce(data, payload);
    }

    fn next_state(&self, data: &Data<'a>) -> (r: Option<State>) {
        if is_charging(data) {
            Some(State::Charging)
        } else if is_discharging(data) && data.current_level <= data.critical_level {
            Some(State::Critical)
        } else {
            None
        }
    }

    fn exit(&self, data: &mut Data<'a>) {
    }
}

impl<'a> FsmState<State, Data<'a>> for CriticalState {
    open spec fn next_spec(&self, data: Data<'a>) -> Option<State> {
        data.rule(State::Critical)
    }

    open spec fn entered(&self, before: Data<'a>, after: Data<'a>) -> bool {
        before.announced(after, before.critical)
    }

    open spec fn exited(&self, before: Data<'a>, after: Data<'a>) -> bool {
        after == before
    }

    fn enter(&self, data: &mut Data<'a>) {
        let payload = data.critical;
        announce(data, payload);
    }

    fn next_state(&self, data: &Data<'a>) -> (r: Option<State>) {
        if is_charging(data) {
            Some(State::Charging)
        } else {
            None
        }
    }

    fn exit(&self, data: &mut Data<'a>) {
    }
}

/// The handler of any one of the battery's states: the table that the
/// machine dispatches on holds one of these per state.
pub enum StateHandler {
    Charging(ChargingState),
    Discharging(DischargingState),
    Full(FullState),
    Low(LowState),
    Critical(CriticalState),
}

impl<'a> FsmState<State, Data<'a>> for StateHandler {
    open spec fn next_spec(&self, data: Data<'a>) -> Option<State> {
        match self {
            StateHandler::Charging(h) => h.next_spec(data),
            StateHandler::Discharging(h) => h.next_spec(data),
            StateHandler::Full(h) => h.next_spec(data),
            StateHandler::Low(h) => h.next_spec(data),
            StateHandler::Critical(h) => h.next_spec(data),
        }
    }

    open spec fn entered(&self, before: Data<'a>, after: Data<'a>) -> bool {
        match self {
            StateHandler::Charging(h) => h.entered(before, after),
            StateHandler::Discharging(h) => h.entered(before, after),
            StateHandler::Full(h) => h.entered(before, after),
            StateHandler::Low(h) => h.entered(before, after),
            StateHandler::Critical(h) => h.entered(before, after),
        }
    }

    open spec fn exited(&self, before: Data<'a>, after: Data<'a>) -> bool {
        match self {
            StateHandler::Charging(h) => h.exited(before, after),
            StateHandler::Discharging(h) => h.exited(before, after),
            StateHandler::Full(h) => h.exited(before, after),
            StateHandler::Low(h) => h.exited(before, after),
            StateHandler::Critical(h) => h.exited(before, after),
        }
    }

    fn enter(&self, data: &mut Data<'a>) {
        match self {
            StateHandler::Charging(h) => h.enter(data),
            StateHandler::Discharging(h) => h.enter(data),
            StateHandler::Full(h) => h.enter(data),
            StateHandler::Low(h) => h.enter(data),
            StateHandler::Critical(h) => h.enter(data),
        }
    }

    fn next_state(&self, data: &Data<'a>) -> (r: Option<State>) {
        match self {
            StateHandler::Charging(h) => h.next_state(data),
            StateHandler::Discharging(h) => h.next_state(data),
            StateHandler::Full(h) => h.next_state(data),
            StateHandler::Low(h) => h.next_state(data),
            StateHandler::Critical(h) => h.next_state(data),
        }
    }

    fn exit(&self, data: &mut Data<'a>) {
        match self {
            StateHandler::Charging(h) => h.exit(data),
            StateHandler::Discharging(h) => h.exit(data),
            StateHandler::Full(h) => h.exit(data),
            StateHandler::Low(h) => h.exit(data),
            StateHandler::Critical(h) => h.exit(data),
        }
    }
}

/// The battery's state machine.
pub type BatteryFsm = Fsm<State, StateHandler>;

/// A handler table that gives each state its own handler.
pub open spec fn battery_table(states: Seq<StateHandler>) -> bool {
    &&& states.len() == 5
    &&& states[0] == StateHandler::Charging(ChargingState)
    &&& states[1] == StateHandler::Discharging(DischargingState)
    &&& states[2] == StateHandler::Full(FullState)
    &&& states[3] == StateHandler::Low(LowState)
    &&& states[4] == StateHandler::Critical(CriticalState)
}

/// The battery's state machine, in the discharging state, the most common
/// one on a running laptop.
pub fn create_fsm() -> (r: BatteryFsm)
    ensures
        r.state() == State::Discharging,
        battery_table(r.handlers()),
{
    let mut states: Vec<StateHandler> = Vec::new();
    states.push(StateHandler::Charging(ChargingState));
    states.push(StateHandler::Discharging(DischargingState));
    states.push(StateHandler::Full(FullState));
    states.push(StateHandler::Low(LowState));
    states.push(StateHandler::Critical(CriticalState));
    Fsm::new(State::Discharging, states)
}

/// One step of the battery's machine follows the rule table: where the rule
/// gives no next state, neither the state nor the tick's data change; where
/// it gives one, the machine moves there and that state's notification (if
/// configured) is queued once, and nothing else changes.
pub proof fn lemma_battery_step<'a>(m: BatteryFsm, m2: BatteryFsm, d: Data<'a>, d2: Data<'a>)
    requires
        battery_table(m.handlers()),
        BatteryFsm::stepped(m, m2, d, d2),
    ensures
        battery_table(m2.handlers()),
        match d.rule(m.state()) {
            None => m2.state() == m.state() && d2 == d,
            Some(next) => m2.state() == next && d.announced(d2, d.payload(next)),
        },
{
    if let Some(next) = d.rule(m.state()) {
        let mid = choose|mid: Data<'a>|
            {
                &&& #[trigger] m.handler_of(m.state()).exited(d, mid)
                &&& m.handler_of(next).entered(mid, d2)
            };
        assert(mid == d);
    }
}

} // verus!
