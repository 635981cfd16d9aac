use vstd::prelude::*;

use crate::battery::{battery_table, lemma_battery_step, BatteryFsm, Data, State};

verus! {

/// The three status words differ from each other.
proof fn reveal_status_words()
    ensures
        "Charging"@ != "Discharging"@,
        "Charging"@ != "Full"@,
        "Discharging"@ != "Full"@,
{
    reveal_strlit("Charging");
    reveal_strlit("Discharging");
    reveal_strlit("Full");
    assert("Charging"@.len() != "Discharging"@.len());
    assert("Charging"@.len() != "Full"@.len());
}

/// In the discharging state, a discharging reading above the low level (with
/// the critical level at or below the low level) moves nowhere and runs no hook.
pub proof fn law_discharging_above_low<'a>(m: BatteryFsm, m2: BatteryFsm, d: Data<'a>, d2: Data<'a>)
    requires
        battery_table(m.handlers()),
        BatteryFsm::stepped(m, m2, d, d2),
        m.state() == State::Discharging,
        d.status@ == "Discharging"@,
        d.critical_level <= d.low_level,
        d.current_level > d.low_level,
    ensures
        m2.state() == State::Discharging,
        d2 == d,
{
    reveal_status_words();
    lemma_battery_step(m, m2, d, d2);
}

/// From charging, discharging or low, a discharging reading at or below the
/// critical level moves to the critical state and queues the critical
/// notification (if configured) exactly once.
pub proof fn law_discharge_to_critical<'a>(m: BatteryFsm, m2: BatteryFsm, d: Data<'a>, d2: Data<'a>)
    requires
        battery_table(m.handlers()),
        BatteryFsm::stepped(m, m2, d, d2),
        m.state() == State::Charging || m.state() == State::Discharging || m.state() == State::Low,
        d.status@ == "Discharging"@,
        d.current_level <= d.critical_level,
    ensures
        m2.state() == State::Critical,
        d.announced(d2, d.critical),
{
    reveal_status_words();
    lemma_battery_step(m, m2, d, d2);
}

/// The rules never lead from a state to itself.
pub proof fn law_no_self_transition<'a>(d: Data<'a>, s: State)
    ensures
        d.rule(s) != Some(s),
{
}

/// A step that leaves the state as it was runs no hook and leaves the tick's
/// data as it was; a second step on the same reading then does the same.
pub proof fn law_steady_state_is_silent<'a>(
    m: BatteryFsm,
    m2: BatteryFsm,
    m3: BatteryFsm,
    d: Data<'a>,
    d2: Data<'a>,
    d3: Data<'a>,
)
    requires
        battery_table(m.handlers()),
        BatteryFsm::stepped(m, m2, d, d2),
        m2.state() == m.state(),
        BatteryFsm::stepped(m2, m3, d2, d3),
    ensures
        d2 == d,
        m3.state() == m2.state(),
        d3 == d2,
{
    lemma_battery_step(m, m2, d, d2);
    law_no_self_transition(d, m.state());
    lemma_battery_step(m2, m3, d2, d3);
}

/// From full, a charging reading moves to charging and queues the charging
/// notification (if configured) once; the same reading on the next tick
/// moves nowhere and queues nothing.
pub proof fn law_full_to_charging<'a>(
    m: BatteryFsm,
    m2: BatteryFsm,
    m3: BatteryFsm,
    d: Data<'a>,
    d2: Data<'a>,
    e: Data<'a>,
    e2: Data<'a>,
)
    requires
        battery_table(m.handlers()),
        m.state() == State::Full,
        d.status@ == "Charging"@,
        BatteryFsm::stepped(m, m2, d, d2),
        d.same_reading(e),
        BatteryFsm::stepped(m2, m3, e, e2),
    ensures
        m2.state() == State::Charging,
        d.announced(d2, d.charging),
        m3.state() == State::Charging,
        e2 == e,
{
    reveal_status_words();
    lemma_battery_step(m, m2, d, d2);
    lemma_battery_step(m2, m3, e, e2);
}

/// The critical state is left only on a charging reading, for charging; any
/// other status, whatever the level, moves nowhere and runs no hook.
pub proof fn law_critical_leaves_only_for_charging<'a>(
    m: BatteryFsm,
    m2: BatteryFsm,
    d: Data<'a>,
    d2: Data<'a>,
)
    requires
        battery_table(m.handlers()),
        BatteryFsm::stepped(m, m2, d, d2),
        m.state() == State::Critical,
    ensures
        d.status@ == "Charging"@ ==> m2.state() == State::Charging && d.announced(d2, d.charging),
        d.status@ != "Charging"@ ==> m2.state() == State::Critical && d2 == d,
{
    lemma_battery_step(m, m2, d, d2);
}

} // verus!
