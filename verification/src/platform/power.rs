use vstd::prelude::*;
use crate::text::{ascii_lowercase, lowercase_equals, str_equals};

verus! {

/// Thermal pressure, mirroring the system's thermal state.
#[derive(Clone, Copy, PartialEq, Eq, Debug, Structural)]
pub enum ThermalState {
    /// No corrective action needed.
    Nominal,
    /// Mildly elevated — shed discretionary work.
    Fair,
    /// The system is throttling. Reduce the frame rate and effect cost now.
    Serious,
    /// Throttling hard. Do the minimum.
    Critical,
}

/// The thermal state a raw bridge value stands for.
pub open spec fn thermal_of_raw(v: i32) -> ThermalState {
    if v == 1 {
        ThermalState::Fair
    } else if v == 2 {
        ThermalState::Serious
    } else if v == 3 {
        ThermalState::Critical
    } else {
        ThermalState::Nominal
    }
}

impl ThermalState {
    /// Decode the bridge's value: 1 fair, 2 serious, 3 critical, anything
    /// else nominal.
    pub fn from_i32(v: i32) -> (state: ThermalState)
        ensures
            state == thermal_of_raw(v),
    {
        match v {
            1 => ThermalState::Fair,
            2 => ThermalState::Serious,
            3 => ThermalState::Critical,
            _ => ThermalState::Nominal,
        }
    }
}

impl Default for ThermalState {
    fn default() -> (state: Self)
        ensures
            state == ThermalState::Nominal,
    {
        ThermalState::Nominal
    }
}

/// The device's current power signals.
#[derive(Clone, Copy, PartialEq, Eq, Debug, Structural)]
pub struct PowerState {
    pub thermal: ThermalState,
    pub low_power_mode: bool,
}

impl Default for PowerState {
    fn default() -> (power: Self)
        ensures
            power.thermal == ThermalState::Nominal,
            !power.low_power_mode,
    {
        PowerState { thermal: ThermalState::Nominal, low_power_mode: false }
    }
}

/// How hard the system is throttling: 0 for nominal up to 3 for critical,
/// in the order the system ranks its thermal states.
pub open spec fn thermal_pressure(state: ThermalState) -> int {
    match state {
        ThermalState::Nominal => 0,
        ThermalState::Fair => 1,
        ThermalState::Serious => 2,
        ThermalState::Critical => 3,
    }
}

/// Whether power signals call for a reduced quality tier: the device is
/// throttling (serious or worse), or Low Power Mode is on.
pub open spec fn constrained(power: PowerState) -> bool {
    power.low_power_mode || thermal_pressure(power.thermal) >= 2
}

impl PowerState {
    /// Whether the game should be on a reduced quality tier — the device is
    /// throttling, or the user asked for longer battery life.
    pub fn is_constrained(self) -> (constrained: bool)
        ensures
            constrained <==> (self.low_power_mode || self.thermal == ThermalState::Serious
                || self.thermal == ThermalState::Critical),
            constrained == crate::platform::power::constrained(self),
    {
        self.low_power_mode || matches!(self.thermal, ThermalState::Serious | ThermalState::Critical)
    }
}

/// Emitted when the power signals change — the transition, not the level.
#[derive(Clone, Copy, Debug)]
pub struct PowerStateChanged(pub PowerState);

/// The power signals two raw bridge values stand for.
pub open spec fn power_of_raw(thermal: i32, low_power: i32) -> PowerState {
    PowerState { thermal: thermal_of_raw(thermal), low_power_mode: low_power != 0 }
}

/// One poll: the new power state, and whether a change is announced.
pub open spec fn polled(before: PowerState, thermal: i32, low_power: i32) -> (PowerState, bool) {
    (power_of_raw(thermal, low_power), power_of_raw(thermal, low_power) != before)
}

/// Project the bridge's values. Returns the change to announce when
/// something actually moved.
pub fn observe_power(power: &mut PowerState, thermal: i32, low_power: i32) -> (changed: Option<PowerStateChanged>)
    ensures
        *final(power) == polled(*old(power), thermal, low_power).0,
        changed is Some <==> polled(*old(power), thermal, low_power).1,
        changed matches Some(PowerStateChanged(p)) ==> p == power_of_raw(thermal, low_power),
{
    let current = PowerState { thermal: ThermalState::from_i32(thermal), low_power_mode: low_power != 0 };
    if current == *power {
        return None;
    }
    *power = current;
    Some(PowerStateChanged(current))
}

/// A transition is announced once: polling the same level again announces
/// nothing more and changes nothing.
pub proof fn holding_a_level_announces_nothing(before: PowerState, thermal: i32, low_power: i32)
    ensures
        !polled(polled(before, thermal, low_power).0, thermal, low_power).1,
        polled(polled(before, thermal, low_power).0, thermal, low_power).0 == polled(before, thermal, low_power).0,
{
}

/// The thermal value the desktop fake's setting gives: `fair` 1, `serious`
/// 2, `critical` 3, ignoring ASCII case; anything else nominal.
pub open spec fn thermal_of_setting(setting: Option<&str>) -> i32 {
    let v = match setting {
        Some(s) => ascii_lowercase(s@),
        None => Seq::<char>::empty(),
    };
    if v == "fair"@ {
        1
    } else if v == "serious"@ {
        2
    } else if v == "critical"@ {
        3
    } else {
        0
    }
}

/// The thermal value the desktop fake's setting gives.
pub fn thermal_setting(setting: Option<&str>) -> (raw: i32)
    ensures
        raw == thermal_of_setting(setting),
{
    match setting {
        Some(s) => {
            if lowercase_equals(s, "fair") {
                1
            } else if lowercase_equals(s, "serious") {
                2
            } else if lowercase_equals(s, "critical") {
                3
            } else {
                0
            }
        },
        None => {
            proof {
                reveal_strlit("fair");
                reveal_strlit("serious");
                reveal_strlit("critical");
                assert("fair"@.len() == 4);
                assert("serious"@.len() == 7);
                assert("critical"@.len() == 8);
            }
            0
        },
    }
}

/// The Low Power Mode value the desktop fake's setting gives: 1 for exactly
/// `1` or `true`, 0 otherwise.
pub open spec fn low_power_of_setting(setting: Option<&str>) -> i32 {
    match setting {
        Some(s) => if s@ == "1"@ || s@ == "true"@ { 1 } else { 0 },
        None => 0,
    }
}

/// The Low Power Mode value the desktop fake's setting gives.
pub fn low_power_setting(setting: Option<&str>) -> (raw: i32)
    ensures
        raw == low_power_of_setting(setting),
{
    match setting {
        Some(s) => if str_equals(s, "1") || str_equals(s, "true") { 1 } else { 0 },
        None => 0,
    }
}

/// The bridge reports the system's thermal rank as is: each value 0 to 3
/// decodes to the state of that pressure, so the four values name four
/// different states and a higher value is never a lighter state; any other
/// value is nominal. A device reporting serious or critical pressure (2 or
/// 3), or Low Power Mode, is constrained, and only then.
pub proof fn thermal_values_rank_pressure(v: i32, w: i32, low_power: i32)
    ensures
        0 <= v <= 3 ==> thermal_pressure(thermal_of_raw(v)) == v,
        0 <= v < w <= 3 ==> thermal_pressure(thermal_of_raw(v)) < thermal_pressure(thermal_of_raw(w)),
        !(0 <= v <= 3) ==> thermal_of_raw(v) == ThermalState::Nominal,
        0 <= v <= 3 ==> (constrained(power_of_raw(v, low_power)) <==> (v >= 2 || low_power != 0)),
{
}

} // verus!
