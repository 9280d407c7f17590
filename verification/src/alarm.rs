//! Environment samples and the alarm latch with its hysteresis.

use vstd::prelude::*;

verus! {

/// Temperature and humidity, each in hundredths.
#[derive(Debug, Clone, Copy, PartialEq, Eq, Structural)]
pub struct EnvironmentSample {
    pub temp_centi_c: i16,
    pub humidity_centi_percent: u16,
}

impl EnvironmentSample {
    pub const TEMP_ALARM_CENTI_C: i16 = 3_000;

    pub const HUMIDITY_ALARM_CENTI_PERCENT: u16 = 8_000;

    pub open spec fn spec_normal() -> EnvironmentSample {
        EnvironmentSample { temp_centi_c: 2_480, humidity_centi_percent: 6_250 }
    }

    /// Sample that stands in where the sensor cannot be read.
    #[verifier::when_used_as_spec(spec_normal)]
    pub fn normal() -> (sample: EnvironmentSample)
        ensures
            sample == Self::spec_normal(),
    {
        EnvironmentSample { temp_centi_c: 2_480, humidity_centi_percent: 6_250 }
    }

    /// The sample reaches one of two thresholds.
    pub open spec fn reaches(self, temp_centi_c: i16, humidity_centi_percent: u16) -> bool {
        self.temp_centi_c >= temp_centi_c || self.humidity_centi_percent >= humidity_centi_percent
    }

    /// Whether the sample reaches a default alarm threshold.
    pub fn is_alarm(self) -> (alarm: bool)
        ensures
            alarm == self.reaches(3_000, 8_000),
    {
        self.temp_centi_c >= Self::TEMP_ALARM_CENTI_C || self.humidity_centi_percent
            >= Self::HUMIDITY_ALARM_CENTI_PERCENT
    }

    /// Whether the sample reaches one of the given alarm thresholds.
    pub fn is_alarm_with(self, temp_alarm_centi_c: i16, humidity_alarm_centi_percent: u16) -> (alarm:
        bool)
        ensures
            alarm == self.reaches(temp_alarm_centi_c, humidity_alarm_centi_percent),
    {
        self.temp_centi_c >= temp_alarm_centi_c || self.humidity_centi_percent
            >= humidity_alarm_centi_percent
    }
}

/// How an alarm changed with a sample.
#[derive(Debug, Clone, Copy, PartialEq, Eq, Structural)]
pub enum AlarmTransition {
    Unchanged,
    Raised,
    Cleared,
}

/// Whether an alarm is on. It is raised at one pair of thresholds and cleared
/// below another, lower pair.
#[derive(Debug, Clone, Copy, PartialEq, Eq, Structural)]
pub struct AlarmLatch {
    active: bool,
}

impl View for AlarmLatch {
    type V = bool;

    /// The alarm is on.
    closed spec fn view(&self) -> bool {
        self.active
    }
}

/// Whether the alarm is on after a sample: while it is on, a sample that still
/// reaches a clear threshold keeps it on; while it is off, one that reaches an
/// alarm threshold turns it on.
pub open spec fn alarm_after(
    active: bool,
    sample: EnvironmentSample,
    temp_alarm_centi_c: i16,
    humidity_alarm_centi_percent: u16,
    temp_clear_centi_c: i16,
    humidity_clear_centi_percent: u16,
) -> bool {
    if active {
        sample.reaches(temp_clear_centi_c, humidity_clear_centi_percent)
    } else {
        sample.reaches(temp_alarm_centi_c, humidity_alarm_centi_percent)
    }
}

/// The change from one alarm state to another.
pub open spec fn transition(before: bool, after: bool) -> AlarmTransition {
    if before == after {
        AlarmTransition::Unchanged
    } else if after {
        AlarmTransition::Raised
    } else {
        AlarmTransition::Cleared
    }
}

impl AlarmLatch {
    /// An alarm that is off.
    pub fn new() -> (latch: AlarmLatch)
        ensures
            !latch@,
    {
        AlarmLatch { active: false }
    }

    /// Whether the alarm is on.
    pub fn is_active(self) -> (active: bool)
        ensures
            active == self@,
    {
        self.active
    }

    /// Take a sample into account.
    pub fn update(
        &mut self,
        sample: EnvironmentSample,
        temp_alarm_centi_c: i16,
        humidity_alarm_centi_percent: u16,
        temp_clear_centi_c: i16,
        humidity_clear_centi_percent: u16,
    ) -> (change: AlarmTransition)
        ensures
            final(self)@ == alarm_after(
                old(self)@,
                sample,
                temp_alarm_centi_c,
                humidity_alarm_centi_percent,
                temp_clear_centi_c,
                humidity_clear_centi_percent,
            ),
            change == transition(old(self)@, final(self)@),
    {
        let previous = self.active;
        if self.active {
            self.active = sample.temp_centi_c >= temp_clear_centi_c || sample.humidity_centi_percent
                >= humidity_clear_centi_percent;
        } else {
            self.active = sample.temp_centi_c >= temp_alarm_centi_c || sample.humidity_centi_percent
                >= humidity_alarm_centi_percent;
        }
        match (previous, self.active) {
            (false, true) => AlarmTransition::Raised,
            (true, false) => AlarmTransition::Cleared,
            _ => AlarmTransition::Unchanged,
        }
    }
}

impl Default for AlarmLatch {
    fn default() -> (latch: AlarmLatch)
        ensures
            !latch@,
    {
        AlarmLatch::new()
    }
}

/// Near the thresholds the alarm does not chatter: a sample between the clear
/// thresholds and the alarm thresholds leaves it as it is.
pub proof fn law_alarm_has_hysteresis(
    active: bool,
    sample: EnvironmentSample,
    temp_alarm_centi_c: i16,
    humidity_alarm_centi_percent: u16,
    temp_clear_centi_c: i16,
    humidity_clear_centi_percent: u16,
)
    requires
        !sample.reaches(temp_alarm_centi_c, humidity_alarm_centi_percent),
        sample.reaches(temp_clear_centi_c, humidity_clear_centi_percent),
    ensures
        alarm_after(
            active,
            sample,
            temp_alarm_centi_c,
            humidity_alarm_centi_percent,
            temp_clear_centi_c,
            humidity_clear_centi_percent,
        ) == active,
{
}

/// With clear thresholds at or below the alarm thresholds, a sample that reaches
/// an alarm threshold always leaves the alarm on, and one below both clear
/// thresholds always leaves it off.
pub proof fn law_alarm_follows_clear_samples(
    active: bool,
    sample: EnvironmentSample,
    temp_alarm_centi_c: i16,
    humidity_alarm_centi_percent: u16,
    temp_clear_centi_c: i16,
    humidity_clear_centi_percent: u16,
)
    requires
        temp_clear_centi_c <= temp_alarm_centi_c,
        humidity_clear_centi_percent <= humidity_alarm_centi_percent,
    ensures
        ({
            let after = alarm_after(
                active,
                sample,
                temp_alarm_centi_c,
                humidity_alarm_centi_percent,
                temp_clear_centi_c,
                humidity_clear_centi_percent,
            );
            &&& sample.reaches(temp_alarm_centi_c, humidity_alarm_centi_percent) ==> after
            &&& !sample.reaches(temp_clear_centi_c, humidity_clear_centi_percent) ==> !after
        }),
{
}

/// The alarm in plain comparisons: while it is off, either value at or above its
/// alarm threshold turns it on; while it is on, it goes off only when both values
/// are below their clear thresholds. A change is told by what it was before and is
/// after.
pub proof fn law_alarm_goes_by_both_values(
    active: bool,
    sample: EnvironmentSample,
    temp_alarm_centi_c: i16,
    humidity_alarm_centi_percent: u16,
    temp_clear_centi_c: i16,
    humidity_clear_centi_percent: u16,
)
    ensures
        ({
            let after = alarm_after(
                active,
                sample,
                temp_alarm_centi_c,
                humidity_alarm_centi_percent,
                temp_clear_centi_c,
                humidity_clear_centi_percent,
            );
            &&& !active && sample.temp_centi_c >= temp_alarm_centi_c ==> after
            &&& !active && sample.humidity_centi_percent >= humidity_alarm_centi_percent ==> after
            &&& !active && sample.temp_centi_c < temp_alarm_centi_c
                && sample.humidity_centi_percent < humidity_alarm_centi_percent ==> !after
            &&& active && sample.temp_centi_c >= temp_clear_centi_c ==> after
            &&& active && sample.humidity_centi_percent >= humidity_clear_centi_percent ==> after
            &&& active && sample.temp_centi_c < temp_clear_centi_c && sample.humidity_centi_percent
                < humidity_clear_centi_percent ==> !after
            &&& (transition(active, after) == AlarmTransition::Raised) == (!active && after)
            &&& (transition(active, after) == AlarmTransition::Cleared) == (active && !after)
            &&& (transition(active, after) == AlarmTransition::Unchanged) == (active == after)
        }),
{
}

/// A sample reaches a pair of thresholds exactly if either value does.
pub proof fn law_either_value_reaches(
    sample: EnvironmentSample,
    temp_centi_c: i16,
    humidity_centi_percent: u16,
)
    ensures
        !sample.reaches(temp_centi_c, humidity_centi_percent) == (sample.temp_centi_c
            < temp_centi_c && sample.humidity_centi_percent < humidity_centi_percent),
{
}

} // verus!
