//! The PWM driver: what `start` and `stop` ask of the engine, and what the
//! lane is left doing.
use vstd::prelude::*;

use crate::config::{lane_configuration, pwm_lane_configuration, LaneConfiguration};
use crate::error::ErrorCode;
use crate::timing::{
    compute_period_duty, duty_supported, duty_ticks_of, frequency_supported, period_of,
    PeriodDuty, MAX_DUTY_CYCLE_PERCENTAGE,
};

verus! {

/// The lane of the engine that renders the waveform.
pub const PWM_LANE: u32 = 0;

/// Everything the engine must be given to render one waveform: load the
/// program, apply `config` to `lane` with `timing.period` as the period,
/// then queue `timing.duty_ticks`.
#[derive(Clone, Copy, Debug, PartialEq, Eq, Structural)]
pub struct ArmPlan {
    pub lane: u32,
    pub pin: u32,
    pub config: LaneConfiguration,
    pub timing: PeriodDuty,
}

/// What the lane is doing, as far as the driver has commanded it.
#[derive(Clone, Copy, Debug, PartialEq, Eq, Structural)]
pub enum LaneState {
    /// Cleared: nothing is being rendered.
    Stopped,
    /// Rendering the waveform `timing` on `pin`.
    Running { pin: u32, timing: PeriodDuty },
}

/// Whether a start request can be honoured.
pub open spec fn start_accepted(
    max_frequency_hz: int,
    frequency_hz: int,
    duty_cycle_percentage: int,
) -> bool {
    frequency_supported(max_frequency_hz, frequency_hz) && duty_supported(duty_cycle_percentage)
}

/// The counts derived from an accepted request.
pub open spec fn timing_of(
    max_frequency_hz: int,
    frequency_hz: int,
    duty_cycle_percentage: int,
) -> PeriodDuty {
    let period = period_of(max_frequency_hz, frequency_hz);
    PeriodDuty {
        period: period as u32,
        duty_ticks: duty_ticks_of(period, duty_cycle_percentage) as u32,
    }
}

/// The plan that renders `timing` on `pin`.
pub open spec fn arm_plan_of(pin: u32, timing: PeriodDuty) -> ArmPlan {
    ArmPlan { lane: PWM_LANE, pin, config: pwm_lane_configuration(pin), timing }
}

/// What `start` returns: the plan, or `Inval` for a request that cannot be
/// honoured. It depends on the request alone, not on what the lane did before.
pub open spec fn start_result(
    pin: u32,
    max_frequency_hz: int,
    frequency_hz: int,
    duty_cycle_percentage: int,
) -> Result<ArmPlan, ErrorCode> {
    if start_accepted(max_frequency_hz, frequency_hz, duty_cycle_percentage) {
        Ok(arm_plan_of(pin, timing_of(max_frequency_hz, frequency_hz, duty_cycle_percentage)))
    } else {
        Err(ErrorCode::Inval)
    }
}

/// The lane after a start request: running the new waveform when the request
/// is accepted, untouched otherwise.
pub open spec fn lane_after_start(
    lane: LaneState,
    pin: u32,
    max_frequency_hz: int,
    frequency_hz: int,
    duty_cycle_percentage: int,
) -> LaneState {
    if start_accepted(max_frequency_hz, frequency_hz, duty_cycle_percentage) {
        LaneState::Running {
            pin,
            timing: timing_of(max_frequency_hz, frequency_hz, duty_cycle_percentage),
        }
    } else {
        lane
    }
}

/// The lane after a stop request.
pub open spec fn lane_after_stop(lane: LaneState) -> LaneState {
    LaneState::Stopped
}

/// PWM on one lane of a waveform engine.
///
/// The reference clock is read by the caller and passed to `start`; the plans
/// returned are carried out by the caller on the engine.
pub struct PioPwm {
    lane: LaneState,
}

impl View for PioPwm {
    type V = LaneState;

    closed spec fn view(&self) -> LaneState {
        self.lane
    }
}

impl PioPwm {
    /// A driver whose lane is stopped.
    pub fn new() -> (r: PioPwm)
        ensures
            r@ == LaneState::Stopped,
    {
        PioPwm { lane: LaneState::Stopped }
    }

    /// Kept for callers of the original interface: arming goes through
    /// `start`, so this does nothing.
    pub fn start_pwm() {
    }

    /// Plans a waveform of `frequency_hz` on `pin`, high for
    /// `duty_cycle_percentage` percent of each cycle, given the reference
    /// clock's frequency.
    ///
    /// Fails with `Inval`, leaving the lane as it was, when the frequency is
    /// zero, above `max_frequency_hz` or too low for the period to fit 32
    /// bits, or when the percentage exceeds 100. A lane that is already
    /// running is simply re-armed.
    pub fn start(
        &mut self,
        pin: u32,
        max_frequency_hz: usize,
        frequency_hz: usize,
        duty_cycle_percentage: usize,
    ) -> (r: Result<ArmPlan, ErrorCode>)
        ensures
            r == start_result(
                pin,
                max_frequency_hz as int,
                frequency_hz as int,
                duty_cycle_percentage as int,
            ),
            r is Ok ==> r->Ok_0.timing.wf(),
            final(self)@ == lane_after_start(
                old(self)@,
                pin,
                max_frequency_hz as int,
                frequency_hz as int,
                duty_cycle_percentage as int,
            ),
    {
        let timing = match compute_period_duty(max_frequency_hz, frequency_hz, duty_cycle_percentage) {
            Ok(t) => t,
            Err(e) => return Err(e),
        };
        let plan = ArmPlan { lane: PWM_LANE, pin, config: lane_configuration(pin), timing };
        self.lane = LaneState::Running { pin, timing };
        Ok(plan)
    }

    /// Records that the lane is cleared; the caller then resets the lane's
    /// instruction and queue state. The output pin is not parked.
    pub fn stop(&mut self, _pin: u32) -> (r: Result<(), ErrorCode>)
        ensures
            r is Ok,
            final(self)@ == lane_after_stop(old(self)@),
    {
        self.lane = LaneState::Stopped;
        Ok(())
    }

    /// Duty cycles are percentages, so the largest is 100 whatever the
    /// frequency or pin.
    pub fn get_maximum_duty_cycle(&self) -> (r: usize)
        ensures
            r == 100,
    {
        MAX_DUTY_CYCLE_PERCENTAGE
    }

    /// What the lane is doing, as far as this driver has commanded it.
    pub fn lane_state(&self) -> (r: LaneState)
        ensures
            r == self@,
    {
        self.lane
    }
}

/// Starting, stopping and starting again with other parameters succeeds
/// whenever the second request is acceptable, and leaves the lane rendering
/// exactly the second waveform, whatever the lane and the first request were.
pub proof fn lemma_rearm_after_stop(
    lane: LaneState,
    first_pin: u32,
    first_max_frequency_hz: int,
    first_frequency_hz: int,
    first_duty_cycle_percentage: int,
    pin: u32,
    max_frequency_hz: int,
    frequency_hz: int,
    duty_cycle_percentage: int,
)
    requires
        start_accepted(max_frequency_hz, frequency_hz, duty_cycle_percentage),
    ensures
        ({
            let stopped = lane_after_stop(
                lane_after_start(
                    lane,
                    first_pin,
                    first_max_frequency_hz,
                    first_frequency_hz,
                    first_duty_cycle_percentage,
                ),
            );
            let timing = timing_of(max_frequency_hz, frequency_hz, duty_cycle_percentage);
            &&& stopped == LaneState::Stopped
            &&& start_result(pin, max_frequency_hz, frequency_hz, duty_cycle_percentage) == Ok::<
                ArmPlan,
                ErrorCode,
            >(arm_plan_of(pin, timing))
            &&& lane_after_start(stopped, pin, max_frequency_hz, frequency_hz, duty_cycle_percentage)
                == LaneState::Running { pin, timing }
            &&& timing.period == period_of(max_frequency_hz, frequency_hz)
            &&& timing.duty_ticks == duty_ticks_of(timing.period as int, duty_cycle_percentage)
        }),
{
    lemma_timing_fits(max_frequency_hz, frequency_hz, duty_cycle_percentage);
}

/// The counts of an accepted request are exact: neither overflows 32 bits.
pub proof fn lemma_timing_fits(max_frequency_hz: int, frequency_hz: int, duty_cycle_percentage: int)
    requires
        start_accepted(max_frequency_hz, frequency_hz, duty_cycle_percentage),
    ensures
        timing_of(max_frequency_hz, frequency_hz, duty_cycle_percentage).period == period_of(
            max_frequency_hz,
            frequency_hz,
        ),
        timing_of(max_frequency_hz, frequency_hz, duty_cycle_percentage).duty_ticks
            == duty_ticks_of(period_of(max_frequency_hz, frequency_hz), duty_cycle_percentage),
        timing_of(max_frequency_hz, frequency_hz, duty_cycle_percentage).wf(),
{
    let period = period_of(max_frequency_hz, frequency_hz);
    crate::timing::lemma_period_at_least_one(max_frequency_hz as nat, frequency_hz as nat);
    crate::timing::lemma_duty_ticks_within_period(period as nat, duty_cycle_percentage as nat);
}

} // verus!
