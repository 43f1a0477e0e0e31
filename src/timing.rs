//! Period and duty tick arithmetic.
use vstd::prelude::*;

use crate::error::ErrorCode;

verus! {

/// Percentage that stands for a signal held high for the whole period.
pub const MAX_DUTY_CYCLE_PERCENTAGE: usize = 100;

/// Engine clock ticks per PWM cycle for a requested frequency.
pub open spec fn period_of(max_frequency_hz: int, frequency_hz: int) -> int {
    max_frequency_hz / frequency_hz
}

/// Ticks per cycle during which the output is held high.
pub open spec fn duty_ticks_of(period: int, duty_cycle_percentage: int) -> int {
    duty_cycle_percentage * period / 100
}

/// A frequency can be rendered when it is positive, no faster than the
/// reference clock, and its period fits the engine's 32-bit counter.
pub open spec fn frequency_supported(max_frequency_hz: int, frequency_hz: int) -> bool {
    &&& 0 < frequency_hz <= max_frequency_hz
    &&& period_of(max_frequency_hz, frequency_hz) <= u32::MAX
}

/// A duty cycle is accepted when it is a percentage.
pub open spec fn duty_supported(duty_cycle_percentage: int) -> bool {
    0 <= duty_cycle_percentage <= 100
}

/// Period and duty tick counts that the engine consumes for one waveform.
#[derive(Clone, Copy, Debug, PartialEq, Eq, Structural)]
pub struct PeriodDuty {
    pub period: u32,
    pub duty_ticks: u32,
}

impl PeriodDuty {
    /// A waveform has at least one tick per cycle and is never high for
    /// longer than the cycle lasts.
    pub open spec fn wf(self) -> bool {
        0 < self.period && self.duty_ticks <= self.period
    }
}

/// Divides the reference clock by the requested frequency.
///
/// Fails with `Inval` when the frequency is zero, faster than the reference
/// clock, or so slow that the period overflows the engine's counter.
pub fn compute_period(max_frequency_hz: usize, frequency_hz: usize) -> (r: Result<u32, ErrorCode>)
    ensures
        r is Ok <==> frequency_supported(max_frequency_hz as int, frequency_hz as int),
        r is Ok ==> r->Ok_0 == period_of(max_frequency_hz as int, frequency_hz as int),
        r is Ok ==> r->Ok_0 >= 1,
        r is Err ==> r->Err_0 == ErrorCode::Inval,
{
    if frequency_hz == 0 || frequency_hz > max_frequency_hz {
        return Err(ErrorCode::Inval);
    }
    let period: usize = max_frequency_hz / frequency_hz;
    if period > u32::MAX as usize {
        return Err(ErrorCode::Inval);
    }
    proof {
        lemma_period_at_least_one(max_frequency_hz as nat, frequency_hz as nat);
    }
    Ok(period as u32)
}

/// Scales a period by a duty percentage, rounding down.
///
/// Fails with `Inval` when the percentage exceeds 100.
pub fn compute_duty_ticks(period: u32, duty_cycle_percentage: usize) -> (r: Result<u32, ErrorCode>)
    ensures
        r is Ok <==> duty_supported(duty_cycle_percentage as int),
        r is Ok ==> r->Ok_0 == duty_ticks_of(period as int, duty_cycle_percentage as int),
        r is Ok ==> r->Ok_0 <= period,
        r is Err ==> r->Err_0 == ErrorCode::Inval,
{
    if duty_cycle_percentage > MAX_DUTY_CYCLE_PERCENTAGE {
        return Err(ErrorCode::Inval);
    }
    let pct: u64 = duty_cycle_percentage as u64;
    let per: u64 = period as u64;
    assert(pct * per <= 100 * (u32::MAX as int)) by (nonlinear_arith)
        requires
            pct <= 100,
            per <= u32::MAX,
    ;
    let ticks: u64 = pct * per / 100;
    proof {
        lemma_duty_ticks_within_period(period as nat, duty_cycle_percentage as nat);
    }
    Ok(ticks as u32)
}

/// Derives both counts for a request.
///
/// Fails with `Inval` exactly when the frequency or the duty cycle is not
/// supported; the frequency is checked first.
pub fn compute_period_duty(
    max_frequency_hz: usize,
    frequency_hz: usize,
    duty_cycle_percentage: usize,
) -> (r: Result<PeriodDuty, ErrorCode>)
    ensures
        r is Ok <==> frequency_supported(max_frequency_hz as int, frequency_hz as int)
            && duty_supported(duty_cycle_percentage as int),
        r is Ok ==> r->Ok_0.wf(),
        r is Ok ==> r->Ok_0.period == period_of(max_frequency_hz as int, frequency_hz as int),
        r is Ok ==> r->Ok_0.duty_ticks == duty_ticks_of(
            r->Ok_0.period as int,
            duty_cycle_percentage as int,
        ),
        r is Err ==> r->Err_0 == ErrorCode::Inval,
{
    let period = match compute_period(max_frequency_hz, frequency_hz) {
        Ok(p) => p,
        Err(e) => return Err(e),
    };
    let duty_ticks = match compute_duty_ticks(period, duty_cycle_percentage) {
        Ok(d) => d,
        Err(e) => return Err(e),
    };
    Ok(PeriodDuty { period, duty_ticks })
}

/// Every frequency up to the reference clock gives a period of at least one
/// tick, and the reference clock itself gives exactly one.
pub proof fn lemma_period_at_least_one(max_frequency_hz: nat, frequency_hz: nat)
    requires
        0 < frequency_hz <= max_frequency_hz,
    ensures
        period_of(max_frequency_hz as int, frequency_hz as int) >= 1,
        frequency_hz == max_frequency_hz ==> period_of(
            max_frequency_hz as int,
            frequency_hz as int,
        ) == 1,
{
    assert(max_frequency_hz / frequency_hz >= 1) by (nonlinear_arith)
        requires
            0 < frequency_hz <= max_frequency_hz,
    ;
    if frequency_hz == max_frequency_hz {
        assert(frequency_hz / frequency_hz == 1) by (nonlinear_arith)
            requires
                0 < frequency_hz,
        ;
    }
}

/// For any percentage, the duty ticks lie between zero and the period.
pub proof fn lemma_duty_ticks_within_period(period: nat, duty_cycle_percentage: nat)
    requires
        duty_cycle_percentage <= 100,
    ensures
        0 <= duty_ticks_of(period as int, duty_cycle_percentage as int) <= period,
{
    assert(0 <= duty_cycle_percentage * period / 100 <= period) by (nonlinear_arith)
        requires
            duty_cycle_percentage <= 100,
    ;
}

/// A duty cycle of zero never drives the output high.
pub proof fn lemma_zero_duty_never_high(period: nat)
    ensures
        duty_ticks_of(period as int, 0) == 0,
{
}

/// A duty cycle of one hundred drives the output high for the whole period.
pub proof fn lemma_full_duty_always_high(period: nat)
    ensures
        duty_ticks_of(period as int, 100) == period,
{
}

} // verus!
