use pio_pwm::config::{lane_configuration, LaneConfiguration, SIDE_SET_BIT_COUNT};
use pio_pwm::driver::PWM_LANE;
use pio_pwm::program::pwm_program;
use pio_pwm::timing::{compute_duty_ticks, compute_period, compute_period_duty, PeriodDuty};
use pio_pwm::{ArmPlan, ErrorCode, LaneState, PioPwm};

const SYSTEM_CLOCK_HZ: usize = 125_000_000;

#[test]
fn one_khz_half_duty_on_125_mhz_clock() {
    let mut pwm = PioPwm::new();
    let plan = pwm.start(7, SYSTEM_CLOCK_HZ, 1000, 50).unwrap();
    assert_eq!(plan.timing.period, 125_000);
    assert_eq!(plan.timing.duty_ticks, 62_500);
}

#[test]
fn clock_frequency_at_full_duty_gives_single_tick() {
    let mut pwm = PioPwm::new();
    let plan = pwm.start(7, SYSTEM_CLOCK_HZ, SYSTEM_CLOCK_HZ, 100).unwrap();
    assert_eq!(plan.timing, PeriodDuty { period: 1, duty_ticks: 1 });
}

#[test]
fn zero_frequency_is_reported() {
    let mut pwm = PioPwm::new();
    assert_eq!(pwm.start(7, SYSTEM_CLOCK_HZ, 0, 50), Err(ErrorCode::Inval));
    assert_eq!(compute_period(SYSTEM_CLOCK_HZ, 0), Err(ErrorCode::Inval));
    assert_eq!(pwm.lane_state(), LaneState::Stopped);
}

#[test]
fn frequency_above_clock_is_reported() {
    assert_eq!(compute_period(SYSTEM_CLOCK_HZ, SYSTEM_CLOCK_HZ + 1), Err(ErrorCode::Inval));
}

#[test]
fn period_wider_than_32_bits_is_reported() {
    let max = u32::MAX as usize;
    assert_eq!(compute_period(max, 1), Ok(u32::MAX));
    assert_eq!(compute_period(max + 1, 1), Err(ErrorCode::Inval));
}

#[test]
fn period_rounds_down() {
    assert_eq!(compute_period(10, 3), Ok(3));
    assert_eq!(compute_period(10, 10), Ok(1));
    assert_eq!(compute_period(10, 6), Ok(1));
}

#[test]
fn duty_above_hundred_is_reported() {
    assert_eq!(compute_duty_ticks(1000, 101), Err(ErrorCode::Inval));
    let mut pwm = PioPwm::new();
    assert_eq!(pwm.start(7, SYSTEM_CLOCK_HZ, 1000, 101), Err(ErrorCode::Inval));
}

#[test]
fn duty_ticks_round_down() {
    assert_eq!(compute_duty_ticks(3, 50), Ok(1));
    assert_eq!(compute_duty_ticks(199, 33), Ok(65));
}

#[test]
fn duty_ticks_stay_within_period() {
    for period in [1u32, 2, 3, 99, 100, 125_000, u32::MAX] {
        for pct in 0..=100usize {
            let ticks = compute_duty_ticks(period, pct).unwrap();
            assert!(ticks <= period);
        }
    }
}

#[test]
fn zero_duty_never_high() {
    for period in [1u32, 7, 125_000, u32::MAX] {
        assert_eq!(compute_duty_ticks(period, 0), Ok(0));
    }
}

#[test]
fn full_duty_always_high() {
    for period in [1u32, 7, 125_000, u32::MAX] {
        assert_eq!(compute_duty_ticks(period, 100), Ok(period));
    }
}

#[test]
fn every_supported_frequency_has_a_period() {
    for freq in [1usize, 2, 1000, 62_500_000, SYSTEM_CLOCK_HZ - 1, SYSTEM_CLOCK_HZ] {
        assert!(compute_period(SYSTEM_CLOCK_HZ, freq).unwrap() >= 1);
    }
    assert_eq!(compute_period(SYSTEM_CLOCK_HZ, SYSTEM_CLOCK_HZ), Ok(1));
}

#[test]
fn period_and_duty_together() {
    assert_eq!(
        compute_period_duty(SYSTEM_CLOCK_HZ, 1000, 25),
        Ok(PeriodDuty { period: 125_000, duty_ticks: 31_250 })
    );
    assert_eq!(compute_period_duty(SYSTEM_CLOCK_HZ, 0, 101), Err(ErrorCode::Inval));
}

#[test]
fn maximum_duty_cycle_is_a_percentage() {
    let mut pwm = PioPwm::new();
    assert_eq!(pwm.get_maximum_duty_cycle(), 100);
    pwm.start(3, SYSTEM_CLOCK_HZ, 440, 10).unwrap();
    assert_eq!(pwm.get_maximum_duty_cycle(), 100);
}

#[test]
fn restart_after_stop_uses_new_parameters() {
    let mut pwm = PioPwm::new();
    pwm.start(2, SYSTEM_CLOCK_HZ, 1000, 50).unwrap();
    assert_eq!(pwm.stop(2), Ok(()));
    assert_eq!(pwm.lane_state(), LaneState::Stopped);
    let plan = pwm.start(5, SYSTEM_CLOCK_HZ, 2000, 10).unwrap();
    let timing = PeriodDuty { period: 62_500, duty_ticks: 6_250 };
    assert_eq!(plan.timing, timing);
    assert_eq!(plan.pin, 5);
    assert_eq!(pwm.lane_state(), LaneState::Running { pin: 5, timing });
}

#[test]
fn rejected_start_leaves_lane_running() {
    let mut pwm = PioPwm::new();
    let plan = pwm.start(2, SYSTEM_CLOCK_HZ, 1000, 50).unwrap();
    assert_eq!(pwm.start(2, SYSTEM_CLOCK_HZ, 0, 50), Err(ErrorCode::Inval));
    assert_eq!(pwm.lane_state(), LaneState::Running { pin: 2, timing: plan.timing });
}

#[test]
fn start_while_running_rearms() {
    let mut pwm = PioPwm::new();
    pwm.start(2, SYSTEM_CLOCK_HZ, 1000, 50).unwrap();
    let plan = pwm.start(2, SYSTEM_CLOCK_HZ, 1000, 75).unwrap();
    assert_eq!(plan.timing.duty_ticks, 93_750);
}

#[test]
fn plan_binds_side_set_to_pin() {
    let mut pwm = PioPwm::new();
    let plan = pwm.start(11, SYSTEM_CLOCK_HZ, 1000, 50).unwrap();
    let expected = ArmPlan {
        lane: PWM_LANE,
        pin: 11,
        config: LaneConfiguration {
            side_set_base: 11,
            side_set_bit_count: SIDE_SET_BIT_COUNT,
            side_set_opt_enable: true,
            side_set_pindirs: false,
        },
        timing: PeriodDuty { period: 125_000, duty_ticks: 62_500 },
    };
    assert_eq!(plan, expected);
    assert_eq!(plan.lane, 0);
    assert_eq!(lane_configuration(11).side_set_bit_count, 2);
}

#[test]
fn program_image_is_fixed() {
    assert_eq!(
        pwm_program(),
        [0x90, 0x80, 0xa0, 0x27, 0xa0, 0x46, 0x00, 0xa5, 0x18, 0x06, 0xa0, 0x42, 0x00, 0x83]
    );
}
