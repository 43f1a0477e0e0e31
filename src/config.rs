//! How the PWM lane is wired to its output pin.
use vstd::prelude::*;

verus! {

/// Side-set width: one bit for the output pin and one for the
/// optional-side-set flag.
pub const SIDE_SET_BIT_COUNT: u32 = 2;

/// How one lane of the engine drives its pins.
#[derive(Clone, Copy, Debug, PartialEq, Eq, Structural)]
pub struct LaneConfiguration {
    /// First pin driven by side-set.
    pub side_set_base: u32,
    /// Bits of each instruction given to side-set.
    pub side_set_bit_count: u32,
    /// Side-set is optional per instruction, so instructions without it
    /// leave the pin alone.
    pub side_set_opt_enable: bool,
    /// Side-set drives pin directions instead of pin levels.
    pub side_set_pindirs: bool,
}

/// The configuration that binds the PWM program's side-set to `pin`.
pub open spec fn pwm_lane_configuration(pin: u32) -> LaneConfiguration {
    LaneConfiguration {
        side_set_base: pin,
        side_set_bit_count: SIDE_SET_BIT_COUNT,
        side_set_opt_enable: true,
        side_set_pindirs: false,
    }
}

/// Builds the configuration that binds the PWM program's side-set to `pin`.
/// The pin's direction is set elsewhere, never by the program.
pub fn lane_configuration(pin: u32) -> (r: LaneConfiguration)
    ensures
        r == pwm_lane_configuration(pin),
{
    LaneConfiguration {
        side_set_base: pin,
        side_set_bit_count: SIDE_SET_BIT_COUNT,
        side_set_opt_enable: true,
        side_set_pindirs: false,
    }
}

} // verus!
