//! The micro-program that renders the waveform inside the engine.
use vstd::prelude::*;

verus! {

/// Number of bytes in the instruction image: seven 16-bit instructions,
/// high byte first.
pub const PWM_PROGRAM_LEN: usize = 14;

/// The assembled program, one byte per element.
///
/// ```text
/// .side_set 1 opt
///     pull noblock    side 0 ; take a new duty value if one is queued, else reuse X
///     mov x, osr             ; X holds the duty threshold for this cycle
///     mov y, isr             ; ISR holds the period; Y counts it down
/// countloop:
///     jmp x!=y noset         ; drive the pin high only when X == Y
///     jmp skip        side 1
/// noset:
///     nop                    ; keeps both branches the same length
/// skip:
///     jmp y-- countloop      ; one cycle ends when Y reaches zero
/// ```
pub open spec fn pwm_program_image() -> Seq<u8> {
    seq![
        0x90u8, 0x80u8, 0xa0u8, 0x27u8, 0xa0u8, 0x46u8, 0x00u8,
        0xa5u8, 0x18u8, 0x06u8, 0xa0u8, 0x42u8, 0x00u8, 0x83u8,
    ]
}

/// The instruction image to load into the engine before arming a lane.
pub fn pwm_program() -> (r: [u8; PWM_PROGRAM_LEN])
    ensures
        r@ == pwm_program_image(),
{
    let r: [u8; PWM_PROGRAM_LEN] = [
        0x90, 0x80, 0xa0, 0x27, 0xa0, 0x46, 0x00, 0xa5, 0x18, 0x06, 0xa0, 0x42, 0x00, 0x83,
    ];
    assert(r@ =~= pwm_program_image());
    r
}

} // verus!
