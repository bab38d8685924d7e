//! The clock that feeds the PWM peripheral: parked, given its divisor, and
//! started again, in that order.

use vstd::prelude::*;
use crate::registers::{
    Block, Peripherals, RegisterWrite, after_all_push, CLOCK_CONTROL, CLOCK_DIVISOR,
    CLOCK_ENABLE, CLOCK_PASSWORD, PASSWORD_FIELD,
};

verus! {

/// Control word that stops the clock: the password and nothing else.
pub const CLOCK_PARKED: u32 = 0x5A00_0000;

/// Divisor word: the password and an integer divisor of 384.
pub const CLOCK_DIVIDED: u32 = 0x5A18_0000;

/// Control word that starts the clock from the oscillator.
pub const CLOCK_STARTED: u32 = 0x5A00_0011;

/// The word carries the password.
pub open spec fn has_password(value: u32) -> bool {
    value & PASSWORD_FIELD == CLOCK_PASSWORD
}

/// Park, divisor, start.
pub open spec fn clock_sequence() -> Seq<RegisterWrite> {
    seq![
        RegisterWrite { block: Block::Clock, offset: CLOCK_CONTROL, value: CLOCK_PARKED },
        RegisterWrite { block: Block::Clock, offset: CLOCK_DIVISOR, value: CLOCK_DIVIDED },
        RegisterWrite { block: Block::Clock, offset: CLOCK_CONTROL, value: CLOCK_STARTED },
    ]
}

/// Every word of the sequence carries the password; the first leaves the
/// clock disabled and the last enables it.
pub proof fn clock_words()
    ensures
        has_password(CLOCK_PARKED),
        has_password(CLOCK_DIVIDED),
        has_password(CLOCK_STARTED),
        CLOCK_PARKED & CLOCK_ENABLE == 0,
        CLOCK_STARTED & CLOCK_ENABLE == CLOCK_ENABLE,
        CLOCK_STARTED & 0xF == 1,
        (CLOCK_DIVIDED >> 12) & 0xFFF == 384,
{
    assert(0x5A00_0000u32 & 0xFF00_0000u32 == 0x5A00_0000u32) by (bit_vector);
    assert(0x5A18_0000u32 & 0xFF00_0000u32 == 0x5A00_0000u32) by (bit_vector);
    assert(0x5A00_0011u32 & 0xFF00_0000u32 == 0x5A00_0000u32) by (bit_vector);
    assert(0x5A00_0000u32 & 0x10u32 == 0) by (bit_vector);
    assert(0x5A00_0011u32 & 0x10u32 == 0x10u32) by (bit_vector);
    assert(0x5A00_0011u32 & 0xFu32 == 1) by (bit_vector);
    assert((0x5A18_0000u32 >> 12u32) & 0xFFFu32 == 384) by (bit_vector);
}

/// Whatever the clock did before, the sequence leaves it running with the
/// divisor set, and touches nothing else.
pub proof fn clock_sequence_effect(p: Peripherals)
    ensures
        p.after_all(clock_sequence()) == (Peripherals {
            clock_control: CLOCK_STARTED,
            clock_divisor: CLOCK_DIVIDED,
            ..p
        }),
{
    clock_words();
    let ws = clock_sequence();
    let s0 = Seq::<RegisterWrite>::empty();
    after_all_push(p, s0, ws[0]);
    after_all_push(p, s0.push(ws[0]), ws[1]);
    after_all_push(p, s0.push(ws[0]).push(ws[1]), ws[2]);
    assert(ws =~= s0.push(ws[0]).push(ws[1]).push(ws[2]));
}

/// Stops the clock.
pub fn park() -> (w: RegisterWrite)
    ensures
        w == clock_sequence()[0],
{
    RegisterWrite { block: Block::Clock, offset: CLOCK_CONTROL, value: CLOCK_PARKED }
}

/// Sets the divisor; the clock takes it only while parked.
pub fn set_divisor() -> (w: RegisterWrite)
    ensures
        w == clock_sequence()[1],
{
    RegisterWrite { block: Block::Clock, offset: CLOCK_DIVISOR, value: CLOCK_DIVIDED }
}

/// Starts the clock from its source.
pub fn start() -> (w: RegisterWrite)
    ensures
        w == clock_sequence()[2],
{
    RegisterWrite { block: Block::Clock, offset: CLOCK_CONTROL, value: CLOCK_STARTED }
}

/// Park, divisor, start: the only order in which the divisor takes effect.
pub fn reconfigure() -> (ws: Vec<RegisterWrite>)
    ensures
        ws@ == clock_sequence(),
{
    let mut ws: Vec<RegisterWrite> = Vec::new();
    ws.push(park());
    ws.push(set_divisor());
    ws.push(start());
    proof {
        assert(ws@ =~= clock_sequence());
    }
    ws
}

} // verus!
