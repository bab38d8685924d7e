//! The PWM peripheral: a range and a data register per channel, and one
//! control register that enables the channels.

use vstd::prelude::*;
use crate::registers::{
    Block, RegisterWrite, PWM_CONTROL, PWM_DATA_LEFT, PWM_DATA_RIGHT, PWM_RANGE_LEFT,
    PWM_RANGE_RIGHT,
};

verus! {

/// Denominator of the duty cycle: steps of a thousandth.
pub const PWM_RANGE: u32 = 1000;

/// Enable bit of the left motor's channel.
pub const PWM_ENABLE_LEFT: u32 = 0x1;

/// Enable bit of the right motor's channel.
pub const PWM_ENABLE_RIGHT: u32 = 0x100;

/// The registers of one channel.
#[derive(Clone, Copy, Debug, PartialEq, Eq, Structural)]
pub struct PwmChannel {
    pub range_offset: u32,
    pub data_offset: u32,
}

/// The left motor's channel.
pub open spec fn left_channel() -> PwmChannel {
    PwmChannel { range_offset: PWM_RANGE_LEFT, data_offset: PWM_DATA_LEFT }
}

/// The right motor's channel.
pub open spec fn right_channel() -> PwmChannel {
    PwmChannel { range_offset: PWM_RANGE_RIGHT, data_offset: PWM_DATA_RIGHT }
}

/// The control word that enables just the chosen channels.
pub open spec fn enable_word(left: bool, right: bool) -> u32 {
    if left && right {
        0x101
    } else if left {
        PWM_ENABLE_LEFT
    } else if right {
        PWM_ENABLE_RIGHT
    } else {
        0
    }
}

/// Control zeroed, then both numerators.
pub open spec fn disable_sequence() -> Seq<RegisterWrite> {
    seq![
        RegisterWrite { block: Block::Pwm, offset: PWM_CONTROL, value: 0 },
        RegisterWrite { block: Block::Pwm, offset: PWM_DATA_LEFT, value: 0 },
        RegisterWrite { block: Block::Pwm, offset: PWM_DATA_RIGHT, value: 0 },
    ]
}

/// The enable word is the union of the enable bits of the chosen channels.
pub proof fn enable_word_bits(left: bool, right: bool)
    ensures
        enable_word(left, right) & PWM_ENABLE_LEFT != 0 <==> left,
        enable_word(left, right) & PWM_ENABLE_RIGHT != 0 <==> right,
        enable_word(left, right) & !(PWM_ENABLE_LEFT | PWM_ENABLE_RIGHT) == 0,
{
    assert(0x101u32 & 0x1u32 != 0 && 0x101u32 & 0x100u32 != 0 && 0x101u32 & !(0x1u32 | 0x100u32)
        == 0) by (bit_vector);
    assert(0x1u32 & 0x1u32 != 0 && 0x1u32 & 0x100u32 == 0 && 0x1u32 & !(0x1u32 | 0x100u32) == 0)
        by (bit_vector);
    assert(0x100u32 & 0x1u32 == 0 && 0x100u32 & 0x100u32 != 0 && 0x100u32 & !(0x1u32 | 0x100u32)
        == 0) by (bit_vector);
    assert(0u32 & 0x1u32 == 0 && 0u32 & 0x100u32 == 0 && 0u32 & !(0x1u32 | 0x100u32) == 0)
        by (bit_vector);
}

impl PwmChannel {
    /// The left motor's channel.
    pub fn left() -> (c: PwmChannel)
        ensures
            c == left_channel(),
    {
        PwmChannel { range_offset: PWM_RANGE_LEFT, data_offset: PWM_DATA_LEFT }
    }

    /// The right motor's channel.
    pub fn right() -> (c: PwmChannel)
        ensures
            c == right_channel(),
    {
        PwmChannel { range_offset: PWM_RANGE_RIGHT, data_offset: PWM_DATA_RIGHT }
    }
}

/// Sets the denominator of a channel's duty cycle.
pub fn configure(channel: PwmChannel, range: u32) -> (w: RegisterWrite)
    ensures
        w == (RegisterWrite { block: Block::Pwm, offset: channel.range_offset, value: range }),
{
    RegisterWrite { block: Block::Pwm, offset: channel.range_offset, value: range }
}

/// Sets the numerator of a channel's duty cycle.
pub fn set_duty(channel: PwmChannel, data: u32) -> (w: RegisterWrite)
    ensures
        w == (RegisterWrite { block: Block::Pwm, offset: channel.data_offset, value: data }),
{
    RegisterWrite { block: Block::Pwm, offset: channel.data_offset, value: data }
}

/// Enables the chosen channels and disables the others.
pub fn enable(left: bool, right: bool) -> (w: RegisterWrite)
    ensures
        w == (RegisterWrite {
            block: Block::Pwm,
            offset: PWM_CONTROL,
            value: enable_word(left, right),
        }),
{
    let value: u32 = if left && right {
        0x101
    } else if left {
        PWM_ENABLE_LEFT
    } else if right {
        PWM_ENABLE_RIGHT
    } else {
        0
    };
    RegisterWrite { block: Block::Pwm, offset: PWM_CONTROL, value }
}

/// Disables both channels and zeroes both numerators.
pub fn disable() -> (ws: Vec<RegisterWrite>)
    ensures
        ws@ == disable_sequence(),
{
    let mut ws: Vec<RegisterWrite> = Vec::new();
    ws.push(enable(false, false));
    ws.push(set_duty(PwmChannel::left(), 0));
    ws.push(set_duty(PwmChannel::right(), 0));
    proof {
        assert(ws@ =~= disable_sequence());
    }
    ws
}

} // verus!
