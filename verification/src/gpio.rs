//! The GPIO block: what each pin is used for, and which pins are driven high.

use vstd::prelude::*;
use crate::command::Direction;
use crate::registers::{Block, RegisterWrite, GPIO_OUTPUT_CLEAR, GPIO_OUTPUT_SET};

verus! {

/// The pin that lets the motor driver chip pass power.
pub const STANDBY_PIN: u32 = 25;

/// The pin that carries the left motor's PWM channel.
pub const LEFT_PWM_PIN: u32 = 12;

/// High while the left motor runs forward.
pub const LEFT_FORWARD_PIN: u32 = 5;

/// High while the left motor runs backward.
pub const LEFT_BACKWARD_PIN: u32 = 6;

/// The pin that carries the right motor's PWM channel.
pub const RIGHT_PWM_PIN: u32 = 13;

/// High while the right motor runs forward.
pub const RIGHT_FORWARD_PIN: u32 = 16;

/// High while the right motor runs backward.
pub const RIGHT_BACKWARD_PIN: u32 = 26;

/// Pins that the three function-select registers cover.
pub const PIN_COUNT: u32 = 30;

/// The mask of every pin.
pub const ALL_OUTPUTS: u32 = 0xFFFF_FFFF;

/// What a pin is used for.
#[derive(Clone, Copy, Debug, PartialEq, Eq, Structural)]
pub enum PinMode {
    Input,
    Output,
    Alternate0,
}

impl PinMode {
    /// The three bits that select the mode.
    pub open spec fn spec_bits(&self) -> u32 {
        match self {
            PinMode::Input => 0,
            PinMode::Output => 1,
            PinMode::Alternate0 => 4,
        }
    }

    /// The three bits that select the mode.
    pub fn bits(&self) -> (b: u32)
        ensures
            b == self.spec_bits(),
    {
        match self {
            PinMode::Input => 0,
            PinMode::Output => 1,
            PinMode::Alternate0 => 4,
        }
    }
}

/// A word with the three bits at `shift` replaced by `bits`.
pub open spec fn with_field(word: u32, shift: u32, bits: u32) -> u32 {
    (word & !(7u32 << shift)) | (bits << shift)
}

/// The three bits of a word at `shift`.
pub open spec fn field(word: u32, shift: u32) -> u32 {
    (word >> shift) & 7
}

/// The function-select words as last written. The registers are never read
/// back, so the controller keeps what it wrote.
#[derive(Clone, Copy, Debug, PartialEq, Eq, Structural)]
pub struct GpioController {
    pub select0: u32,
    pub select1: u32,
    pub select2: u32,
}

impl GpioController {
    /// The function-select word with that index.
    pub open spec fn word(&self, index: int) -> u32 {
        if index == 0 {
            self.select0
        } else if index == 1 {
            self.select1
        } else {
            self.select2
        }
    }

    /// The mode bits of a pin: ten pins to a word, three bits to a pin.
    pub open spec fn function_of(&self, pin: u32) -> u32 {
        field(self.word(pin as int / 10), ((pin % 10) * 3) as u32)
    }

    /// The controller after a pin was given a mode.
    pub open spec fn with_function(&self, pin: u32, mode: PinMode) -> GpioController {
        let shift = ((pin % 10) * 3) as u32;
        if pin / 10 == 0 {
            GpioController { select0: with_field(self.select0, shift, mode.spec_bits()), ..*self }
        } else if pin / 10 == 1 {
            GpioController { select1: with_field(self.select1, shift, mode.spec_bits()), ..*self }
        } else {
            GpioController { select2: with_field(self.select2, shift, mode.spec_bits()), ..*self }
        }
    }

    /// Every pin an input.
    pub fn new() -> (g: GpioController)
        ensures
            g == (GpioController { select0: 0, select1: 0, select2: 0 }),
    {
        GpioController { select0: 0, select1: 0, select2: 0 }
    }

    /// Gives a pin its mode and returns the write of the word that holds it.
    pub fn set_function(&mut self, pin: u32, mode: PinMode) -> (w: RegisterWrite)
        requires
            pin < PIN_COUNT,
        ensures
            *final(self) == old(self).with_function(pin, mode),
            w == (RegisterWrite {
                block: Block::Gpio,
                offset: pin / 10,
                value: final(self).word(pin as int / 10),
            }),
            final(self).function_of(pin) == mode.spec_bits(),
    {
        let index: u32 = pin / 10;
        let shift: u32 = (pin % 10) * 3;
        let bits: u32 = mode.bits();
        proof {
            field_written(self.word(index as int), shift, bits);
        }
        let value: u32;
        if index == 0 {
            self.select0 = (self.select0 & !(7u32 << shift)) | (bits << shift);
            value = self.select0;
        } else if index == 1 {
            self.select1 = (self.select1 & !(7u32 << shift)) | (bits << shift);
            value = self.select1;
        } else {
            self.select2 = (self.select2 & !(7u32 << shift)) | (bits << shift);
            value = self.select2;
        }
        RegisterWrite { block: Block::Gpio, offset: index, value }
    }
}

/// A field reads back as written.
pub proof fn field_written(word: u32, shift: u32, bits: u32)
    requires
        shift <= 27,
        bits <= 7,
    ensures
        field(with_field(word, shift, bits), shift) == bits,
{
    assert((((word & !(7u32 << shift)) | (bits << shift)) >> shift) & 7 == bits) by (bit_vector)
        requires
            shift <= 27,
            bits <= 7,
    ;
}

/// Writing one field of a word leaves the others as they were.
pub proof fn field_kept(word: u32, written: u32, other: u32, bits: u32)
    requires
        written < 10,
        other < 10,
        written != other,
        bits <= 7,
    ensures
        field(with_field(word, (written * 3) as u32, bits), (other * 3) as u32) == field(
            word,
            (other * 3) as u32,
        ),
{
    let s: u32 = (written * 3) as u32;
    let t: u32 = (other * 3) as u32;
    assert((((word & !(7u32 << s)) | (bits << s)) >> t) & 7 == (word >> t) & 7) by (bit_vector)
        requires
            s == written * 3,
            t == other * 3,
            written < 10,
            other < 10,
            written != other,
            bits <= 7,
    ;
}

/// Giving one pin a mode changes the mode of no other pin.
pub proof fn set_function_keeps_others(g: GpioController, pin: u32, mode: PinMode, other: u32)
    requires
        pin < PIN_COUNT,
        other < PIN_COUNT,
        other != pin,
    ensures
        g.with_function(pin, mode).function_of(other) == g.function_of(other),
{
    if pin / 10 == other / 10 {
        field_kept(g.word(pin as int / 10), pin % 10, other % 10, mode.spec_bits());
    }
}

/// The bit of a pin in the set and clear registers.
pub open spec fn pin_bit(pin: u32) -> u32 {
    1u32 << pin
}

/// The pins to drive high for a pair of directions: the standby pin, and for
/// each motor its forward or its backward pin.
pub open spec fn spec_direction_mask(left: Direction, right: Direction) -> u32 {
    pin_bit(STANDBY_PIN) | pin_bit(
        match left {
            Direction::Forward => LEFT_FORWARD_PIN,
            Direction::Backward => LEFT_BACKWARD_PIN,
        },
    ) | pin_bit(
        match right {
            Direction::Forward => RIGHT_FORWARD_PIN,
            Direction::Backward => RIGHT_BACKWARD_PIN,
        },
    )
}

/// The pins to drive high for a pair of directions.
pub fn direction_mask(left: Direction, right: Direction) -> (mask: u32)
    ensures
        mask == spec_direction_mask(left, right),
{
    let left_pin: u32 = match left {
        Direction::Forward => LEFT_FORWARD_PIN,
        Direction::Backward => LEFT_BACKWARD_PIN,
    };
    let right_pin: u32 = match right {
        Direction::Forward => RIGHT_FORWARD_PIN,
        Direction::Backward => RIGHT_BACKWARD_PIN,
    };
    (1u32 << STANDBY_PIN) | (1u32 << left_pin) | (1u32 << right_pin)
}

/// The mask holds the standby bit and, of each motor's two direction bits,
/// the one that its direction selects and not the other.
pub proof fn direction_mask_bits(left: Direction, right: Direction)
    ensures
        spec_direction_mask(left, right) & pin_bit(STANDBY_PIN) != 0,
        spec_direction_mask(left, right) & pin_bit(LEFT_FORWARD_PIN) != 0 <==> left
            == Direction::Forward,
        spec_direction_mask(left, right) & pin_bit(LEFT_BACKWARD_PIN) != 0 <==> left
            == Direction::Backward,
        spec_direction_mask(left, right) & pin_bit(RIGHT_FORWARD_PIN) != 0 <==> right
            == Direction::Forward,
        spec_direction_mask(left, right) & pin_bit(RIGHT_BACKWARD_PIN) != 0 <==> right
            == Direction::Backward,
{
    let l: u32 = match left {
        Direction::Forward => LEFT_FORWARD_PIN,
        Direction::Backward => LEFT_BACKWARD_PIN,
    };
    let r: u32 = match right {
        Direction::Forward => RIGHT_FORWARD_PIN,
        Direction::Backward => RIGHT_BACKWARD_PIN,
    };
    let m: u32 = (1u32 << 25u32) | (1u32 << l) | (1u32 << r);
    assert(m & (1u32 << 25u32) != 0 && (m & (1u32 << 5u32) != 0 <==> l == 5) && (m & (1u32
        << 6u32) != 0 <==> l == 6) && (m & (1u32 << 16u32) != 0 <==> r == 16) && (m & (1u32
        << 26u32) != 0 <==> r == 26)) by (bit_vector)
        requires
            m == (1u32 << 25u32) | (1u32 << l) | (1u32 << r),
            l == 5 || l == 6,
            r == 16 || r == 26,
    ;
}

/// Drives high the pins whose bit is set in `mask`; the others keep their level.
pub fn set_outputs(mask: u32) -> (w: RegisterWrite)
    ensures
        w == (RegisterWrite { block: Block::Gpio, offset: GPIO_OUTPUT_SET, value: mask }),
{
    RegisterWrite { block: Block::Gpio, offset: GPIO_OUTPUT_SET, value: mask }
}

/// Drives low the pins whose bit is set in `mask`; the others keep their level.
pub fn clear_outputs(mask: u32) -> (w: RegisterWrite)
    ensures
        w == (RegisterWrite { block: Block::Gpio, offset: GPIO_OUTPUT_CLEAR, value: mask }),
{
    RegisterWrite { block: Block::Gpio, offset: GPIO_OUTPUT_CLEAR, value: mask }
}

} // verus!
