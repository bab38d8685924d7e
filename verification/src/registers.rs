//! The three peripheral blocks, the words written to them, and a model of
//! what the hardware holds after a write.

use vstd::prelude::*;

verus! {

/// A peripheral block, mapped as one page of 32-bit registers.
#[derive(Clone, Copy, Debug, PartialEq, Eq, Structural)]
pub enum Block {
    Clock,
    Gpio,
    Pwm,
}

/// Bytes in the window of a block.
pub const PAGE_LENGTH: u32 = 4096;

/// Physical address of the clock block.
pub const CLOCK_BASE: u32 = 0x2010_1000;

/// Physical address of the GPIO block.
pub const GPIO_BASE: u32 = 0x2020_0000;

/// Physical address of the PWM block.
pub const PWM_BASE: u32 = 0x2020_C000;

/// Clock block: control of the PWM clock.
pub const CLOCK_CONTROL: u32 = 160;

/// Clock block: divisor of the PWM clock.
pub const CLOCK_DIVISOR: u32 = 161;

/// GPIO block: first of the three function-select words.
pub const GPIO_FUNCTION_SELECT: u32 = 0;

/// GPIO block: a one drives the pin high.
pub const GPIO_OUTPUT_SET: u32 = 7;

/// GPIO block: a one drives the pin low.
pub const GPIO_OUTPUT_CLEAR: u32 = 10;

/// PWM block: the enable bits of the channels.
pub const PWM_CONTROL: u32 = 0;

/// PWM block: denominator of the left motor's duty cycle.
pub const PWM_RANGE_LEFT: u32 = 4;

/// PWM block: numerator of the left motor's duty cycle.
pub const PWM_DATA_LEFT: u32 = 5;

/// PWM block: denominator of the right motor's duty cycle.
pub const PWM_RANGE_RIGHT: u32 = 8;

/// PWM block: numerator of the right motor's duty cycle.
pub const PWM_DATA_RIGHT: u32 = 9;

/// The field that every word written to the clock block must carry.
pub const CLOCK_PASSWORD: u32 = 0x5A00_0000;

/// The bits of a clock word that hold the password.
pub const PASSWORD_FIELD: u32 = 0xFF00_0000;

/// The enable bit of the clock's control word.
pub const CLOCK_ENABLE: u32 = 0x10;

/// Why a block could not be mapped.
#[derive(Clone, Copy, Debug, PartialEq, Eq, Structural)]
pub enum MapError {
    NotFound,
    PermissionDenied,
    Unsupported,
}

impl MapError {
    /// The error that an operating-system error number stands for: no such
    /// file, no permission, or anything else.
    pub open spec fn spec_from_os_error(code: i32) -> MapError {
        if code == 2 {
            MapError::NotFound
        } else if code == 1 || code == 13 {
            MapError::PermissionDenied
        } else {
            MapError::Unsupported
        }
    }

    pub fn from_os_error(code: i32) -> (e: MapError)
        ensures
            e == Self::spec_from_os_error(code),
    {
        if code == 2 {
            MapError::NotFound
        } else if code == 1 || code == 13 {
            MapError::PermissionDenied
        } else {
            MapError::Unsupported
        }
    }
}

/// A window of physical memory to map.
#[derive(Clone, Copy, Debug, PartialEq, Eq, Structural)]
pub struct MapRequest {
    pub block: Block,
    pub physical_offset: u32,
    pub length: u32,
}

/// Physical address of a block.
pub open spec fn base_of(block: Block) -> u32 {
    match block {
        Block::Clock => CLOCK_BASE,
        Block::Gpio => GPIO_BASE,
        Block::Pwm => PWM_BASE,
    }
}

impl MapRequest {
    /// A window can be mapped if it starts on a page boundary and is not empty.
    pub open spec fn satisfiable(&self) -> bool {
        self.physical_offset % PAGE_LENGTH == 0 && self.length > 0
    }

    /// The one-page window of a block.
    pub fn for_block(block: Block) -> (r: MapRequest)
        ensures
            r == (MapRequest { block, physical_offset: base_of(block), length: PAGE_LENGTH }),
            r.satisfiable(),
    {
        let physical_offset: u32 = match block {
            Block::Clock => CLOCK_BASE,
            Block::Gpio => GPIO_BASE,
            Block::Pwm => PWM_BASE,
        };
        MapRequest { block, physical_offset, length: PAGE_LENGTH }
    }

    /// Refuses a window that cannot be mapped.
    pub fn check(&self) -> (r: Result<(), MapError>)
        ensures
            r == if self.satisfiable() {
                Ok::<(), MapError>(())
            } else {
                Err(MapError::Unsupported)
            },
    {
        if self.physical_offset % PAGE_LENGTH == 0 && self.length > 0 {
            Ok(())
        } else {
            Err(MapError::Unsupported)
        }
    }
}

/// One word written to one register; `offset` counts 32-bit words from the
/// start of the block.
#[derive(Clone, Copy, Debug, PartialEq, Eq, Structural)]
pub struct RegisterWrite {
    pub block: Block,
    pub offset: u32,
    pub value: u32,
}

impl RegisterWrite {
    /// The register lies within the block's page.
    pub open spec fn in_page(&self) -> bool {
        self.offset < PAGE_LENGTH / 4
    }

    /// The write drives pins high.
    pub open spec fn is_output_set(&self) -> bool {
        self.block == Block::Gpio && self.offset == GPIO_OUTPUT_SET
    }
}

/// What the registers that a run touches hold. `levels` are the output
/// levels of the pins, which the set and clear registers act on.
#[derive(Clone, Copy, Debug, PartialEq, Eq, Structural)]
pub struct Peripherals {
    pub clock_control: u32,
    pub clock_divisor: u32,
    pub select0: u32,
    pub select1: u32,
    pub select2: u32,
    pub levels: u32,
    pub pwm_control: u32,
    pub pwm_range_left: u32,
    pub pwm_data_left: u32,
    pub pwm_range_right: u32,
    pub pwm_data_right: u32,
}

impl Peripherals {
    /// No pin is high, no channel enabled, no duty left behind.
    pub open spec fn de_energized(&self) -> bool {
        self.levels == 0 && self.pwm_control == 0 && self.pwm_data_left == 0
            && self.pwm_data_right == 0
    }

    /// The state after one write. The clock block ignores a word without the
    /// password, and a divisor while the clock runs; the set and clear
    /// registers act on the bits that are one and leave the others.
    pub open spec fn after(&self, w: RegisterWrite) -> Peripherals {
        match w.block {
            Block::Clock => if w.value & PASSWORD_FIELD != CLOCK_PASSWORD {
                *self
            } else if w.offset == CLOCK_CONTROL {
                Peripherals { clock_control: w.value, ..*self }
            } else if w.offset == CLOCK_DIVISOR && self.clock_control & CLOCK_ENABLE == 0 {
                Peripherals { clock_divisor: w.value, ..*self }
            } else {
                *self
            },
            Block::Gpio => if w.offset == GPIO_FUNCTION_SELECT {
                Peripherals { select0: w.value, ..*self }
            } else if w.offset == GPIO_FUNCTION_SELECT + 1 {
                Peripherals { select1: w.value, ..*self }
            } else if w.offset == GPIO_FUNCTION_SELECT + 2 {
                Peripherals { select2: w.value, ..*self }
            } else if w.offset == GPIO_OUTPUT_SET {
                Peripherals { levels: self.levels | w.value, ..*self }
            } else if w.offset == GPIO_OUTPUT_CLEAR {
                Peripherals { levels: self.levels & !w.value, ..*self }
            } else {
                *self
            },
            Block::Pwm => if w.offset == PWM_CONTROL {
                Peripherals { pwm_control: w.value, ..*self }
            } else if w.offset == PWM_RANGE_LEFT {
                Peripherals { pwm_range_left: w.value, ..*self }
            } else if w.offset == PWM_DATA_LEFT {
                Peripherals { pwm_data_left: w.value, ..*self }
            } else if w.offset == PWM_RANGE_RIGHT {
                Peripherals { pwm_range_right: w.value, ..*self }
            } else if w.offset == PWM_DATA_RIGHT {
                Peripherals { pwm_data_right: w.value, ..*self }
            } else {
                *self
            },
        }
    }

    /// The state after a sequence of writes, first to last.
    pub open spec fn after_all(&self, ws: Seq<RegisterWrite>) -> Peripherals
        decreases ws.len(),
    {
        if ws.len() == 0 {
            *self
        } else {
            self.after_all(ws.drop_last()).after(ws.last())
        }
    }

    /// All registers zero.
    pub fn new() -> (p: Peripherals)
        ensures
            p == (Peripherals {
                clock_control: 0,
                clock_divisor: 0,
                select0: 0,
                select1: 0,
                select2: 0,
                levels: 0,
                pwm_control: 0,
                pwm_range_left: 0,
                pwm_data_left: 0,
                pwm_range_right: 0,
                pwm_data_right: 0,
            }),
            p.de_energized(),
    {
        Peripherals {
            clock_control: 0,
            clock_divisor: 0,
            select0: 0,
            select1: 0,
            select2: 0,
            levels: 0,
            pwm_control: 0,
            pwm_range_left: 0,
            pwm_data_left: 0,
            pwm_range_right: 0,
            pwm_data_right: 0,
        }
    }

    /// No pin is high, no channel enabled, no duty left behind.
    pub fn is_de_energized(&self) -> (b: bool)
        ensures
            b == self.de_energized(),
    {
        self.levels == 0 && self.pwm_control == 0 && self.pwm_data_left == 0
            && self.pwm_data_right == 0
    }

    /// Does to the registers what one write does.
    pub fn apply(&mut self, w: RegisterWrite)
        ensures
            *final(self) == old(self).after(w),
    {
        match w.block {
            Block::Clock => {
                if w.value & PASSWORD_FIELD != CLOCK_PASSWORD {
                } else if w.offset == CLOCK_CONTROL {
                    self.clock_control = w.value;
                } else if w.offset == CLOCK_DIVISOR && self.clock_control & CLOCK_ENABLE == 0 {
                    self.clock_divisor = w.value;
                }
            },
            Block::Gpio => {
                if w.offset == GPIO_FUNCTION_SELECT {
                    self.select0 = w.value;
                } else if w.offset == GPIO_FUNCTION_SELECT + 1 {
                    self.select1 = w.value;
                } else if w.offset == GPIO_FUNCTION_SELECT + 2 {
                    self.select2 = w.value;
                } else if w.offset == GPIO_OUTPUT_SET {
                    self.levels = self.levels | w.value;
                } else if w.offset == GPIO_OUTPUT_CLEAR {
                    self.levels = self.levels & !w.value;
                }
            },
            Block::Pwm => {
                if w.offset == PWM_CONTROL {
                    self.pwm_control = w.value;
                } else if w.offset == PWM_RANGE_LEFT {
                    self.pwm_range_left = w.value;
                } else if w.offset == PWM_DATA_LEFT {
                    self.pwm_data_left = w.value;
                } else if w.offset == PWM_RANGE_RIGHT {
                    self.pwm_range_right = w.value;
                } else if w.offset == PWM_DATA_RIGHT {
                    self.pwm_data_right = w.value;
                }
            },
        }
    }

    /// Does to the registers what the writes do, first to last.
    pub fn apply_all(&mut self, ws: &Vec<RegisterWrite>)
        ensures
            *final(self) == old(self).after_all(ws@),
    {
        let mut i: usize = 0;
        while i < ws.len()
            invariant
                0 <= i <= ws.len(),
                *self == old(self).after_all(ws@.take(i as int)),
            decreases ws.len() - i,
        {
            proof {
                assert(ws@.take(i + 1).drop_last() =~= ws@.take(i as int));
            }
            self.apply(ws[i]);
            i += 1;
        }
        proof {
            assert(ws@.take(i as int) =~= ws@);
        }
    }
}

/// Appending one write applies it to the state that the others left.
pub proof fn after_all_push(p: Peripherals, ws: Seq<RegisterWrite>, w: RegisterWrite)
    ensures
        p.after_all(ws.push(w)) == p.after_all(ws).after(w),
{
    assert(ws.push(w).drop_last() =~= ws);
}

/// Writes applied in two parts give what they give applied in one.
pub proof fn after_all_concat(p: Peripherals, a: Seq<RegisterWrite>, b: Seq<RegisterWrite>)
    ensures
        p.after_all(a + b) == p.after_all(a).after_all(b),
    decreases b.len(),
{
    if b.len() == 0 {
        assert(a + b =~= a);
    } else {
        after_all_concat(p, a, b.drop_last());
        assert((a + b).drop_last() =~= a + b.drop_last());
    }
}

} // verus!
