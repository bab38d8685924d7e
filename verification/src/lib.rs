//! Open-loop control of two DC motors through memory-mapped clock, GPIO and
//! PWM registers: the mapping from a motor command to register writes, the
//! run state machine, and a model of the peripherals the writes act on.

pub mod command;
pub mod validate;
pub mod registers;
pub mod clock;
pub mod gpio;
pub mod pwm;
pub mod driver;
