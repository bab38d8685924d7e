use motor_driver::clock;
use motor_driver::command::Direction;
use motor_driver::gpio::{self, GpioController, PinMode};
use motor_driver::pwm::{self, PwmChannel};
use motor_driver::registers::{Block, MapError, MapRequest, Peripherals, RegisterWrite};

fn write(block: Block, offset: u32, value: u32) -> RegisterWrite {
    RegisterWrite { block, offset, value }
}

#[test]
fn map_error_from_os_error_numbers() {
    assert_eq!(MapError::from_os_error(2), MapError::NotFound);
    assert_eq!(MapError::from_os_error(13), MapError::PermissionDenied);
    assert_eq!(MapError::from_os_error(1), MapError::PermissionDenied);
    assert_eq!(MapError::from_os_error(22), MapError::Unsupported);
    assert_eq!(MapError::from_os_error(0), MapError::Unsupported);
    assert_eq!(MapError::from_os_error(-1), MapError::Unsupported);
}

#[test]
fn map_requests_of_the_three_blocks() {
    assert_eq!(
        MapRequest::for_block(Block::Clock),
        MapRequest { block: Block::Clock, physical_offset: 0x2010_1000, length: 4096 }
    );
    assert_eq!(
        MapRequest::for_block(Block::Gpio),
        MapRequest { block: Block::Gpio, physical_offset: 0x2020_0000, length: 4096 }
    );
    assert_eq!(
        MapRequest::for_block(Block::Pwm),
        MapRequest { block: Block::Pwm, physical_offset: 0x2020_C000, length: 4096 }
    );
    assert_eq!(MapRequest::for_block(Block::Pwm).check(), Ok(()));
}

#[test]
fn unaligned_or_empty_request_is_unsupported() {
    let unaligned = MapRequest { block: Block::Gpio, physical_offset: 0x2020_0004, length: 4096 };
    assert_eq!(unaligned.check(), Err(MapError::Unsupported));
    let empty = MapRequest { block: Block::Gpio, physical_offset: 0x2020_0000, length: 0 };
    assert_eq!(empty.check(), Err(MapError::Unsupported));
}

#[test]
fn clock_is_parked_divided_and_started_in_that_order() {
    assert_eq!(
        clock::reconfigure(),
        vec![
            write(Block::Clock, 160, 0x5A00_0000),
            write(Block::Clock, 161, 0x5A18_0000),
            write(Block::Clock, 160, 0x5A00_0011),
        ]
    );
    assert_eq!(clock::park(), write(Block::Clock, 160, 0x5A00_0000));
    assert_eq!(clock::set_divisor(), write(Block::Clock, 161, 0x5A18_0000));
    assert_eq!(clock::start(), write(Block::Clock, 160, 0x5A00_0011));
}

#[test]
fn clock_takes_the_divisor_only_while_parked() {
    let mut running = Peripherals::new();
    running.apply(clock::start());
    running.apply(clock::set_divisor());
    assert_eq!(running.clock_divisor, 0);
    running.apply_all(&clock::reconfigure());
    assert_eq!(running.clock_divisor, 0x5A18_0000);
    assert_eq!(running.clock_control, 0x5A00_0011);
}

#[test]
fn clock_ignores_a_word_without_the_password() {
    let mut p = Peripherals::new();
    p.apply(write(Block::Clock, 160, 0x11));
    assert_eq!(p, Peripherals::new());
    p.apply(write(Block::Clock, 161, 0x0018_0000));
    assert_eq!(p, Peripherals::new());
}

#[test]
fn set_function_packs_ten_pins_to_a_word() {
    let mut g = GpioController::new();
    assert_eq!(g.set_function(12, PinMode::Alternate0), write(Block::Gpio, 1, 1 << 8));
    assert_eq!(
        g.set_function(13, PinMode::Alternate0),
        write(Block::Gpio, 1, 1 << 8 | 1 << 11)
    );
    assert_eq!(g.set_function(5, PinMode::Output), write(Block::Gpio, 0, 1 << 15));
    assert_eq!(g.set_function(6, PinMode::Output), write(Block::Gpio, 0, 1 << 15 | 1 << 18));
    assert_eq!(
        g.set_function(16, PinMode::Output),
        write(Block::Gpio, 1, 1 << 8 | 1 << 11 | 1 << 18)
    );
    assert_eq!(g.set_function(26, PinMode::Output), write(Block::Gpio, 2, 1 << 18));
    assert_eq!(g.set_function(25, PinMode::Output), write(Block::Gpio, 2, 1 << 15 | 1 << 18));
    assert_eq!(
        g,
        GpioController {
            select0: 1 << 15 | 1 << 18,
            select1: 1 << 8 | 1 << 11 | 1 << 18,
            select2: 1 << 15 | 1 << 18
        }
    );
}

#[test]
fn set_function_replaces_a_field_and_keeps_the_others() {
    let mut g = GpioController { select0: 0xFFFF_FFFF, select1: 0, select2: 0x3FFF_FFFF };
    assert_eq!(g.set_function(0, PinMode::Input), write(Block::Gpio, 0, 0xFFFF_FFF8));
    assert_eq!(g.set_function(9, PinMode::Output), write(Block::Gpio, 0, 0xCFFF_FFF8));
    assert_eq!(g.set_function(29, PinMode::Alternate0), write(Block::Gpio, 2, 0x27FF_FFFF));
    assert_eq!(g.set_function(12, PinMode::Alternate0), write(Block::Gpio, 1, 0x100));
    assert_eq!(g.set_function(12, PinMode::Output), write(Block::Gpio, 1, 0x40));
    assert_eq!(g.set_function(12, PinMode::Input), write(Block::Gpio, 1, 0));
}

#[test]
fn pin_mode_bits() {
    assert_eq!(PinMode::Input.bits(), 0);
    assert_eq!(PinMode::Output.bits(), 1);
    assert_eq!(PinMode::Alternate0.bits(), 4);
}

#[test]
fn direction_mask_holds_standby_and_one_bit_per_motor() {
    assert_eq!(
        gpio::direction_mask(Direction::Forward, Direction::Forward),
        1 << 25 | 1 << 5 | 1 << 16
    );
    assert_eq!(
        gpio::direction_mask(Direction::Forward, Direction::Backward),
        1 << 25 | 1 << 5 | 1 << 26
    );
    assert_eq!(
        gpio::direction_mask(Direction::Backward, Direction::Forward),
        1 << 25 | 1 << 6 | 1 << 16
    );
    assert_eq!(
        gpio::direction_mask(Direction::Backward, Direction::Backward),
        1 << 25 | 1 << 6 | 1 << 26
    );
}

#[test]
fn set_and_clear_act_on_the_bits_that_are_one() {
    assert_eq!(gpio::set_outputs(0x60), write(Block::Gpio, 7, 0x60));
    assert_eq!(gpio::clear_outputs(0x20), write(Block::Gpio, 10, 0x20));
    let mut p = Peripherals::new();
    p.apply(gpio::set_outputs(0x60));
    assert_eq!(p.levels, 0x60);
    p.apply(gpio::set_outputs(0x1));
    assert_eq!(p.levels, 0x61);
    p.apply(gpio::clear_outputs(0x20));
    assert_eq!(p.levels, 0x41);
    p.apply(gpio::clear_outputs(gpio::ALL_OUTPUTS));
    assert_eq!(p.levels, 0);
}

#[test]
fn pwm_channels_and_their_registers() {
    assert_eq!(PwmChannel::left(), PwmChannel { range_offset: 4, data_offset: 5 });
    assert_eq!(PwmChannel::right(), PwmChannel { range_offset: 8, data_offset: 9 });
    assert_eq!(pwm::configure(PwmChannel::left(), 1000), write(Block::Pwm, 4, 1000));
    assert_eq!(pwm::configure(PwmChannel::right(), 1000), write(Block::Pwm, 8, 1000));
    assert_eq!(pwm::set_duty(PwmChannel::left(), 250), write(Block::Pwm, 5, 250));
    assert_eq!(pwm::set_duty(PwmChannel::right(), 750), write(Block::Pwm, 9, 750));
}

#[test]
fn pwm_enable_words() {
    assert_eq!(pwm::enable(true, true), write(Block::Pwm, 0, 0b1_0000_0001));
    assert_eq!(pwm::enable(true, false), write(Block::Pwm, 0, 0b1));
    assert_eq!(pwm::enable(false, true), write(Block::Pwm, 0, 0b1_0000_0000));
    assert_eq!(pwm::enable(false, false), write(Block::Pwm, 0, 0));
}

#[test]
fn pwm_disable_zeroes_control_and_both_duties() {
    assert_eq!(
        pwm::disable(),
        vec![write(Block::Pwm, 0, 0), write(Block::Pwm, 5, 0), write(Block::Pwm, 9, 0)]
    );
    let mut p = Peripherals::new();
    p.apply(pwm::set_duty(PwmChannel::left(), 10));
    p.apply(pwm::set_duty(PwmChannel::right(), 20));
    p.apply(pwm::enable(true, true));
    assert!(!p.is_de_energized());
    p.apply_all(&pwm::disable());
    assert!(p.is_de_energized());
}

#[test]
fn writes_to_other_registers_change_nothing() {
    let mut p = Peripherals::new();
    p.apply(write(Block::Gpio, 3, 77));
    p.apply(write(Block::Pwm, 1, 77));
    p.apply(write(Block::Clock, 0, 0x5A00_0001));
    assert_eq!(p, Peripherals::new());
}
