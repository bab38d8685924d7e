use motor_driver::command::{MotorCommand, Speed};
use motor_driver::driver::{
    configure_writes, shutdown_writes, Action, DriverState, Event, MotorDriver, Phase,
};
use motor_driver::registers::{Block, MapError, Peripherals, RegisterWrite};
use motor_driver::validate::{parse_duration, parse_speed};

fn command(left: &str, right: &str, time: &str) -> MotorCommand {
    MotorCommand::new(
        parse_speed(left).unwrap(),
        parse_speed(right).unwrap(),
        parse_duration(time).unwrap(),
    )
    .unwrap()
}

fn write(block: Block, offset: u32, value: u32) -> RegisterWrite {
    RegisterWrite { block, offset, value }
}

fn dirty() -> Peripherals {
    Peripherals {
        clock_control: 0x5A00_0011,
        clock_divisor: 0x5A00_1000,
        select0: 0x1234_5678,
        select1: 0x0BAD_F00D,
        select2: 0x3FFF_FFFF,
        levels: 0xFFFF_0F0F,
        pwm_control: 0x101,
        pwm_range_left: 7,
        pwm_data_left: 7,
        pwm_range_right: 9,
        pwm_data_right: 9,
    }
}

#[test]
fn configure_writes_in_order() {
    let ws = configure_writes(&command("0.5", "-0.5", "1000"));
    assert_eq!(
        ws,
        vec![
            write(Block::Gpio, 10, 0xFFFF_FFFF),
            write(Block::Gpio, 1, 0x100),
            write(Block::Gpio, 1, 0x900),
            write(Block::Gpio, 0, 0x8000),
            write(Block::Gpio, 0, 0x4_8000),
            write(Block::Gpio, 1, 0x4_0900),
            write(Block::Gpio, 2, 0x4_0000),
            write(Block::Gpio, 2, 0x4_8000),
            write(Block::Clock, 160, 0x5A00_0000),
            write(Block::Clock, 161, 0x5A18_0000),
            write(Block::Clock, 160, 0x5A00_0011),
            write(Block::Gpio, 7, 1 << 25 | 1 << 5 | 1 << 26),
            write(Block::Pwm, 4, 1000),
            write(Block::Pwm, 8, 1000),
            write(Block::Pwm, 5, 500),
            write(Block::Pwm, 9, 500),
            write(Block::Pwm, 0, 0x101),
        ]
    );
}

#[test]
fn shutdown_writes_in_order() {
    assert_eq!(
        shutdown_writes(),
        vec![
            write(Block::Pwm, 0, 0),
            write(Block::Pwm, 5, 0),
            write(Block::Pwm, 9, 0),
            write(Block::Gpio, 10, 0xFFFF_FFFF),
        ]
    );
}

#[test]
fn clear_all_precedes_every_set() {
    let ws = configure_writes(&command("-1", "0.3", "5"));
    let first_set = ws.iter().position(|w| w.block == Block::Gpio && w.offset == 7).unwrap();
    let first_clear = ws
        .iter()
        .position(|w| w.block == Block::Gpio && w.offset == 10 && w.value == 0xFFFF_FFFF)
        .unwrap();
    assert_eq!(first_clear, 0);
    assert!(first_clear < first_set);
}

#[test]
fn shutdown_twice_is_shutdown_once() {
    let mut once = dirty();
    once.apply_all(&shutdown_writes());
    let mut twice = dirty();
    twice.apply_all(&shutdown_writes());
    twice.apply_all(&shutdown_writes());
    assert_eq!(once, twice);
    assert!(once.is_de_energized());
    assert_eq!(once.levels, 0);
    assert_eq!(once.pwm_control, 0);
    assert_eq!(once.pwm_data_left, 0);
    assert_eq!(once.pwm_data_right, 0);
    assert_eq!(once.select0, 0x1234_5678);
    assert_eq!(once.pwm_range_left, 7);
}

#[test]
fn configure_overrides_whatever_was_there() {
    let mut p = dirty();
    p.apply_all(&configure_writes(&command("0.25", "-0.75", "1")));
    assert_eq!(
        p,
        Peripherals {
            clock_control: 0x5A00_0011,
            clock_divisor: 0x5A18_0000,
            select0: 1 << 15 | 1 << 18,
            select1: 1 << 8 | 1 << 11 | 1 << 18,
            select2: 1 << 15 | 1 << 18,
            levels: 1 << 25 | 1 << 5 | 1 << 26,
            pwm_control: 0x101,
            pwm_range_left: 1000,
            pwm_data_left: 250,
            pwm_range_right: 1000,
            pwm_data_right: 750,
        }
    );
}

#[test]
fn half_speed_forward_and_backward_for_a_second() {
    let mut driver = MotorDriver::new(command("0.5", "-0.5", "1000"));
    let mut hardware = Peripherals::new();
    assert_eq!(driver.state(), DriverState::Idle);
    assert_eq!(driver.step(Event::Start), Action::OpenDevice);
    assert_eq!(driver.state(), DriverState::Configuring);
    assert_eq!(driver.step(Event::Done), Action::MapBlock(Block::Clock));
    assert_eq!(driver.step(Event::Done), Action::MapBlock(Block::Gpio));
    assert_eq!(driver.step(Event::Done), Action::MapBlock(Block::Pwm));
    assert_eq!(driver.step(Event::Done), Action::Configure);
    assert_eq!(driver.state(), DriverState::Configuring);
    hardware.apply_all(&driver.configure_writes());
    assert_eq!(hardware.levels, 1 << 25 | 1 << 5 | 1 << 26);
    assert_eq!(hardware.pwm_data_left, 500);
    assert_eq!(hardware.pwm_data_right, 500);
    assert_eq!(hardware.pwm_range_left, 1000);
    assert_eq!(hardware.pwm_range_right, 1000);
    assert_eq!(hardware.pwm_control, 0x101);
    assert_eq!(driver.step(Event::Done), Action::Hold(1000));
    assert_eq!(driver.state(), DriverState::Running);
    assert_eq!(driver.step(Event::Done), Action::ShutDown);
    assert_eq!(driver.state(), DriverState::ShuttingDown);
    hardware.apply_all(&driver.shutdown_writes());
    assert_eq!(hardware.levels, 0);
    assert_eq!(hardware.pwm_data_left, 0);
    assert_eq!(hardware.pwm_data_right, 0);
    assert!(hardware.is_de_energized());
    assert_eq!(driver.step(Event::Done), Action::Release);
    assert_eq!(driver.state(), DriverState::Idle);
    assert_eq!(driver.phase, Phase::Finished);
}

#[test]
fn full_speed_with_no_hold() {
    let mut driver = MotorDriver::new(command("1.0", "1.0", "0"));
    let mut hardware = Peripherals::new();
    assert_eq!(driver.step(Event::Start), Action::OpenDevice);
    assert_eq!(driver.step(Event::Done), Action::MapBlock(Block::Clock));
    assert_eq!(driver.step(Event::Done), Action::MapBlock(Block::Gpio));
    assert_eq!(driver.step(Event::Done), Action::MapBlock(Block::Pwm));
    assert_eq!(driver.step(Event::Done), Action::Configure);
    hardware.apply_all(&driver.configure_writes());
    assert_eq!(hardware.pwm_data_left, 1000);
    assert_eq!(hardware.pwm_data_right, 1000);
    assert_eq!(hardware.levels, 1 << 25 | 1 << 5 | 1 << 16);
    assert_eq!(driver.step(Event::Done), Action::Hold(0));
    assert_eq!(driver.step(Event::Done), Action::ShutDown);
    hardware.apply_all(&driver.shutdown_writes());
    assert!(hardware.is_de_energized());
    assert_eq!(driver.step(Event::Done), Action::Release);
    assert_eq!(driver.state(), DriverState::Idle);
}

#[test]
fn denied_device_aborts_before_any_mapping() {
    let mut driver = MotorDriver::new(command("0.5", "0.5", "100"));
    assert_eq!(driver.step(Event::Start), Action::OpenDevice);
    assert_eq!(
        driver.step(Event::Failed(MapError::PermissionDenied)),
        Action::Abort(MapError::PermissionDenied)
    );
    assert_eq!(driver.state(), DriverState::Idle);
    assert_eq!(driver.phase, Phase::Finished);
    assert_eq!(driver.step(Event::Done), Action::Ignore);
    assert_eq!(driver.step(Event::Start), Action::Ignore);
    assert_eq!(driver.phase, Phase::Finished);
}

#[test]
fn failed_mapping_aborts_without_a_write() {
    let mut driver = MotorDriver::new(command("0.5", "0.5", "100"));
    assert_eq!(driver.step(Event::Start), Action::OpenDevice);
    assert_eq!(driver.step(Event::Done), Action::MapBlock(Block::Clock));
    assert_eq!(driver.step(Event::Done), Action::MapBlock(Block::Gpio));
    assert_eq!(
        driver.step(Event::Failed(MapError::Unsupported)),
        Action::Abort(MapError::Unsupported)
    );
    assert_eq!(driver.state(), DriverState::Idle);
    let mut other = MotorDriver::new(command("0.5", "0.5", "100"));
    assert_eq!(other.step(Event::Start), Action::OpenDevice);
    assert_eq!(other.step(Event::Done), Action::MapBlock(Block::Clock));
    assert_eq!(
        other.step(Event::Failed(MapError::NotFound)),
        Action::Abort(MapError::NotFound)
    );
}

#[test]
fn interruption_during_the_hold_shuts_down() {
    let mut driver = MotorDriver::new(command("0.5", "0.5", "100"));
    driver.step(Event::Start);
    driver.step(Event::Done);
    driver.step(Event::Done);
    driver.step(Event::Done);
    driver.step(Event::Done);
    assert_eq!(driver.step(Event::Done), Action::Hold(100));
    assert_eq!(driver.step(Event::Interrupted), Action::ShutDown);
    assert_eq!(driver.step(Event::Interrupted), Action::Release);
    assert_eq!(driver.state(), DriverState::Idle);
}

#[test]
fn interruption_after_the_writes_shuts_down() {
    let mut driver = MotorDriver::new(command("0.5", "0.5", "100"));
    driver.step(Event::Start);
    driver.step(Event::Done);
    driver.step(Event::Done);
    driver.step(Event::Done);
    assert_eq!(driver.step(Event::Done), Action::Configure);
    assert_eq!(driver.step(Event::Interrupted), Action::ShutDown);
    assert_eq!(driver.state(), DriverState::ShuttingDown);
}

#[test]
fn interruption_before_the_writes_only_releases() {
    let mut driver = MotorDriver::new(command("0.5", "0.5", "100"));
    driver.step(Event::Start);
    driver.step(Event::Done);
    assert_eq!(driver.step(Event::Interrupted), Action::Release);
    assert_eq!(driver.phase, Phase::Finished);
}

#[test]
fn events_out_of_turn_are_ignored() {
    let mut driver = MotorDriver::new(command("0.5", "0.5", "100"));
    assert_eq!(driver.step(Event::Done), Action::Ignore);
    assert_eq!(driver.step(Event::Interrupted), Action::Ignore);
    assert_eq!(driver.step(Event::Failed(MapError::NotFound)), Action::Ignore);
    assert_eq!(driver.phase, Phase::Ready);
    assert_eq!(driver.step(Event::Start), Action::OpenDevice);
    assert_eq!(driver.step(Event::Start), Action::Ignore);
    assert_eq!(driver.phase, Phase::Opening);
}

#[test]
fn zero_speed_runs_forward_with_no_duty() {
    let zero = Speed::new(true, 0, 1).unwrap();
    let cmd = MotorCommand::new(zero, zero, 3).unwrap();
    let mut p = Peripherals::new();
    p.apply_all(&configure_writes(&cmd));
    assert_eq!(p.levels, 1 << 25 | 1 << 5 | 1 << 16);
    assert_eq!(p.pwm_data_left, 0);
    assert_eq!(p.pwm_data_right, 0);
}
