//! The run of one motor command: the writes that configure the hardware, the
//! writes that shut it down, and the state machine that orders them around
//! the mapping of the registers and the timed hold.

use vstd::prelude::*;
use crate::clock::{clock_sequence, clock_sequence_effect, reconfigure, CLOCK_DIVIDED, CLOCK_STARTED};
use crate::command::{duty_within_range, MotorCommand};
use crate::gpio::{
    clear_outputs, direction_mask, set_outputs, spec_direction_mask, GpioController,
    PinMode, ALL_OUTPUTS, LEFT_BACKWARD_PIN, LEFT_FORWARD_PIN, LEFT_PWM_PIN, RIGHT_BACKWARD_PIN,
    RIGHT_FORWARD_PIN, RIGHT_PWM_PIN, STANDBY_PIN,
};
use crate::pwm::{
    configure, disable, disable_sequence, enable, enable_word, set_duty, PwmChannel, PWM_RANGE,
};
use crate::registers::{
    after_all_concat, after_all_push, Block, MapError, Peripherals, RegisterWrite,
    GPIO_OUTPUT_CLEAR, GPIO_OUTPUT_SET, PWM_CONTROL, PWM_DATA_LEFT, PWM_DATA_RIGHT,
    PWM_RANGE_LEFT, PWM_RANGE_RIGHT,
};

verus! {

/// Function-select word 0 once both left direction pins are outputs.
pub const SELECT0_WIRED: u32 = 0x0004_8000;

/// Function-select word 1 once both PWM pins carry their channel and the
/// right forward pin is an output.
pub const SELECT1_WIRED: u32 = 0x0004_0900;

/// Function-select word 2 once the standby and right backward pins are outputs.
pub const SELECT2_WIRED: u32 = 0x0004_8000;

/// The write that drives every pin low.
pub open spec fn clear_all() -> RegisterWrite {
    RegisterWrite { block: Block::Gpio, offset: GPIO_OUTPUT_CLEAR, value: ALL_OUTPUTS }
}

/// The writes that give the seven pins their function: the two PWM pins
/// first, then the four direction pins and the standby pin.
pub open spec fn function_select_sequence() -> Seq<RegisterWrite> {
    seq![
        RegisterWrite { block: Block::Gpio, offset: 1, value: 0x100 },
        RegisterWrite { block: Block::Gpio, offset: 1, value: 0x900 },
        RegisterWrite { block: Block::Gpio, offset: 0, value: 0x8000 },
        RegisterWrite { block: Block::Gpio, offset: 0, value: SELECT0_WIRED },
        RegisterWrite { block: Block::Gpio, offset: 1, value: SELECT1_WIRED },
        RegisterWrite { block: Block::Gpio, offset: 2, value: 0x4_0000 },
        RegisterWrite { block: Block::Gpio, offset: 2, value: SELECT2_WIRED },
    ]
}

/// The writes that set both channels' range and duty and enable them.
pub open spec fn pwm_sequence(command: MotorCommand) -> Seq<RegisterWrite> {
    seq![
        RegisterWrite { block: Block::Pwm, offset: PWM_RANGE_LEFT, value: PWM_RANGE },
        RegisterWrite { block: Block::Pwm, offset: PWM_RANGE_RIGHT, value: PWM_RANGE },
        RegisterWrite {
            block: Block::Pwm,
            offset: PWM_DATA_LEFT,
            value: command.left.spec_duty(PWM_RANGE) as u32,
        },
        RegisterWrite {
            block: Block::Pwm,
            offset: PWM_DATA_RIGHT,
            value: command.right.spec_duty(PWM_RANGE) as u32,
        },
        RegisterWrite { block: Block::Pwm, offset: PWM_CONTROL, value: enable_word(true, true) },
    ]
}

/// The write that drives the standby pin and the chosen direction pins high.
pub open spec fn direction_write(command: MotorCommand) -> RegisterWrite {
    RegisterWrite {
        block: Block::Gpio,
        offset: GPIO_OUTPUT_SET,
        value: spec_direction_mask(command.left.spec_direction(), command.right.spec_direction()),
    }
}

/// Everything written before the hold: all outputs cleared, the pins given
/// their function, the clock reconfigured, the standby and direction pins
/// driven high, the PWM channels set up and enabled.
pub open spec fn configure_sequence(command: MotorCommand) -> Seq<RegisterWrite> {
    seq![clear_all()] + function_select_sequence() + clock_sequence() + seq![
        direction_write(command),
    ] + pwm_sequence(command)
}

/// Everything written after the hold: PWM disabled, both duties zeroed, all
/// outputs cleared.
pub open spec fn shutdown_sequence() -> Seq<RegisterWrite> {
    disable_sequence() + seq![clear_all()]
}

/// The registers as a configured run holds them.
pub open spec fn configured(command: MotorCommand) -> Peripherals {
    Peripherals {
        clock_control: CLOCK_STARTED,
        clock_divisor: CLOCK_DIVIDED,
        select0: SELECT0_WIRED,
        select1: SELECT1_WIRED,
        select2: SELECT2_WIRED,
        levels: spec_direction_mask(command.left.spec_direction(), command.right.spec_direction()),
        pwm_control: enable_word(true, true),
        pwm_range_left: PWM_RANGE,
        pwm_data_left: command.left.spec_duty(PWM_RANGE) as u32,
        pwm_range_right: PWM_RANGE,
        pwm_data_right: command.right.spec_duty(PWM_RANGE) as u32,
    }
}

proof fn select_words()
    ensures
        crate::gpio::with_field(0, 6, 4) == 0x100,
        crate::gpio::with_field(0x100, 9, 4) == 0x900,
        crate::gpio::with_field(0, 15, 1) == 0x8000,
        crate::gpio::with_field(0x8000, 18, 1) == 0x4_8000,
        crate::gpio::with_field(0x900, 18, 1) == 0x4_0900,
        crate::gpio::with_field(0, 18, 1) == 0x4_0000,
        crate::gpio::with_field(0x4_0000, 15, 1) == 0x4_8000,
{
    assert((0u32 & !(7u32 << 6u32)) | (4u32 << 6u32) == 0x100) by (bit_vector);
    assert((0x100u32 & !(7u32 << 9u32)) | (4u32 << 9u32) == 0x900) by (bit_vector);
    assert((0u32 & !(7u32 << 15u32)) | (1u32 << 15u32) == 0x8000) by (bit_vector);
    assert((0x8000u32 & !(7u32 << 18u32)) | (1u32 << 18u32) == 0x4_8000) by (bit_vector);
    assert((0x900u32 & !(7u32 << 18u32)) | (1u32 << 18u32) == 0x4_0900) by (bit_vector);
    assert((0u32 & !(7u32 << 18u32)) | (1u32 << 18u32) == 0x4_0000) by (bit_vector);
    assert((0x4_0000u32 & !(7u32 << 15u32)) | (1u32 << 15u32) == 0x4_8000) by (bit_vector);
}

/// The wired function-select words give the two PWM pins their channel and
/// make the four direction pins and the standby pin outputs.
pub proof fn wired_functions()
    ensures
        ({
            let g = GpioController {
                select0: SELECT0_WIRED,
                select1: SELECT1_WIRED,
                select2: SELECT2_WIRED,
            };
            &&& g.function_of(LEFT_PWM_PIN) == PinMode::Alternate0.spec_bits()
            &&& g.function_of(RIGHT_PWM_PIN) == PinMode::Alternate0.spec_bits()
            &&& g.function_of(LEFT_FORWARD_PIN) == PinMode::Output.spec_bits()
            &&& g.function_of(LEFT_BACKWARD_PIN) == PinMode::Output.spec_bits()
            &&& g.function_of(RIGHT_FORWARD_PIN) == PinMode::Output.spec_bits()
            &&& g.function_of(RIGHT_BACKWARD_PIN) == PinMode::Output.spec_bits()
            &&& g.function_of(STANDBY_PIN) == PinMode::Output.spec_bits()
        }),
{
    assert((0x4_0900u32 >> 6u32) & 7 == 4) by (bit_vector);
    assert((0x4_0900u32 >> 9u32) & 7 == 4) by (bit_vector);
    assert((0x4_0900u32 >> 18u32) & 7 == 1) by (bit_vector);
    assert((0x4_8000u32 >> 15u32) & 7 == 1) by (bit_vector);
    assert((0x4_8000u32 >> 18u32) & 7 == 1) by (bit_vector);
}

/// The writes that configure the hardware for a command.
pub fn configure_writes(command: &MotorCommand) -> (ws: Vec<RegisterWrite>)
    requires
        command.wf(),
    ensures
        ws@ == configure_sequence(*command),
{
    proof {
        select_words();
        duty_within_range(command.left, PWM_RANGE);
        duty_within_range(command.right, PWM_RANGE);
    }
    let mut ws: Vec<RegisterWrite> = Vec::new();
    ws.push(clear_outputs(ALL_OUTPUTS));
    let mut gpio = GpioController::new();
    ws.push(gpio.set_function(LEFT_PWM_PIN, PinMode::Alternate0));
    ws.push(gpio.set_function(RIGHT_PWM_PIN, PinMode::Alternate0));
    ws.push(gpio.set_function(LEFT_FORWARD_PIN, PinMode::Output));
    ws.push(gpio.set_function(LEFT_BACKWARD_PIN, PinMode::Output));
    ws.push(gpio.set_function(RIGHT_FORWARD_PIN, PinMode::Output));
    ws.push(gpio.set_function(RIGHT_BACKWARD_PIN, PinMode::Output));
    ws.push(gpio.set_function(STANDBY_PIN, PinMode::Output));
    let mut clock = reconfigure();
    ws.append(&mut clock);
    ws.push(set_outputs(direction_mask(command.left.direction(), command.right.direction())));
    ws.push(configure(PwmChannel::left(), PWM_RANGE));
    ws.push(configure(PwmChannel::right(), PWM_RANGE));
    ws.push(set_duty(PwmChannel::left(), command.left.duty(PWM_RANGE)));
    ws.push(set_duty(PwmChannel::right(), command.right.duty(PWM_RANGE)));
    ws.push(enable(true, true));
    proof {
        assert(ws@ =~= configure_sequence(*command));
    }
    ws
}

/// The writes that return the hardware to rest.
pub fn shutdown_writes() -> (ws: Vec<RegisterWrite>)
    ensures
        ws@ == shutdown_sequence(),
{
    let mut ws = disable();
    ws.push(clear_outputs(ALL_OUTPUTS));
    proof {
        assert(ws@ =~= shutdown_sequence());
    }
    ws
}

/// Shutdown leaves no pin high, no channel enabled and both duties zero,
/// whatever the registers held, and touches nothing else.
pub proof fn shutdown_effect(p: Peripherals)
    ensures
        p.after_all(shutdown_sequence()) == (Peripherals {
            levels: 0,
            pwm_control: 0,
            pwm_data_left: 0,
            pwm_data_right: 0,
            ..p
        }),
        p.after_all(shutdown_sequence()).de_energized(),
{
    let ws = shutdown_sequence();
    let s0 = Seq::<RegisterWrite>::empty();
    after_all_push(p, s0, ws[0]);
    after_all_push(p, s0.push(ws[0]), ws[1]);
    after_all_push(p, s0.push(ws[0]).push(ws[1]), ws[2]);
    after_all_push(p, s0.push(ws[0]).push(ws[1]).push(ws[2]), ws[3]);
    assert(ws =~= s0.push(ws[0]).push(ws[1]).push(ws[2]).push(ws[3]));
    let levels = p.levels;
    assert(levels & !0xFFFF_FFFFu32 == 0) by (bit_vector);
}

/// Shutting down twice in a row leaves the registers as shutting down once
/// does.
pub proof fn shutdown_idempotent(p: Peripherals)
    ensures
        p.after_all(shutdown_sequence() + shutdown_sequence()) == p.after_all(
            shutdown_sequence(),
        ),
        p.after_all(shutdown_sequence()).after_all(shutdown_sequence()) == p.after_all(
            shutdown_sequence(),
        ),
{
    after_all_concat(p, shutdown_sequence(), shutdown_sequence());
    shutdown_effect(p);
    shutdown_effect(p.after_all(shutdown_sequence()));
}

/// In the writes that configure a run, a write that clears every output
/// comes before any write that sets one.
pub proof fn clear_precedes_set(command: MotorCommand, i: int)
    requires
        0 <= i < configure_sequence(command).len(),
        configure_sequence(command)[i].is_output_set(),
    ensures
        exists|j: int| 0 <= j < i && configure_sequence(command)[j] == clear_all(),
{
    assert(configure_sequence(command)[0] == clear_all());
}

/// Whatever the registers held, configuring leaves them as the command asks.
pub proof fn configure_effect(p: Peripherals, command: MotorCommand)
    requires
        command.wf(),
    ensures
        p.after_all(configure_sequence(command)) == configured(command),
{
    let a = seq![clear_all()];
    let b = function_select_sequence();
    let c = clock_sequence();
    let d = seq![direction_write(command)];
    let e = pwm_sequence(command);
    let s0 = Seq::<RegisterWrite>::empty();
    after_all_concat(p, a + b + c + d, e);
    after_all_concat(p, a + b + c, d);
    after_all_concat(p, a + b, c);
    after_all_concat(p, a, b);
    after_all_push(p, s0, clear_all());
    let levels = p.levels;
    assert(levels & !0xFFFF_FFFFu32 == 0) by (bit_vector);
    let p1 = p.after_all(a);
    assert(p1 == (Peripherals { levels: 0, ..p }));
    after_all_push(p1, s0, b[0]);
    after_all_push(p1, s0.push(b[0]), b[1]);
    after_all_push(p1, s0.push(b[0]).push(b[1]), b[2]);
    after_all_push(p1, s0.push(b[0]).push(b[1]).push(b[2]), b[3]);
    after_all_push(p1, s0.push(b[0]).push(b[1]).push(b[2]).push(b[3]), b[4]);
    after_all_push(p1, s0.push(b[0]).push(b[1]).push(b[2]).push(b[3]).push(b[4]), b[5]);
    after_all_push(
        p1,
        s0.push(b[0]).push(b[1]).push(b[2]).push(b[3]).push(b[4]).push(b[5]),
        b[6],
    );
    assert(b =~= s0.push(b[0]).push(b[1]).push(b[2]).push(b[3]).push(b[4]).push(b[5]).push(b[6]));
    let p2 = p1.after_all(b);
    assert(p2 == (Peripherals {
        select0: SELECT0_WIRED,
        select1: SELECT1_WIRED,
        select2: SELECT2_WIRED,
        ..p1
    }));
    clock_sequence_effect(p2);
    let p3 = p2.after_all(c);
    after_all_push(p3, s0, d[0]);
    let mask = d[0].value;
    assert(0u32 | mask == mask) by (bit_vector);
    let p4 = p3.after_all(d);
    assert(p4 == (Peripherals { levels: mask, ..p3 }));
    after_all_push(p4, s0, e[0]);
    after_all_push(p4, s0.push(e[0]), e[1]);
    after_all_push(p4, s0.push(e[0]).push(e[1]), e[2]);
    after_all_push(p4, s0.push(e[0]).push(e[1]).push(e[2]), e[3]);
    after_all_push(p4, s0.push(e[0]).push(e[1]).push(e[2]).push(e[3]), e[4]);
    assert(e =~= s0.push(e[0]).push(e[1]).push(e[2]).push(e[3]).push(e[4]));
}

/// A whole run, from any state of the registers, ends de-energized.
pub proof fn run_ends_de_energized(p: Peripherals, command: MotorCommand)
    requires
        command.wf(),
    ensures
        p.after_all(configure_sequence(command) + shutdown_sequence()).de_energized(),
        p.after_all(configure_sequence(command) + shutdown_sequence()) == (Peripherals {
            levels: 0,
            pwm_control: 0,
            pwm_data_left: 0,
            pwm_data_right: 0,
            ..configured(command)
        }),
{
    after_all_concat(p, configure_sequence(command), shutdown_sequence());
    configure_effect(p, command);
    shutdown_effect(configured(command));
}

/// The states of a run, as seen from outside.
#[derive(Clone, Copy, Debug, PartialEq, Eq, Structural)]
pub enum DriverState {
    Idle,
    Configuring,
    Running,
    ShuttingDown,
}

/// How far a run has come.
#[derive(Clone, Copy, Debug, PartialEq, Eq, Structural)]
pub enum Phase {
    Ready,
    Opening,
    Mapping(Block),
    Writing,
    Holding,
    Stopping,
    Finished,
}

/// What the driver is told: to start, that the last action is done, that it
/// failed, or that the run is to end now.
#[derive(Clone, Copy, Debug, PartialEq, Eq, Structural)]
pub enum Event {
    Start,
    Done,
    Failed(MapError),
    Interrupted,
}

/// What the caller is to do next.
#[derive(Clone, Copy, Debug, PartialEq, Eq, Structural)]
pub enum Action {
    /// Open the physical-memory device.
    OpenDevice,
    /// Map the page of a block.
    MapBlock(Block),
    /// Issue the writes that configure the run.
    Configure,
    /// Sleep for so many milliseconds.
    Hold(u32),
    /// Issue the writes that shut the hardware down.
    ShutDown,
    /// Release what was mapped; the run is over.
    Release,
    /// Release what was mapped and report the error; nothing was written.
    Abort(MapError),
    /// Nothing to do.
    Ignore,
}

/// The state that a phase belongs to.
pub open spec fn state_of(phase: Phase) -> DriverState {
    match phase {
        Phase::Ready | Phase::Finished => DriverState::Idle,
        Phase::Opening | Phase::Mapping(_) | Phase::Writing => DriverState::Configuring,
        Phase::Holding => DriverState::Running,
        Phase::Stopping => DriverState::ShuttingDown,
    }
}

/// True while nothing has been written to a register yet.
pub open spec fn acquiring(phase: Phase) -> bool {
    phase == Phase::Opening || phase is Mapping
}

/// The transition function: the phase that follows and the action to take.
pub open spec fn next(phase: Phase, event: Event, duration_ms: u32) -> (Phase, Action) {
    match phase {
        Phase::Ready => match event {
            Event::Start => (Phase::Opening, Action::OpenDevice),
            _ => (phase, Action::Ignore),
        },
        Phase::Opening => match event {
            Event::Start => (phase, Action::Ignore),
            Event::Done => (Phase::Mapping(Block::Clock), Action::MapBlock(Block::Clock)),
            Event::Failed(e) => (Phase::Finished, Action::Abort(e)),
            Event::Interrupted => (Phase::Finished, Action::Release),
        },
        Phase::Mapping(block) => match event {
            Event::Start => (phase, Action::Ignore),
            Event::Done => match block {
                Block::Clock => (Phase::Mapping(Block::Gpio), Action::MapBlock(Block::Gpio)),
                Block::Gpio => (Phase::Mapping(Block::Pwm), Action::MapBlock(Block::Pwm)),
                Block::Pwm => (Phase::Writing, Action::Configure),
            },
            Event::Failed(e) => (Phase::Finished, Action::Abort(e)),
            Event::Interrupted => (Phase::Finished, Action::Release),
        },
        Phase::Writing => match event {
            Event::Start => (phase, Action::Ignore),
            Event::Done => (Phase::Holding, Action::Hold(duration_ms)),
            _ => (Phase::Stopping, Action::ShutDown),
        },
        Phase::Holding => (Phase::Stopping, Action::ShutDown),
        Phase::Stopping => (Phase::Finished, Action::Release),
        Phase::Finished => (phase, Action::Ignore),
    }
}

/// One run of one command.
#[derive(Clone, Copy, Debug, PartialEq, Eq, Structural)]
pub struct MotorDriver {
    pub phase: Phase,
    pub command: MotorCommand,
}

impl MotorDriver {
    /// The command is one that can be run.
    pub open spec fn wf(&self) -> bool {
        self.command.wf()
    }

    /// A run that has not started.
    pub fn new(command: MotorCommand) -> (d: MotorDriver)
        requires
            command.wf(),
        ensures
            d == (MotorDriver { phase: Phase::Ready, command }),
            d.wf(),
    {
        MotorDriver { phase: Phase::Ready, command }
    }

    /// The state of the run.
    pub fn state(&self) -> (s: DriverState)
        ensures
            s == state_of(self.phase),
    {
        match self.phase {
            Phase::Ready | Phase::Finished => DriverState::Idle,
            Phase::Opening | Phase::Mapping(_) | Phase::Writing => DriverState::Configuring,
            Phase::Holding => DriverState::Running,
            Phase::Stopping => DriverState::ShuttingDown,
        }
    }

    /// Takes an event and says what to do next.
    pub fn step(&mut self, event: Event) -> (action: Action)
        ensures
            (final(self).phase, action) == next(
                old(self).phase,
                event,
                old(self).command.duration_ms,
            ),
            final(self).command == old(self).command,
    {
        let (phase, action) = match self.phase {
            Phase::Ready => match event {
                Event::Start => (Phase::Opening, Action::OpenDevice),
                _ => (self.phase, Action::Ignore),
            },
            Phase::Opening => match event {
                Event::Start => (self.phase, Action::Ignore),
                Event::Done => (Phase::Mapping(Block::Clock), Action::MapBlock(Block::Clock)),
                Event::Failed(e) => (Phase::Finished, Action::Abort(e)),
                Event::Interrupted => (Phase::Finished, Action::Release),
            },
            Phase::Mapping(block) => match event {
                Event::Start => (self.phase, Action::Ignore),
                Event::Done => match block {
                    Block::Clock => (Phase::Mapping(Block::Gpio), Action::MapBlock(Block::Gpio)),
                    Block::Gpio => (Phase::Mapping(Block::Pwm), Action::MapBlock(Block::Pwm)),
                    Block::Pwm => (Phase::Writing, Action::Configure),
                },
                Event::Failed(e) => (Phase::Finished, Action::Abort(e)),
                Event::Interrupted => (Phase::Finished, Action::Release),
            },
            Phase::Writing => match event {
                Event::Start => (self.phase, Action::Ignore),
                Event::Done => (Phase::Holding, Action::Hold(self.command.duration_ms)),
                _ => (Phase::Stopping, Action::ShutDown),
            },
            Phase::Holding => (Phase::Stopping, Action::ShutDown),
            Phase::Stopping => (Phase::Finished, Action::Release),
            Phase::Finished => (self.phase, Action::Ignore),
        };
        self.phase = phase;
        action
    }

    /// The writes to issue on `Action::Configure`.
    pub fn configure_writes(&self) -> (ws: Vec<RegisterWrite>)
        requires
            self.wf(),
        ensures
            ws@ == configure_sequence(self.command),
    {
        configure_writes(&self.command)
    }

    /// The writes to issue on `Action::ShutDown`.
    pub fn shutdown_writes(&self) -> (ws: Vec<RegisterWrite>)
        ensures
            ws@ == shutdown_sequence(),
    {
        shutdown_writes()
    }
}

/// The phase that a sequence of events leads to.
pub open spec fn phase_after(phase: Phase, events: Seq<Event>, duration_ms: u32) -> Phase
    decreases events.len(),
{
    if events.len() == 0 {
        phase
    } else {
        next(phase_after(phase, events.drop_last(), duration_ms), events.last(), duration_ms).0
    }
}

/// The registers are written to only once all three blocks are mapped, and
/// shut down only after they were written to.
pub proof fn writes_follow_mapping(phase: Phase, event: Event, duration_ms: u32)
    ensures
        next(phase, event, duration_ms).1 == Action::Configure <==> phase == Phase::Mapping(
            Block::Pwm,
        ) && event == Event::Done,
        next(phase, event, duration_ms).1 == Action::ShutDown ==> phase == Phase::Writing || phase
            == Phase::Holding,
{
}

/// A failure or an interruption while the device is opened or a block is
/// mapped ends the run without a write: no further block is asked for and
/// nothing is configured.
pub proof fn failed_acquisition_aborts(phase: Phase, error: MapError, duration_ms: u32)
    requires
        acquiring(phase),
    ensures
        next(phase, Event::Failed(error), duration_ms) == (Phase::Finished, Action::Abort(error)),
        next(phase, Event::Interrupted, duration_ms) == (Phase::Finished, Action::Release),
{
}

/// Once the registers were written to, every event but the one that starts
/// the hold leads to shutdown, and from the hold every event does.
pub proof fn energized_run_shuts_down(event: Event, duration_ms: u32)
    ensures
        next(Phase::Holding, event, duration_ms) == (Phase::Stopping, Action::ShutDown),
        event != Event::Start && event != Event::Done ==> next(Phase::Writing, event, duration_ms)
            == (Phase::Stopping, Action::ShutDown),
        next(Phase::Stopping, event, duration_ms) == (Phase::Finished, Action::Release),
{
}

/// A finished run stays finished: the driver serves one command.
pub proof fn finished_is_final(events: Seq<Event>, duration_ms: u32)
    ensures
        phase_after(Phase::Finished, events, duration_ms) == Phase::Finished,
    decreases events.len(),
{
    if events.len() > 0 {
        finished_is_final(events.drop_last(), duration_ms);
    }
}

/// The writes that an action stands for.
pub open spec fn writes_of(action: Action, command: MotorCommand) -> Seq<RegisterWrite> {
    match action {
        Action::Configure => configure_sequence(command),
        Action::ShutDown => shutdown_sequence(),
        _ => Seq::empty(),
    }
}

/// Every write that a run issues, in order, while it is told `events`.
pub open spec fn writes_after(events: Seq<Event>, command: MotorCommand) -> Seq<RegisterWrite>
    decreases events.len(),
{
    if events.len() == 0 {
        Seq::empty()
    } else {
        writes_after(events.drop_last(), command) + writes_of(
            next(
                phase_after(Phase::Ready, events.drop_last(), command.duration_ms),
                events.last(),
                command.duration_ms,
            ).1,
            command,
        )
    }
}

/// What a run has written by the phase it is in, whatever it was told:
/// nothing while it acquires the registers, the configuration while it
/// writes and holds, configuration and shutdown from then on. A finished run
/// has written nothing at all or both.
pub proof fn writes_by_phase(events: Seq<Event>, command: MotorCommand)
    ensures
        match phase_after(Phase::Ready, events, command.duration_ms) {
            Phase::Ready | Phase::Opening | Phase::Mapping(_) => writes_after(events, command)
                == Seq::<RegisterWrite>::empty(),
            Phase::Writing | Phase::Holding => writes_after(events, command) == configure_sequence(
                command,
            ),
            Phase::Stopping => writes_after(events, command) == configure_sequence(command)
                + shutdown_sequence(),
            Phase::Finished => writes_after(events, command) == Seq::<RegisterWrite>::empty()
                || writes_after(events, command) == configure_sequence(command)
                + shutdown_sequence(),
        },
    decreases events.len(),
{
    if events.len() > 0 {
        let before = events.drop_last();
        writes_by_phase(before, command);
        let written = writes_after(before, command);
        let none = Seq::<RegisterWrite>::empty();
        assert(none + configure_sequence(command) =~= configure_sequence(command));
        assert(written + none =~= written);
    }
}

/// A run that has finished left the registers untouched or de-energized:
/// no sequence of events ends a run with a pin high or a channel enabled.
pub proof fn finished_run_is_safe(p: Peripherals, events: Seq<Event>, command: MotorCommand)
    requires
        command.wf(),
        phase_after(Phase::Ready, events, command.duration_ms) == Phase::Finished,
    ensures
        writes_after(events, command).len() == 0 || p.after_all(
            writes_after(events, command),
        ).de_energized(),
{
    writes_by_phase(events, command);
    run_ends_de_energized(p, command);
}

/// Over a whole run, whatever it is told, a write that clears every output
/// comes before any write that sets one.
pub proof fn run_clears_before_it_sets(events: Seq<Event>, command: MotorCommand, i: int)
    requires
        0 <= i < writes_after(events, command).len(),
        writes_after(events, command)[i].is_output_set(),
    ensures
        exists|j: int| 0 <= j < i && writes_after(events, command)[j] == clear_all(),
{
    writes_by_phase(events, command);
    assert(configure_sequence(command)[0] == clear_all());
    assert(writes_after(events, command)[0] == clear_all());
}

/// Every write of a run addresses a register within its block's page.
pub proof fn writes_in_page(command: MotorCommand, i: int)
    requires
        0 <= i < (configure_sequence(command) + shutdown_sequence()).len(),
    ensures
        (configure_sequence(command) + shutdown_sequence())[i].in_page(),
{
}

} // verus!
