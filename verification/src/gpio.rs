//! Digital pins whose mode is part of their type.
//!
//! A [`Pin`] names one pin of one port and the mode it is in. Making a pin,
//! or taking it from one mode to another, yields the pin together with the
//! register operations that put the device in that mode; driving an output
//! yields the operation that does so. The caller carries the operations out
//! in the order given. The functions that tell a level take the registers
//! of the port as the caller has loaded them.
//!
//! A transition consumes the pin, so that no value of the old mode is left
//! to use. Two pins made for the same port and index are not kept apart:
//! the caller sees to it that only one of them drives the pin.

use core::marker::PhantomData;
use vstd::prelude::*;
use crate::registers::{
    after_concatenation, after_one, after_two, base_address, bit_ends_as_commanded, bit_is_set,
    clear_bit, pin_bit, pin_mask, port_base, register_address, set_again_is_set_once, set_bit,
    toggle_bit, valid_pin, valid_port, PortRegisters, Register, RegisterOp,
};

verus! {

/// The electrical modes of a pin.
#[derive(Clone, Copy, Debug, PartialEq, Eq, Structural)]
pub enum PinMode {
    Input,
    InputPullUp,
    Output,
    OutputOpenDrain,
}

/// A logic level.
#[derive(Clone, Copy, Debug, PartialEq, Eq, Structural)]
pub enum PinState {
    Low,
    High,
}

impl From<bool> for PinState {
    /// High for `true`, low for `false`.
    fn from(value: bool) -> (state: PinState) {
        if value {
            PinState::High
        } else {
            PinState::Low
        }
    }
}

impl vstd::std_specs::convert::FromSpecImpl<bool> for PinState {
    open spec fn obeys_from_spec() -> bool {
        true
    }

    open spec fn from_spec(value: bool) -> PinState {
        if value {
            PinState::High
        } else {
            PinState::Low
        }
    }
}

impl From<PinState> for bool {
    /// `true` for high, `false` for low.
    fn from(state: PinState) -> (value: bool) {
        match state {
            PinState::Low => false,
            PinState::High => true,
        }
    }
}

impl vstd::std_specs::convert::FromSpecImpl<PinState> for bool {
    open spec fn obeys_from_spec() -> bool {
        true
    }

    open spec fn from_spec(state: PinState) -> bool {
        state == PinState::High
    }
}

/// The operations that put pin `index` in `mode`, in the order in which they
/// are carried out.
pub open spec fn setup(mode: PinMode, index: u8) -> Seq<RegisterOp> {
    match mode {
        PinMode::Input => seq![clear_bit(Register::Direction, index)],
        PinMode::InputPullUp => seq![
            clear_bit(Register::Direction, index),
            set_bit(Register::PullUp, index),
        ],
        PinMode::Output => seq![set_bit(Register::Direction, index)],
        PinMode::OutputOpenDrain => seq![
            set_bit(Register::Direction, index),
            set_bit(Register::OpenDrain, index),
        ],
    }
}

/// The operations that take back what `mode` has set beside the direction.
pub open spec fn release(mode: PinMode, index: u8) -> Seq<RegisterOp> {
    match mode {
        PinMode::Input => seq![],
        PinMode::InputPullUp => seq![clear_bit(Register::PullUp, index)],
        PinMode::Output => seq![],
        PinMode::OutputOpenDrain => seq![clear_bit(Register::OpenDrain, index)],
    }
}

/// The operations that take pin `index` from mode `from` to mode `to`: first
/// those that release `from`, then those that set up `to`.
pub open spec fn transition(from: PinMode, to: PinMode, index: u8) -> Seq<RegisterOp> {
    release(from, index) + setup(to, index)
}

/// Whether a pin in mode `from` can be taken to mode `to` in one step.
pub open spec fn offered(from: PinMode, to: PinMode) -> bool {
    match from {
        PinMode::Input => to == PinMode::Output || to == PinMode::InputPullUp,
        PinMode::InputPullUp => to == PinMode::Output || to == PinMode::Input,
        PinMode::Output => to == PinMode::Input || to == PinMode::OutputOpenDrain,
        PinMode::OutputOpenDrain => to == PinMode::Output,
    }
}

/// Whether the registers hold pin `index` in `mode`: the direction bit as
/// the mode has it, and of the pull-up and open-drain bits just the one that
/// belongs to the mode.
pub open spec fn in_mode(regs: PortRegisters, mode: PinMode, index: u8) -> bool {
    let output = bit_is_set(regs.direction, index);
    let pull_up = bit_is_set(regs.pull_up, index);
    let open_drain = bit_is_set(regs.open_drain, index);
    match mode {
        PinMode::Input => !output && !pull_up && !open_drain,
        PinMode::InputPullUp => !output && pull_up && !open_drain,
        PinMode::Output => output && !pull_up && !open_drain,
        PinMode::OutputOpenDrain => output && !pull_up && open_drain,
    }
}

/// Whether pin `index` is an output with its pull-up enabled, which no mode
/// allows.
pub open spec fn pull_up_on_output(regs: PortRegisters, index: u8) -> bool {
    bit_is_set(regs.direction, index) && bit_is_set(regs.pull_up, index)
}

/// Whether `mode` is one of the two in which the pin is an output.
pub open spec fn is_output_mode(mode: PinMode) -> bool {
    mode == PinMode::Output || mode == PinMode::OutputOpenDrain
}

/// Whether `ops`, carried out on any registers, leave the direction bit of
/// pin `index` set where `output` is true, and clear where it is false.
pub open spec fn leaves_direction(ops: Seq<RegisterOp>, index: u8, output: bool) -> bool {
    forall|regs: PortRegisters|
        bit_is_set(#[trigger] regs.after_all(ops).direction, index) == output
}

/// Whether `ops`, carried out on any registers that hold pin `index` in mode
/// `from`, leave the pin held in mode `to`.
pub open spec fn takes(ops: Seq<RegisterOp>, from: PinMode, to: PinMode, index: u8) -> bool {
    forall|regs: PortRegisters|
        in_mode(regs, from, index) ==> in_mode(#[trigger] regs.after_all(ops), to, index)
}

/// Whether `ops`, carried out on any registers in which pin `index` is an
/// input, pass through no state in which the pin is an output with its
/// pull-up enabled: not before the first operation, not between two, not
/// after the last.
pub open spec fn keeps_pull_up_off_output(ops: Seq<RegisterOp>, index: u8) -> bool {
    forall|regs: PortRegisters, done: int|
        !bit_is_set(regs.direction, index) && 0 <= done <= ops.len() ==> !pull_up_on_output(
            #[trigger] regs.after_all(ops.take(done)),
            index,
        )
}

/// The level that the bit of pin `index` in `word` stands for.
pub open spec fn level(word: u32, index: u8) -> PinState {
    if bit_is_set(word, index) {
        PinState::High
    } else {
        PinState::Low
    }
}

/// The operation that commands `state` on output pin `index`.
pub open spec fn drive(state: PinState, index: u8) -> RegisterOp {
    match state {
        PinState::Low => clear_bit(Register::OutputData, index),
        PinState::High => set_bit(Register::OutputData, index),
    }
}

/// The operation that inverts the level commanded on output pin `index`.
pub open spec fn invert(index: u8) -> RegisterOp {
    toggle_bit(Register::OutputData, index)
}

/// Marks a pin as a floating input.
pub struct Input;

/// Marks a pin as a push-pull output.
pub struct Output;

/// Marks a pin as an input with the internal pull-up enabled.
pub struct InputPullUp;

/// Marks a pin as an open-drain output.
pub struct OutputOpenDrain;

/// Pin `PIN` of port `PORT`, in the mode that `MODE` marks.
///
/// The value holds nothing: what the pin does is in the registers of the
/// device. Its type decides which operations there are.
#[derive(Debug)]
pub struct Pin<const PORT: u8, const PIN: u8, MODE> {
    _mode: PhantomData<MODE>,
}

impl<const PORT: u8, const PIN: u8, MODE> Pin<PORT, PIN, MODE> {
    #[verifier::type_invariant]
    spec fn supported(self) -> bool {
        valid_port(PORT) && valid_pin(PIN)
    }

    /// Address of the registers of the pin's port.
    pub fn port(&self) -> (address: u32)
        ensures
            address == port_base(PORT),
    {
        proof {
            use_type_invariant(self);
        }
        base_address(PORT)
    }

    /// Address of `register` of the pin's port.
    pub fn register_address(&self, register: Register) -> (address: u32)
        ensures
            address == port_base(PORT) + register.spec_offset(),
    {
        proof {
            use_type_invariant(self);
        }
        register_address(PORT, register)
    }

    /// The word with only the pin's bit set.
    pub fn pin_mask(&self) -> (mask: u32)
        ensures
            mask == pin_bit(PIN),
    {
        proof {
            use_type_invariant(self);
        }
        pin_mask(PIN)
    }

    /// The operation that sets the pin's bit in `register`.
    fn set(&self, register: Register) -> (op: RegisterOp)
        ensures
            op == set_bit(register, PIN),
    {
        RegisterOp::Modify { register, clear_mask: 0, set_mask: self.pin_mask() }
    }

    /// The operation that clears the pin's bit in `register`.
    fn clear(&self, register: Register) -> (op: RegisterOp)
        ensures
            op == clear_bit(register, PIN),
    {
        RegisterOp::Modify { register, clear_mask: self.pin_mask(), set_mask: 0 }
    }

    /// Whether the pin's bit is set in `word`.
    fn bit_of(&self, word: u32) -> (set: bool)
        ensures
            set == bit_is_set(word, PIN),
    {
        word & self.pin_mask() != 0
    }
}

impl<const PORT: u8, const PIN: u8> Pin<PORT, PIN, Input> {
    /// Makes the pin an input: its direction bit is cleared.
    pub fn new() -> (made: (Self, [RegisterOp; 1]))
        requires
            valid_port(PORT),
            valid_pin(PIN),
        ensures
            made.1@ == setup(PinMode::Input, PIN),
            leaves_direction(made.1@, PIN, false),
            takes(made.1@, PinMode::Input, PinMode::Input, PIN),
    {
        let pin = Pin { _mode: PhantomData };
        let ops = [pin.clear(Register::Direction)];
        proof {
            assert(ops@ =~= setup(PinMode::Input, PIN));
            direction_follows_mode(PinMode::Input, PIN);
            setup_reaches_the_mode(PinMode::Input, PIN);
        }
        (pin, ops)
    }

    /// Makes the pin an output.
    pub fn into_output(self) -> (made: (Pin<PORT, PIN, Output>, [RegisterOp; 1]))
        ensures
            made.1@ == transition(PinMode::Input, PinMode::Output, PIN),
            leaves_direction(made.1@, PIN, true),
            takes(made.1@, PinMode::Input, PinMode::Output, PIN),
    {
        proof {
            use_type_invariant(&self);
        }
        let made = Pin::<PORT, PIN, Output>::new();
        proof {
            assert(made.1@ =~= transition(PinMode::Input, PinMode::Output, PIN));
            direction_follows_transition(PinMode::Input, PinMode::Output, PIN);
            transition_reaches_the_mode(PinMode::Input, PinMode::Output, PIN);
        }
        made
    }

    /// Enables the pull-up of the pin.
    pub fn into_input_pullup(self) -> (made: (Pin<PORT, PIN, InputPullUp>, [RegisterOp; 2]))
        ensures
            made.1@ == transition(PinMode::Input, PinMode::InputPullUp, PIN),
            leaves_direction(made.1@, PIN, false),
            takes(made.1@, PinMode::Input, PinMode::InputPullUp, PIN),
    {
        proof {
            use_type_invariant(&self);
        }
        let made = Pin::<PORT, PIN, InputPullUp>::new();
        proof {
            assert(made.1@ =~= transition(PinMode::Input, PinMode::InputPullUp, PIN));
            direction_follows_transition(PinMode::Input, PinMode::InputPullUp, PIN);
            transition_reaches_the_mode(PinMode::Input, PinMode::InputPullUp, PIN);
        }
        made
    }

    /// The level on the pin, by the input data register of `regs`.
    pub fn read(&self, regs: &PortRegisters) -> (state: PinState)
        ensures
            state == level(regs.input_data, PIN),
    {
        if self.bit_of(regs.read(Register::InputData)) {
            PinState::High
        } else {
            PinState::Low
        }
    }

    /// Whether the level on the pin is high.
    pub fn is_high(&self, regs: &PortRegisters) -> (high: bool)
        ensures
            high == (level(regs.input_data, PIN) == PinState::High),
            high == bit_is_set(regs.input_data, PIN),
    {
        self.read(regs) == PinState::High
    }

    /// Whether the level on the pin is low.
    pub fn is_low(&self, regs: &PortRegisters) -> (low: bool)
        ensures
            low == (level(regs.input_data, PIN) == PinState::Low),
            low == !bit_is_set(regs.input_data, PIN),
    {
        self.read(regs) == PinState::Low
    }
}

impl<const PORT: u8, const PIN: u8> Pin<PORT, PIN, InputPullUp> {
    /// Makes the pin an input with its pull-up enabled: the direction bit is
    /// cleared, then the pull-up bit is set.
    pub fn new() -> (made: (Self, [RegisterOp; 2]))
        requires
            valid_port(PORT),
            valid_pin(PIN),
        ensures
            made.1@ == setup(PinMode::InputPullUp, PIN),
            leaves_direction(made.1@, PIN, false),
            takes(made.1@, PinMode::Input, PinMode::InputPullUp, PIN),
    {
        let pin = Pin { _mode: PhantomData };
        let ops = [pin.clear(Register::Direction), pin.set(Register::PullUp)];
        proof {
            assert(ops@ =~= setup(PinMode::InputPullUp, PIN));
            direction_follows_mode(PinMode::InputPullUp, PIN);
            setup_reaches_the_mode(PinMode::InputPullUp, PIN);
        }
        (pin, ops)
    }

    /// Makes the pin an output. The pull-up is disabled first, so that the
    /// pin is never an output with its pull-up enabled.
    pub fn into_output(self) -> (made: (Pin<PORT, PIN, Output>, [RegisterOp; 2]))
        ensures
            made.1@ == transition(PinMode::InputPullUp, PinMode::Output, PIN),
            leaves_direction(made.1@, PIN, true),
            takes(made.1@, PinMode::InputPullUp, PinMode::Output, PIN),
            keeps_pull_up_off_output(made.1@, PIN),
    {
        proof {
            use_type_invariant(&self);
        }
        let release = self.clear(Register::PullUp);
        let (pin, setup) = Pin::<PORT, PIN, Output>::new();
        let ops = [release, setup[0]];
        proof {
            assert(ops@ =~= transition(PinMode::InputPullUp, PinMode::Output, PIN));
            direction_follows_transition(PinMode::InputPullUp, PinMode::Output, PIN);
            transition_reaches_the_mode(PinMode::InputPullUp, PinMode::Output, PIN);
            assert forall|regs: PortRegisters, done: int|
                !bit_is_set(regs.direction, PIN) && 0 <= done <= ops@.len() implies
                !pull_up_on_output(#[trigger] regs.after_all(ops@.take(done)), PIN) by {
                pull_up_is_released_before_output(regs, PIN);
            }
        }
        (pin, ops)
    }

    /// Disables the pull-up of the pin.
    pub fn into_input(self) -> (made: (Pin<PORT, PIN, Input>, [RegisterOp; 2]))
        ensures
            made.1@ == transition(PinMode::InputPullUp, PinMode::Input, PIN),
            leaves_direction(made.1@, PIN, false),
            takes(made.1@, PinMode::InputPullUp, PinMode::Input, PIN),
    {
        proof {
            use_type_invariant(&self);
        }
        let release = self.clear(Register::PullUp);
        let (pin, setup) = Pin::<PORT, PIN, Input>::new();
        let ops = [release, setup[0]];
        proof {
            assert(ops@ =~= transition(PinMode::InputPullUp, PinMode::Input, PIN));
            direction_follows_transition(PinMode::InputPullUp, PinMode::Input, PIN);
            transition_reaches_the_mode(PinMode::InputPullUp, PinMode::Input, PIN);
        }
        (pin, ops)
    }

    /// The level on the pin, by the input data register of `regs`.
    pub fn read(&self, regs: &PortRegisters) -> (state: PinState)
        ensures
            state == level(regs.input_data, PIN),
    {
        if self.bit_of(regs.read(Register::InputData)) {
            PinState::High
        } else {
            PinState::Low
        }
    }

    /// Whether the level on the pin is high.
    pub fn is_high(&self, regs: &PortRegisters) -> (high: bool)
        ensures
            high == (level(regs.input_data, PIN) == PinState::High),
            high == bit_is_set(regs.input_data, PIN),
    {
        self.read(regs) == PinState::High
    }

    /// Whether the level on the pin is low.
    pub fn is_low(&self, regs: &PortRegisters) -> (low: bool)
        ensures
            low == (level(regs.input_data, PIN) == PinState::Low),
            low == !bit_is_set(regs.input_data, PIN),
    {
        self.read(regs) == PinState::Low
    }
}

impl<const PORT: u8, const PIN: u8> Pin<PORT, PIN, Output> {
    /// Makes the pin an output: its direction bit is set.
    pub fn new() -> (made: (Self, [RegisterOp; 1]))
        requires
            valid_port(PORT),
            valid_pin(PIN),
        ensures
            made.1@ == setup(PinMode::Output, PIN),
            leaves_direction(made.1@, PIN, true),
            takes(made.1@, PinMode::Input, PinMode::Output, PIN),
    {
        let pin = Pin { _mode: PhantomData };
        let ops = [pin.set(Register::Direction)];
        proof {
            assert(ops@ =~= setup(PinMode::Output, PIN));
            direction_follows_mode(PinMode::Output, PIN);
            setup_reaches_the_mode(PinMode::Output, PIN);
        }
        (pin, ops)
    }

    /// Makes the pin an input.
    pub fn into_input(self) -> (made: (Pin<PORT, PIN, Input>, [RegisterOp; 1]))
        ensures
            made.1@ == transition(PinMode::Output, PinMode::Input, PIN),
            leaves_direction(made.1@, PIN, false),
            takes(made.1@, PinMode::Output, PinMode::Input, PIN),
    {
        proof {
            use_type_invariant(&self);
        }
        let made = Pin::<PORT, PIN, Input>::new();
        proof {
            assert(made.1@ =~= transition(PinMode::Output, PinMode::Input, PIN));
            direction_follows_transition(PinMode::Output, PinMode::Input, PIN);
            transition_reaches_the_mode(PinMode::Output, PinMode::Input, PIN);
        }
        made
    }

    /// Makes the pin an open-drain output.
    pub fn into_output_open_drain(self) -> (made: (
        Pin<PORT, PIN, OutputOpenDrain>,
        [RegisterOp; 2],
    ))
        ensures
            made.1@ == transition(PinMode::Output, PinMode::OutputOpenDrain, PIN),
            leaves_direction(made.1@, PIN, true),
            takes(made.1@, PinMode::Output, PinMode::OutputOpenDrain, PIN),
    {
        proof {
            use_type_invariant(&self);
        }
        let made = Pin::<PORT, PIN, OutputOpenDrain>::new();
        proof {
            assert(made.1@ =~= transition(PinMode::Output, PinMode::OutputOpenDrain, PIN));
            direction_follows_transition(PinMode::Output, PinMode::OutputOpenDrain, PIN);
            transition_reaches_the_mode(PinMode::Output, PinMode::OutputOpenDrain, PIN);
        }
        made
    }

    /// Commands a high level: the pin's bit in the output data register is
    /// set.
    pub fn set_high(&mut self) -> (op: RegisterOp)
        ensures
            op == drive(PinState::High, PIN),
            *final(self) == *old(self),
    {
        self.set(Register::OutputData)
    }

    /// Commands a low level: the pin's bit in the output data register is
    /// cleared.
    pub fn set_low(&mut self) -> (op: RegisterOp)
        ensures
            op == drive(PinState::Low, PIN),
            *final(self) == *old(self),
    {
        self.clear(Register::OutputData)
    }

    /// Commands `state`.
    pub fn set_state(&mut self, state: PinState) -> (op: RegisterOp)
        ensures
            op == drive(state, PIN),
            *final(self) == *old(self),
    {
        match state {
            PinState::Low => self.set_low(),
            PinState::High => self.set_high(),
        }
    }

    /// Inverts the commanded level: the output data register is written back
    /// with the pin's bit inverted.
    pub fn toggle(&mut self) -> (op: RegisterOp)
        ensures
            op == invert(PIN),
            *final(self) == *old(self),
    {
        RegisterOp::Toggle { register: Register::OutputData, mask: self.pin_mask() }
    }

    /// Whether the level last commanded is high. This goes by the output
    /// data register of `regs`, not by the level on the line.
    pub fn is_set_high(&self, regs: &PortRegisters) -> (high: bool)
        ensures
            high == bit_is_set(regs.output_data, PIN),
    {
        self.bit_of(regs.read(Register::OutputData))
    }

    /// Whether the level last commanded is low.
    pub fn is_set_low(&self, regs: &PortRegisters) -> (low: bool)
        ensures
            low == !bit_is_set(regs.output_data, PIN),
    {
        !self.is_set_high(regs)
    }
}

impl<const PORT: u8, const PIN: u8> Pin<PORT, PIN, OutputOpenDrain> {
    /// Makes the pin an open-drain output: the direction bit is set, then
    /// the open-drain bit.
    pub fn new() -> (made: (Self, [RegisterOp; 2]))
        requires
            valid_port(PORT),
            valid_pin(PIN),
        ensures
            made.1@ == setup(PinMode::OutputOpenDrain, PIN),
            leaves_direction(made.1@, PIN, true),
            takes(made.1@, PinMode::Input, PinMode::OutputOpenDrain, PIN),
    {
        let pin = Pin { _mode: PhantomData };
        let ops = [pin.set(Register::Direction), pin.set(Register::OpenDrain)];
        proof {
            assert(ops@ =~= setup(PinMode::OutputOpenDrain, PIN));
            direction_follows_mode(PinMode::OutputOpenDrain, PIN);
            setup_reaches_the_mode(PinMode::OutputOpenDrain, PIN);
        }
        (pin, ops)
    }

    /// Makes the pin a push-pull output: the open-drain bit is cleared, then
    /// the direction bit set.
    pub fn into_output(self) -> (made: (Pin<PORT, PIN, Output>, [RegisterOp; 2]))
        ensures
            made.1@ == transition(PinMode::OutputOpenDrain, PinMode::Output, PIN),
            leaves_direction(made.1@, PIN, true),
            takes(made.1@, PinMode::OutputOpenDrain, PinMode::Output, PIN),
    {
        proof {
            use_type_invariant(&self);
        }
        let release = self.clear(Register::OpenDrain);
        let (pin, setup) = Pin::<PORT, PIN, Output>::new();
        let ops = [release, setup[0]];
        proof {
            assert(ops@ =~= transition(PinMode::OutputOpenDrain, PinMode::Output, PIN));
            direction_follows_transition(PinMode::OutputOpenDrain, PinMode::Output, PIN);
            transition_reaches_the_mode(PinMode::OutputOpenDrain, PinMode::Output, PIN);
        }
        (pin, ops)
    }

    /// Commands a high level: the pin's bit in the output data register is
    /// set.
    pub fn set_high(&mut self) -> (op: RegisterOp)
        ensures
            op == drive(PinState::High, PIN),
            *final(self) == *old(self),
    {
        self.set(Register::OutputData)
    }

    /// Commands a low level: the pin's bit in the output data register is
    /// cleared.
    pub fn set_low(&mut self) -> (op: RegisterOp)
        ensures
            op == drive(PinState::Low, PIN),
            *final(self) == *old(self),
    {
        self.clear(Register::OutputData)
    }

    /// Commands `state`.
    pub fn set_state(&mut self, state: PinState) -> (op: RegisterOp)
        ensures
            op == drive(state, PIN),
            *final(self) == *old(self),
    {
        match state {
            PinState::Low => self.set_low(),
            PinState::High => self.set_high(),
        }
    }
}

// The pins that the board brings out, named by port and index, as inputs.
pub type P0_0 = Pin<0, 0, Input>;

pub type P0_1 = Pin<0, 1, Input>;

pub type P0_2 = Pin<0, 2, Input>;

pub type P1_0 = Pin<1, 0, Input>;

pub type P1_1 = Pin<1, 1, Input>;

pub type P1_2 = Pin<1, 2, Input>;

pub type P1_11 = Pin<1, 11, Input>;

pub type P1_12 = Pin<1, 12, Input>;

pub type P3_1 = Pin<3, 1, Input>;

pub type P3_2 = Pin<3, 2, Input>;

/// The registers after each prefix of a sequence of one operation.
proof fn prefixes_of_one(regs: PortRegisters, ops: Seq<RegisterOp>)
    requires
        ops.len() == 1,
    ensures
        regs.after_all(ops.take(0)) == regs,
        regs.after_all(ops.take(1)) == regs.after(ops[0]),
        regs.after_all(ops) == regs.after(ops[0]),
{
    after_one(regs, ops[0]);
    assert(ops.take(0) =~= Seq::<RegisterOp>::empty());
    assert(ops.take(1) =~= seq![ops[0]]);
    assert(ops =~= seq![ops[0]]);
}

/// The registers after each prefix of a sequence of two operations.
proof fn prefixes_of_two(regs: PortRegisters, ops: Seq<RegisterOp>)
    requires
        ops.len() == 2,
    ensures
        regs.after_all(ops.take(0)) == regs,
        regs.after_all(ops.take(1)) == regs.after(ops[0]),
        regs.after_all(ops.take(2)) == regs.after(ops[0]).after(ops[1]),
        regs.after_all(ops) == regs.after(ops[0]).after(ops[1]),
{
    after_one(regs, ops[0]);
    after_two(regs, ops[0], ops[1]);
    assert(ops.take(0) =~= Seq::<RegisterOp>::empty());
    assert(ops.take(1) =~= seq![ops[0]]);
    assert(ops.take(2) =~= seq![ops[0], ops[1]]);
    assert(ops =~= seq![ops[0], ops[1]]);
}

/// The pin's own bit in the register that an operation names ends as the
/// operation says.
proof fn own_bit_follows(regs: PortRegisters, register: Register, index: u8)
    requires
        valid_pin(index),
    ensures
        bit_is_set(regs.after(set_bit(register, index)).word(register), index),
        !bit_is_set(regs.after(clear_bit(register, index)).word(register), index),
        bit_is_set(regs.after(toggle_bit(register, index)).word(register), index) == !bit_is_set(
            regs.word(register),
            index,
        ),
{
    bit_ends_as_commanded(regs.word(register), index);
}

/// Whatever the registers held: once a pin was made an input, plain or with
/// pull-up, its direction bit is clear, and once it was made an output,
/// push-pull or open-drain, the bit is set. This holds for every pin of
/// every port, the registers of the ports being laid out alike.
pub proof fn direction_follows_mode(mode: PinMode, index: u8)
    requires
        valid_pin(index),
    ensures
        leaves_direction(setup(mode, index), index, is_output_mode(mode)),
{
    let ops = setup(mode, index);
    assert forall|regs: PortRegisters|
        bit_is_set(#[trigger] regs.after_all(ops).direction, index) == is_output_mode(mode) by {
        own_bit_follows(regs, Register::Direction, index);
        if ops.len() == 1 {
            prefixes_of_one(regs, ops);
        } else {
            prefixes_of_two(regs, ops);
        }
    }
}

/// The same holds of a pin taken from one mode to another: the direction
/// bit ends as the mode it was taken to has it.
pub proof fn direction_follows_transition(from: PinMode, to: PinMode, index: u8)
    requires
        valid_pin(index),
    ensures
        leaves_direction(transition(from, to, index), index, is_output_mode(to)),
{
    direction_follows_mode(to, index);
    assert forall|regs: PortRegisters|
        bit_is_set(#[trigger] regs.after_all(transition(from, to, index)).direction, index)
            == is_output_mode(to) by {
        after_concatenation(regs, release(from, index), setup(to, index));
        let between = regs.after_all(release(from, index));
        assert(bit_is_set(between.after_all(setup(to, index)).direction, index) == is_output_mode(
            to,
        ));
    }
}

/// A pin made an output, taken to input and back to output leaves the
/// registers exactly as making it an output once does.
pub proof fn output_reentry_changes_nothing(regs: PortRegisters, index: u8)
    requires
        valid_pin(index),
    ensures
        regs.after_all(
            setup(PinMode::Output, index) + transition(PinMode::Output, PinMode::Input, index)
                + transition(PinMode::Input, PinMode::Output, index),
        ) == regs.after_all(setup(PinMode::Output, index)),
{
    let made = setup(PinMode::Output, index);
    let to_input = transition(PinMode::Output, PinMode::Input, index);
    let to_output = transition(PinMode::Input, PinMode::Output, index);
    after_concatenation(regs, made + to_input, to_output);
    after_concatenation(regs, made, to_input);
    let first = regs.after_all(made);
    let second = first.after_all(to_input);
    prefixes_of_one(regs, made);
    prefixes_of_one(first, to_input);
    prefixes_of_one(second, to_output);
    set_again_is_set_once(regs.direction, pin_bit(index));
}

/// Taking a pin from input with pull-up to output clears the pull-up bit
/// first and sets the direction bit second. Begun on a pin that is an
/// input, it passes through no state in which the pin is an output with its
/// pull-up enabled, and it ends with the pin an output without pull-up.
pub proof fn pull_up_is_released_before_output(regs: PortRegisters, index: u8)
    requires
        valid_pin(index),
        !bit_is_set(regs.direction, index),
    ensures
        transition(PinMode::InputPullUp, PinMode::Output, index) == seq![
            clear_bit(Register::PullUp, index),
            set_bit(Register::Direction, index),
        ],
        forall|done: int|
            0 <= done <= 2 ==> !pull_up_on_output(
                #[trigger] regs.after_all(
                    transition(PinMode::InputPullUp, PinMode::Output, index).take(done),
                ),
                index,
            ),
        bit_is_set(
            regs.after_all(transition(PinMode::InputPullUp, PinMode::Output, index)).direction,
            index,
        ),
        !bit_is_set(
            regs.after_all(transition(PinMode::InputPullUp, PinMode::Output, index)).pull_up,
            index,
        ),
{
    let ops = transition(PinMode::InputPullUp, PinMode::Output, index);
    assert(ops =~= seq![clear_bit(Register::PullUp, index), set_bit(Register::Direction, index)]);
    prefixes_of_two(regs, ops);
    own_bit_follows(regs, Register::PullUp, index);
    own_bit_follows(regs.after(ops[0]), Register::Direction, index);
    assert forall|done: int| 0 <= done <= 2 implies !pull_up_on_output(
        #[trigger] regs.after_all(ops.take(done)),
        index,
    ) by {
        if done == 0 {
        } else if done == 1 {
        } else {
            assert(done == 2);
        }
    }
}

/// The type of a pin tells the mode that the registers hold it in. Where
/// the registers hold the pin in mode `from`, every transition that is
/// offered from it ends with the pin held in mode `to`, and on the way the
/// pin is never an output with its pull-up enabled.
pub proof fn transitions_keep_registers_and_type_together(
    regs: PortRegisters,
    from: PinMode,
    to: PinMode,
    index: u8,
)
    requires
        valid_pin(index),
        offered(from, to),
        in_mode(regs, from, index),
    ensures
        in_mode(regs.after_all(transition(from, to, index)), to, index),
        forall|done: int|
            0 <= done <= transition(from, to, index).len() ==> !pull_up_on_output(
                #[trigger] regs.after_all(transition(from, to, index).take(done)),
                index,
            ),
{
    let ops = transition(from, to, index);
    if ops.len() == 1 {
        prefixes_of_one(regs, ops);
        own_bit_follows(regs, ops[0].target(), index);
        assert forall|done: int| 0 <= done <= ops.len() implies !pull_up_on_output(
            #[trigger] regs.after_all(ops.take(done)),
            index,
        ) by {
            if done == 0 {
            } else {
                assert(done == 1);
            }
        }
    } else {
        assert(ops.len() == 2);
        prefixes_of_two(regs, ops);
        let between = regs.after(ops[0]);
        own_bit_follows(regs, ops[0].target(), index);
        own_bit_follows(between, ops[1].target(), index);
        assert forall|done: int| 0 <= done <= ops.len() implies !pull_up_on_output(
            #[trigger] regs.after_all(ops.take(done)),
            index,
        ) by {
            if done == 0 {
            } else if done == 1 {
            } else {
                assert(done == 2);
            }
        }
    }
}

/// A pin made in any mode, on registers that hold it as a plain input, is
/// then held in that mode.
pub proof fn setup_reaches_the_mode(mode: PinMode, index: u8)
    requires
        valid_pin(index),
    ensures
        takes(setup(mode, index), PinMode::Input, mode, index),
{
    let ops = setup(mode, index);
    assert forall|regs: PortRegisters| in_mode(regs, PinMode::Input, index) implies in_mode(
        #[trigger] regs.after_all(ops),
        mode,
        index,
    ) by {
        if ops.len() == 1 {
            prefixes_of_one(regs, ops);
            own_bit_follows(regs, ops[0].target(), index);
        } else {
            prefixes_of_two(regs, ops);
            own_bit_follows(regs, ops[0].target(), index);
            own_bit_follows(regs.after(ops[0]), ops[1].target(), index);
        }
    }
}

/// A pin taken from one mode to another by a transition that is offered,
/// on registers that hold it in the first, is then held in the second.
pub proof fn transition_reaches_the_mode(from: PinMode, to: PinMode, index: u8)
    requires
        valid_pin(index),
        offered(from, to),
    ensures
        takes(transition(from, to, index), from, to, index),
{
    assert forall|regs: PortRegisters| in_mode(regs, from, index) implies in_mode(
        #[trigger] regs.after_all(transition(from, to, index)),
        to,
        index,
    ) by {
        transitions_keep_registers_and_type_together(regs, from, to, index);
    }
}

/// What is commanded on an output is what reads back as commanded: high
/// after a high level was commanded, low after a low one, and after an
/// inversion the opposite of before. So a pin that is set low reads high
/// after one inversion and low after two.
pub proof fn commanded_level_reads_back(regs: PortRegisters, index: u8)
    requires
        valid_pin(index),
    ensures
        bit_is_set(regs.after(drive(PinState::High, index)).output_data, index),
        !bit_is_set(regs.after(drive(PinState::Low, index)).output_data, index),
        bit_is_set(regs.after(invert(index)).output_data, index) == !bit_is_set(
            regs.output_data,
            index,
        ),
        bit_is_set(regs.after(invert(index)).after(invert(index)).output_data, index)
            == bit_is_set(regs.output_data, index),
{
    own_bit_follows(regs, Register::OutputData, index);
    own_bit_follows(regs.after(invert(index)), Register::OutputData, index);
}

} // verus!
