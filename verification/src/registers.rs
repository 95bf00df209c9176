//! Register access for the I/O ports.
//!
//! Every port has the same five control registers, one bit per pin in each.
//! This module knows where they lie, describes a change to one of them as a
//! value ([`RegisterOp`]) that the caller carries out with one ordered,
//! uncached load and one such store, and models the registers of a port
//! ([`PortRegisters`]) so that what a sequence of changes does can be stated
//! and proved.

use vstd::prelude::*;

verus! {

/// Number of ports; they are numbered from 0.
pub const PORT_COUNT: u8 = 10;

/// Number of pins of a port; they are numbered from 0.
pub const PINS_PER_PORT: u8 = 32;

/// Address of the registers of port 0.
pub const PORT0_BASE: u32 = 0x4004_0000;

/// Distance in bytes from the registers of one port to those of the next.
pub const PORT_STRIDE: u32 = 0x20;

/// Whether `port` names a port of the device.
pub open spec fn valid_port(port: u8) -> bool {
    port < PORT_COUNT
}

/// Whether `index` names a pin of a port.
pub open spec fn valid_pin(index: u8) -> bool {
    index < PINS_PER_PORT
}

/// Address of the registers of `port`.
pub open spec fn port_base(port: u8) -> int {
    PORT0_BASE + PORT_STRIDE * port
}

/// Whether the device has a pin `index` on a port `port`.
pub fn is_supported(port: u8, index: u8) -> (supported: bool)
    ensures
        supported == (valid_port(port) && valid_pin(index)),
{
    port < PORT_COUNT && index < PINS_PER_PORT
}

/// `ra4m1::PORT0::PTR`, the address of the register block of port 0, as a
/// number. The device crate defines it as 0x4004_0000.
#[verifier::external_body]
fn port0_block() -> (address: u32)
    ensures
        address == 0x4004_0000,
{
    ra4m1::PORT0::PTR as usize as u32
}

/// `ra4m1::PORT1::PTR`, the address of the register block of port 1, as a
/// number. The device crate defines it as 0x4004_0020.
#[verifier::external_body]
fn port1_block() -> (address: u32)
    ensures
        address == 0x4004_0020,
{
    ra4m1::PORT1::PTR as usize as u32
}

/// `ra4m1::PORT2::PTR`, the address of the register block of port 2, as a
/// number. The device crate defines it as 0x4004_0040.
#[verifier::external_body]
fn port2_block() -> (address: u32)
    ensures
        address == 0x4004_0040,
{
    ra4m1::PORT2::PTR as usize as u32
}

/// `ra4m1::PORT3::PTR`, the address of the register block of port 3, as a
/// number. The device crate defines it as 0x4004_0060.
#[verifier::external_body]
fn port3_block() -> (address: u32)
    ensures
        address == 0x4004_0060,
{
    ra4m1::PORT3::PTR as usize as u32
}

/// `ra4m1::PORT4::PTR`, the address of the register block of port 4, as a
/// number. The device crate defines it as 0x4004_0080.
#[verifier::external_body]
fn port4_block() -> (address: u32)
    ensures
        address == 0x4004_0080,
{
    ra4m1::PORT4::PTR as usize as u32
}

/// `ra4m1::PORT5::PTR`, the address of the register block of port 5, as a
/// number. The device crate defines it as 0x4004_00a0.
#[verifier::external_body]
fn port5_block() -> (address: u32)
    ensures
        address == 0x4004_00a0,
{
    ra4m1::PORT5::PTR as usize as u32
}

/// `ra4m1::PORT6::PTR`, the address of the register block of port 6, as a
/// number. The device crate defines it as 0x4004_00c0.
#[verifier::external_body]
fn port6_block() -> (address: u32)
    ensures
        address == 0x4004_00c0,
{
    ra4m1::PORT6::PTR as usize as u32
}

/// `ra4m1::PORT7::PTR`, the address of the register block of port 7, as a
/// number. The device crate defines it as 0x4004_00e0.
#[verifier::external_body]
fn port7_block() -> (address: u32)
    ensures
        address == 0x4004_00e0,
{
    ra4m1::PORT7::PTR as usize as u32
}

/// `ra4m1::PORT8::PTR`, the address of the register block of port 8, as a
/// number. The device crate defines it as 0x4004_0100.
#[verifier::external_body]
fn port8_block() -> (address: u32)
    ensures
        address == 0x4004_0100,
{
    ra4m1::PORT8::PTR as usize as u32
}

/// `ra4m1::PORT9::PTR`, the address of the register block of port 9, as a
/// number. The device crate defines it as 0x4004_0120.
#[verifier::external_body]
fn port9_block() -> (address: u32)
    ensures
        address == 0x4004_0120,
{
    ra4m1::PORT9::PTR as usize as u32
}

/// Address of the registers of `port`, as the device crate gives it.
///
/// A port that the device does not have is a mistake in a constant of the
/// program, not a condition to handle: it is kept out by the precondition.
pub fn base_address(port: u8) -> (address: u32)
    requires
        valid_port(port),
    ensures
        address == port_base(port),
{
    match port {
        0 => port0_block(),
        1 => port1_block(),
        2 => port2_block(),
        3 => port3_block(),
        4 => port4_block(),
        5 => port5_block(),
        6 => port6_block(),
        7 => port7_block(),
        8 => port8_block(),
        _ => port9_block(),
    }
}

/// A control register of a port. Each holds one bit per pin.
#[derive(Clone, Copy, Debug, PartialEq, Eq, Structural)]
pub enum Register {
    /// Direction: 0 makes the pin an input, 1 an output.
    Direction,
    /// Output data: the level last commanded.
    OutputData,
    /// Input data: the level sampled on the line.
    InputData,
    /// Open-drain control: 1 lets the pin only pull the line low.
    OpenDrain,
    /// Pull-up control: 1 enables the internal pull-up.
    PullUp,
}

impl Register {
    /// Distance in bytes of the register from the port's base address.
    pub open spec fn spec_offset(self) -> u32 {
        match self {
            Register::Direction => 0x00,
            Register::OutputData => 0x04,
            Register::InputData => 0x08,
            Register::OpenDrain => 0x0C,
            Register::PullUp => 0x10,
        }
    }

    /// Distance in bytes of the register from the port's base address.
    pub fn offset(self) -> (offset: u32)
        ensures
            offset == self.spec_offset(),
    {
        match self {
            Register::Direction => 0x00,
            Register::OutputData => 0x04,
            Register::InputData => 0x08,
            Register::OpenDrain => 0x0C,
            Register::PullUp => 0x10,
        }
    }
}

/// Address of `register` of `port`: the port's base address plus the
/// register's offset.
pub fn register_address(port: u8, register: Register) -> (address: u32)
    requires
        valid_port(port),
    ensures
        address == port_base(port) + register.spec_offset(),
{
    base_address(port) + register.offset()
}

/// The word with only the bit of pin `index` set.
pub open spec fn pin_bit(index: u8) -> u32 {
    1u32 << index
}

/// Whether the bit of pin `index` is set in `word`.
pub open spec fn bit_is_set(word: u32, index: u8) -> bool {
    word & pin_bit(index) != 0
}

/// `value` with the bits of `clear_mask` cleared and then those of `set_mask`
/// set.
pub open spec fn masked(value: u32, clear_mask: u32, set_mask: u32) -> u32 {
    (value & !clear_mask) | set_mask
}

/// `value` with the bits of `mask` inverted.
pub open spec fn toggled(value: u32, mask: u32) -> u32 {
    value ^ mask
}

/// The word with only the bit of pin `index` set.
pub fn pin_mask(index: u8) -> (mask: u32)
    requires
        valid_pin(index),
    ensures
        mask == pin_bit(index),
{
    1u32 << index
}

/// One read-modify-write of a register: load the register, compute the new
/// word with [`RegisterOp::apply`], store it.
#[derive(Clone, Copy, Debug, PartialEq, Eq, Structural)]
pub enum RegisterOp {
    /// Clear the bits of `clear_mask`, then set those of `set_mask`.
    Modify { register: Register, clear_mask: u32, set_mask: u32 },
    /// Invert the bits of `mask`.
    Toggle { register: Register, mask: u32 },
}

impl RegisterOp {
    /// The register that the operation loads and stores.
    pub open spec fn target(self) -> Register {
        match self {
            RegisterOp::Modify { register, .. } => register,
            RegisterOp::Toggle { register, .. } => register,
        }
    }

    /// The word to store when `current` was loaded.
    pub open spec fn result(self, current: u32) -> u32 {
        match self {
            RegisterOp::Modify { clear_mask, set_mask, .. } => masked(current, clear_mask, set_mask),
            RegisterOp::Toggle { mask, .. } => toggled(current, mask),
        }
    }

    /// The bits that the operation may change.
    pub open spec fn touched(self) -> u32 {
        match self {
            RegisterOp::Modify { clear_mask, set_mask, .. } => clear_mask | set_mask,
            RegisterOp::Toggle { mask, .. } => mask,
        }
    }

    /// The register that the operation loads and stores.
    pub fn register(&self) -> (register: Register)
        ensures
            register == self.target(),
    {
        match self {
            RegisterOp::Modify { register, .. } => *register,
            RegisterOp::Toggle { register, .. } => *register,
        }
    }

    /// The word to store when `current` was loaded.
    pub fn apply(&self, current: u32) -> (word: u32)
        ensures
            word == self.result(current),
    {
        match self {
            RegisterOp::Modify { clear_mask, set_mask, .. } => (current & !*clear_mask) | *set_mask,
            RegisterOp::Toggle { mask, .. } => current ^ *mask,
        }
    }
}

/// The operation that clears the bits of `clear_mask` in `register` and
/// then sets those of `set_mask`.
pub open spec fn modify_bits(register: Register, clear_mask: u32, set_mask: u32) -> RegisterOp {
    RegisterOp::Modify { register, clear_mask, set_mask }
}

/// The operation that sets the bit of pin `index` in `register`.
pub open spec fn set_bit(register: Register, index: u8) -> RegisterOp {
    modify_bits(register, 0, pin_bit(index))
}

/// The operation that clears the bit of pin `index` in `register`.
pub open spec fn clear_bit(register: Register, index: u8) -> RegisterOp {
    modify_bits(register, pin_bit(index), 0)
}

/// The operation that inverts the bit of pin `index` in `register`.
pub open spec fn toggle_bit(register: Register, index: u8) -> RegisterOp {
    RegisterOp::Toggle { register, mask: pin_bit(index) }
}

/// The five control registers of one port, as plain words.
///
/// This is what the device holds for a port, seen from the program. It
/// serves as the model over which the effect of an operation is stated, and
/// as a snapshot that the caller loads from the device for the functions
/// that read a pin.
#[derive(Clone, Copy, Debug, PartialEq, Eq, Structural)]
pub struct PortRegisters {
    pub direction: u32,
    pub output_data: u32,
    pub input_data: u32,
    pub open_drain: u32,
    pub pull_up: u32,
}

impl PortRegisters {
    /// The word that `register` holds.
    pub open spec fn word(self, register: Register) -> u32 {
        match register {
            Register::Direction => self.direction,
            Register::OutputData => self.output_data,
            Register::InputData => self.input_data,
            Register::OpenDrain => self.open_drain,
            Register::PullUp => self.pull_up,
        }
    }

    /// The registers with `register` holding `value` and the others as they
    /// are.
    pub open spec fn with_word(self, register: Register, value: u32) -> PortRegisters {
        match register {
            Register::Direction => PortRegisters { direction: value, ..self },
            Register::OutputData => PortRegisters { output_data: value, ..self },
            Register::InputData => PortRegisters { input_data: value, ..self },
            Register::OpenDrain => PortRegisters { open_drain: value, ..self },
            Register::PullUp => PortRegisters { pull_up: value, ..self },
        }
    }

    /// The registers after `op` was carried out.
    pub open spec fn after(self, op: RegisterOp) -> PortRegisters {
        self.with_word(op.target(), op.result(self.word(op.target())))
    }

    /// The registers after the operations of `ops` were carried out, first to
    /// last.
    pub open spec fn after_all(self, ops: Seq<RegisterOp>) -> PortRegisters
        decreases ops.len(),
    {
        if ops.len() == 0 {
            self
        } else {
            self.after_all(ops.drop_last()).after(ops.last())
        }
    }

    /// The word that `register` holds.
    pub fn read(&self, register: Register) -> (value: u32)
        ensures
            value == self.word(register),
    {
        match register {
            Register::Direction => self.direction,
            Register::OutputData => self.output_data,
            Register::InputData => self.input_data,
            Register::OpenDrain => self.open_drain,
            Register::PullUp => self.pull_up,
        }
    }

    /// Stores `value` in `register`. The other registers keep their words.
    pub fn write(&mut self, register: Register, value: u32)
        ensures
            *final(self) == old(self).with_word(register, value),
    {
        match register {
            Register::Direction => self.direction = value,
            Register::OutputData => self.output_data = value,
            Register::InputData => self.input_data = value,
            Register::OpenDrain => self.open_drain = value,
            Register::PullUp => self.pull_up = value,
        }
    }

    /// Reads `register`, clears the bits of `clear_mask`, sets those of
    /// `set_mask` and writes the word back. No bit outside the two masks
    /// changes, and no other register.
    pub fn modify(&mut self, register: Register, clear_mask: u32, set_mask: u32)
        ensures
            *final(self) == old(self).with_word(
                register,
                masked(old(self).word(register), clear_mask, set_mask),
            ),
            *final(self) == old(self).after(modify_bits(register, clear_mask, set_mask)),
            (final(self).word(register) ^ old(self).word(register)) & !(clear_mask | set_mask) == 0,
    {
        let current = self.read(register);
        proof {
            only_masked_bits_change(current, clear_mask, set_mask);
        }
        self.write(register, (current & !clear_mask) | set_mask);
    }

    /// Carries out `op` on these registers.
    pub fn perform(&mut self, op: RegisterOp)
        ensures
            *final(self) == old(self).after(op),
    {
        let register = op.register();
        let current = self.read(register);
        self.write(register, op.apply(current));
    }

    /// Carries out the operations of `ops` on these registers, first to last.
    pub fn perform_all(&mut self, ops: &[RegisterOp])
        ensures
            *final(self) == old(self).after_all(ops@),
    {
        let mut done: usize = 0;
        while done < ops.len()
            invariant
                done <= ops.len(),
                *self == old(self).after_all(ops@.take(done as int)),
            decreases ops.len() - done,
        {
            assert(ops@.take(done + 1).drop_last() =~= ops@.take(done as int));
            self.perform(ops[done]);
            done = done + 1;
        }
        assert(ops@.take(done as int) =~= ops@);
    }
}

/// Carrying out one operation alone.
pub proof fn after_one(regs: PortRegisters, op: RegisterOp)
    ensures
        regs.after_all(seq![op]) == regs.after(op),
{
    let ops = seq![op];
    assert(ops.drop_last() =~= Seq::<RegisterOp>::empty());
    assert(regs.after_all(ops.drop_last()) == regs);
}

/// Carrying out two sequences of operations, one after the other, is
/// carrying out their concatenation.
pub proof fn after_concatenation(regs: PortRegisters, first: Seq<RegisterOp>, second: Seq<RegisterOp>)
    ensures
        regs.after_all(first + second) == regs.after_all(first).after_all(second),
    decreases second.len(),
{
    if second.len() == 0 {
        assert(first + second =~= first);
    } else {
        after_concatenation(regs, first, second.drop_last());
        assert((first + second).drop_last() =~= first + second.drop_last());
        assert((first + second).last() == second.last());
    }
}

/// Carrying out two operations, one after the other.
pub proof fn after_two(regs: PortRegisters, first: RegisterOp, second: RegisterOp)
    ensures
        regs.after_all(seq![first, second]) == regs.after(first).after(second),
{
    after_one(regs, first);
    after_one(regs.after(first), second);
    after_concatenation(regs, seq![first], seq![second]);
    assert(seq![first] + seq![second] =~= seq![first, second]);
}

/// A masked modify changes no bit outside `clear_mask | set_mask`.
pub proof fn only_masked_bits_change(value: u32, clear_mask: u32, set_mask: u32)
    by (bit_vector)
    ensures
        (masked(value, clear_mask, set_mask) ^ value) & !(clear_mask | set_mask) == 0,
{
}

/// The bit of a pin ends as the operation on it says: set, cleared, or the
/// opposite of what it was.
pub proof fn bit_ends_as_commanded(value: u32, index: u8)
    by (bit_vector)
    requires
        index < 32,
    ensures
        bit_is_set(masked(value, 0, pin_bit(index)), index),
        !bit_is_set(masked(value, pin_bit(index), 0), index),
        bit_is_set(toggled(value, pin_bit(index)), index) == !bit_is_set(value, index),
{
}

/// Setting, clearing or inverting the bit of one pin leaves the bit of every
/// other pin of the word as it was.
pub proof fn other_bits_stay(value: u32, index: u8, other: u8)
    by (bit_vector)
    requires
        index < 32,
        other < 32,
        index != other,
    ensures
        bit_is_set(masked(value, 0, pin_bit(index)), other) == bit_is_set(value, other),
        bit_is_set(masked(value, pin_bit(index), 0), other) == bit_is_set(value, other),
        bit_is_set(toggled(value, pin_bit(index)), other) == bit_is_set(value, other),
{
}

/// Clearing a bit that was just set, and setting it again, gives the word
/// that setting it once gave.
pub proof fn set_again_is_set_once(value: u32, mask: u32)
    by (bit_vector)
    ensures
        masked(masked(masked(value, 0, mask), mask, 0), 0, mask) == masked(value, 0, mask),
{
}

/// An operation on the bit of one pin does not disturb another pin: in
/// every register, the bit of every other pin stays as it was.
pub proof fn other_pins_are_undisturbed(
    regs: PortRegisters,
    register: Register,
    index: u8,
    other: u8,
    observed: Register,
)
    requires
        valid_pin(index),
        valid_pin(other),
        index != other,
    ensures
        bit_is_set(regs.after(set_bit(register, index)).word(observed), other) == bit_is_set(
            regs.word(observed),
            other,
        ),
        bit_is_set(regs.after(clear_bit(register, index)).word(observed), other) == bit_is_set(
            regs.word(observed),
            other,
        ),
        bit_is_set(regs.after(toggle_bit(register, index)).word(observed), other) == bit_is_set(
            regs.word(observed),
            other,
        ),
{
    other_bits_stay(regs.word(register), index, other);
}

/// An operation changes only the register it names, and in it only the bits
/// it touches.
pub proof fn op_changes_only_touched_bits(regs: PortRegisters, op: RegisterOp, register: Register)
    ensures
        register != op.target() ==> regs.after(op).word(register) == regs.word(register),
        (regs.after(op).word(op.target()) ^ regs.word(op.target())) & !op.touched() == 0,
{
    let current = regs.word(op.target());
    match op {
        RegisterOp::Modify { clear_mask, set_mask, .. } => {
            only_masked_bits_change(current, clear_mask, set_mask);
        },
        RegisterOp::Toggle { mask, .. } => {
            assert((toggled(current, mask) ^ current) & !mask == 0) by (bit_vector);
        },
    }
}

} // verus!
