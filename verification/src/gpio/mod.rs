//! General purpose input and output.
//!
//! A pin is a value without content: its port, its number and its mode are
//! in its type. What a pin does to the hardware comes back as the operation
//! to carry out; what it tells of the hardware, it tells of the register
//! value that it is given.
//!
//! Each pin can be in one of these modes:
//!
//! - **Alternate**: the pin is driven by another peripheral.
//! - **Analog**: the pin is an analog input.
//! - **Input**: the pin is read.
//! - **Output**: the pin is driven, push-pull or open drain.

pub mod marker;

use vstd::prelude::*;
use core::marker::PhantomData;
use embedded_hal::digital::PinState;
use crate::bits::bit;
use crate::bits::bit_of;
use crate::bits::get_bit;
use crate::regs::Op;
use crate::regs::Reg;

verus! {

/// The pins of a port.
pub const PINS_PER_PORT: usize = 16;

/// The state of a pin, as the `embedded-hal` crate defines it: `Low` or
/// `High`. Verus reads the two variants.
#[verifier::external_type_specification]
pub struct ExPinState(PinState);

/// A filler pin type.
#[derive(Debug)]
pub struct NoPin<Otype = PushPull>(PhantomData<Otype>);

impl<Otype> NoPin<Otype> {
    /// The filler pin.
    pub fn new() -> (pin: Self) {
        Self(PhantomData)
    }
}

/// What splits a port into its pins.
pub trait GpioExt {
    /// The pins of the port.
    type Parts;

    /// Splits the port into its pins.
    fn split(self) -> Self::Parts;
}

/// The number, the port and the mode of a pin.
pub trait PinExt {
    /// The mode of the pin.
    type Mode;

    /// The number of the pin in its port.
    fn pin_id(&self) -> PinId;

    /// The number of the port.
    fn port_id(&self) -> PortId;
}

/// Alternate function `A` (type state).
#[derive(Debug)]
pub struct Alternate<const A: u8, Otype = PushPull>(PhantomData<Otype>);

/// Input mode (type state).
#[derive(Debug)]
pub struct Input;

/// The pull device of an input.
#[derive(Clone, Copy, Debug, PartialEq, Eq, Structural)]
pub enum Pull {
    /// Floating.
    Floating,
    /// Pulled up.
    Up,
    /// Pulled down.
    Down,
}

/// Open drain input or output (type state).
#[derive(Debug)]
pub struct OpenDrain;

/// Output mode (type state).
#[derive(Debug)]
pub struct Output<MODE = PushPull> {
    _mode: PhantomData<MODE>,
}

/// Push-pull output (type state).
#[derive(Debug)]
pub struct PushPull;

/// Analog mode (type state).
#[derive(Debug)]
pub struct Analog;

impl<MODE> marker::Interruptible for Output<MODE> {

}

impl marker::Interruptible for Input {

}

impl marker::Readable for Input {

}

impl marker::Readable for Output<OpenDrain> {

}

impl<const A: u8, Otype> marker::Interruptible for Alternate<A, Otype> {

}

impl<const A: u8, Otype> marker::Readable for Alternate<A, Otype> {

}

impl marker::Active for Input {

}

impl<Otype> marker::OutputSpeed for Output<Otype> {

}

impl<const A: u8, Otype> marker::OutputSpeed for Alternate<A, Otype> {

}

impl<Otype> marker::Active for Output<Otype> {

}

impl<const A: u8, Otype> marker::Active for Alternate<A, Otype> {

}

impl marker::NotAlt for Input {

}

impl<Otype> marker::NotAlt for Output<Otype> {

}

impl marker::NotAlt for Analog {

}

/// The speed of an output.
#[derive(Clone, Copy, Debug, PartialEq, Eq, Structural)]
pub enum Speed {
    /// Low speed.
    Low,
    /// Medium speed.
    Medium,
    /// High speed.
    High,
    /// Very high speed.
    VeryHigh,
}

/// The edges of the level at which an interrupt is raised.
#[derive(Clone, Copy, Debug, PartialEq, Eq, Structural)]
pub enum Edge {
    /// The rising edge.
    Rising,
    /// The falling edge.
    Falling,
    /// Both edges.
    RisingFalling,
}

/// The number of a pin in its port.
#[derive(Clone, Copy, Debug, PartialEq, Eq, Structural)]
pub struct PinId(pub usize);

/// The number of a port.
#[derive(Clone, Copy, Debug, PartialEq, Eq, Structural)]
pub struct PortId(pub usize);

/// A pin: `P` is the number of its port, `N` its number in the port, from 0
/// to 15, and `MODE` its mode.
#[derive(Debug)]
pub struct Pin<const P: usize, const N: usize, MODE = Input> {
    _mode: PhantomData<MODE>,
}

/// A pin whose number is not in its type.
#[derive(Debug)]
pub struct PartiallyErasedPin<const P: usize, MODE> {
    i: PinId,
    _mode: PhantomData<MODE>,
}

/// A pin whose port and number are not in its type.
#[derive(Debug)]
pub struct ErasedPin<MODE> {
    port: PortId,
    pin: PinId,
    _mode: PhantomData<MODE>,
}

impl<const P: usize, MODE> PartiallyErasedPin<P, MODE> {
    /// The number of the pin.
    pub closed spec fn number(&self) -> PinId {
        self.i
    }

    /// Pin `i` of port `P`.
    pub fn new(i: PinId) -> (pin: Self)
        ensures
            pin.number() == i,
    {
        Self { i, _mode: PhantomData }
    }

    /// The number of the pin.
    pub fn pin_id(&self) -> (id: PinId)
        ensures
            id == self.number(),
    {
        self.i
    }

    /// The number of the port.
    pub fn port_id(&self) -> (id: PortId)
        ensures
            id == PortId(P),
    {
        PortId(P)
    }
}

impl<MODE> ErasedPin<MODE> {
    /// The number of the pin.
    pub closed spec fn number(&self) -> PinId {
        self.pin
    }

    /// The number of the port.
    pub closed spec fn port(&self) -> PortId {
        self.port
    }

    /// Pin `pin` of port `port`.
    pub fn new(port: PortId, pin: PinId) -> (erased: Self)
        ensures
            erased.port() == port,
            erased.number() == pin,
    {
        Self { port, pin, _mode: PhantomData }
    }

    /// The number of the pin.
    pub fn pin_id(&self) -> (id: PinId)
        ensures
            id == self.number(),
    {
        self.pin
    }

    /// The number of the port.
    pub fn port_id(&self) -> (id: PortId)
        ensures
            id == self.port(),
    {
        self.port
    }
}

/// Pins whose output speed can be set.
pub trait PinSpeed: Sized {
    /// What the pin is once the speed of its output is set to `speed`.
    spec fn with_speed(&self, speed: Speed) -> Self;

    /// Sets the speed of the output.
    fn set_speed(&mut self, speed: Speed)
        ensures
            *final(self) == old(self).with_speed(speed),
    ;

    /// The pin with the speed of its output set: what `set_speed` makes of it.
    fn speed(self, speed: Speed) -> (pin: Self)
        ensures
            pin == self.with_speed(speed),
    {
        let mut pin = self;
        pin.set_speed(speed);
        pin
    }
}

/// Pins whose pull device can be set.
pub trait PinPull: Sized {
    /// What the pin is once its pull device is set to `resistor`.
    spec fn with_internal_resistor(&self, resistor: Pull) -> Self;

    /// Sets the pull device.
    fn set_internal_resistor(&mut self, resistor: Pull)
        ensures
            *final(self) == old(self).with_internal_resistor(resistor),
    ;

    /// The pin with its pull device set: what `set_internal_resistor`
    /// makes of it.
    fn internal_resistor(self, resistor: Pull) -> (pin: Self)
        ensures
            pin == self.with_internal_resistor(resistor),
    {
        let mut pin = self;
        pin.set_internal_resistor(resistor);
        pin
    }
}

/// Pins whose level can be read off the input register of their port.
pub trait ReadPin {
    /// Whether the pin is low, where the input register holds `input`.
    spec fn reads_low(&self, input: u32) -> bool;

    /// Whether the pin is high, where the input register holds `input`.
    fn is_high(&self, input: u32) -> (high: bool)
        ensures
            high == !self.reads_low(input),
    {
        !self.is_low(input)
    }

    /// Whether the pin is low, where the input register holds `input`.
    fn is_low(&self, input: u32) -> (low: bool)
        ensures
            low == self.reads_low(input),
    ;
}

/// What the output modification register is written with: for each pin a
/// bit that sets it, in the lower half, and a bit that clears it, in the
/// upper half. Both bits together toggle the pin.
pub open spec fn pcl_ps(pclx: u32, psx: u32, pin: int) -> u32 {
    ((pclx << 16) | psx) << (pin as u32)
}

/// What the output modification register is written with to bring a pin
/// into `state`.
pub open spec fn state_bits(pin: int, state: PinState) -> u32 {
    match state {
        PinState::High => pcl_ps(0, 1, pin),
        PinState::Low => pcl_ps(1, 0, pin),
    }
}

/// The bits for a pin: the set bit is the bit of the pin's number, the
/// clear bit lies 16 higher.
pub proof fn lemma_pcl_ps(pin: u32)
    requires
        pin < 16,
    ensures
        pcl_ps(0, 1, pin as int) == bit(pin),
        pcl_ps(1, 0, pin as int) == bit((pin + 16) as u32),
        pcl_ps(1, 1, pin as int) == bit(pin) | bit((pin + 16) as u32),
{
    assert(((0u32 << 16) | 1u32) << pin == 1u32 << pin && ((1u32 << 16) | 0u32) << pin == 1u32 << (
    (pin + 16) as u32) && ((1u32 << 16) | 1u32) << pin == (1u32 << pin) | (1u32 << ((pin
        + 16) as u32))) by (bit_vector)
        requires
            pin < 16,
    ;
}

/// What the output modification register is written with for the clear
/// bit `pclx` and the set bit `psx` of pin `pin`.
pub fn pcl_ps_bits(pclx: u32, psx: u32, pin: usize) -> (raw: u32)
    requires
        pin < 32,
    ensures
        raw == pcl_ps(pclx, psx, pin as int),
{
    ((pclx << 16) | psx) << (pin as u32)
}

/// The operation that brings pin `pin` of a port into `state`.
pub fn pin_set_state(pin: PinId, state: PinState) -> (op: Op)
    requires
        pin.0 < 16,
    ensures
        op == (Op::Write { reg: Reg::Omr, value: state_bits(pin.0 as int, state) }),
{
    let raw = match state {
        PinState::High => pcl_ps_bits(0, 1, pin.0),
        PinState::Low => pcl_ps_bits(1, 0, pin.0),
    };
    Op::Write { reg: Reg::Omr, value: raw }
}

/// The operation that toggles pin `pin` of a port.
pub fn pin_toggle_state(pin: PinId) -> (op: Op)
    requires
        pin.0 < 16,
    ensures
        op == (Op::Write { reg: Reg::Omr, value: pcl_ps(1, 1, pin.0 as int) }),
{
    Op::Write { reg: Reg::Omr, value: pcl_ps_bits(1, 1, pin.0) }
}

/// Whether pin `pin` is high, where the input register of its port holds `input`.
pub fn pin_input_is_high(input: u32, pin: PinId) -> (high: bool)
    requires
        pin.0 < 16,
    ensures
        high == bit_of(input, pin.0 as u32),
{
    get_bit(input, pin.0 as u32)
}

/// Whether pin `pin` is driven high, where the output register of its port
/// holds `output`.
pub fn pin_output_is_high(output: u32, pin: PinId) -> (high: bool)
    requires
        pin.0 < 16,
    ensures
        high == bit_of(output, pin.0 as u32),
{
    get_bit(output, pin.0 as u32)
}

/// The ports of the device.
#[derive(Debug)]
pub struct Gpio<const P: usize>;

/// Whether the device has a port `port`.
pub open spec fn is_port(port: int) -> bool {
    ||| 0 <= port <= 2
    ||| 10 <= port <= 15
    ||| 20 <= port <= 23
    ||| 32 <= port <= 34
    ||| port == 40
}

impl<const P: usize> Gpio<P> {
    /// Whether the device has port `P`.
    pub fn is_present() -> (yes: bool)
        ensures
            yes == is_port(P as int),
    {
        P <= 2 || (10 <= P && P <= 15) || (20 <= P && P <= 23) || (32 <= P && P <= 34) || P == 40
    }
}

impl<const P: usize, const N: usize, MODE> Pin<P, N, MODE> {
    /// The pin.
    pub fn new() -> (pin: Self) {
        Self { _mode: PhantomData }
    }

    /// The pin without its number in its type.
    pub fn erase_number(self) -> (pin: PartiallyErasedPin<P, MODE>)
        ensures
            pin.number() == PinId(N),
    {
        PartiallyErasedPin::new(PinId(N))
    }

    /// The pin without its port and its number in its type.
    pub fn erase(self) -> (pin: ErasedPin<MODE>)
        ensures
            pin.port() == PortId(P),
            pin.number() == PinId(N),
    {
        ErasedPin::new(PortId(P), PinId(N))
    }

    /// The operation that brings the pin into `state`, whatever its mode:
    /// used before a pin becomes an output, so that it starts at the level
    /// wanted.
    fn _set_state(&mut self, state: PinState) -> (op: Op)
        requires
            N < 16,
        ensures
            op == (Op::Write { reg: Reg::Omr, value: state_bits(N as int, state) }),
    {
        pin_set_state(PinId(N), state)
    }

    /// The operation that drives the pin high.
    fn _set_high(&mut self) -> (op: Op)
        requires
            N < 16,
        ensures
            op == (Op::Write { reg: Reg::Omr, value: pcl_ps(0, 1, N as int) }),
    {
        self._set_state(PinState::High)
    }

    /// The operation that drives the pin low.
    fn _set_low(&mut self) -> (op: Op)
        requires
            N < 16,
        ensures
            op == (Op::Write { reg: Reg::Omr, value: pcl_ps(1, 0, N as int) }),
    {
        self._set_state(PinState::Low)
    }

    /// Whether the pin is high, where the input register holds `input`.
    fn _is_high(&self, input: u32) -> (high: bool)
        requires
            N < 16,
        ensures
            high == bit_of(input, N as u32),
    {
        pin_input_is_high(input, PinId(N))
    }

    /// Whether the pin is driven high, where the output register holds `output`.
    fn _is_set_high(&self, output: u32) -> (high: bool)
        requires
            N < 16,
        ensures
            high == bit_of(output, N as u32),
    {
        pin_output_is_high(output, PinId(N))
    }

    /// The operation that toggles the pin.
    fn _toggle(&mut self) -> (op: Op)
        requires
            N < 16,
        ensures
            op == (Op::Write { reg: Reg::Omr, value: pcl_ps(1, 1, N as int) }),
    {
        pin_toggle_state(PinId(N))
    }
}

impl<const P: usize, const N: usize, MODE> PinExt for Pin<P, N, MODE> {
    type Mode = MODE;

    fn pin_id(&self) -> (id: PinId)
        ensures
            id == PinId(N),
    {
        PinId(N)
    }

    fn port_id(&self) -> (id: PortId)
        ensures
            id == PortId(P),
    {
        PortId(P)
    }
}

impl<const P: usize, const N: usize, MODE: marker::OutputSpeed> Pin<P, N, MODE> {
    /// Sets the speed of the output. The speed is not a setting of the
    /// port's registers yet: the pin stays as it is.
    pub fn set_speed(&mut self, speed: Speed)
        ensures
            *final(self) == *old(self),
    {
    }

    /// The pin with the speed of its output set.
    pub fn speed(self, speed: Speed) -> (pin: Self)
        ensures
            pin == self,
    {
        let mut pin = self;
        pin.set_speed(speed);
        pin
    }
}

impl<const P: usize, const N: usize, MODE: marker::OutputSpeed> PinSpeed for Pin<P, N, MODE> {
    /// The speed is not a setting of the port's registers yet: the pin
    /// stays as it is.
    open spec fn with_speed(&self, speed: Speed) -> Self {
        *self
    }

    fn set_speed(&mut self, speed: Speed) {
    }
}

impl<const P: usize, const N: usize, MODE: marker::Active> Pin<P, N, MODE> {
    /// Sets the pull device. The pull device is not a setting of the
    /// port's registers yet: the pin stays as it is.
    pub fn set_internal_resistor(&mut self, resistor: Pull)
        ensures
            *final(self) == *old(self),
    {
    }

    /// The pin with its pull device set.
    pub fn internal_resistor(self, resistor: Pull) -> (pin: Self)
        ensures
            pin == self,
    {
        let mut pin = self;
        pin.set_internal_resistor(resistor);
        pin
    }

    /// The pin pulled up if `on`, else floating.
    pub fn internal_pull_up(self, on: bool) -> (pin: Self)
        ensures
            pin == self,
    {
        if on {
            self.internal_resistor(Pull::Up)
        } else {
            self.internal_resistor(Pull::Floating)
        }
    }

    /// The pin pulled down if `on`, else floating.
    pub fn internal_pull_down(self, on: bool) -> (pin: Self)
        ensures
            pin == self,
    {
        if on {
            self.internal_resistor(Pull::Down)
        } else {
            self.internal_resistor(Pull::Floating)
        }
    }
}

impl<const P: usize, const N: usize, MODE: marker::Active> PinPull for Pin<P, N, MODE> {
    /// The pull device is not a setting of the port's registers yet: the
    /// pin stays as it is.
    open spec fn with_internal_resistor(&self, resistor: Pull) -> Self {
        *self
    }

    fn set_internal_resistor(&mut self, resistor: Pull) {
    }
}

impl<const P: usize, const N: usize, MODE> Pin<P, N, Output<MODE>> {
    /// The operation that drives the pin high: a write of the pin's set
    /// bit to the output modification register of port `P`.
    pub fn set_high(&mut self) -> (op: Op)
        requires
            N < 16,
        ensures
            op == (Op::Write { reg: Reg::Omr, value: pcl_ps(0, 1, N as int) }),
            op == (Op::Write { reg: Reg::Omr, value: bit(N as u32) }),
    {
        proof {
            lemma_pcl_ps(N as u32);
        }
        self._set_high()
    }

    /// The operation that drives the pin low: a write of the pin's clear
    /// bit to the output modification register of port `P`.
    pub fn set_low(&mut self) -> (op: Op)
        requires
            N < 16,
        ensures
            op == (Op::Write { reg: Reg::Omr, value: pcl_ps(1, 0, N as int) }),
            op == (Op::Write { reg: Reg::Omr, value: bit((N + 16) as u32) }),
    {
        proof {
            lemma_pcl_ps(N as u32);
        }
        self._set_low()
    }

    /// The state of the pin, where the input register of port `P` holds `input`.
    pub fn get_state(&self, input: u32) -> (state: PinState)
        requires
            N < 16,
        ensures
            state == if bit_of(input, N as u32) {
                PinState::High
            } else {
                PinState::Low
            },
    {
        if self._is_high(input) {
            PinState::High
        } else {
            PinState::Low
        }
    }

    /// Whether the pin is driven high, where the output register of port
    /// `P` holds `output`.
    pub fn is_set_high(&self, output: u32) -> (high: bool)
        requires
            N < 16,
        ensures
            high == bit_of(output, N as u32),
    {
        self._is_set_high(output)
    }

    /// The operation that drives the pin high or low, as `state` says.
    pub fn set_state(&mut self, state: PinState) -> (op: Op)
        requires
            N < 16,
        ensures
            op == (Op::Write { reg: Reg::Omr, value: state_bits(N as int, state) }),
    {
        self._set_state(state)
    }

    /// The operation that toggles the pin: a write of both of the pin's
    /// bits to the output modification register of port `P`.
    pub fn toggle(&mut self) -> (op: Op)
        requires
            N < 16,
        ensures
            op == (Op::Write { reg: Reg::Omr, value: pcl_ps(1, 1, N as int) }),
            op == (Op::Write { reg: Reg::Omr, value: bit(N as u32) | bit((N + 16) as u32) }),
    {
        proof {
            lemma_pcl_ps(N as u32);
        }
        self._toggle()
    }
}

impl<const P: usize, const N: usize, MODE: marker::Readable> Pin<P, N, MODE> {
    /// Whether the pin is high, where the input register of port `P` holds `input`.
    pub fn is_high(&self, input: u32) -> (high: bool)
        requires
            N < 16,
        ensures
            high == bit_of(input, N as u32),
    {
        self._is_high(input)
    }

    /// Whether the pin is low, where the input register of port `P` holds `input`.
    pub fn is_low(&self, input: u32) -> (low: bool)
        requires
            N < 16,
        ensures
            low == !bit_of(input, N as u32),
    {
        !self._is_high(input)
    }
}

impl<const P: usize, const N: usize, MODE: marker::Readable> ReadPin for Pin<P, N, MODE> {
    /// A pin is low unless its bit of the input register is set. A pin with
    /// a number above 15 is no pin of the port and counts as low.
    open spec fn reads_low(&self, input: u32) -> bool {
        !(N < 16 && bit_of(input, N as u32))
    }

    fn is_low(&self, input: u32) -> (low: bool) {
        !(N < 16 && get_bit(input, N as u32))
    }
}

} // verus!
