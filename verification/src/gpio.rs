//! The pins: their modes as types, and what each mode may do.
use crate::config::{ConfigReg, IoMode, PullCtl, IOCURR_MASK, MODE_MASK};
use crate::ioc::Ioc;
use crate::data::{bit, pin_mask, Gpio, PINS};
use core::marker::PhantomData;
use vstd::prelude::*;

verus! {

/// Splits the GPIO peripheral into its pins.
pub trait GpioExt {
    /// The pins and what belongs to them.
    type Parts;

    /// Gives up the peripheral for its pins.
    fn split(self) -> Self::Parts;
}

impl GpioExt for (Gpio, Ioc) {
    type Parts = Parts;

    /// Enables the output driver of every pin, whatever mode its handle
    /// starts in: on this chip the configuration register, not the output
    /// enable, decides how a pin behaves.
    fn split(self) -> (parts: Parts)
        ensures
            parts.gpio.doe31_0 == 0xffff_ffffu32,
            parts.gpio.din31_0 == self.0.din31_0,
            parts.gpio.dout31_0 == self.0.dout31_0,
            parts.iocfg0@ == self.1.iocfg0,
    {
        let mut gpio = self.0;
        gpio.write_doe(0xffff_ffff);
        Parts {
            dio0: DIO0 { _mode: PhantomData },
            iocfg0: IOCFG0 { reg: self.1.iocfg0 },
            gpio,
        }
    }
}

/// The pins of the GPIO peripheral, the handles of their configuration
/// registers, and the data registers that the pins share.
pub struct Parts {
    /// Pin 0, a floating input until it is told otherwise.
    pub dio0: DIO0<Input<Floating>>,
    /// The configuration register of pin 0.
    pub iocfg0: IOCFG0,
    /// The data registers.
    pub gpio: Gpio,
}

/// The strongest current that an output pin is configured to drive.
#[derive(Clone, Copy, PartialEq, Eq, Structural, Debug)]
pub enum Current {
    /// Low current: 2 mA.
    LC2MA,
    /// High current: 4 mA.
    HC4MA,
    /// Extended current: 4.8 mA.
    EC4_8MA,
}

impl Current {
    /// The value of the drive-current field that selects this current.
    pub open spec fn code(self) -> u32 {
        match self {
            Current::LC2MA => 0,
            Current::HC4MA => 1,
            Current::EC4_8MA => 2,
        }
    }

    /// The value of the drive-current field that selects this current.
    pub fn bits(self) -> (code: u32)
        ensures
            code == self.code(),
    {
        match self {
            Current::LC2MA => 0,
            Current::HC4MA => 1,
            Current::EC4_8MA => 2,
        }
    }
}

/// The mode of a pin that is read.
pub struct Input<MODE> {
    _mode: PhantomData<MODE>,
}

/// The mode of a pin that is driven.
pub struct Output<MODE> {
    _mode: PhantomData<MODE>,
}

/// Input with the pull-up resistor connected.
pub struct PullUp;

/// Input with the pull-down resistor connected.
pub struct PullDown;

/// Input with no pull resistor.
pub struct Floating;

/// Output that drives the line both ways.
pub struct PushPull;

/// Output that only pulls the line low.
pub struct OpenDrain;

/// Output that only pulls the line high.
pub struct OpenSource;

/// The position of pin 0 in each data register.
pub const DIO0_PIN: u32 = 0;

/// The one handle of pin 0, in mode `MODE`.
pub struct DIO0<MODE> {
    pub(crate) _mode: PhantomData<MODE>,
}

impl<MODE> DIO0<Input<MODE>> {
    /// Whether the level at the pin is high.
    pub fn is_high(&self, gpio: &Gpio) -> (high: bool)
        ensures
            high == bit(gpio.din31_0, DIO0_PIN),
    {
        gpio.input_is_high(DIO0_PIN)
    }

    /// Whether the level at the pin is low.
    pub fn is_low(&self, gpio: &Gpio) -> (low: bool)
        ensures
            low == !bit(gpio.din31_0, DIO0_PIN),
    {
        !gpio.input_is_high(DIO0_PIN)
    }
}

impl<MODE> DIO0<Output<MODE>> {
    /// Drives the pin high. The word written to the output-set register has
    /// the pin's bit and no other, so every other pin keeps its output.
    pub fn set_high(&mut self, gpio: &mut Gpio)
        ensures
            final(gpio).dout31_0 == old(gpio).dout31_0 | pin_mask(DIO0_PIN),
            bit(final(gpio).dout31_0, DIO0_PIN),
            forall|other: u32|
                other < PINS && other != DIO0_PIN ==> #[trigger] bit(final(gpio).dout31_0, other)
                    == bit(old(gpio).dout31_0, other),
            final(gpio).doe31_0 == old(gpio).doe31_0,
            final(gpio).din31_0 == old(gpio).din31_0,
    {
        gpio.set_pin(DIO0_PIN);
    }

    /// Drives the pin low. The word written to the output-clear register has
    /// the pin's bit and no other, so every other pin keeps its output.
    pub fn set_low(&mut self, gpio: &mut Gpio)
        ensures
            final(gpio).dout31_0 == old(gpio).dout31_0 & !pin_mask(DIO0_PIN),
            !bit(final(gpio).dout31_0, DIO0_PIN),
            forall|other: u32|
                other < PINS && other != DIO0_PIN ==> #[trigger] bit(final(gpio).dout31_0, other)
                    == bit(old(gpio).dout31_0, other),
            final(gpio).doe31_0 == old(gpio).doe31_0,
            final(gpio).din31_0 == old(gpio).din31_0,
    {
        gpio.clear_pin(DIO0_PIN);
    }

    /// Whether the pin was last driven high. This is the commanded level,
    /// not the level at the pin.
    pub fn is_set_high(&self, gpio: &Gpio) -> (high: bool)
        ensures
            high == bit(gpio.dout31_0, DIO0_PIN),
    {
        gpio.output_is_high(DIO0_PIN)
    }

    /// Whether the pin was last driven low.
    pub fn is_set_low(&self, gpio: &Gpio) -> (low: bool)
        ensures
            low == !bit(gpio.dout31_0, DIO0_PIN),
    {
        !gpio.output_is_high(DIO0_PIN)
    }

    /// Flips the pin's output. The word written to the output-toggle
    /// register has the pin's bit and no other.
    pub fn toggle(&mut self, gpio: &mut Gpio)
        ensures
            final(gpio).dout31_0 == old(gpio).dout31_0 ^ pin_mask(DIO0_PIN),
            bit(final(gpio).dout31_0, DIO0_PIN) == !bit(old(gpio).dout31_0, DIO0_PIN),
            forall|other: u32|
                other < PINS && other != DIO0_PIN ==> #[trigger] bit(final(gpio).dout31_0, other)
                    == bit(old(gpio).dout31_0, other),
            final(gpio).doe31_0 == old(gpio).doe31_0,
            final(gpio).din31_0 == old(gpio).din31_0,
    {
        gpio.toggle_pin(DIO0_PIN);
    }
}

/// The one handle of the configuration register of pin 0.
pub struct IOCFG0 {
    reg: ConfigReg,
}

impl IOCFG0 {
    /// The contents of the register.
    pub closed spec fn view(&self) -> ConfigReg {
        self.reg
    }

    /// Reads the register.
    pub fn read(&self) -> (reg: ConfigReg)
        ensures
            reg == self@,
    {
        self.reg
    }

    /// The register, for the holder of the handle to change.
    pub(crate) fn iocfg0(&mut self) -> (reg: &mut ConfigReg)
        ensures
            *reg == old(self)@,
            final(self)@ == *final(reg),
    {
        &mut self.reg
    }
}

impl<MODE> DIO0<MODE> {
    /// Makes the pin an input with no pull resistor.
    pub fn into_floating_input(self, iocfg0: &mut IOCFG0) -> (pin: DIO0<Input<Floating>>)
        ensures
            final(iocfg0)@ == old(iocfg0)@.with_mode(IoMode::Normal, PullCtl::Disabled),
            final(iocfg0)@.iomode() == IoMode::Normal.code(),
            final(iocfg0)@.pull_ctl() == PullCtl::Disabled.code(),
            final(iocfg0)@.iocurr() == old(iocfg0)@.iocurr(),
            final(iocfg0)@.outside(MODE_MASK) == old(iocfg0)@.outside(MODE_MASK),
    {
        iocfg0.iocfg0().set_mode(IoMode::Normal, PullCtl::Disabled);
        DIO0 { _mode: PhantomData }
    }

    /// Makes the pin an input with the pull-up resistor connected.
    pub fn into_pull_up_input(self, iocfg0: &mut IOCFG0) -> (pin: DIO0<Input<PullUp>>)
        ensures
            final(iocfg0)@ == old(iocfg0)@.with_mode(IoMode::Normal, PullCtl::Up),
            final(iocfg0)@.iomode() == IoMode::Normal.code(),
            final(iocfg0)@.pull_ctl() == PullCtl::Up.code(),
            final(iocfg0)@.iocurr() == old(iocfg0)@.iocurr(),
            final(iocfg0)@.outside(MODE_MASK) == old(iocfg0)@.outside(MODE_MASK),
    {
        iocfg0.iocfg0().set_mode(IoMode::Normal, PullCtl::Up);
        DIO0 { _mode: PhantomData }
    }

    /// Makes the pin an input with the pull-down resistor connected.
    pub fn into_pull_down_input(self, iocfg0: &mut IOCFG0) -> (pin: DIO0<Input<PullDown>>)
        ensures
            final(iocfg0)@ == old(iocfg0)@.with_mode(IoMode::Normal, PullCtl::Down),
            final(iocfg0)@.iomode() == IoMode::Normal.code(),
            final(iocfg0)@.pull_ctl() == PullCtl::Down.code(),
            final(iocfg0)@.iocurr() == old(iocfg0)@.iocurr(),
            final(iocfg0)@.outside(MODE_MASK) == old(iocfg0)@.outside(MODE_MASK),
    {
        iocfg0.iocfg0().set_mode(IoMode::Normal, PullCtl::Down);
        DIO0 { _mode: PhantomData }
    }

    /// Makes the pin an output that drives the line both ways.
    pub fn into_push_pull_output(self, iocfg0: &mut IOCFG0) -> (pin: DIO0<Output<PushPull>>)
        ensures
            final(iocfg0)@ == old(iocfg0)@.with_mode(IoMode::Normal, PullCtl::Disabled),
            final(iocfg0)@.iomode() == IoMode::Normal.code(),
            final(iocfg0)@.pull_ctl() == PullCtl::Disabled.code(),
            final(iocfg0)@.iocurr() == old(iocfg0)@.iocurr(),
            final(iocfg0)@.outside(MODE_MASK) == old(iocfg0)@.outside(MODE_MASK),
    {
        iocfg0.iocfg0().set_mode(IoMode::Normal, PullCtl::Disabled);
        DIO0 { _mode: PhantomData }
    }

    /// Makes the pin an output that only pulls the line low.
    pub fn into_open_drain_output(self, iocfg0: &mut IOCFG0) -> (pin: DIO0<Output<OpenDrain>>)
        ensures
            final(iocfg0)@ == old(iocfg0)@.with_mode(IoMode::OpenDrain, PullCtl::Disabled),
            final(iocfg0)@.iomode() == IoMode::OpenDrain.code(),
            final(iocfg0)@.pull_ctl() == PullCtl::Disabled.code(),
            final(iocfg0)@.iocurr() == old(iocfg0)@.iocurr(),
            final(iocfg0)@.outside(MODE_MASK) == old(iocfg0)@.outside(MODE_MASK),
    {
        iocfg0.iocfg0().set_mode(IoMode::OpenDrain, PullCtl::Disabled);
        DIO0 { _mode: PhantomData }
    }

    /// Makes the pin an output that only pulls the line high.
    pub fn into_open_source_output(self, iocfg0: &mut IOCFG0) -> (pin: DIO0<Output<OpenSource>>)
        ensures
            final(iocfg0)@ == old(iocfg0)@.with_mode(IoMode::OpenSource, PullCtl::Disabled),
            final(iocfg0)@.iomode() == IoMode::OpenSource.code(),
            final(iocfg0)@.pull_ctl() == PullCtl::Disabled.code(),
            final(iocfg0)@.iocurr() == old(iocfg0)@.iocurr(),
            final(iocfg0)@.outside(MODE_MASK) == old(iocfg0)@.outside(MODE_MASK),
    {
        iocfg0.iocfg0().set_mode(IoMode::OpenSource, PullCtl::Disabled);
        DIO0 { _mode: PhantomData }
    }
}

impl<MODE> DIO0<Output<MODE>> {
    /// Sets the strongest current that the pin drives. The pin's mode, and
    /// with it the handle's type, stays as it is.
    pub fn set_current(self, current: Current, iocfg0: &mut IOCFG0) -> (pin: Self)
        ensures
            final(iocfg0)@ == old(iocfg0)@.with_current(current),
            final(iocfg0)@.iocurr() == current.code(),
            final(iocfg0)@.iomode() == old(iocfg0)@.iomode(),
            final(iocfg0)@.pull_ctl() == old(iocfg0)@.pull_ctl(),
            final(iocfg0)@.outside(IOCURR_MASK) == old(iocfg0)@.outside(IOCURR_MASK),
    {
        iocfg0.iocfg0().set_current(current);
        self
    }
}

} // verus!
