//! The I/O controller: one configuration register per pin, each handed out
//! once as a handle that alone may change it.
use crate::config::ConfigReg;
use vstd::prelude::*;

verus! {

/// Splits the I/O controller into one handle per configuration register.
pub trait IocExt {
    /// The handles.
    type Parts;

    /// Gives up the controller for its handles.
    fn split(self) -> Self::Parts;
}

/// The I/O controller as a whole, with the contents of its configuration
/// registers.
#[derive(PartialEq, Eq, Structural, Debug)]
pub struct Ioc {
    /// The configuration register of pin 0.
    pub iocfg0: ConfigReg,
    /// The configuration register of pin 6.
    pub iocfg6: ConfigReg,
}

impl IocExt for Ioc {
    type Parts = Parts;

    fn split(self) -> (parts: Parts)
        ensures
            parts.iocfg6@ == self.iocfg6,
    {
        Parts { iocfg6: IOCFG6 { reg: self.iocfg6 } }
    }
}

/// The handles of the I/O controller.
pub struct Parts {
    /// The configuration register of pin 6.
    pub iocfg6: IOCFG6,
}

/// The one handle of the configuration register of pin 6.
pub struct IOCFG6 {
    reg: ConfigReg,
}

impl IOCFG6 {
    /// The contents of the register.
    pub closed spec fn view(&self) -> ConfigReg {
        self.reg
    }

    /// Reads the register.
    pub fn read(&self) -> (reg: ConfigReg)
        ensures
            reg == self@,
    {
        self.reg
    }

    /// The register, for the holder of the handle to change.
    #[allow(dead_code)]
    pub(crate) fn iocfg6(&mut self) -> (reg: &mut ConfigReg)
        ensures
            *reg == old(self)@,
            final(self)@ == *final(reg),
    {
        &mut self.reg
    }
}

} // verus!
