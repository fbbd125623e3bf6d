//! The traits that split the peripherals, under names that cannot clash
//! with a caller's own.
pub use crate::gpio::GpioExt as _cc2640r2f_hal_gpio_GpioExt;
pub use crate::ioc::IocExt as _cc2640r2f_hal_gpio_IocExt;
