//! Typestate GPIO pins for the CC2640R2F, over a plain-value model of the
//! chip's data and configuration registers.
//!
//! A pin handle carries its electrical mode in its type. Every mode change
//! consumes the handle, rewrites two fields of the pin's configuration
//! register and hands back a handle of the new mode, so an operation that the
//! current mode does not allow cannot be written down. The register words
//! themselves are ordinary values: each operation states exactly which bits
//! of which word it changes.
#![allow(non_camel_case_types)]

pub mod config;
pub mod data;
pub mod gpio;
pub mod ioc;
pub mod prelude;
