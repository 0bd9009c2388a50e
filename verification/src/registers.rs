//! SX126x register definitions.
//!
//! Registers are 16-bit-addressed, fixed-width memory cells inside the
//! chip. Each register type carries its address and a proved fixed-width
//! byte codec, grouped by function:
//! - [`dio`]: DIO pin configuration registers
//! - [`packet`]: packet handling registers (whitening, CRC, sync words)
//! - [`rf`]: RF registers (random number, gain, TX modulation, OCP)
//! - [`system`]: system registers (retention list, RTC, crystal trim)

pub mod dio;
pub mod packet;
pub mod rf;
pub mod system;
