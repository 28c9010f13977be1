//! Register access, GPIO pins, PWM slices and SPI for the RP2040, over a
//! memory-mapped peripheral bus.
//!
//! `regs` holds the register map, the bus and the atomic SET/CLR/XOR alias
//! stores; `gpio`, `pwm` and `spi` drive their peripherals through it; `fade`
//! runs an LED fade from PWM wrap interrupts; `bytes` fills a fixed buffer.
pub mod bytes;
pub mod fade;
pub mod gpio;
pub mod pwm;
pub mod regs;
pub mod spi;
