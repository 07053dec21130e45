//! Register-level model of a PWM breathing-LED bring-up for an STM32F401:
//! clock-tree initialization, timer and pin configuration, and the duty-cycle
//! schedule, all computed over a plain-data model of the hardware registers.
//!
//! The functions here compute exactly the masked read-modify-write register
//! values that the firmware must program; the thin binary shell performs the
//! actual memory-mapped reads, writes and busy-waits with these values.

pub mod clock;
pub mod cycle;
pub mod gpio;
pub mod regs;
pub mod timer;
