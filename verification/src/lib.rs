//! Peripheral logic for the Nuvoton N32903 (W55FA93) ARM926EJ-S SoC:
//! the register values each driver operation writes, the clock tree
//! arithmetic, the timer event scheduler, the UART formatter and the
//! state that the drivers keep between calls.
#![allow(non_upper_case_globals)]

pub mod registers;
pub mod clock;
pub mod timer;
pub mod uart;
pub mod gpio;
pub mod bits;
pub mod aic;
pub mod cache;
pub mod mmu;
pub mod ebi;
pub mod power;
pub mod sys;
pub mod pwm;
pub mod spu;
pub mod vpost;
pub mod i2c;
pub mod switch;
