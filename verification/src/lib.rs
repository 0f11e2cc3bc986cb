//! Bring-up routine for a microcontroller status indicator.
//!
//! The library models the GPIO port's memory-mapped set/clear registers as a
//! register model (`gpio::MemSpace`) and proves that the symbolic pin
//! operations and the boot/panic control flow perform exactly the intended
//! register writes. The volatile stores to the physical addresses and the
//! non-returning wait loop live outside the library, in the host harness.

pub mod boot;
pub mod gpio;
