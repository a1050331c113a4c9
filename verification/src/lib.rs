//! Host-side debug and flash-programming engine for embedded microcontrollers.
//!
//! The crate is organised bottom-up:
//! - `dap`, `swd`, `jtag`, `transfer`: the wire-protocol engine that turns
//!   logical register accesses into bit-exact SWD/JTAG line sequences,
//!   including the posted-read rewriting of batches.
//! - `probe`, `raw_dap`, `gpio`: the probe abstraction and the retrying
//!   register-access layer on top of it.
//! - `memap`: batch planning for memory access through a MEM-AP.
//! - `registers`, `armv6m`, `armv7a`, `sequences`, `cores`: per-architecture
//!   core drivers (halt, run, step, breakpoints, status) and the generic
//!   core handle.
//! - `family`, `flash_properties`, `flash_algorithm`, `flash_builder`,
//!   `flasher`: the target description model and the flash-programming
//!   engine.

pub mod armv6m;
pub mod armv7a;
pub mod cores;
pub mod dap;
pub mod error;
pub mod family;
pub mod flash_algorithm;
pub mod flash_builder;
pub mod flash_properties;
pub mod flasher;
pub mod gpio;
pub mod jtag;
pub mod memap;
pub mod memory;
pub mod probe;
pub mod raw_dap;
pub mod registers;
pub mod sequences;
pub mod swd;
pub mod transfer;
