//! The memory interface a core driver works through: word, byte and block
//! access to the target bus, plus probe-level core-register access.
//!
//! Implementations drive real targets, so nothing can be promised about
//! the values read; block reads keep the buffer's length.

use vstd::prelude::*;

use crate::error::Error;
use crate::registers::CoreRegisterAddress;

verus! {

/// Access to a target's memory and, where the probe offers it, to its
/// core registers.
pub trait ArmProbe: Sized {
    /// Read a core register through the probe.
    fn read_core_reg(&mut self, addr: CoreRegisterAddress) -> (r: Result<u32, Error>);

    /// Write a core register through the probe.
    fn write_core_reg(&mut self, addr: CoreRegisterAddress, value: u32) -> (r: Result<(), Error>);

    /// Read one 32-bit word from a 4-byte aligned address.
    fn read_word_32(&mut self, address: u32) -> (r: Result<u32, Error>);

    /// Write one 32-bit word to a 4-byte aligned address.
    fn write_word_32(&mut self, address: u32, data: u32) -> (r: Result<(), Error>);

    /// Read one byte.
    fn read_word_8(&mut self, address: u32) -> (r: Result<u8, Error>);

    /// Write one byte.
    fn write_word_8(&mut self, address: u32, data: u8) -> (r: Result<(), Error>);

    /// Fill `data` with consecutive words starting at `address`.
    fn read_32(&mut self, address: u32, data: &mut Vec<u32>) -> (r: Result<(), Error>)
        ensures
            final(data)@.len() == old(data)@.len(),
    ;

    /// Write consecutive words starting at `address`.
    fn write_32(&mut self, address: u32, data: &Vec<u32>) -> (r: Result<(), Error>);

    /// Fill `data` with consecutive bytes starting at `address`.
    fn read_8(&mut self, address: u32, data: &mut Vec<u8>) -> (r: Result<(), Error>)
        ensures
            final(data)@.len() == old(data)@.len(),
    ;

    /// Write consecutive bytes starting at `address`.
    fn write_8(&mut self, address: u32, data: &Vec<u8>) -> (r: Result<(), Error>);

    /// Complete all outstanding writes.
    fn flush(&mut self) -> (r: Result<(), Error>);
}

} // verus!
