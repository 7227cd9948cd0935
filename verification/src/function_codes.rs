//! Modbus function codes that the sensor supports.
use vstd::prelude::*;

verus! {

pub const READ_HOLDING_REGISTERS: u8 = 0x03;
pub const READ_INPUT_REGISTERS: u8 = 0x04;
pub const WRITE_SINGLE_REGISTER: u8 = 0x06;

} // verus!
