//! Modbus register addresses of the sensor.
use vstd::prelude::*;

verus! {

pub const SAMPLE_RATE: u16 = 0x0001;
pub const FIFO_BUFFER_SIZE: u16 = 0x0002;
pub const RAW_DATA_START: u16 = 0x0003;
pub const RAW_DATA_END: u16 = 0x007D;
pub const TEMPERATURE: u16 = 0x0014;
pub const STREAM_SIZE: u16 = 0x0015;
pub const BAUD_RATE_HIGH: u16 = 0x0017;
pub const BAUD_RATE_LOW: u16 = 0x0018;
pub const UCID: u16 = 0x001B;
pub const HIGH_PASS_ENABLE: u16 = 0x001C;
pub const FIRMWARE_VERSION: u16 = 0x001D;

pub const GRAVITY_RMS: u16 = 0x001E;
pub const GRAVITY_PEAK: u16 = 0x001F;
pub const GRAVITY_CREST_FACTOR: u16 = 0x0020;
pub const GRAVITY_SKEWNESS: u16 = 0x0021;
pub const GRAVITY_KURTOSIS: u16 = 0x0022;
pub const GRAVITY_PRIMARY_FREQ: u16 = 0x003D;

pub const VELOCITY_RMS: u16 = 0x0032;
pub const VELOCITY_PEAK: u16 = 0x0033;
pub const VELOCITY_CREST_FACTOR: u16 = 0x0034;
pub const VELOCITY_PRIMARY_FREQ: u16 = 0x003C;

pub const RAW_DATA_LATEST_X: u16 = 0x0083;
pub const RAW_DATA_LATEST_Y: u16 = 0x0084;
pub const RAW_DATA_LATEST_Z: u16 = 0x0085;

pub const CHIP_ID: u16 = 0x0080;

} // verus!
