//! What the sensor's register values mean, and which requests it accepts.
use vstd::prelude::*;

use crate::text::{decimal, decimal_text, join2, owned};
use crate::types::{gain_name, model_bits, gain_bits, model_name, serial_bits, StreamType, UcidInfo};

verus! {

/// Largest number of registers one read of the sensor returns.
pub const MAX_READ_REGISTERS: u16 = 123;

/// Baud rates the sensor can be switched to.
pub const BAUD_115200: u32 = 115200;
pub const BAUD_3M: u32 = 3000000;

/// Why a request to the sensor is refused, or a response rejected.
#[derive(PartialEq, Eq, Structural, Clone, Copy, Debug)]
pub enum SensorError {
    /// A stream size of no registers.
    StreamSizeZero,
    /// A stream size above the 123-register limit.
    StreamSizeOverLimit,
    /// A combined FIFO read of this many data registers (outside 1–123).
    FifoCountOutOfRange(u16),
    /// A raw-buffer read of no registers.
    CountZero,
    /// A raw-buffer read of more than 123 registers.
    CountOverLimit,
    /// A UCID response with this many registers instead of 2.
    UcidRegisterCount(usize),
    /// A chip ID response with this many registers instead of 3.
    ChipIdRegisterCount(usize),
}

pub open spec fn sensor_error_text(e: SensorError) -> Seq<char> {
    match e {
        SensorError::StreamSizeZero => "Stream size must be at least 1 register"@,
        SensorError::StreamSizeOverLimit => "Stream size cannot exceed 123 registers"@,
        SensorError::FifoCountOutOfRange(c) => "count must be 1–123, got "@ + decimal_text(
            c as nat,
        ),
        SensorError::CountZero => "Count cannot be zero"@,
        SensorError::CountOverLimit => "Cannot read more than 123 registers (sensor limitation)"@,
        SensorError::UcidRegisterCount(n) => "Expected 2 UCID registers, got "@ + decimal_text(
            n as nat,
        ),
        SensorError::ChipIdRegisterCount(n) => "Expected 3 chip ID registers, got "@
            + decimal_text(n as nat),
    }
}

impl SensorError {
    pub fn message(&self) -> (s: String)
        ensures
            s@ == sensor_error_text(*self),
    {
        match self {
            SensorError::StreamSizeZero => owned("Stream size must be at least 1 register"),
            SensorError::StreamSizeOverLimit => owned("Stream size cannot exceed 123 registers"),
            SensorError::FifoCountOutOfRange(c) => join2(
                "count must be 1–123, got ",
                decimal(*c as u64).as_str(),
            ),
            SensorError::CountZero => owned("Count cannot be zero"),
            SensorError::CountOverLimit => owned(
                "Cannot read more than 123 registers (sensor limitation)",
            ),
            SensorError::UcidRegisterCount(n) => join2(
                "Expected 2 UCID registers, got ",
                decimal(*n as u64).as_str(),
            ),
            SensorError::ChipIdRegisterCount(n) => join2(
                "Expected 3 chip ID registers, got ",
                decimal(*n as u64).as_str(),
            ),
        }
    }
}

// ── Writes ───────────────────────────────────────────────────────────────────

/// The (high, low) register pair that sets `baud_rate`: the upper and lower
/// 16 bits.
pub fn baud_rate_registers(baud_rate: u32) -> (r: (u16, u16))
    ensures
        r.0 as nat == baud_rate as nat / 0x10000,
        r.1 as nat == baud_rate as nat % 0x10000,
        r.0 as nat * 0x10000 + r.1 as nat == baud_rate as nat,
{
    ((baud_rate / 0x10000) as u16, (baud_rate % 0x10000) as u16)
}

/// Register value that enables (1) or disables (0) the high-pass filter.
pub fn high_pass_register_value(enabled: bool) -> (v: u16)
    ensures
        v == (if enabled { 1u16 } else { 0u16 }),
{
    if enabled {
        1
    } else {
        0
    }
}

/// A stream size is accepted from 1 to 123 registers.
pub fn check_stream_size(size: u16) -> (r: Result<(), SensorError>)
    ensures
        r is Ok <==> 1 <= size <= 123,
        size == 0 ==> r == Err::<(), SensorError>(SensorError::StreamSizeZero),
        size > 123 ==> r == Err::<(), SensorError>(SensorError::StreamSizeOverLimit),
{
    if size == 0 {
        Err(SensorError::StreamSizeZero)
    } else if size > 123 {
        Err(SensorError::StreamSizeOverLimit)
    } else {
        Ok(())
    }
}

/// Baud rates accepted by the baud-rate endpoint.
pub fn is_supported_baud_rate(baud_rate: u32) -> (b: bool)
    ensures
        b == (baud_rate == 115200 || baud_rate == 3000000),
{
    baud_rate == BAUD_115200 || baud_rate == BAUD_3M
}

// ── Reads ────────────────────────────────────────────────────────────────────

/// UCID from its two registers, high word first.
pub fn ucid_from_registers(data: &[u16]) -> (r: Result<UcidInfo, SensorError>)
    ensures
        data@.len() != 2 <==> r is Err,
        data@.len() != 2 ==> r == Err::<UcidInfo, SensorError>(
            SensorError::UcidRegisterCount(data@.len() as usize),
        ),
        r matches Ok(u) ==> {
            let raw = data@[0] as nat * 0x10000 + data@[1] as nat;
            &&& u.raw_value as nat == raw
            &&& u.model@ == model_name(model_bits(u.raw_value))
            &&& u.gain@ == gain_name(gain_bits(u.raw_value))
            &&& u.serial_number == serial_bits(u.raw_value)
        },
{
    if data.len() != 2 {
        return Err(SensorError::UcidRegisterCount(data.len()));
    }
    let raw: u32 = (data[0] as u32) * 0x10000 + (data[1] as u32);
    Ok(UcidInfo::from_raw(raw))
}

/// Firmware version text `major.minor` from the high and low byte of its
/// register.
pub fn firmware_version_text(reg: u16) -> (s: String)
    ensures
        s@ == decimal_text(reg as nat / 256) + "."@ + decimal_text(reg as nat % 256),
{
    let mut s = decimal((reg / 256) as u64);
    s.append(".");
    s.append(decimal((reg % 256) as u64).as_str());
    s
}

/// Chip ID registers, accepted when there are exactly three.
pub fn check_chip_id(data: Vec<u16>) -> (r: Result<Vec<u16>, SensorError>)
    ensures
        data@.len() == 3 ==> r == Ok::<Vec<u16>, SensorError>(data),
        data@.len() != 3 ==> r == Err::<Vec<u16>, SensorError>(
            SensorError::ChipIdRegisterCount(data@.len() as usize),
        ),
{
    if data.len() != 3 {
        Err(SensorError::ChipIdRegisterCount(data.len()))
    } else {
        Ok(data)
    }
}

/// Value of a register read as a two's-complement 16-bit number.
pub open spec fn signed16(x: u16) -> int {
    if x < 0x8000 {
        x as int
    } else {
        x as int - 0x10000
    }
}

pub fn as_signed(x: u16) -> (v: i16)
    ensures
        v as int == signed16(x),
{
    if x < 0x8000 {
        x as i16
    } else {
        let above: u16 = x - 0x8000;
        (above as i16) - 0x7FFF - 1
    }
}

/// The XYZ triplets in `regs`: register `3k`, `3k+1`, `3k+2` read as signed
/// values form triplet `k`; registers after the last whole triplet are left out.
pub open spec fn is_triplets_of(t: Seq<(i16, i16, i16)>, regs: Seq<u16>) -> bool {
    &&& t.len() == regs.len() / 3
    &&& forall|k: int|
        0 <= k < t.len() ==> {
            &&& (#[trigger] t[k]).0 as int == signed16(regs[3 * k])
            &&& t[k].1 as int == signed16(regs[3 * k + 1])
            &&& t[k].2 as int == signed16(regs[3 * k + 2])
        }
}

pub fn decode_triplets(regs: &[u16]) -> (t: Vec<(i16, i16, i16)>)
    ensures
        is_triplets_of(t@, regs@),
{
    let mut t: Vec<(i16, i16, i16)> = Vec::new();
    let n = regs.len() / 3;
    let mut k: usize = 0;
    while k < n
        invariant
            n == regs@.len() / 3,
            0 <= k <= n,
            t@.len() == k,
            forall|j: int|
                0 <= j < k ==> {
                    &&& (#[trigger] t@[j]).0 as int == signed16(regs@[3 * j])
                    &&& t@[j].1 as int == signed16(regs@[3 * j + 1])
                    &&& t@[j].2 as int == signed16(regs@[3 * j + 2])
                },
        decreases n - k,
    {
        assert(3 * k + 2 < regs.len()) by (nonlinear_arith)
            requires
                k < n,
                n == regs.len() / 3,
        ;
        let x = as_signed(regs[3 * k]);
        let y = as_signed(regs[3 * k + 1]);
        let z = as_signed(regs[3 * k + 2]);
        t.push((x, y, z));
        k = k + 1;
    }
    t
}

/// A combined FIFO read asks for 1 to 123 data registers; the request covers
/// the fill-level register too, so it reads one register more.
pub fn fifo_combined_request(count: u16) -> (r: Result<u16, SensorError>)
    ensures
        (1 <= count <= 123) ==> r == Ok::<u16, SensorError>((count + 1) as u16),
        !(1 <= count <= 123) ==> r == Err::<u16, SensorError>(
            SensorError::FifoCountOutOfRange(count),
        ),
{
    if count == 0 || count > 123 {
        Err(SensorError::FifoCountOutOfRange(count))
    } else {
        Ok(count + 1)
    }
}

/// Splits a combined FIFO response into the new fill level (its first
/// register) and the XYZ triplets of the registers after it.
pub fn split_fifo_response(regs: &[u16]) -> (r: (u16, Vec<(i16, i16, i16)>))
    requires
        regs@.len() >= 1,
    ensures
        r.0 == regs@[0],
        is_triplets_of(r.1@, regs@.drop_first()),
{
    let mut rest: Vec<u16> = Vec::new();
    let mut i: usize = 1;
    while i < regs.len()
        invariant
            1 <= i <= regs@.len(),
            rest@ == regs@.subrange(1, i as int),
        decreases regs@.len() - i,
    {
        rest.push(regs[i]);
        i = i + 1;
    }
    assert(rest@ =~= regs@.drop_first());
    (regs[0], decode_triplets(rest.as_slice()))
}

/// A raw-buffer read asks for 1 to 123 registers.
pub fn check_raw_buffer_count(count: u16) -> (r: Result<(), SensorError>)
    ensures
        count == 0 ==> r == Err::<(), SensorError>(SensorError::CountZero),
        count > 123 ==> r == Err::<(), SensorError>(SensorError::CountOverLimit),
        1 <= count <= 123 ==> r is Ok,
{
    if count == 0 {
        Err(SensorError::CountZero)
    } else if count > 123 {
        Err(SensorError::CountOverLimit)
    } else {
        Ok(())
    }
}

/// Registers to read for one batch of raw data at FIFO fill level
/// `buffer_size`: none when the FIFO is empty, else up to 123.
pub fn raw_batch_count(buffer_size: u16) -> (r: Option<u16>)
    ensures
        buffer_size == 0 ==> r is None,
        buffer_size > 0 ==> r == Some(if buffer_size < 123 { buffer_size } else { 123u16 }),
{
    if buffer_size == 0 {
        None
    } else if buffer_size < 123 {
        Some(buffer_size)
    } else {
        Some(123)
    }
}

// ── Sensor selection and stream requests ─────────────────────────────────────

/// Position of sensor number `sensor` (counting from 1) among `count` sensors.
pub fn sensor_index(sensor: u8, count: usize) -> (r: Option<usize>)
    ensures
        (1 <= sensor && sensor as int - 1 < count) ==> r == Some((sensor - 1) as usize),
        !(1 <= sensor && sensor as int - 1 < count) ==> r is None,
{
    if sensor == 0 {
        None
    } else if ((sensor - 1) as usize) < count {
        Some((sensor - 1) as usize)
    } else {
        None
    }
}

/// Why a stream cannot start.
#[derive(PartialEq, Eq, Structural, Clone, Copy, Debug)]
pub enum StreamStartError {
    /// Raw streaming needs the sensor at 3 Mbps.
    InsufficientBaudRate,
}

pub fn check_stream_start(stream_type: StreamType, baud_rate: u32) -> (r: Result<
    (),
    StreamStartError,
>)
    ensures
        r is Err <==> (stream_type == StreamType::Raw && baud_rate != 3000000),
        r is Err ==> r == Err::<(), StreamStartError>(StreamStartError::InsufficientBaudRate),
{
    match stream_type {
        StreamType::Raw => {
            if baud_rate != BAUD_3M {
                Err(StreamStartError::InsufficientBaudRate)
            } else {
                Ok(())
            }
        },
        _ => Ok(()),
    }
}

/// Streaming that the first sensor's link supports.
#[derive(PartialEq, Eq, Structural, Clone, Copy, Debug)]
pub enum StreamingCapability {
    Full,
    MetricsOnly,
}

/// Full streaming at 3 Mbps and above; with no sensor configured, metrics only.
pub fn streaming_capability(first_baud_rate: Option<u32>) -> (c: StreamingCapability)
    ensures
        c == (if first_baud_rate matches Some(b) && b >= 3000000 {
            StreamingCapability::Full
        } else {
            StreamingCapability::MetricsOnly
        }),
{
    let b: u32 = match first_baud_rate {
        Some(b) => b,
        None => 0,
    };
    if b >= BAUD_3M {
        StreamingCapability::Full
    } else {
        StreamingCapability::MetricsOnly
    }
}

impl StreamingCapability {
    pub fn as_text(&self) -> (s: String)
        ensures
            s@ == (match *self {
                StreamingCapability::Full => "full"@,
                StreamingCapability::MetricsOnly => "metrics-only"@,
            }),
    {
        match self {
            StreamingCapability::Full => owned("full"),
            StreamingCapability::MetricsOnly => owned("metrics-only"),
        }
    }
}

} // verus!
