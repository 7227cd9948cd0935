use modbus_stream::sensor::{
    as_signed, baud_rate_registers, check_chip_id, check_raw_buffer_count, check_stream_size,
    check_stream_start, decode_triplets, fifo_combined_request, firmware_version_text,
    high_pass_register_value, is_supported_baud_rate, raw_batch_count, sensor_index,
    split_fifo_response, streaming_capability, ucid_from_registers, SensorError,
    StreamStartError, StreamingCapability,
};
use modbus_stream::types::StreamType;

#[test]
fn baud_rate_splits_into_high_and_low_words() {
    assert_eq!(baud_rate_registers(3_000_000), (0x002D, 0xC6C0));
    assert_eq!(baud_rate_registers(115_200), (0x0001, 0xC200));
    let (h, l) = baud_rate_registers(0x1234_5678);
    assert_eq!(((h as u32) << 16) | l as u32, 0x1234_5678);
}

#[test]
fn high_pass_register_values() {
    assert_eq!(high_pass_register_value(true), 1);
    assert_eq!(high_pass_register_value(false), 0);
}

#[test]
fn stream_size_limit() {
    assert_eq!(check_stream_size(123), Ok(()));
    assert_eq!(check_stream_size(1), Ok(()));
    assert_eq!(check_stream_size(0), Err(SensorError::StreamSizeZero));
    assert_eq!(SensorError::StreamSizeZero.message(), "Stream size must be at least 1 register");
    assert_eq!(check_stream_size(124), Err(SensorError::StreamSizeOverLimit));
    assert_eq!(SensorError::StreamSizeOverLimit.message(), "Stream size cannot exceed 123 registers");
}

#[test]
fn supported_baud_rates() {
    assert!(is_supported_baud_rate(115200));
    assert!(is_supported_baud_rate(3000000));
    assert!(!is_supported_baud_rate(9600));
}

#[test]
fn ucid_registers_combine_high_word_first() {
    let u = ucid_from_registers(&[0x2301, 0x86A0]).unwrap();
    assert_eq!(u.raw_value, 0x2301_86A0);
    assert_eq!(u.model, "KAX301");
    assert_eq!(u.gain, "16G");
    assert_eq!(u.serial_number, 0x01_86A0);
    match ucid_from_registers(&[1, 2, 3]) {
        Err(e) => {
            assert_eq!(e, SensorError::UcidRegisterCount(3));
            assert_eq!(e.message(), "Expected 2 UCID registers, got 3");
        }
        Ok(_) => panic!("three registers accepted as a UCID"),
    }
}

#[test]
fn firmware_version_is_high_dot_low_byte() {
    assert_eq!(firmware_version_text(0x0102), "1.2");
    assert_eq!(firmware_version_text(0x0A00), "10.0");
    assert_eq!(firmware_version_text(0xFFFF), "255.255");
}

#[test]
fn chip_id_needs_three_registers() {
    assert_eq!(check_chip_id(vec![1, 2, 3]), Ok(vec![1, 2, 3]));
    assert_eq!(check_chip_id(vec![1, 2]), Err(SensorError::ChipIdRegisterCount(2)));
    assert_eq!(SensorError::ChipIdRegisterCount(2).message(), "Expected 3 chip ID registers, got 2");
}

#[test]
fn registers_read_as_twos_complement() {
    assert_eq!(as_signed(0), 0);
    assert_eq!(as_signed(0x7FFF), 32767);
    assert_eq!(as_signed(0x8000), -32768);
    assert_eq!(as_signed(0xFFFF), -1);
}

#[test]
fn triplets_drop_incomplete_tail() {
    let t = decode_triplets(&[1, 0xFFFF, 3, 4, 5, 6, 7, 8]);
    assert_eq!(t, vec![(1, -1, 3), (4, 5, 6)]);
    assert!(decode_triplets(&[1, 2]).is_empty());
}

#[test]
fn combined_response_splits_fill_level_from_samples() {
    let (size, t) = split_fifo_response(&[42, 1, 2, 3, 0x8000, 0, 1]);
    assert_eq!(size, 42);
    assert_eq!(t, vec![(1, 2, 3), (-32768, 0, 1)]);
    let (size, t) = split_fifo_response(&[7]);
    assert_eq!(size, 7);
    assert!(t.is_empty());
}

#[test]
fn combined_request_counts() {
    assert_eq!(fifo_combined_request(1), Ok(2));
    assert_eq!(fifo_combined_request(123), Ok(124));
    assert_eq!(fifo_combined_request(0), Err(SensorError::FifoCountOutOfRange(0)));
    assert_eq!(fifo_combined_request(124), Err(SensorError::FifoCountOutOfRange(124)));
    assert_eq!(SensorError::FifoCountOutOfRange(124).message(), "count must be 1–123, got 124");
}

#[test]
fn raw_buffer_counts() {
    assert_eq!(check_raw_buffer_count(0), Err(SensorError::CountZero));
    assert_eq!(check_raw_buffer_count(124), Err(SensorError::CountOverLimit));
    assert_eq!(check_raw_buffer_count(99), Ok(()));
    assert_eq!(SensorError::CountZero.message(), "Count cannot be zero");
    assert_eq!(
        SensorError::CountOverLimit.message(),
        "Cannot read more than 123 registers (sensor limitation)"
    );
    assert_eq!(raw_batch_count(0), None);
    assert_eq!(raw_batch_count(50), Some(50));
    assert_eq!(raw_batch_count(500), Some(123));
}

#[test]
fn sensors_are_numbered_from_one() {
    assert_eq!(sensor_index(1, 4), Some(0));
    assert_eq!(sensor_index(4, 4), Some(3));
    assert_eq!(sensor_index(5, 4), None);
    assert_eq!(sensor_index(0, 4), None);
    assert_eq!(sensor_index(1, 0), None);
}

#[test]
fn raw_streaming_needs_three_megabaud() {
    assert_eq!(check_stream_start(StreamType::Raw, 115200), Err(StreamStartError::InsufficientBaudRate));
    assert_eq!(check_stream_start(StreamType::Raw, 3000000), Ok(()));
    assert_eq!(check_stream_start(StreamType::Metrics, 115200), Ok(()));
    assert_eq!(check_stream_start(StreamType::Both, 115200), Ok(()));
}

#[test]
fn streaming_capability_from_first_sensor() {
    assert_eq!(streaming_capability(Some(3000000)), StreamingCapability::Full);
    assert_eq!(streaming_capability(Some(115200)), StreamingCapability::MetricsOnly);
    assert_eq!(streaming_capability(None), StreamingCapability::MetricsOnly);
    assert_eq!(StreamingCapability::Full.as_text(), "full");
    assert_eq!(StreamingCapability::MetricsOnly.as_text(), "metrics-only");
}
