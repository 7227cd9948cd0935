use modbus_stream::types::{UcidInfo, ValidationErrors};

#[test]
fn ucid_fields_decode() {
    let u = UcidInfo::from_raw(0x1512_3456);
    assert_eq!(u.model, "15B");
    assert_eq!(u.gain, "64G");
    assert_eq!(u.serial_number, 0x12_3456);
    assert_eq!(u.raw_value, 0x1512_3456);

    let u = UcidInfo::from_raw(0x0000_0000);
    assert_eq!(u.model, "12B");
    assert_eq!(u.gain, "4G");

    let u = UcidInfo::from_raw(0xF6FF_FFFF);
    assert_eq!(u.model, "Unknown");
    assert_eq!(u.gain, "Unknown");
    assert_eq!(u.serial_number, 0xFF_FFFF);

    assert_eq!(UcidInfo::from_raw(0x4100_0000).model, "S6S");
    assert_eq!(UcidInfo::from_raw(0x3200_0000).model, "KAX302");
}

#[test]
fn counts_per_g_by_gain() {
    let gains = [("2G", 16384), ("4G", 8192), ("8G", 4096), ("16G", 2048), ("32G", 1024), ("64G", 512)];
    for (gain, counts) in gains {
        let u = UcidInfo { model: "12B".to_string(), gain: gain.to_string(), serial_number: 0, raw_value: 0 };
        assert_eq!(u.counts_per_g(), counts);
    }
    assert_eq!(UcidInfo::from_raw(0x0700_0000).counts_per_g(), 8192);
    // Scale factor in g per count, for a 4G sensor.
    assert_eq!(1.0 / UcidInfo::from_raw(0).counts_per_g() as f64, 1.0 / 8192.0);
}

#[test]
fn field_errors_accumulate_per_field() {
    let mut e = ValidationErrors::new();
    assert!(!e.has_errors());
    e.add_field_error("sample_rate", "too high");
    e.add_field_error("stream_size", "too big");
    e.add_field_error("sample_rate", "not a number");
    assert!(e.has_errors());
    assert_eq!(e.field_errors.len(), 2);
    assert_eq!(e.field_errors[0].0, "sample_rate");
    assert_eq!(e.field_errors[0].1, vec!["too high".to_string(), "not a number".to_string()]);
    assert_eq!(e.field_errors[1].0, "stream_size");
    assert_eq!(e.field_errors[1].1, vec!["too big".to_string()]);
}

#[test]
fn general_errors_count_as_errors() {
    let mut e = ValidationErrors::new();
    e.add_general_error("At least one sensor must be configured");
    assert!(e.has_errors());
    assert_eq!(e.general_errors, vec!["At least one sensor must be configured".to_string()]);
    assert!(e.field_errors.is_empty());
}

#[test]
fn errors_only_accumulate() {
    let mut e = ValidationErrors::new();
    assert!(!e.has_errors());
    e.add_general_error("no sensors");
    assert!(e.has_errors());
    e.add_field_error("x", "bad");
    assert!(e.has_errors());
    let mut f = ValidationErrors::new();
    f.add_field_error("x", "bad");
    assert!(f.has_errors());
    assert!(f.general_errors.is_empty());
}
