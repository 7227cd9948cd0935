use modbus_stream::settings::{settings_writes, write_outcome, SensorWrite};
use modbus_stream::config::{AppConfig, RateHz};
use modbus_stream::feedback::{render_feedback_error, render_feedback_success};
use modbus_stream::settings::{
    baud_rate_change, check_field, check_fields, config_with_settings, form_get, get_unsigned, get_unsigned_or,
    parse_form_data, settings_differ, slot_key_string, validate_settings, FieldCheck, FieldIssue,
};
use modbus_stream::types::{SensorConnectionForm, SettingsForm, ValidationErrors};

fn rate(v: f64) -> RateHz {
    RateHz { bits: v.to_bits() }
}

fn form(pairs: &[(&str, &str)]) -> Vec<(String, String)> {
    pairs.iter().map(|(k, v)| (k.to_string(), v.to_string())).collect()
}

fn full_form() -> Vec<(String, String)> {
    form(&[
        ("sensor_0_device", "/dev/ttyUSB0"),
        ("sensor_0_baud_rate", "3000000"),
        ("sensor_0_slave_id", "2"),
        ("sensor_2_device", "/dev/ttyUSB2"),
        ("sensor_3_device", ""),
        ("sample_rate", "1000"),
        ("stream_size", "60"),
        ("high_pass_filter", "on"),
        ("max_connections", "5"),
        ("buffer_size", "2048"),
        ("metrics_update_rate_hz", "2.5"),
        ("websocket_ping_interval_sec", "15"),
    ])
}

fn sensor(device: &str, baud_rate: u32, slave_id: u8) -> SensorConnectionForm {
    SensorConnectionForm { device: device.to_string(), baud_rate, slave_id, timeout_ms: 5000, retry_attempts: 3 }
}

fn good_settings() -> SettingsForm {
    SettingsForm {
        sensors: vec![sensor("/dev/ttyUSB0", 115200, 1)],
        sample_rate: 1000,
        stream_size: 123,
        high_pass_filter: false,
        max_connections: 10,
        buffer_size: 1024,
        metrics_update_rate_hz: rate(1.0),
        websocket_ping_interval_sec: 30,
    }
}

#[test]
fn form_lookup_and_numbers() {
    let f = form(&[("a", "12"), ("b", "x"), ("a", "13")]);
    assert_eq!(form_get(&f, &"a".to_string()).map(|s| s.as_str()), Some("12"));
    assert_eq!(form_get(&f, &"c".to_string()), None);
    assert_eq!(get_unsigned(&f, &"a".to_string(), 255), Some(12));
    assert_eq!(get_unsigned(&f, &"b".to_string(), 255), None);
    assert_eq!(get_unsigned_or(&f, &"b".to_string(), 255, 7), 7);
    assert_eq!(get_unsigned_or(&f, &"c".to_string(), 255, 9), 9);
    assert_eq!(slot_key_string(2, "_device"), "sensor_2_device");
}

#[test]
fn form_reads_present_slots_in_order() {
    let parsed = parse_form_data(&full_form(), Some(rate(2.5))).ok().unwrap();
    assert_eq!(parsed.sensors.len(), 2);
    assert_eq!(parsed.sensors[0].device, "/dev/ttyUSB0");
    assert_eq!(parsed.sensors[0].baud_rate, 3000000);
    assert_eq!(parsed.sensors[0].slave_id, 2);
    assert_eq!(parsed.sensors[0].timeout_ms, 5000);
    assert_eq!(parsed.sensors[1].device, "/dev/ttyUSB2");
    assert_eq!(parsed.sensors[1].baud_rate, 115200);
    assert_eq!(parsed.sensors[1].slave_id, 1);
    assert_eq!(parsed.sensors[1].retry_attempts, 3);
    assert_eq!(parsed.sample_rate, 1000);
    assert_eq!(parsed.stream_size, 60);
    assert!(parsed.high_pass_filter);
    assert_eq!(parsed.max_connections, 5);
    assert_eq!(parsed.buffer_size, 2048);
    assert_eq!(parsed.metrics_update_rate_hz, rate(2.5));
    assert_eq!(parsed.websocket_ping_interval_sec, 15);
}

#[test]
fn form_without_sensor_or_with_bad_numbers_is_refused() {
    let e = parse_form_data(&form(&[("sample_rate", "abc"), ("buffer_size", "-3")]), None).err().unwrap();
    assert_eq!(e.general_errors, vec!["At least one sensor must be configured".to_string()]);
    let fields: Vec<(String, Vec<String>)> = vec![
        ("sample_rate".to_string(), vec!["Invalid sample_rate".to_string()]),
        ("stream_size".to_string(), vec!["Invalid stream_size".to_string()]),
        ("max_connections".to_string(), vec!["Invalid max_connections".to_string()]),
        ("buffer_size".to_string(), vec!["Invalid buffer_size".to_string()]),
        ("metrics_update_rate_hz".to_string(), vec!["Invalid metrics_update_rate_hz".to_string()]),
        ("websocket_ping_interval_sec".to_string(), vec!["Invalid websocket_ping_interval_sec".to_string()]),
    ];
    assert_eq!(e.field_errors, fields);

    let mut f = full_form();
    f[5].1 = "70000".to_string();
    let e = parse_form_data(&f, Some(rate(2.5))).err().unwrap();
    assert!(e.general_errors.is_empty());
    assert_eq!(e.field_errors, vec![("sample_rate".to_string(), vec!["Invalid sample_rate".to_string()])]);
}

#[test]
fn valid_settings_pass() {
    assert!(validate_settings(&good_settings()).is_ok());
}

#[test]
fn settings_out_of_range_are_listed() {
    let mut s = good_settings();
    s.sensors.push(sensor("  ", 9600, 0));
    s.stream_size = 0;
    s.metrics_update_rate_hz = rate(0.0);
    let e = validate_settings(&s).err().unwrap();
    assert!(e.general_errors.is_empty());
    let names: Vec<&str> = e.field_errors.iter().map(|(n, _)| n.as_str()).collect();
    assert_eq!(names, vec!["sensor_1_device", "sensor_1_baud_rate", "sensor_1_slave_id", "stream_size", "metrics_update_rate_hz"]);
    assert_eq!(e.field_errors[3].1, vec!["Stream size must be between 1 and 123 registers".to_string()]);

    let mut none = good_settings();
    none.sensors.clear();
    let e = validate_settings(&none).err().unwrap();
    assert_eq!(e.general_errors, vec!["At least one sensor must be configured".to_string()]);
    assert!(e.field_errors.is_empty());
}

#[test]
fn single_field_checks() {
    let s = |x: &str| x.to_string();
    assert_eq!(check_field(&s("device_path"), &s("   "), None), Some(FieldIssue::DevicePathEmpty));
    assert_eq!(check_field(&s("device_path"), &s("tty0"), None), Some(FieldIssue::DevicePathPrefix));
    assert_eq!(check_field(&s("device_path"), &s("COM4"), None), None);
    assert_eq!(check_field(&s("baud_rate"), &s("9600"), None), Some(FieldIssue::BaudRateUnsupported));
    assert_eq!(check_field(&s("baud_rate"), &s("fast"), None), Some(FieldIssue::BaudRateInvalid));
    assert_eq!(check_field(&s("slave_id"), &s("248"), None), Some(FieldIssue::SlaveIdRange));
    assert_eq!(check_field(&s("slave_id"), &s("300"), None), Some(FieldIssue::SlaveIdInvalid));
    assert_eq!(check_field(&s("sample_rate"), &s("10001"), None), Some(FieldIssue::SampleRateRange));
    assert_eq!(check_field(&s("stream_size"), &s("124"), None), Some(FieldIssue::StreamSizeRange));
    assert_eq!(check_field(&s("timeout_ms"), &s("999"), None), Some(FieldIssue::TimeoutRange));
    assert_eq!(check_field(&s("timeout_ms"), &s("30000"), None), None);
    assert_eq!(check_field(&s("metrics_update_rate_hz"), &s("5.0"), Some(rate(5.0))), None);
    assert_eq!(
        check_field(&s("metrics_update_rate_hz"), &s("5.5"), Some(rate(5.5))),
        Some(FieldIssue::MetricsRateRange)
    );
    assert_eq!(check_field(&s("metrics_update_rate_hz"), &s("x"), None), Some(FieldIssue::MetricsRateInvalid));
    assert_eq!(check_field(&s("unknown"), &s("x"), None), None);
    assert_eq!(FieldIssue::SlaveIdRange.message(), "Slave ID must be between 1 and 247");
}

#[test]
fn field_check_outcomes() {
    let first_wrong = form(&[("slave_id", "0"), ("baud_rate", "1")]);
    assert_eq!(check_fields(&first_wrong, None), FieldCheck::Invalid(FieldIssue::SlaveIdRange));
    let slow = form(&[("sample_rate", "2000"), ("baud_rate", "115200")]);
    assert_eq!(check_fields(&slow, None), FieldCheck::HighSampleRateNeedsFastBaud);
    let fast = form(&[("sample_rate", "2000"), ("baud_rate", "3000000")]);
    assert_eq!(check_fields(&fast, None), FieldCheck::Valid);
    assert_eq!(check_fields(&[], None), FieldCheck::Valid);
}

#[test]
fn rate_comparisons_follow_floating_point() {
    assert!(rate(0.0).lt_tenth());
    assert!(rate(-0.0).lt_tenth());
    assert!(rate(-1.0).lt_tenth());
    assert!(rate(0.05).lt_tenth());
    assert!(rate(f64::NEG_INFINITY).lt_tenth());
    assert!(!rate(0.1).lt_tenth());
    assert!(!rate(2.0).lt_tenth());
    assert!(!rate(f64::NAN).lt_tenth());
    assert!(rate(5.5).gt_five());
    assert!(rate(f64::INFINITY).gt_five());
    assert!(!rate(5.0).gt_five());
    assert!(!rate(f64::NAN).gt_five());
    assert!(rate(0.1).in_tenth_to_five());
    assert!(rate(5.0).in_tenth_to_five());
    assert!(!rate(0.09).in_tenth_to_five());
    assert!(!rate(-0.0).in_tenth_to_five());
    assert!(!rate(f64::NAN).in_tenth_to_five());
    assert_eq!(RateHz::five(), rate(5.0));
    for v in [-3.0, -0.0, 0.0, 0.05, 0.1, 0.2, 4.99, 5.0, 5.01, f64::INFINITY, f64::NEG_INFINITY, f64::NAN] {
        assert_eq!(rate(v).lt_tenth(), v < 0.1, "{v}");
        assert_eq!(rate(v).gt_five(), v > 5.0, "{v}");
        assert_eq!(rate(v).in_tenth_to_five(), (0.1..=5.0).contains(&v), "{v}");
    }
}

#[test]
fn documented_ranges_of_metrics_rate_and_ping_interval() {
    let mut s = good_settings();
    s.metrics_update_rate_hz = rate(0.05);
    s.websocket_ping_interval_sec = 5;
    let e = validate_settings(&s).err().unwrap();
    let fields: Vec<(String, Vec<String>)> = vec![
        ("metrics_update_rate_hz".to_string(), vec!["Metrics update rate must be between 0.1 and 5.0 Hz".to_string()]),
        (
            "websocket_ping_interval_sec".to_string(),
            vec!["WebSocket ping interval must be between 10 and 300 seconds".to_string()],
        ),
    ];
    assert_eq!(e.field_errors, fields);
    s.metrics_update_rate_hz = rate(0.1);
    s.websocket_ping_interval_sec = 300;
    assert!(validate_settings(&s).is_ok());
    s.websocket_ping_interval_sec = 301;
    assert!(validate_settings(&s).is_err());
    assert_eq!(
        check_field(&"metrics_update_rate_hz".to_string(), &"0.05".to_string(), Some(rate(0.05))),
        Some(FieldIssue::MetricsRateRange)
    );
}

#[test]
fn form_shown_for_config_saves_same_config() {
    let config = AppConfig::default();
    let shown = SettingsForm::from_config(&config);
    assert_eq!(shown.sensors.len(), 4);
    assert_eq!(shown.sample_rate, 7812);
    assert_eq!(shown.stream_size, 123);
    assert!(!shown.high_pass_filter);
    let saved = config_with_settings(&config, &shown);
    assert_eq!(saved.sensors.len(), 4);
    assert_eq!(saved.sensors[3].device, "/dev/ttyUSB3");
    assert_eq!(saved.server.port, 3000);
    assert_eq!(saved.streaming.max_connections, config.streaming.max_connections);
    assert_eq!(saved.streaming.raw_data_max_samples, 123);
    assert_eq!(saved.logging.level, "info");
    assert!(saved.validate().is_ok());
}

#[test]
fn applying_changes_sensors_and_streaming_only() {
    let mut config = AppConfig::default();
    config.streaming.raw_data_max_samples = 100;
    let s = good_settings();
    let saved = config_with_settings(&config, &s);
    assert_eq!(saved.sensors.len(), 1);
    assert_eq!(saved.streaming.buffer_size, 1024);
    assert_eq!(saved.streaming.metrics_update_rate_hz, rate(1.0));
    assert_eq!(saved.streaming.raw_data_max_samples, 100);
    assert_eq!(saved.server.cors_origins, vec!["*".to_string()]);
}

#[test]
fn baud_rate_written_only_when_changed() {
    let config = AppConfig::default();
    let mut s = good_settings();
    assert_eq!(baud_rate_change(&s, &config), None);
    s.sensors[0].baud_rate = 3000000;
    assert_eq!(baud_rate_change(&s, &config), Some(3000000));
    s.sensors.clear();
    assert_eq!(baud_rate_change(&s, &config), None);
}

#[test]
fn connection_test_needs_new_connection() {
    let config = AppConfig::default();
    let same = sensor("/dev/ttyUSB0", 115200, 1);
    assert!(!settings_differ(&same, config.sensors.first()));
    assert!(settings_differ(&sensor("/dev/ttyUSB9", 115200, 1), config.sensors.first()));
    assert!(settings_differ(&sensor("/dev/ttyUSB0", 115200, 2), config.sensors.first()));
    assert!(settings_differ(&same, None));
}

#[test]
fn success_feedback_html() {
    let html = render_feedback_success("Saved", "All good", Some(vec!["one".to_string(), "two".to_string()]));
    assert!(html.starts_with("<div class=\"feedback success\">"));
    assert!(html.contains("<h4>Saved</h4>"));
    assert!(html.contains("<p>All good</p>"));
    assert!(html.contains("<div class=\"feedback-details\">one<br>two</div>"));
    let bare = render_feedback_success("T", "M", Some(Vec::new()));
    assert!(!bare.contains("feedback-details"));
    assert_eq!(bare, render_feedback_success("T", "M", None));
}

#[test]
fn error_feedback_html() {
    let mut e = ValidationErrors::new();
    e.add_field_error("slave_id", "too big");
    e.add_field_error("slave_id", "odd");
    e.add_general_error("no sensors");
    let html = render_feedback_error("Failed", "Fix these", Some(e));
    assert!(html.starts_with("<div class=\"feedback error\">"));
    assert!(html.contains("<p>Fix these</p><div class=\"field-errors\"><div class=\"field-error\"><strong>slave_id:</strong> too big, odd</div></div>"));
    assert!(html.ends_with("<div class=\"feedback-details\"><div>no sensors</div></div></div></div>"));
    let plain = render_feedback_error("Failed", "Oops", None);
    assert!(plain.ends_with("<p>Oops</p></div></div>"));
}

#[test]
fn settings_are_written_in_order() {
    let config = AppConfig::default();
    let mut s = good_settings();
    s.stream_size = 60;
    s.high_pass_filter = true;
    assert_eq!(
        settings_writes(&s, &config),
        vec![SensorWrite::SampleRate(1000), SensorWrite::StreamSize(60), SensorWrite::HighPassFilter(true)]
    );
    s.sensors[0].baud_rate = 3000000;
    assert_eq!(settings_writes(&s, &config).last(), Some(&SensorWrite::BaudRate(3000000)));
    assert_eq!(write_outcome(SensorWrite::SampleRate(1000), Ok(())), Ok("Sample rate set to 1000 sps".to_string()));
    assert_eq!(write_outcome(SensorWrite::StreamSize(60), Ok(())), Ok("Stream size set to 60 registers".to_string()));
    assert_eq!(write_outcome(SensorWrite::HighPassFilter(false), Ok(())), Ok("High pass filter: disabled".to_string()));
    assert_eq!(
        write_outcome(SensorWrite::BaudRate(3000000), Ok(())),
        Ok("Baud rate set to 3000000 bps (requires power cycle)".to_string())
    );
    assert_eq!(
        write_outcome(SensorWrite::StreamSize(60), Err("timeout".to_string())),
        Err("Failed to set stream size: timeout".to_string())
    );
}

#[test]
fn repeated_field_errors_share_one_entry() {
    let mut e = ValidationErrors::new();
    e.add_field_error("a", "one");
    e.add_field_error("b", "two");
    e.add_field_error("a", "three");
    assert_eq!(
        e.field_errors,
        vec![
            ("a".to_string(), vec!["one".to_string(), "three".to_string()]),
            ("b".to_string(), vec!["two".to_string()]),
        ]
    );
}
