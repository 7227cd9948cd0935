use modbus_stream::recording::{progress_update_due, rate_log_due, watch_collection};
use modbus_stream::recording::{
    begin_recording, no_progress_message, record_failed, record_finished, record_progress, recording_filename,
    update_overall_active, RecordStartError, RecordingState, RECORD_TARGET,
};

#[test]
fn recording_refused_without_sensors() {
    let mut rec = RecordingState::default();
    assert_eq!(begin_recording(&mut rec, &[false, false]), Err(RecordStartError::NoSensorsConnected));
    assert!(!rec.active);
    assert!(rec.sensors.is_empty());
    assert_eq!(RecordStartError::NoSensorsConnected.message(), "No sensors connected");
}

#[test]
fn recording_starts_connected_sensors() {
    let mut rec = RecordingState::default();
    assert_eq!(rec.total, RECORD_TARGET);
    assert_eq!(begin_recording(&mut rec, &[true, false, true]), Ok(2));
    assert!(rec.active);
    assert_eq!(rec.sensors.len(), 3);
    assert!(rec.sensors[0].active && rec.sensors[2].active);
    assert!(!rec.sensors[1].active);
    assert_eq!(rec.sensors[1].error.as_deref(), Some("Not connected — skipped"));
    assert_eq!(rec.sensors[0].error, None);
    assert_eq!(rec.sensors[0].samples, 0);
}

#[test]
fn second_recording_refused_while_running() {
    let mut rec = RecordingState::default();
    assert_eq!(begin_recording(&mut rec, &[true]), Ok(1));
    assert_eq!(begin_recording(&mut rec, &[true, true]), Err(RecordStartError::AlreadyRecording));
    assert_eq!(rec.sensors.len(), 1);
    assert_eq!(RecordStartError::AlreadyRecording.message(), "Already recording");
}

#[test]
fn last_sensor_to_stop_ends_recording() {
    let mut rec = RecordingState::default();
    begin_recording(&mut rec, &[true, true]).unwrap();
    record_progress(&mut rec, 0, 500);
    assert_eq!(rec.sensors[0].samples, 500);
    assert!(rec.active);
    record_finished(&mut rec, 0, "record_t_sensor1.csv".to_string());
    assert!(rec.active);
    assert_eq!(rec.sensors[0].filename.as_deref(), Some("record_t_sensor1.csv"));
    record_failed(&mut rec, 1, "timeout".to_string());
    assert!(!rec.active);
    assert_eq!(rec.sensors[1].error.as_deref(), Some("timeout"));
    assert_eq!(rec.sensors[0].samples, 500);
}

#[test]
fn overall_flag_follows_sensors() {
    let mut rec = RecordingState::default();
    begin_recording(&mut rec, &[true]).unwrap();
    rec.sensors[0].active = false;
    update_overall_active(&mut rec);
    assert!(!rec.active);
    rec.sensors[0].active = true;
    update_overall_active(&mut rec);
    assert!(rec.active);
}

#[test]
fn recording_file_and_progress_texts() {
    assert_eq!(recording_filename("20240101_120000", 0), "record_20240101_120000_sensor1.csv");
    assert_eq!(recording_filename("t", 3), "record_t_sensor4.csv");
    assert_eq!(no_progress_message(17), "No progress for 60 s — 17 total Modbus errors");
}

#[test]
fn collection_watch_reports_then_aborts() {
    let quiet = watch_collection(5_000_000_000, 5_000_000_000);
    assert!(!quiet.report_stuck && !quiet.abort);
    let stuck = watch_collection(5_000_000_001, 30_000_000_000);
    assert!(stuck.report_stuck && !stuck.abort);
    let dead = watch_collection(5_000_000_001, 60_000_000_001);
    assert!(dead.report_stuck && dead.abort);
    assert!(!watch_collection(0, 60_000_000_000).abort);
    assert!(progress_update_due(0));
    assert!(progress_update_due(78100));
    assert!(!progress_update_due(123));
    assert!(rate_log_due(2000, 1999, 0));
    assert!(!rate_log_due(1999, 1000, 10_000_000_000));
    assert!(rate_log_due(1999, 1000, 10_000_000_001));
}

#[test]
fn recording_starts_whenever_a_sensor_is_connected_and_none_running() {
    let mut rec = RecordingState::default();
    assert_eq!(begin_recording(&mut rec, &[false, false, false, true]), Ok(1));
    assert!(rec.active);
    assert_eq!(rec.sensors.len(), 4);
}
