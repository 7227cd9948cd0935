use modbus_stream::routes::route_for;
use modbus_stream::tss_ml::{flatten_window, prediction_result, MlError, MlModel, DEFAULT_WINDOW};

#[test]
fn interleaved_layout() {
    let samples = [(1, 2, 3), (4, 5, 6)];
    assert_eq!(flatten_window(&samples, 0), vec![1, 2, 3, 4, 5, 6]);
}

#[test]
fn channels_first_layout() {
    let samples = [(1, 2, 3), (4, 5, 6)];
    assert_eq!(flatten_window(&samples, 1), vec![1, 4, 2, 5, 3, 6]);
    assert_eq!(flatten_window(&samples, 7), vec![1, 4, 2, 5, 3, 6]);
}

#[test]
fn window_must_have_expected_length() {
    let model = MlModel { data_tab: 1, n_samples: 2 };
    assert_eq!(model.data_len(), 2);
    assert_eq!(model.prepare_window(&[(1i16, 2, 3)]), Err(MlError::SampleCount(2, 1)));
    assert_eq!(MlError::SampleCount(2, 1).message(), "Model expects 2 samples, got 1");
    assert_eq!(model.prepare_window(&[(1i16, 2, 3), (4, 5, 6)]), Ok(vec![1, 4, 2, 5, 3, 6]));
}

#[test]
fn default_model_layout() {
    let model = MlModel::with_default_layout();
    assert_eq!(model.data_len(), DEFAULT_WINDOW);
    assert_eq!(DEFAULT_WINDOW, 1953);
    assert_eq!(model.data_tab, 0);
}

#[test]
fn named_routes() {
    assert_eq!(route_for("index").as_deref(), Some("/"));
    assert_eq!(route_for("apply_settings").as_deref(), Some("/settings/apply"));
    assert_eq!(route_for("view_latest_raw").as_deref(), Some("/view/latest-raw"));
    assert_eq!(route_for("view_csv").as_deref(), Some("/view/csv"));
    assert_eq!(route_for("nowhere"), None);
    assert_eq!(route_for(""), None);
}

#[test]
fn predictor_answer_becomes_one_based_label() {
    let probs = [0.1f32, 0.2, 0.6, 0.1];
    assert_eq!(prediction_result(0, 2, probs), Ok((3, probs)));
    assert_eq!(prediction_result(0, 0, probs), Ok((1, probs)));
    assert_eq!(prediction_result(-5, 0, probs), Err(MlError::PredictStatus(-5)));
    assert_eq!(prediction_result(7, -1, probs), Err(MlError::PredictStatus(7)));
    assert_eq!(MlError::PredictStatus(-5).message(), "TSS cls_ops.predict() returned status -5");
    assert_eq!(MlError::PredictStatus(12).message(), "TSS cls_ops.predict() returned status 12");
}
