//! The input side of the time-series classifier: its window length and the
//! layout in which a window of XYZ samples is handed to it.
use vstd::prelude::*;

use crate::text::{decimal, decimal_text, join2, signed_decimal, signed_decimal_text};

verus! {

/// Window length the model reports when its attributes cannot be read.
pub const DEFAULT_WINDOW: usize = 1953;

/// Attributes of the loaded classifier.
pub struct MlModel {
    /// 0: interleaved `[x0, y0, z0, x1, …]`; otherwise channels first
    /// `[x0 … xN, y0 … yN, z0 … zN]`.
    pub data_tab: u32,
    /// Samples per inference window.
    pub n_samples: usize,
}

/// Why a window cannot be classified.
#[derive(PartialEq, Eq, Structural, Clone, Copy, Debug)]
pub enum MlError {
    /// The model expects this many samples and got that many.
    SampleCount(usize, usize),
    /// The predictor returned this non-zero status.
    PredictStatus(i32),
}

impl MlError {
    pub fn message(&self) -> (s: String)
        ensures
            s@ == (match *self {
                MlError::SampleCount(e, g) => "Model expects "@ + decimal_text(e as nat)
                    + " samples, got "@ + decimal_text(g as nat),
                MlError::PredictStatus(st) => "TSS cls_ops.predict() returned status "@
                    + signed_decimal_text(st as int),
            }),
    {
        match self {
            MlError::SampleCount(e, g) => {
                let mut s = join2("Model expects ", decimal(*e as u64).as_str());
                s.append(" samples, got ");
                s.append(decimal(*g as u64).as_str());
                s
            },
            MlError::PredictStatus(st) => {
                join2("TSS cls_ops.predict() returned status ", signed_decimal(*st).as_str())
            },
        }
    }
}

/// `flat` holds the samples in the model's layout.
pub open spec fn is_layout_of<T>(flat: Seq<T>, samples: Seq<(T, T, T)>, data_tab: u32) -> bool {
    let n = samples.len();
    &&& flat.len() == 3 * n
    &&& if data_tab == 0 {
        forall|k: int|
            0 <= k < n ==> {
                &&& flat[3 * k] == (#[trigger] samples[k]).0
                &&& flat[3 * k + 1] == samples[k].1
                &&& flat[3 * k + 2] == samples[k].2
            }
    } else {
        forall|k: int|
            0 <= k < n ==> {
                &&& flat[k] == (#[trigger] samples[k]).0
                &&& flat[n + k] == samples[k].1
                &&& flat[2 * n + k] == samples[k].2
            }
    }
}

/// Flattens a window of samples into the layout `data_tab` names.
pub fn flatten_window<T: Copy>(samples: &[(T, T, T)], data_tab: u32) -> (flat: Vec<T>)
    requires
        3 * samples@.len() <= usize::MAX,
    ensures
        is_layout_of(flat@, samples@, data_tab),
{
    let n = samples.len();
    let mut flat: Vec<T> = Vec::new();
    if data_tab == 0 {
        let mut k: usize = 0;
        while k < n
            invariant
                n == samples@.len(),
                0 <= k <= n,
                flat@.len() == 3 * k,
                forall|j: int|
                    0 <= j < k ==> {
                        &&& flat@[3 * j] == (#[trigger] samples@[j]).0
                        &&& flat@[3 * j + 1] == samples@[j].1
                        &&& flat@[3 * j + 2] == samples@[j].2
                    },
            decreases n - k,
        {
            let (x, y, z) = samples[k];
            flat.push(x);
            flat.push(y);
            flat.push(z);
            k = k + 1;
        }
    } else {
        let mut k: usize = 0;
        while k < n
            invariant
                n == samples@.len(),
                0 <= k <= n,
                flat@.len() == k,
                forall|j: int| 0 <= j < k ==> flat@[j] == (#[trigger] samples@[j]).0,
            decreases n - k,
        {
            flat.push(samples[k].0);
            k = k + 1;
        }
        let mut k: usize = 0;
        while k < n
            invariant
                n == samples@.len(),
                0 <= k <= n,
                flat@.len() == n + k,
                forall|j: int| 0 <= j < n ==> flat@[j] == (#[trigger] samples@[j]).0,
                forall|j: int| 0 <= j < k ==> flat@[n + j] == (#[trigger] samples@[j]).1,
            decreases n - k,
        {
            flat.push(samples[k].1);
            k = k + 1;
        }
        let mut k: usize = 0;
        while k < n
            invariant
                n == samples@.len(),
                0 <= k <= n,
                flat@.len() == 2 * n + k,
                forall|j: int| 0 <= j < n ==> flat@[j] == (#[trigger] samples@[j]).0,
                forall|j: int| 0 <= j < n ==> flat@[n + j] == (#[trigger] samples@[j]).1,
                forall|j: int| 0 <= j < k ==> flat@[2 * n + j] == (#[trigger] samples@[j]).2,
            decreases n - k,
        {
            flat.push(samples[k].2);
            k = k + 1;
        }
    }
    flat
}

impl MlModel {
    /// The attributes assumed when the model does not report its own:
    /// interleaved layout, 1953 samples.
    pub fn with_default_layout() -> (m: MlModel)
        ensures
            m.data_tab == 0,
            m.n_samples == DEFAULT_WINDOW,
    {
        MlModel { data_tab: 0, n_samples: DEFAULT_WINDOW }
    }

    /// Number of samples the model expects per inference window.
    pub fn data_len(&self) -> (n: usize)
        ensures
            n == self.n_samples,
    {
        self.n_samples
    }

    /// The model's input for a window: refused unless the window has exactly
    /// the expected number of samples, else flattened in the model's layout.
    pub fn prepare_window<T: Copy>(&self, samples: &[(T, T, T)]) -> (r: Result<Vec<T>, MlError>)
        requires
            3 * samples@.len() <= usize::MAX,
        ensures
            samples@.len() != self.n_samples ==> r == Err::<Vec<T>, MlError>(
                MlError::SampleCount(self.n_samples, samples@.len() as usize),
            ),
            samples@.len() == self.n_samples ==> (r matches Ok(flat) && is_layout_of(
                flat@,
                samples@,
                self.data_tab,
            )),
    {
        if samples.len() != self.n_samples {
            return Err(MlError::SampleCount(self.n_samples, samples.len()));
        }
        Ok(flatten_window(samples, self.data_tab))
    }
}

/// The classifier's answer from what the predictor reported: an error for a
/// non-zero status, else the 1-based class label (the predictor counts from
/// 0) with the probabilities it filled in.
pub fn prediction_result<P>(status: i32, class_index: i32, probabilities: P) -> (r: Result<
    (u32, P),
    MlError,
>)
    requires
        status == 0 ==> class_index >= 0,
    ensures
        status != 0 ==> r == Err::<(u32, P), MlError>(MlError::PredictStatus(status)),
        status == 0 ==> r == Ok::<(u32, P), MlError>(((class_index + 1) as u32, probabilities)),
{
    if status != 0 {
        return Err(MlError::PredictStatus(status));
    }
    Ok(((class_index as u32) + 1, probabilities))
}

} // verus!
