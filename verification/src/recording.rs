//! State of burst recordings: one entry per configured sensor slot, and the
//! overall flag that is set while any sensor is still recording.
use vstd::prelude::*;

use crate::text::{decimal, decimal_text, join2, owned};

verus! {

/// Target sample count per sensor: 10 seconds at 7812 Hz.
pub const RECORD_TARGET: u64 = 78120;

/// Progress of one sensor's recording.
pub struct SensorRecordingState {
    /// The task is still collecting samples.
    pub active: bool,
    /// Samples collected so far.
    pub samples: u64,
    /// Output file name, once the file is written.
    pub filename: Option<String>,
    /// Set when the recording failed.
    pub error: Option<String>,
}

impl Default for SensorRecordingState {
    fn default() -> (s: SensorRecordingState)
        ensures
            !s.active,
            s.samples == 0,
            s.filename is None,
            s.error is None,
    {
        SensorRecordingState { active: false, samples: 0, filename: None, error: None }
    }
}

/// Recording progress over all sensors.
pub struct RecordingState {
    /// At least one sensor task is still running.
    pub active: bool,
    /// Target sample count per sensor.
    pub total: u64,
    /// One entry per configured sensor slot, connected or not.
    pub sensors: Vec<SensorRecordingState>,
}

impl Default for RecordingState {
    fn default() -> (s: RecordingState)
        ensures
            !s.active,
            s.total == RECORD_TARGET,
            s.sensors@.len() == 0,
    {
        RecordingState { active: false, total: RECORD_TARGET, sensors: Vec::new() }
    }
}

pub open spec fn any_active(sensors: Seq<SensorRecordingState>) -> bool {
    exists|i: int| 0 <= i < sensors.len() && (#[trigger] sensors[i]).active
}

/// Sets the overall flag from the sensors: active while any sensor is.
pub fn update_overall_active(rec: &mut RecordingState)
    ensures
        final(rec).active == any_active(final(rec).sensors@),
        final(rec).sensors@ == old(rec).sensors@,
        final(rec).total == old(rec).total,
{
    let n = rec.sensors.len();
    let mut i: usize = 0;
    let mut found = false;
    while i < n
        invariant
            n == rec.sensors@.len(),
            0 <= i <= n,
            found <==> exists|j: int| 0 <= j < i && (#[trigger] rec.sensors@[j]).active,
        decreases n - i,
    {
        if rec.sensors[i].active {
            found = true;
        }
        i = i + 1;
    }
    rec.active = found;
}

/// The recording as a whole is active exactly while some sensor is: one
/// active sensor keeps it active, wherever it stands, and it is over only
/// when every sensor has stopped.
pub proof fn lemma_overall_active_iff_some_sensor(sensors: Seq<SensorRecordingState>)
    ensures
        forall|i: int| 0 <= i < sensors.len() && (#[trigger] sensors[i]).active ==> any_active(
            sensors,
        ),
        (forall|i: int| 0 <= i < sensors.len() ==> !(#[trigger] sensors[i]).active) ==> !any_active(
            sensors,
        ),
{
}

pub open spec fn count_true(s: Seq<bool>) -> nat
    decreases s.len(),
{
    if s.len() == 0 {
        0
    } else {
        count_true(s.drop_last()) + (if s.last() {
            1nat
        } else {
            0nat
        })
    }
}

/// The count of connected sensors is at most the number of slots, and zero
/// exactly when no slot is connected; each connected slot adds one.
pub proof fn lemma_count_true(s: Seq<bool>)
    ensures
        count_true(s) <= s.len(),
        count_true(s) == 0 <==> forall|i: int| 0 <= i < s.len() ==> !#[trigger] s[i],
        count_true(s.push(true)) == count_true(s) + 1,
        count_true(s.push(false)) == count_true(s),
    decreases s.len(),
{
    assert(s.push(true).drop_last() =~= s);
    assert(s.push(false).drop_last() =~= s);
    if s.len() > 0 {
        lemma_count_true(s.drop_last());
        if count_true(s) == 0 {
            assert forall|i: int| 0 <= i < s.len() implies !#[trigger] s[i] by {
                if i < s.len() - 1 {
                    assert(s.drop_last()[i] == s[i]);
                }
            }
        }
        if forall|i: int| 0 <= i < s.len() ==> !#[trigger] s[i] {
            assert forall|i: int| 0 <= i < s.drop_last().len() implies !#[trigger] s.drop_last()[i] by {
                assert(s.drop_last()[i] == s[i]);
            }
            assert(!s[s.len() - 1]);
        }
    }
}

/// Why a recording cannot start.
#[derive(PartialEq, Eq, Structural, Clone, Copy, Debug)]
pub enum RecordStartError {
    NoSensorsConnected,
    AlreadyRecording,
}

impl RecordStartError {
    pub fn message(&self) -> (s: String)
        ensures
            s@ == (match *self {
                RecordStartError::NoSensorsConnected => "No sensors connected"@,
                RecordStartError::AlreadyRecording => "Already recording"@,
            }),
    {
        match self {
            RecordStartError::NoSensorsConnected => owned("No sensors connected"),
            RecordStartError::AlreadyRecording => owned("Already recording"),
        }
    }
}

/// Message kept for a sensor slot that was not connected when recording began.
pub open spec fn skipped_text() -> Seq<char> {
    "Not connected — skipped"@
}

/// The entry of a sensor slot at the start of a recording.
pub open spec fn starts_as(s: SensorRecordingState, connected: bool) -> bool {
    &&& s.active == connected
    &&& s.samples == 0
    &&& s.filename is None
    &&& (if connected {
        s.error is None
    } else {
        s.error matches Some(e) && e@ == skipped_text()
    })
}

/// At the start of a recording a connected slot is active with no samples,
/// file or error; a slot that is not connected is inactive and says it was
/// skipped.
pub proof fn lemma_start_entry(s: SensorRecordingState, connected: bool)
    requires
        starts_as(s, connected),
    ensures
        s.active == connected,
        s.samples == 0,
        s.filename is None,
        connected ==> s.error is None,
        !connected ==> (s.error matches Some(e) && e@ == "Not connected — skipped"@),
{
}

/// Starts a recording over the sensor slots whose connection flags are given:
/// refused when none is connected or a recording is running; otherwise every
/// slot is reset, the connected ones marked active, and their count returned.
pub fn begin_recording(rec: &mut RecordingState, connected: &[bool]) -> (r: Result<
    usize,
    RecordStartError,
>)
    ensures
        count_true(connected@) == 0 ==> r == Err::<usize, RecordStartError>(
            RecordStartError::NoSensorsConnected,
        ),
        count_true(connected@) > 0 && old(rec).active ==> r == Err::<usize, RecordStartError>(
            RecordStartError::AlreadyRecording,
        ),
        count_true(connected@) > 0 && !old(rec).active ==> r is Ok,
        r is Err ==> *final(rec) == *old(rec),
        r matches Ok(n) ==> {
            &&& n == count_true(connected@)
            &&& n > 0
            &&& !old(rec).active
            &&& final(rec).active
            &&& final(rec).total == old(rec).total
            &&& final(rec).sensors@.len() == connected@.len()
            &&& forall|i: int|
                0 <= i < connected@.len() ==> starts_as(
                    #[trigger] final(rec).sensors@[i],
                    connected@[i],
                )
        },
{
    let n = connected.len();
    let mut count: usize = 0;
    let mut i: usize = 0;
    while i < n
        invariant
            n == connected@.len(),
            0 <= i <= n,
            count == count_true(connected@.subrange(0, i as int)),
            count <= i,
        decreases n - i,
    {
        assert(connected@.subrange(0, i + 1).drop_last() =~= connected@.subrange(0, i as int));
        if connected[i] {
            count = count + 1;
        }
        i = i + 1;
    }
    assert(connected@.subrange(0, n as int) =~= connected@);
    if count == 0 {
        return Err(RecordStartError::NoSensorsConnected);
    }
    if rec.active {
        return Err(RecordStartError::AlreadyRecording);
    }
    let mut sensors: Vec<SensorRecordingState> = Vec::new();
    let mut j: usize = 0;
    while j < n
        invariant
            n == connected@.len(),
            0 <= j <= n,
            sensors@.len() == j,
            forall|k: int| 0 <= k < j ==> starts_as(#[trigger] sensors@[k], connected@[k]),
        decreases n - j,
    {
        let on = connected[j];
        let error = if on {
            None
        } else {
            Some(owned("Not connected — skipped"))
        };
        sensors.push(SensorRecordingState { active: on, samples: 0, filename: None, error });
        j = j + 1;
    }
    rec.active = true;
    rec.sensors = sensors;
    Ok(count)
}

/// Records the sample count of the sensor at `idx`.
pub fn record_progress(rec: &mut RecordingState, idx: usize, samples: u64)
    requires
        idx < old(rec).sensors@.len(),
    ensures
        final(rec).active == old(rec).active,
        final(rec).total == old(rec).total,
        final(rec).sensors@.len() == old(rec).sensors@.len(),
        final(rec).sensors@[idx as int].samples == samples,
        final(rec).sensors@[idx as int].active == old(rec).sensors@[idx as int].active,
        final(rec).sensors@[idx as int].filename == old(rec).sensors@[idx as int].filename,
        final(rec).sensors@[idx as int].error == old(rec).sensors@[idx as int].error,
        forall|k: int|
            0 <= k < old(rec).sensors@.len() && k != idx ==> #[trigger] final(rec).sensors@[k]
                == old(rec).sensors@[k],
{
    let mut entry = rec.sensors.remove(idx);
    entry.samples = samples;
    rec.sensors.insert(idx, entry);
}

/// The sensor at `idx` finished and wrote `filename`; the overall flag is
/// recomputed.
pub fn record_finished(rec: &mut RecordingState, idx: usize, filename: String)
    requires
        idx < old(rec).sensors@.len(),
    ensures
        final(rec).total == old(rec).total,
        final(rec).sensors@.len() == old(rec).sensors@.len(),
        !final(rec).sensors@[idx as int].active,
        final(rec).sensors@[idx as int].filename == Some(filename),
        final(rec).sensors@[idx as int].samples == old(rec).sensors@[idx as int].samples,
        final(rec).sensors@[idx as int].error == old(rec).sensors@[idx as int].error,
        forall|k: int|
            0 <= k < old(rec).sensors@.len() && k != idx ==> #[trigger] final(rec).sensors@[k]
                == old(rec).sensors@[k],
        final(rec).active == any_active(final(rec).sensors@),
{
    let mut entry = rec.sensors.remove(idx);
    entry.active = false;
    entry.filename = Some(filename);
    rec.sensors.insert(idx, entry);
    update_overall_active(rec);
}

/// The sensor at `idx` stopped with `error`; the overall flag is recomputed.
pub fn record_failed(rec: &mut RecordingState, idx: usize, error: String)
    requires
        idx < old(rec).sensors@.len(),
    ensures
        final(rec).total == old(rec).total,
        final(rec).sensors@.len() == old(rec).sensors@.len(),
        !final(rec).sensors@[idx as int].active,
        final(rec).sensors@[idx as int].error == Some(error),
        final(rec).sensors@[idx as int].samples == old(rec).sensors@[idx as int].samples,
        final(rec).sensors@[idx as int].filename == old(rec).sensors@[idx as int].filename,
        forall|k: int|
            0 <= k < old(rec).sensors@.len() && k != idx ==> #[trigger] final(rec).sensors@[k]
                == old(rec).sensors@[k],
        final(rec).active == any_active(final(rec).sensors@),
{
    let mut entry = rec.sensors.remove(idx);
    entry.active = false;
    entry.error = Some(error);
    rec.sensors.insert(idx, entry);
    update_overall_active(rec);
}

/// When the last running sensor stops, the recording as a whole is over: if
/// every other sensor had already stopped, finishing or failing the one at
/// `idx` leaves no sensor, and not the recording, active.
pub proof fn lemma_last_sensor_ends_recording(
    before: Seq<SensorRecordingState>,
    after: Seq<SensorRecordingState>,
    idx: int,
)
    requires
        0 <= idx < before.len(),
        after.len() == before.len(),
        !after[idx].active,
        forall|k: int| 0 <= k < before.len() && k != idx ==> #[trigger] after[k] == before[k],
        forall|k: int| 0 <= k < before.len() && k != idx ==> !(#[trigger] before[k]).active,
    ensures
        !any_active(after),
{
    assert forall|k: int| 0 <= k < after.len() implies !(#[trigger] after[k]).active by {
        if k != idx {
            assert(after[k] == before[k]);
        }
    }
}

/// Name of the file that holds sensor `idx`'s samples (sensors numbered from 1).
pub open spec fn recording_file_text(timestamp: Seq<char>, idx: nat) -> Seq<char> {
    "record_"@ + timestamp + "_sensor"@ + decimal_text(idx + 1) + ".csv"@
}

pub fn recording_filename(timestamp: &str, idx: usize) -> (s: String)
    requires
        idx < u64::MAX,
    ensures
        s@ == recording_file_text(timestamp@, idx as nat),
{
    let mut s = join2("record_", timestamp);
    s.append("_sensor");
    s.append(decimal((idx as u64) + 1).as_str());
    s.append(".csv");
    s
}

// ── Watching a collection ────────────────────────────────────────────────────

/// A collection with no new samples for longer than this since the last
/// report is reported as stuck (5 s, in nanoseconds).
pub const STUCK_REPORT_NANOS: u128 = 5_000_000_000;

/// A collection with no new samples for longer than this is abandoned (60 s,
/// in nanoseconds).
pub const NO_PROGRESS_ABORT_NANOS: u128 = 60_000_000_000;

/// The progress rate is logged at least this often (10 s, in nanoseconds).
pub const RATE_LOG_NANOS: u128 = 10_000_000_000;

/// What the watch over a collection decides before the next read.
#[derive(PartialEq, Eq, Structural, Clone, Copy, Debug)]
pub struct WatchDecision {
    /// Report the collection as stuck and restart the report timer.
    pub report_stuck: bool,
    /// Give the recording up.
    pub abort: bool,
}

/// Decides, before each read, from the time since the last new samples or
/// stuck report (`since_report_nanos`) and the time since the last new
/// samples (`since_progress_nanos`): report after more than 5 s, abort after
/// more than 60 s. Both may hold at once; the report comes first.
pub fn watch_collection(since_report_nanos: u128, since_progress_nanos: u128) -> (d: WatchDecision)
    ensures
        d.report_stuck == (since_report_nanos > STUCK_REPORT_NANOS),
        d.abort == (since_progress_nanos > NO_PROGRESS_ABORT_NANOS),
{
    WatchDecision {
        report_stuck: since_report_nanos > STUCK_REPORT_NANOS,
        abort: since_progress_nanos > NO_PROGRESS_ABORT_NANOS,
    }
}

/// The shared sample count is updated at every multiple of 100 samples.
pub fn progress_update_due(collected: u64) -> (b: bool)
    ensures
        b == (collected % 100 == 0),
{
    collected % 100 == 0
}

/// The collection rate is logged when a new thousand of samples is reached
/// since the last log, or more than 10 s have passed since it.
pub fn rate_log_due(collected: u64, last_logged: u64, since_log_nanos: u128) -> (b: bool)
    ensures
        b == (collected / 1000 > last_logged / 1000 || since_log_nanos > RATE_LOG_NANOS),
{
    collected / 1000 > last_logged / 1000 || since_log_nanos > RATE_LOG_NANOS
}

/// Error kept when a sensor made no progress for 60 seconds.
pub fn no_progress_message(total_errors: u64) -> (s: String)
    ensures
        s@ == "No progress for 60 s — "@ + decimal_text(total_errors as nat)
            + " total Modbus errors"@,
{
    let mut s = join2("No progress for 60 s — ", decimal(total_errors).as_str());
    s.append(" total Modbus errors");
    s
}

} // verus!
