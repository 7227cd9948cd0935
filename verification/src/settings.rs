//! The settings form: reading it from submitted fields, checking it, and the
//! configuration it leads to.
use vstd::prelude::*;

use crate::config::{
    five_hz_bits, gt_positive, lt_positive, tenth_hz_bits, AppConfig, LoggingConfig, ModbusConfig, RateHz,
    ServerConfig, StreamingConfig,
};
use crate::text::{
    blank, decimal, decimal_text, has_prefix, is_blank, join2, owned, parse_unsigned,
    spec_parse_unsigned, starts_with,
};
use crate::types::{distinct_fields, fields_view, record_all, record_error, SensorConnectionForm, SettingsForm, ValidationErrors};

verus! {

// ── Submitted fields ─────────────────────────────────────────────────────────

/// The value submitted under `key`: that of the first entry with this name.
pub open spec fn form_lookup(form: Seq<(String, String)>, key: Seq<char>) -> Option<Seq<char>>
    decreases form.len(),
{
    if form.len() == 0 {
        None
    } else if form[0].0@ == key {
        Some(form[0].1@)
    } else {
        form_lookup(form.drop_first(), key)
    }
}

/// The value under `key` read as an unsigned integer not above `max`.
pub open spec fn lookup_parse(form: Seq<(String, String)>, key: Seq<char>, max: nat) -> Option<
    nat,
> {
    match form_lookup(form, key) {
        Some(v) => spec_parse_unsigned(v, max),
        None => None,
    }
}

/// The value under `key` read as an unsigned integer, or `default` when it is
/// missing or does not read.
pub open spec fn parsed_or(form: Seq<(String, String)>, key: Seq<char>, max: nat, default: nat) -> nat {
    match lookup_parse(form, key, max) {
        Some(n) => n,
        None => default,
    }
}

pub fn form_get<'a>(form: &'a [(String, String)], key: &String) -> (r: Option<&'a String>)
    ensures
        r matches Some(v) ==> form_lookup(form@, key@) == Some(v@),
        r is None ==> form_lookup(form@, key@) is None,
{
    let n = form.len();
    let mut i: usize = 0;
    assert(form@.skip(0) =~= form@);
    while i < n
        invariant
            n == form@.len(),
            0 <= i <= n,
            form_lookup(form@, key@) == form_lookup(form@.skip(i as int), key@),
        decreases n - i,
    {
        assert(form@.skip(i as int)[0] == form@[i as int]);
        assert(form@.skip(i as int).drop_first() =~= form@.skip(i + 1));
        if form[i].0 == *key {
            return Some(&form[i].1);
        }
        i = i + 1;
    }
    None
}

/// The value under `key` read as an unsigned integer not above `max`.
pub fn get_unsigned(form: &[(String, String)], key: &String, max: u64) -> (r: Option<u64>)
    ensures
        r matches Some(n) ==> lookup_parse(form@, key@, max as nat) == Some(n as nat),
        r is None ==> lookup_parse(form@, key@, max as nat) is None,
{
    match form_get(form, key) {
        Some(v) => parse_unsigned(v.as_str(), max),
        None => None,
    }
}

/// The value under `key` read as an unsigned integer, or `default`.
pub fn get_unsigned_or(form: &[(String, String)], key: &String, max: u64, default: u64) -> (r: u64)
    requires
        default <= max,
    ensures
        r as nat == parsed_or(form@, key@, max as nat, default as nat),
        r <= max,
{
    match get_unsigned(form, key, max) {
        Some(n) => {
            proof {
                crate::text::lemma_parse_unsigned_bound(form_lookup(form@, key@)->0, max as nat);
            }
            n
        },
        None => default,
    }
}

// ── Reading the form ─────────────────────────────────────────────────────────

/// Number of sensor slots the form offers.
pub const SENSOR_SLOTS: usize = 4;

/// Name of the field `suffix` of sensor slot `i`, such as `sensor_0_device`.
pub open spec fn slot_key(i: nat, suffix: Seq<char>) -> Seq<char> {
    "sensor_"@ + decimal_text(i) + suffix
}

pub fn slot_key_string(i: usize, suffix: &str) -> (s: String)
    ensures
        s@ == slot_key(i as nat, suffix@),
{
    let mut s = join2("sensor_", decimal(i as u64).as_str());
    s.append(suffix);
    s
}

/// Slot `i` names a device (a non-empty device field).
pub open spec fn slot_present(form: Seq<(String, String)>, i: nat) -> bool {
    form_lookup(form, slot_key(i, "_device"@)) matches Some(d) && d.len() > 0
}

/// The slots, in order, among the first `n` that name a device.
pub open spec fn present_slots(form: Seq<(String, String)>, n: nat) -> Seq<nat>
    decreases n,
{
    if n == 0 {
        Seq::empty()
    } else {
        present_slots(form, (n - 1) as nat) + (if slot_present(form, (n - 1) as nat) {
            seq![(n - 1) as nat]
        } else {
            Seq::empty()
        })
    }
}

/// `s` holds the connection settings of slot `i`, each missing or unreadable
/// number replaced by its default (115200 bps, slave 1, 5000 ms, 3 retries).
pub open spec fn slot_settings(s: SensorConnectionForm, form: Seq<(String, String)>, i: nat) -> bool {
    &&& form_lookup(form, slot_key(i, "_device"@)) == Some(s.device@)
    &&& s.baud_rate == parsed_or(form, slot_key(i, "_baud_rate"@), u32::MAX as nat, 115200)
    &&& s.slave_id == parsed_or(form, slot_key(i, "_slave_id"@), u8::MAX as nat, 1)
    &&& s.timeout_ms == parsed_or(form, slot_key(i, "_timeout_ms"@), u64::MAX as nat, 5000)
    &&& s.retry_attempts == parsed_or(form, slot_key(i, "_retry_attempts"@), u8::MAX as nat, 3)
}

/// The field reads as an unsigned integer not above `max`.
pub open spec fn field_reads(form: Seq<(String, String)>, name: Seq<char>, max: nat) -> bool {
    lookup_parse(form, name, max) is Some
}

pub open spec fn if_fails(ok: bool, name: Seq<char>) -> Seq<Seq<char>> {
    if ok {
        Seq::empty()
    } else {
        seq![name]
    }
}

/// The numeric fields that do not read, in the order they are read.
pub open spec fn failing_fields(form: Seq<(String, String)>, rate: Option<RateHz>) -> Seq<Seq<char>> {
    if_fails(field_reads(form, "sample_rate"@, u16::MAX as nat), "sample_rate"@) + if_fails(
        field_reads(form, "stream_size"@, u16::MAX as nat),
        "stream_size"@,
    ) + if_fails(field_reads(form, "max_connections"@, usize::MAX as nat), "max_connections"@)
        + if_fails(field_reads(form, "buffer_size"@, usize::MAX as nat), "buffer_size"@)
        + if_fails(rate is Some, "metrics_update_rate_hz"@) + if_fails(
        field_reads(form, "websocket_ping_interval_sec"@, u64::MAX as nat),
        "websocket_ping_interval_sec"@,
    )
}

/// The expected (field, message) entries for the fields that do not read.
pub open spec fn invalid_field_entries(names: Seq<Seq<char>>) -> Seq<(Seq<char>, Seq<char>)> {
    names.map_values(|n: Seq<char>| (n, "Invalid "@ + n))
}

/// The field errors are those of recording each expected (field, message)
/// in turn.
pub open spec fn entries_match(
    entries: Seq<(String, Vec<String>)>,
    expected: Seq<(Seq<char>, Seq<char>)>,
) -> bool {
    fields_view(entries) == record_all(expected)
}

/// `after` is `before` with the message `msg` recorded for `name`.
pub open spec fn appended_entry(
    before: Seq<(String, Vec<String>)>,
    after: Seq<(String, Vec<String>)>,
    name: Seq<char>,
    msg: Seq<char>,
) -> bool {
    fields_view(after) == record_error(fields_view(before), name, msg)
}

proof fn lemma_entries_append(
    before: Seq<(String, Vec<String>)>,
    after: Seq<(String, Vec<String>)>,
    expected: Seq<(Seq<char>, Seq<char>)>,
    name: Seq<char>,
    msg: Seq<char>,
)
    requires
        entries_match(before, expected),
        appended_entry(before, after, name, msg),
    ensures
        entries_match(after, expected.push((name, msg))),
{
    assert(expected.push((name, msg)).drop_last() =~= expected);
}

/// Records `msg` for the field `name`.
fn push_field_error(errors: &mut ValidationErrors, name: String, msg: String)
    ensures
        appended_entry(old(errors).field_errors@, final(errors).field_errors@, name@, msg@),
        final(errors).general_errors@ == old(errors).general_errors@,
{
    errors.add_field_error(name.as_str(), msg.as_str());
}

proof fn lemma_entries_empty(entries: Seq<(String, Vec<String>)>, expected: Seq<(Seq<char>, Seq<char>)>)
    requires
        entries_match(entries, expected),
    ensures
        entries.len() == 0 <==> expected.len() == 0,
{
    assert(fields_view(entries).len() == entries.len());
    crate::types::lemma_record_all_empty(expected);
}

/// The field errors of a fresh collection match no expected entry.
proof fn lemma_no_entries(entries: Seq<(String, Vec<String>)>)
    requires
        entries.len() == 0,
    ensures
        entries_match(entries, Seq::empty()),
{
    assert(fields_view(entries) =~= Seq::<(Seq<char>, Seq<Seq<char>>)>::empty());
}

/// Reads field `name` as an unsigned integer not above `max`; when it does
/// not read, records "Invalid `name`" and yields `default`.
fn read_field(
    form: &[(String, String)],
    name: &str,
    max: u64,
    default: u64,
    errors: &mut ValidationErrors,
) -> (v: u64)
    requires
        default <= max,
    ensures
        v as nat == parsed_or(form@, name@, max as nat, default as nat),
        v <= max,
        field_reads(form@, name@, max as nat) ==> final(errors).field_errors@ == old(
            errors,
        ).field_errors@,
        !field_reads(form@, name@, max as nat) ==> appended_entry(
            old(errors).field_errors@,
            final(errors).field_errors@,
            name@,
            "Invalid "@ + name@,
        ),
        final(errors).general_errors@ == old(errors).general_errors@,
{
    let key = owned(name);
    match get_unsigned(form, &key, max) {
        Some(n) => {
            proof {
                crate::text::lemma_parse_unsigned_bound(form_lookup(form@, name@)->0, max as nat);
            }
            n
        },
        None => {
            push_field_error(errors, key, join2("Invalid ", name));
            default
        },
    }
}

/// The message kept when no sensor slot names a device.
pub open spec fn no_sensor_text() -> Seq<char> {
    "At least one sensor must be configured"@
}

/// Reads the settings form from its submitted fields.
///
/// Sensor slots 0 to 3 whose device field is present and non-empty become
/// sensors, in slot order. The numeric fields are read as unsigned integers;
/// `metrics_rate` is the floating-point reading of `metrics_update_rate_hz`
/// (`None` when that field is missing or does not read). The form is refused
/// when no slot names a device or a numeric field does not read, and the
/// errors say which.
pub fn parse_form_data(form: &[(String, String)], metrics_rate: Option<RateHz>) -> (r: Result<
    SettingsForm,
    ValidationErrors,
>)
    ensures
        ({
            let slots = present_slots(form@, 4);
            let failing = failing_fields(form@, metrics_rate);
            &&& r is Ok <==> (slots.len() > 0 && failing.len() == 0)
            &&& r matches Ok(f) ==> {
                &&& f.sensors@.len() == slots.len()
                &&& forall|k: int|
                    0 <= k < slots.len() ==> slot_settings(
                        #[trigger] f.sensors@[k],
                        form@,
                        slots[k],
                    )
                &&& f.sample_rate as nat == parsed_or(form@, "sample_rate"@, u16::MAX as nat, 7812)
                &&& f.stream_size as nat == parsed_or(form@, "stream_size"@, u16::MAX as nat, 123)
                &&& f.high_pass_filter == form_lookup(form@, "high_pass_filter"@) is Some
                &&& f.max_connections as nat == parsed_or(
                    form@,
                    "max_connections"@,
                    usize::MAX as nat,
                    10,
                )
                &&& f.buffer_size as nat == parsed_or(form@, "buffer_size"@, usize::MAX as nat, 1024)
                &&& metrics_rate == Some(f.metrics_update_rate_hz)
                &&& f.websocket_ping_interval_sec as nat == parsed_or(
                    form@,
                    "websocket_ping_interval_sec"@,
                    u64::MAX as nat,
                    30,
                )
            }
            &&& r matches Err(e) ==> {
                &&& (slots.len() == 0 ==> e.general_errors@.len() == 1
                    && e.general_errors@[0]@ == no_sensor_text())
                &&& (slots.len() > 0 ==> e.general_errors@.len() == 0)
                &&& entries_match(e.field_errors@, invalid_field_entries(failing))
                &&& distinct_fields(fields_view(e.field_errors@))
            }
        }),
{
    let mut errors = ValidationErrors::new();
    let mut sensors: Vec<SensorConnectionForm> = Vec::new();
    let mut i: usize = 0;
    while i < SENSOR_SLOTS
        invariant
            0 <= i <= 4,
            sensors@.len() == present_slots(form@, i as nat).len(),
            forall|k: int|
                0 <= k < sensors@.len() ==> slot_settings(
                    #[trigger] sensors@[k],
                    form@,
                    present_slots(form@, i as nat)[k],
                ),
        decreases 4 - i,
    {
        let ghost before = sensors@;
        let device_key = slot_key_string(i, "_device");
        match form_get(form, &device_key) {
            Some(device) => {
                if !device.as_str().is_empty() {
                    let baud_rate = get_unsigned_or(
                        form,
                        &slot_key_string(i, "_baud_rate"),
                        u32::MAX as u64,
                        115200,
                    ) as u32;
                    let slave_id = get_unsigned_or(
                        form,
                        &slot_key_string(i, "_slave_id"),
                        u8::MAX as u64,
                        1,
                    ) as u8;
                    let timeout_ms = get_unsigned_or(
                        form,
                        &slot_key_string(i, "_timeout_ms"),
                        u64::MAX,
                        5000,
                    );
                    let retry_attempts = get_unsigned_or(
                        form,
                        &slot_key_string(i, "_retry_attempts"),
                        u8::MAX as u64,
                        3,
                    ) as u8;
                    sensors.push(
                        SensorConnectionForm {
                            device: device.clone(),
                            baud_rate,
                            slave_id,
                            timeout_ms,
                            retry_attempts,
                        },
                    );
                }
            },
            None => {},
        }
        proof {
            let p = present_slots(form@, i as nat);
            let q = present_slots(form@, (i + 1) as nat);
            assert(q == p + (if slot_present(form@, i as nat) {
                seq![i as nat]
            } else {
                Seq::empty()
            }));
            assert forall|k: int| 0 <= k < sensors@.len() implies slot_settings(
                #[trigger] sensors@[k],
                form@,
                q[k],
            ) by {
                if k < before.len() {
                    assert(sensors@[k] == before[k]);
                    assert(q[k] == p[k]);
                }
            }
        }
        i = i + 1;
    }
    let no_sensors = sensors.len() == 0;
    if no_sensors {
        errors.add_general_error("At least one sensor must be configured");
    }
    let ghost e0 = errors.field_errors@;
    proof {
        lemma_no_entries(e0);
        assert(invalid_field_entries(Seq::empty()) =~= Seq::<(Seq<char>, Seq<char>)>::empty());
    }
    let sample_rate = read_field(form, "sample_rate", u16::MAX as u64, 7812, &mut errors) as u16;
    let ghost n1 = Seq::<Seq<char>>::empty() + if_fails(field_reads(form@, "sample_rate"@, u16::MAX as nat), "sample_rate"@);
    proof {
        lemma_step(e0, errors.field_errors@, Seq::empty(), form@, "sample_rate"@, u16::MAX as nat, field_reads(form@, "sample_rate"@, u16::MAX as nat));
    }
    let ghost e1 = errors.field_errors@;
    let stream_size = read_field(form, "stream_size", u16::MAX as u64, 123, &mut errors) as u16;
    let ghost n2 = n1 + if_fails(field_reads(form@, "stream_size"@, u16::MAX as nat), "stream_size"@);
    proof {
        lemma_step(e1, errors.field_errors@, n1, form@, "stream_size"@, u16::MAX as nat, field_reads(form@, "stream_size"@, u16::MAX as nat));
    }
    let ghost e2 = errors.field_errors@;
    let max_connections = read_field(form, "max_connections", usize::MAX as u64, 10, &mut errors) as usize;
    let ghost n3 = n2 + if_fails(field_reads(form@, "max_connections"@, usize::MAX as nat), "max_connections"@);
    proof {
        lemma_step(e2, errors.field_errors@, n2, form@, "max_connections"@, usize::MAX as nat, field_reads(form@, "max_connections"@, usize::MAX as nat));
    }
    let ghost e3 = errors.field_errors@;
    let buffer_size = read_field(form, "buffer_size", usize::MAX as u64, 1024, &mut errors) as usize;
    let ghost n4 = n3 + if_fails(field_reads(form@, "buffer_size"@, usize::MAX as nat), "buffer_size"@);
    proof {
        lemma_step(e3, errors.field_errors@, n3, form@, "buffer_size"@, usize::MAX as nat, field_reads(form@, "buffer_size"@, usize::MAX as nat));
    }
    let ghost e4 = errors.field_errors@;
    let metrics_update_rate_hz = match metrics_rate {
        Some(rate) => rate,
        None => {
            push_field_error(
                &mut errors,
                owned("metrics_update_rate_hz"),
                join2("Invalid ", "metrics_update_rate_hz"),
            );
            RateHz::five()
        },
    };
    let ghost n5 = n4 + if_fails(metrics_rate is Some, "metrics_update_rate_hz"@);
    proof {
        lemma_step(e4, errors.field_errors@, n4, form@, "metrics_update_rate_hz"@, 0, metrics_rate is Some);
    }
    let ghost e5 = errors.field_errors@;
    let websocket_ping_interval_sec = read_field(
        form,
        "websocket_ping_interval_sec",
        u64::MAX,
        30,
        &mut errors,
    );
    proof {
        lemma_step(e5, errors.field_errors@, n5, form@, "websocket_ping_interval_sec"@, u64::MAX as nat, field_reads(form@, "websocket_ping_interval_sec"@, u64::MAX as nat));
        assert(n5 + if_fails(field_reads(form@, "websocket_ping_interval_sec"@, u64::MAX as nat), "websocket_ping_interval_sec"@) =~= failing_fields(form@, metrics_rate));
        lemma_entries_empty(errors.field_errors@, invalid_field_entries(failing_fields(form@, metrics_rate)));
        crate::types::lemma_recorded_fields_distinct(invalid_field_entries(failing_fields(form@, metrics_rate)));
    }
    let high_pass_filter = form_get(form, &owned("high_pass_filter")).is_some();
    if errors.has_errors() {
        return Err(errors);
    }
    Ok(
        SettingsForm {
            sensors,
            sample_rate,
            stream_size,
            high_pass_filter,
            max_connections,
            buffer_size,
            metrics_update_rate_hz,
            websocket_ping_interval_sec,
        },
    )
}

proof fn lemma_step(
    before: Seq<(String, Vec<String>)>,
    after: Seq<(String, Vec<String>)>,
    names: Seq<Seq<char>>,
    form: Seq<(String, String)>,
    name: Seq<char>,
    max: nat,
    ok: bool,
)
    requires
        entries_match(before, invalid_field_entries(names)),
        ok ==> after == before,
        !ok ==> appended_entry(before, after, name, "Invalid "@ + name),
    ensures
        entries_match(after, invalid_field_entries(names + if_fails(ok, name))),
{
    if !ok {
        lemma_entries_append(before, after, invalid_field_entries(names), name, "Invalid "@ + name);
        assert(invalid_field_entries(names + if_fails(ok, name)) =~= invalid_field_entries(
            names,
        ).push((name, "Invalid "@ + name)));
    } else {
        assert(names + if_fails(ok, name) =~= names);
    }
}

// ── Checking the form ────────────────────────────────────────────────────────

pub open spec fn issue_if(bad: bool, key: Seq<char>, msg: Seq<char>) -> Seq<(Seq<char>, Seq<char>)> {
    if bad {
        seq![(key, msg)]
    } else {
        Seq::empty()
    }
}

/// The (field, message) errors of sensor `i`'s connection settings.
pub open spec fn sensor_issues(i: nat, s: SensorConnectionForm) -> Seq<(Seq<char>, Seq<char>)> {
    issue_if(is_blank(s.device@), slot_key(i, "_device"@), "Device path cannot be empty"@)
        + issue_if(
        !(s.baud_rate == 115200 || s.baud_rate == 3000000),
        slot_key(i, "_baud_rate"@),
        "Baud rate must be 115200 or 3000000 bps"@,
    ) + issue_if(
        s.slave_id == 0 || s.slave_id > 247,
        slot_key(i, "_slave_id"@),
        "Slave ID must be between 1 and 247"@,
    ) + issue_if(
        s.timeout_ms < 1000 || s.timeout_ms > 30000,
        slot_key(i, "_timeout_ms"@),
        "Timeout must be between 1000 and 30000 ms"@,
    ) + issue_if(
        s.retry_attempts == 0 || s.retry_attempts > 10,
        slot_key(i, "_retry_attempts"@),
        "Retry attempts must be between 1 and 10"@,
    )
}

/// The errors of the first `n` sensors, sensor by sensor.
pub open spec fn sensors_issues(sensors: Seq<SensorConnectionForm>, n: nat) -> Seq<
    (Seq<char>, Seq<char>),
>
    decreases n,
{
    if n == 0 {
        Seq::empty()
    } else {
        sensors_issues(sensors, (n - 1) as nat) + sensor_issues((n - 1) as nat, sensors[n - 1])
    }
}

/// `x < 0.1 || x > 5.0` for the encoded rate `x`.
pub open spec fn rate_out_of_range(rate: RateHz) -> bool {
    lt_positive(rate.bits, tenth_hz_bits()) || gt_positive(rate.bits, five_hz_bits())
}

/// The errors of the sample rate and stream size.
pub open spec fn sampling_issues(f: SettingsForm) -> Seq<(Seq<char>, Seq<char>)> {
    issue_if(
        f.sample_rate == 0 || f.sample_rate > 10000,
        "sample_rate"@,
        "Sample rate must be between 1 and 10000 sps"@,
    ) + issue_if(
        f.stream_size == 0 || f.stream_size > 123,
        "stream_size"@,
        "Stream size must be between 1 and 123 registers"@,
    )
}

/// The errors of the streaming settings.
pub open spec fn streaming_issues(f: SettingsForm) -> Seq<(Seq<char>, Seq<char>)> {
    issue_if(
        f.max_connections == 0 || f.max_connections > 50,
        "max_connections"@,
        "Max connections must be between 1 and 50"@,
    ) + issue_if(
        f.buffer_size < 256 || f.buffer_size > 8192,
        "buffer_size"@,
        "Buffer size must be between 256 and 8192"@,
    ) + issue_if(
        rate_out_of_range(f.metrics_update_rate_hz),
        "metrics_update_rate_hz"@,
        "Metrics update rate must be between 0.1 and 5.0 Hz"@,
    ) + issue_if(
        f.websocket_ping_interval_sec < 10 || f.websocket_ping_interval_sec > 300,
        "websocket_ping_interval_sec"@,
        "WebSocket ping interval must be between 10 and 300 seconds"@,
    )
}

/// The errors of the settings that apply to all sensors.
pub open spec fn global_issues(f: SettingsForm) -> Seq<(Seq<char>, Seq<char>)> {
    sampling_issues(f) + streaming_issues(f)
}

/// All errors of a settings form, per sensor first, then the shared settings.
pub open spec fn settings_issues(f: SettingsForm) -> Seq<(Seq<char>, Seq<char>)> {
    sensors_issues(f.sensors@, f.sensors@.len()) + global_issues(f)
}

proof fn lemma_issue_step(
    before: Seq<(String, Vec<String>)>,
    after: Seq<(String, Vec<String>)>,
    expected: Seq<(Seq<char>, Seq<char>)>,
    bad: bool,
    key: Seq<char>,
    msg: Seq<char>,
)
    requires
        entries_match(before, expected),
        !bad ==> after == before,
        bad ==> appended_entry(before, after, key, msg),
    ensures
        entries_match(after, expected + issue_if(bad, key, msg)),
{
    if bad {
        lemma_entries_append(before, after, expected, key, msg);
        assert(expected + issue_if(bad, key, msg) =~= expected.push((key, msg)));
    } else {
        assert(expected + issue_if(bad, key, msg) =~= expected);
    }
}

/// Records the error `msg` under `key` when `bad`; the expected entries grow
/// by that one entry exactly when it is recorded.
fn check(
    errors: &mut ValidationErrors,
    bad: bool,
    key: String,
    msg: &str,
    Ghost(expected): Ghost<Seq<(Seq<char>, Seq<char>)>>,
)
    requires
        entries_match(old(errors).field_errors@, expected),
    ensures
        entries_match(final(errors).field_errors@, expected + issue_if(bad, key@, msg@)),
        final(errors).general_errors@ == old(errors).general_errors@,
{
    let ghost before = errors.field_errors@;
    let ghost k = key@;
    if bad {
        push_field_error(errors, key, owned(msg));
    }
    proof {
        lemma_issue_step(before, errors.field_errors@, expected, bad, k, msg@);
    }
}

/// Records the errors of sensor `i`'s connection settings.
fn check_sensor(
    errors: &mut ValidationErrors,
    i: usize,
    sensor: &SensorConnectionForm,
    Ghost(x0): Ghost<Seq<(Seq<char>, Seq<char>)>>,
)
    requires
        entries_match(old(errors).field_errors@, x0),
    ensures
        entries_match(final(errors).field_errors@, x0 + sensor_issues(i as nat, *sensor)),
        final(errors).general_errors@ == old(errors).general_errors@,
{
    let ghost x1 = x0 + issue_if(
        is_blank(sensor.device@),
        slot_key(i as nat, "_device"@),
        "Device path cannot be empty"@,
    );
    let ghost x2 = x1 + issue_if(
        !(sensor.baud_rate == 115200 || sensor.baud_rate == 3000000),
        slot_key(i as nat, "_baud_rate"@),
        "Baud rate must be 115200 or 3000000 bps"@,
    );
    let ghost x3 = x2 + issue_if(
        sensor.slave_id == 0 || sensor.slave_id > 247,
        slot_key(i as nat, "_slave_id"@),
        "Slave ID must be between 1 and 247"@,
    );
    let ghost x4 = x3 + issue_if(
        sensor.timeout_ms < 1000 || sensor.timeout_ms > 30000,
        slot_key(i as nat, "_timeout_ms"@),
        "Timeout must be between 1000 and 30000 ms"@,
    );
    let ghost x5 = x4 + issue_if(
        sensor.retry_attempts == 0 || sensor.retry_attempts > 10,
        slot_key(i as nat, "_retry_attempts"@),
        "Retry attempts must be between 1 and 10"@,
    );
    check(
        errors,
        blank(sensor.device.as_str()),
        slot_key_string(i, "_device"),
        "Device path cannot be empty",
        Ghost(x0),
    );
    check(
        errors,
        !(sensor.baud_rate == 115200 || sensor.baud_rate == 3000000),
        slot_key_string(i, "_baud_rate"),
        "Baud rate must be 115200 or 3000000 bps",
        Ghost(x1),
    );
    check(
        errors,
        sensor.slave_id == 0 || sensor.slave_id > 247,
        slot_key_string(i, "_slave_id"),
        "Slave ID must be between 1 and 247",
        Ghost(x2),
    );
    check(
        errors,
        sensor.timeout_ms < 1000 || sensor.timeout_ms > 30000,
        slot_key_string(i, "_timeout_ms"),
        "Timeout must be between 1000 and 30000 ms",
        Ghost(x3),
    );
    check(
        errors,
        sensor.retry_attempts == 0 || sensor.retry_attempts > 10,
        slot_key_string(i, "_retry_attempts"),
        "Retry attempts must be between 1 and 10",
        Ghost(x4),
    );
    assert(x5 =~= x0 + sensor_issues(i as nat, *sensor));
}

/// Records the errors of the sample rate and stream size.
fn check_sampling(
    errors: &mut ValidationErrors,
    form: &SettingsForm,
    Ghost(g0): Ghost<Seq<(Seq<char>, Seq<char>)>>,
)
    requires
        entries_match(old(errors).field_errors@, g0),
    ensures
        entries_match(final(errors).field_errors@, g0 + sampling_issues(*form)),
        final(errors).general_errors@ == old(errors).general_errors@,
{
    let ghost g1 = g0 + issue_if(
        form.sample_rate == 0 || form.sample_rate > 10000,
        "sample_rate"@,
        "Sample rate must be between 1 and 10000 sps"@,
    );
    let ghost g2 = g1 + issue_if(
        form.stream_size == 0 || form.stream_size > 123,
        "stream_size"@,
        "Stream size must be between 1 and 123 registers"@,
    );
    check(
        errors,
        form.sample_rate == 0 || form.sample_rate > 10000,
        owned("sample_rate"),
        "Sample rate must be between 1 and 10000 sps",
        Ghost(g0),
    );
    check(
        errors,
        form.stream_size == 0 || form.stream_size > 123,
        owned("stream_size"),
        "Stream size must be between 1 and 123 registers",
        Ghost(g1),
    );
    assert(g2 =~= g0 + sampling_issues(*form));
}

/// Records the errors of the streaming settings.
fn check_streaming(
    errors: &mut ValidationErrors,
    form: &SettingsForm,
    Ghost(g0): Ghost<Seq<(Seq<char>, Seq<char>)>>,
)
    requires
        entries_match(old(errors).field_errors@, g0),
    ensures
        entries_match(final(errors).field_errors@, g0 + streaming_issues(*form)),
        final(errors).general_errors@ == old(errors).general_errors@,
{
    let ghost g1 = g0 + issue_if(
        form.max_connections == 0 || form.max_connections > 50,
        "max_connections"@,
        "Max connections must be between 1 and 50"@,
    );
    let ghost g2 = g1 + issue_if(
        form.buffer_size < 256 || form.buffer_size > 8192,
        "buffer_size"@,
        "Buffer size must be between 256 and 8192"@,
    );
    let ghost g3 = g2 + issue_if(
        rate_out_of_range(form.metrics_update_rate_hz),
        "metrics_update_rate_hz"@,
        "Metrics update rate must be between 0.1 and 5.0 Hz"@,
    );
    let ghost g4 = g3 + issue_if(
        form.websocket_ping_interval_sec < 10 || form.websocket_ping_interval_sec > 300,
        "websocket_ping_interval_sec"@,
        "WebSocket ping interval must be between 10 and 300 seconds"@,
    );
    check(
        errors,
        form.max_connections == 0 || form.max_connections > 50,
        owned("max_connections"),
        "Max connections must be between 1 and 50",
        Ghost(g0),
    );
    check(
        errors,
        form.buffer_size < 256 || form.buffer_size > 8192,
        owned("buffer_size"),
        "Buffer size must be between 256 and 8192",
        Ghost(g1),
    );
    check(
        errors,
        form.metrics_update_rate_hz.lt_tenth() || form.metrics_update_rate_hz.gt_five(),
        owned("metrics_update_rate_hz"),
        "Metrics update rate must be between 0.1 and 5.0 Hz",
        Ghost(g2),
    );
    check(
        errors,
        form.websocket_ping_interval_sec < 10 || form.websocket_ping_interval_sec > 300,
        owned("websocket_ping_interval_sec"),
        "WebSocket ping interval must be between 10 and 300 seconds",
        Ghost(g3),
    );
    assert(g4 =~= g0 + streaming_issues(*form));
}

/// Checks the settings: each sensor's device, baud rate, slave ID, timeout
/// and retries, then the shared sample rate, stream size, connection limit,
/// buffer size, metrics rate (0.1 to 5.0 Hz) and WebSocket ping interval (10
/// to 300 s). Refused exactly when there is no sensor or some setting is out
/// of range; the errors list every such setting.
pub fn validate_settings(form: &SettingsForm) -> (r: Result<(), ValidationErrors>)
    ensures
        r is Ok <==> (form.sensors@.len() > 0 && settings_issues(*form).len() == 0),
        r matches Err(e) ==> {
            &&& (form.sensors@.len() == 0 ==> e.general_errors@.len() == 1
                && e.general_errors@[0]@ == no_sensor_text())
            &&& (form.sensors@.len() > 0 ==> e.general_errors@.len() == 0)
            &&& entries_match(e.field_errors@, settings_issues(*form))
            &&& distinct_fields(fields_view(e.field_errors@))
        },
{
    let mut errors = ValidationErrors::new();
    if form.sensors.len() == 0 {
        errors.add_general_error("At least one sensor must be configured");
    }
    let n = form.sensors.len();
    let mut i: usize = 0;
    proof {
        lemma_no_entries(errors.field_errors@);
    }
    while i < n
        invariant
            n == form.sensors@.len(),
            0 <= i <= n,
            entries_match(errors.field_errors@, sensors_issues(form.sensors@, i as nat)),
            form.sensors@.len() == 0 ==> errors.general_errors@.len() == 1
                && errors.general_errors@[0]@ == no_sensor_text(),
            form.sensors@.len() > 0 ==> errors.general_errors@.len() == 0,
        decreases n - i,
    {
        check_sensor(&mut errors, i, &form.sensors[i], Ghost(sensors_issues(form.sensors@, i as nat)));
        i = i + 1;
    }
    let ghost x = sensors_issues(form.sensors@, n as nat);
    check_sampling(&mut errors, form, Ghost(x));
    check_streaming(&mut errors, form, Ghost(x + sampling_issues(*form)));
    assert(x + sampling_issues(*form) + streaming_issues(*form) =~= settings_issues(*form));
    proof {
        lemma_entries_empty(errors.field_errors@, settings_issues(*form));
        crate::types::lemma_recorded_fields_distinct(settings_issues(*form));
    }
    if errors.has_errors() {
        Err(errors)
    } else {
        Ok(())
    }
}

// ── Checking single fields as they are edited ────────────────────────────────

/// What is wrong with one submitted field.
#[derive(PartialEq, Eq, Structural, Clone, Copy, Debug)]
pub enum FieldIssue {
    DevicePathEmpty,
    DevicePathPrefix,
    BaudRateUnsupported,
    BaudRateInvalid,
    SlaveIdRange,
    SlaveIdInvalid,
    SampleRateRange,
    SampleRateInvalid,
    StreamSizeRange,
    StreamSizeInvalid,
    TimeoutRange,
    TimeoutInvalid,
    MetricsRateRange,
    MetricsRateInvalid,
}

/// Outcome of checking the submitted fields.
#[derive(PartialEq, Eq, Structural, Clone, Copy, Debug)]
pub enum FieldCheck {
    /// The first field found wrong.
    Invalid(FieldIssue),
    /// Sample rates above 1000 sps need the 3 Mbps link.
    HighSampleRateNeedsFastBaud,
    Valid,
}

/// A range check on a field read as an unsigned integer: `None` when it
/// reads and lies in `lo..=hi`.
pub open spec fn range_issue(
    value: Seq<char>,
    max: nat,
    lo: nat,
    hi: nat,
    out_of_range: FieldIssue,
    invalid: FieldIssue,
) -> Option<FieldIssue> {
    match spec_parse_unsigned(value, max) {
        Some(n) => if lo <= n && n <= hi {
            None
        } else {
            Some(out_of_range)
        },
        None => Some(invalid),
    }
}

/// The issue with field `name` holding `value`; `rate` is the floating-point
/// reading of the metrics-rate field.
pub open spec fn field_issue(name: Seq<char>, value: Seq<char>, rate: Option<RateHz>) -> Option<
    FieldIssue,
> {
    if name == "device_path"@ {
        if is_blank(value) {
            Some(FieldIssue::DevicePathEmpty)
        } else if !has_prefix(value, "/dev/"@) && !has_prefix(value, "COM"@) {
            Some(FieldIssue::DevicePathPrefix)
        } else {
            None
        }
    } else if name == "baud_rate"@ {
        match spec_parse_unsigned(value, u32::MAX as nat) {
            Some(n) => if n == 115200 || n == 3000000 {
                None
            } else {
                Some(FieldIssue::BaudRateUnsupported)
            },
            None => Some(FieldIssue::BaudRateInvalid),
        }
    } else if name == "slave_id"@ {
        range_issue(
            value,
            u8::MAX as nat,
            1,
            247,
            FieldIssue::SlaveIdRange,
            FieldIssue::SlaveIdInvalid,
        )
    } else if name == "sample_rate"@ {
        range_issue(
            value,
            u16::MAX as nat,
            1,
            10000,
            FieldIssue::SampleRateRange,
            FieldIssue::SampleRateInvalid,
        )
    } else if name == "stream_size"@ {
        range_issue(
            value,
            u16::MAX as nat,
            1,
            123,
            FieldIssue::StreamSizeRange,
            FieldIssue::StreamSizeInvalid,
        )
    } else if name == "timeout_ms"@ {
        range_issue(
            value,
            u64::MAX as nat,
            1000,
            30000,
            FieldIssue::TimeoutRange,
            FieldIssue::TimeoutInvalid,
        )
    } else if name == "metrics_update_rate_hz"@ {
        match rate {
            Some(r) => if tenth_hz_bits() <= r.bits && r.bits <= five_hz_bits() {
                None
            } else {
                Some(FieldIssue::MetricsRateRange)
            },
            None => Some(FieldIssue::MetricsRateInvalid),
        }
    } else {
        None
    }
}

/// The issue of the first field, in submission order, that has one.
pub open spec fn first_issue(form: Seq<(String, String)>, rate: Option<RateHz>) -> Option<
    FieldIssue,
>
    decreases form.len(),
{
    if form.len() == 0 {
        None
    } else {
        match field_issue(form[0].0@, form[0].1@, rate) {
            Some(x) => Some(x),
            None => first_issue(form.drop_first(), rate),
        }
    }
}

/// Sample rate above 1000 sps with a baud rate other than 3 Mbps, when both
/// fields read.
pub open spec fn needs_fast_baud(form: Seq<(String, String)>) -> bool {
    &&& lookup_parse(form, "sample_rate"@, u16::MAX as nat) matches Some(sr)
    &&& lookup_parse(form, "baud_rate"@, u32::MAX as nat) matches Some(br)
    &&& sr > 1000
    &&& br != 3000000
}

fn range_check(
    value: &str,
    max: u64,
    lo: u64,
    hi: u64,
    out_of_range: FieldIssue,
    invalid: FieldIssue,
) -> (r: Option<FieldIssue>)
    ensures
        r == range_issue(value@, max as nat, lo as nat, hi as nat, out_of_range, invalid),
{
    match parse_unsigned(value, max) {
        Some(n) => if lo <= n && n <= hi {
            None
        } else {
            Some(out_of_range)
        },
        None => Some(invalid),
    }
}

/// The issue with one field.
pub fn check_field(name: &String, value: &String, rate: Option<RateHz>) -> (r: Option<FieldIssue>)
    ensures
        r == field_issue(name@, value@, rate),
{
    if *name == owned("device_path") {
        if blank(value.as_str()) {
            Some(FieldIssue::DevicePathEmpty)
        } else if !starts_with(value.as_str(), "/dev/") && !starts_with(value.as_str(), "COM") {
            Some(FieldIssue::DevicePathPrefix)
        } else {
            None
        }
    } else if *name == owned("baud_rate") {
        match parse_unsigned(value.as_str(), u32::MAX as u64) {
            Some(n) => if n == 115200 || n == 3000000 {
                None
            } else {
                Some(FieldIssue::BaudRateUnsupported)
            },
            None => Some(FieldIssue::BaudRateInvalid),
        }
    } else if *name == owned("slave_id") {
        range_check(
            value.as_str(),
            u8::MAX as u64,
            1,
            247,
            FieldIssue::SlaveIdRange,
            FieldIssue::SlaveIdInvalid,
        )
    } else if *name == owned("sample_rate") {
        range_check(
            value.as_str(),
            u16::MAX as u64,
            1,
            10000,
            FieldIssue::SampleRateRange,
            FieldIssue::SampleRateInvalid,
        )
    } else if *name == owned("stream_size") {
        range_check(
            value.as_str(),
            u16::MAX as u64,
            1,
            123,
            FieldIssue::StreamSizeRange,
            FieldIssue::StreamSizeInvalid,
        )
    } else if *name == owned("timeout_ms") {
        range_check(
            value.as_str(),
            u64::MAX,
            1000,
            30000,
            FieldIssue::TimeoutRange,
            FieldIssue::TimeoutInvalid,
        )
    } else if *name == owned("metrics_update_rate_hz") {
        match rate {
            Some(r) => if r.in_tenth_to_five() {
                None
            } else {
                Some(FieldIssue::MetricsRateRange)
            },
            None => Some(FieldIssue::MetricsRateInvalid),
        }
    } else {
        None
    }
}

/// Checks submitted fields as they are edited: the first field in submission
/// order that is wrong, else a warning when a sample rate above 1000 sps is
/// paired with a baud rate other than 3 Mbps, else valid. `metrics_rate` is
/// the floating-point reading of the metrics-rate field's value.
pub fn check_fields(form: &[(String, String)], metrics_rate: Option<RateHz>) -> (r: FieldCheck)
    ensures
        r == (match first_issue(form@, metrics_rate) {
            Some(x) => FieldCheck::Invalid(x),
            None => if needs_fast_baud(form@) {
                FieldCheck::HighSampleRateNeedsFastBaud
            } else {
                FieldCheck::Valid
            },
        }),
{
    let n = form.len();
    let mut i: usize = 0;
    assert(form@.skip(0) =~= form@);
    while i < n
        invariant
            n == form@.len(),
            0 <= i <= n,
            first_issue(form@, metrics_rate) == first_issue(form@.skip(i as int), metrics_rate),
        decreases n - i,
    {
        assert(form@.skip(i as int)[0] == form@[i as int]);
        assert(form@.skip(i as int).drop_first() =~= form@.skip(i + 1));
        match check_field(&form[i].0, &form[i].1, metrics_rate) {
            Some(x) => {
                return FieldCheck::Invalid(x);
            },
            None => {},
        }
        i = i + 1;
    }
    let sample_rate = get_unsigned(form, &owned("sample_rate"), u16::MAX as u64);
    let baud_rate = get_unsigned(form, &owned("baud_rate"), u32::MAX as u64);
    match (sample_rate, baud_rate) {
        (Some(sr), Some(br)) => {
            if sr > 1000 && br != 3000000 {
                return FieldCheck::HighSampleRateNeedsFastBaud;
            }
        },
        _ => {},
    }
    FieldCheck::Valid
}

/// The message shown for a field issue.
pub open spec fn field_issue_text(x: FieldIssue) -> Seq<char> {
    match x {
        FieldIssue::DevicePathEmpty => "Device path cannot be empty"@,
        FieldIssue::DevicePathPrefix => "Device path should start with /dev/ (Linux/macOS) or COM (Windows)"@,
        FieldIssue::BaudRateUnsupported => "Baud rate must be 115200 or 3000000 bps"@,
        FieldIssue::BaudRateInvalid => "Invalid baud rate value"@,
        FieldIssue::SlaveIdRange => "Slave ID must be between 1 and 247"@,
        FieldIssue::SlaveIdInvalid => "Invalid slave ID value"@,
        FieldIssue::SampleRateRange => "Sample rate must be between 1 and 10000 sps"@,
        FieldIssue::SampleRateInvalid => "Invalid sample rate value"@,
        FieldIssue::StreamSizeRange => "Stream size must be between 1 and 123 registers"@,
        FieldIssue::StreamSizeInvalid => "Invalid stream size value"@,
        FieldIssue::TimeoutRange => "Timeout must be between 1000 and 30000 ms"@,
        FieldIssue::TimeoutInvalid => "Invalid timeout value"@,
        FieldIssue::MetricsRateRange => "Metrics update rate must be between 0.1 and 5.0 Hz"@,
        FieldIssue::MetricsRateInvalid => "Invalid metrics update rate value"@,
    }
}

impl FieldIssue {
    pub fn message(&self) -> (s: String)
        ensures
            s@ == field_issue_text(*self),
    {
        match self {
            FieldIssue::DevicePathEmpty => owned("Device path cannot be empty"),
            FieldIssue::DevicePathPrefix => owned(
                "Device path should start with /dev/ (Linux/macOS) or COM (Windows)",
            ),
            FieldIssue::BaudRateUnsupported => owned("Baud rate must be 115200 or 3000000 bps"),
            FieldIssue::BaudRateInvalid => owned("Invalid baud rate value"),
            FieldIssue::SlaveIdRange => owned("Slave ID must be between 1 and 247"),
            FieldIssue::SlaveIdInvalid => owned("Invalid slave ID value"),
            FieldIssue::SampleRateRange => owned("Sample rate must be between 1 and 10000 sps"),
            FieldIssue::SampleRateInvalid => owned("Invalid sample rate value"),
            FieldIssue::StreamSizeRange => owned("Stream size must be between 1 and 123 registers"),
            FieldIssue::StreamSizeInvalid => owned("Invalid stream size value"),
            FieldIssue::TimeoutRange => owned("Timeout must be between 1000 and 30000 ms"),
            FieldIssue::TimeoutInvalid => owned("Invalid timeout value"),
            FieldIssue::MetricsRateRange => owned(
                "Metrics update rate must be between 0.1 and 5.0 Hz",
            ),
            FieldIssue::MetricsRateInvalid => owned("Invalid metrics update rate value"),
        }
    }
}

// ── Settings and configuration ───────────────────────────────────────────────

/// Sample rate the sensor starts with (I-type sensors).
pub const DEFAULT_SAMPLE_RATE: u16 = 7812;

/// Stream size the sensor starts with: the largest read.
pub const DEFAULT_STREAM_SIZE: u16 = 123;

pub fn clone_strings(v: &Vec<String>) -> (r: Vec<String>)
    ensures
        r@ == v@,
{
    let mut r: Vec<String> = Vec::new();
    let n = v.len();
    let mut i: usize = 0;
    while i < n
        invariant
            n == v@.len(),
            0 <= i <= n,
            r@ == v@.subrange(0, i as int),
        decreases n - i,
    {
        r.push(v[i].clone());
        assert(r@ =~= v@.subrange(0, i + 1));
        i = i + 1;
    }
    assert(v@.subrange(0, n as int) =~= v@);
    r
}

/// The form entry shows the sensor's configured connection.
pub open spec fn form_shows_sensor(f: SensorConnectionForm, c: ModbusConfig) -> bool {
    &&& f.device@ == c.device@
    &&& f.baud_rate == c.baud_rate
    &&& f.slave_id == c.slave_id
    &&& f.timeout_ms == c.timeout_ms
    &&& f.retry_attempts == c.retry_attempts
}

/// `f` is the form first shown for configuration `c`: its sensors and
/// streaming settings, with the sensor's start-up sample rate and stream size
/// and the high-pass filter off.
pub open spec fn shows_config(f: SettingsForm, c: AppConfig) -> bool {
    &&& f.sensors@.len() == c.sensors@.len()
    &&& forall|k: int|
        0 <= k < f.sensors@.len() ==> form_shows_sensor(#[trigger] f.sensors@[k], c.sensors@[k])
    &&& f.sample_rate == 7812
    &&& f.stream_size == 123
    &&& !f.high_pass_filter
    &&& f.max_connections == c.streaming.max_connections
    &&& f.buffer_size == c.streaming.buffer_size
    &&& f.metrics_update_rate_hz == c.streaming.metrics_update_rate_hz
    &&& f.websocket_ping_interval_sec == c.streaming.websocket_ping_interval_sec
}

/// `c` is the configuration saved after applying form `s` over `current`:
/// the form's sensors and streaming settings; the server, logging and
/// raw-sample limit of `current`.
pub open spec fn applies_settings(c: AppConfig, current: AppConfig, s: SettingsForm) -> bool {
    &&& c.sensors@.len() == s.sensors@.len()
    &&& forall|k: int|
        0 <= k < c.sensors@.len() ==> form_shows_sensor(s.sensors@[k], #[trigger] c.sensors@[k])
    &&& c.server.host@ == current.server.host@
    &&& c.server.port == current.server.port
    &&& c.server.cors_origins@ == current.server.cors_origins@
    &&& c.streaming.max_connections == s.max_connections
    &&& c.streaming.buffer_size == s.buffer_size
    &&& c.streaming.metrics_update_rate_hz == s.metrics_update_rate_hz
    &&& c.streaming.raw_data_max_samples == current.streaming.raw_data_max_samples
    &&& c.streaming.websocket_ping_interval_sec == s.websocket_ping_interval_sec
    &&& c.logging.level@ == current.logging.level@
    &&& c.logging.format@ == current.logging.format@
}

/// Applying the form exactly as it was first shown saves the configuration
/// it came from: the same sensors, streaming, server and logging settings.
pub proof fn lemma_unchanged_form_keeps_config(c: AppConfig, f: SettingsForm, saved: AppConfig)
    requires
        shows_config(f, c),
        applies_settings(saved, c, f),
    ensures
        saved.sensors@.len() == c.sensors@.len(),
        forall|k: int|
            0 <= k < c.sensors@.len() ==> {
                &&& (#[trigger] saved.sensors@[k]).device@ == c.sensors@[k].device@
                &&& saved.sensors@[k].baud_rate == c.sensors@[k].baud_rate
                &&& saved.sensors@[k].slave_id == c.sensors@[k].slave_id
                &&& saved.sensors@[k].timeout_ms == c.sensors@[k].timeout_ms
                &&& saved.sensors@[k].retry_attempts == c.sensors@[k].retry_attempts
            },
        saved.streaming == c.streaming,
        saved.server.host@ == c.server.host@,
        saved.server.port == c.server.port,
        saved.server.cors_origins@ == c.server.cors_origins@,
        saved.logging.level@ == c.logging.level@,
        saved.logging.format@ == c.logging.format@,
{
    assert forall|k: int| 0 <= k < c.sensors@.len() implies {
        &&& (#[trigger] saved.sensors@[k]).device@ == c.sensors@[k].device@
        &&& saved.sensors@[k].baud_rate == c.sensors@[k].baud_rate
        &&& saved.sensors@[k].slave_id == c.sensors@[k].slave_id
        &&& saved.sensors@[k].timeout_ms == c.sensors@[k].timeout_ms
        &&& saved.sensors@[k].retry_attempts == c.sensors@[k].retry_attempts
    } by {
        assert(form_shows_sensor(f.sensors@[k], c.sensors@[k]));
        assert(form_shows_sensor(f.sensors@[k], saved.sensors@[k]));
    }
}

impl SettingsForm {
    /// The form as first shown for a configuration: its sensors and streaming
    /// settings, with the sensor's start-up sample rate and stream size and
    /// the high-pass filter off.
    pub fn from_config(config: &AppConfig) -> (f: SettingsForm)
        ensures
            shows_config(f, *config),
    {
        let mut sensors: Vec<SensorConnectionForm> = Vec::new();
        let n = config.sensors.len();
        let mut i: usize = 0;
        while i < n
            invariant
                n == config.sensors@.len(),
                0 <= i <= n,
                sensors@.len() == i,
                forall|k: int|
                    0 <= k < i ==> form_shows_sensor(#[trigger] sensors@[k], config.sensors@[k]),
            decreases n - i,
        {
            let c = &config.sensors[i];
            sensors.push(
                SensorConnectionForm {
                    device: c.device.clone(),
                    baud_rate: c.baud_rate,
                    slave_id: c.slave_id,
                    timeout_ms: c.timeout_ms,
                    retry_attempts: c.retry_attempts,
                },
            );
            i = i + 1;
        }
        SettingsForm {
            sensors,
            sample_rate: DEFAULT_SAMPLE_RATE,
            stream_size: DEFAULT_STREAM_SIZE,
            high_pass_filter: false,
            max_connections: config.streaming.max_connections,
            buffer_size: config.streaming.buffer_size,
            metrics_update_rate_hz: config.streaming.metrics_update_rate_hz,
            websocket_ping_interval_sec: config.streaming.websocket_ping_interval_sec,
        }
    }
}

/// The configuration saved after applying settings: the sensors and
/// streaming settings of the form; the server, logging and raw-sample limit
/// of the current configuration.
pub fn config_with_settings(current: &AppConfig, settings: &SettingsForm) -> (c: AppConfig)
    ensures
        applies_settings(c, *current, *settings),
{
    let mut sensors: Vec<ModbusConfig> = Vec::new();
    let n = settings.sensors.len();
    let mut i: usize = 0;
    while i < n
        invariant
            n == settings.sensors@.len(),
            0 <= i <= n,
            sensors@.len() == i,
            forall|k: int|
                0 <= k < i ==> form_shows_sensor(settings.sensors@[k], #[trigger] sensors@[k]),
        decreases n - i,
    {
        let s = &settings.sensors[i];
        sensors.push(
            ModbusConfig {
                device: s.device.clone(),
                baud_rate: s.baud_rate,
                slave_id: s.slave_id,
                timeout_ms: s.timeout_ms,
                retry_attempts: s.retry_attempts,
            },
        );
        i = i + 1;
    }
    AppConfig {
        server: ServerConfig {
            host: current.server.host.clone(),
            port: current.server.port,
            cors_origins: clone_strings(&current.server.cors_origins),
        },
        sensors,
        streaming: StreamingConfig {
            max_connections: settings.max_connections,
            buffer_size: settings.buffer_size,
            metrics_update_rate_hz: settings.metrics_update_rate_hz,
            raw_data_max_samples: current.streaming.raw_data_max_samples,
            websocket_ping_interval_sec: settings.websocket_ping_interval_sec,
        },
        logging: LoggingConfig {
            level: current.logging.level.clone(),
            format: current.logging.format.clone(),
        },
    }
}

/// Baud rate of the first sensor, or 115200 when there is none.
pub open spec fn first_baud_of_form(settings: SettingsForm) -> u32 {
    if settings.sensors@.len() > 0 {
        settings.sensors@[0].baud_rate
    } else {
        115200
    }
}

pub open spec fn first_baud_of_config(config: AppConfig) -> u32 {
    if config.sensors@.len() > 0 {
        config.sensors@[0].baud_rate
    } else {
        115200
    }
}

/// The baud rate to write to the first sensor when applying settings: the
/// form's, when it differs from the configured one.
pub fn baud_rate_change(settings: &SettingsForm, config: &AppConfig) -> (r: Option<u32>)
    ensures
        first_baud_of_form(*settings) != first_baud_of_config(*config) ==> r == Some(
            first_baud_of_form(*settings),
        ),
        first_baud_of_form(*settings) == first_baud_of_config(*config) ==> r is None,
{
    let new_baud: u32 = if settings.sensors.len() > 0 {
        settings.sensors[0].baud_rate
    } else {
        115200
    };
    let current: u32 = if config.sensors.len() > 0 {
        config.sensors[0].baud_rate
    } else {
        115200
    };
    if new_baud != current {
        Some(new_baud)
    } else {
        None
    }
}

/// One write to the first sensor when applying settings.
#[derive(PartialEq, Eq, Structural, Clone, Copy, Debug)]
pub enum SensorWrite {
    SampleRate(u16),
    StreamSize(u16),
    HighPassFilter(bool),
    /// Takes effect after the sensor is power cycled.
    BaudRate(u32),
}

/// The writes that apply `settings` to the first sensor, in order: sample
/// rate, stream size, high-pass filter, then the baud rate when it changes.
pub open spec fn planned_writes(settings: SettingsForm, config: AppConfig) -> Seq<SensorWrite> {
    seq![
        SensorWrite::SampleRate(settings.sample_rate),
        SensorWrite::StreamSize(settings.stream_size),
        SensorWrite::HighPassFilter(settings.high_pass_filter),
    ] + if first_baud_of_form(settings) != first_baud_of_config(config) {
        seq![SensorWrite::BaudRate(first_baud_of_form(settings))]
    } else {
        Seq::empty()
    }
}

pub fn settings_writes(settings: &SettingsForm, config: &AppConfig) -> (w: Vec<SensorWrite>)
    ensures
        w@ == planned_writes(*settings, *config),
{
    let mut w: Vec<SensorWrite> = Vec::new();
    w.push(SensorWrite::SampleRate(settings.sample_rate));
    w.push(SensorWrite::StreamSize(settings.stream_size));
    w.push(SensorWrite::HighPassFilter(settings.high_pass_filter));
    match baud_rate_change(settings, config) {
        Some(b) => w.push(SensorWrite::BaudRate(b)),
        None => {},
    }
    assert(w@ =~= planned_writes(*settings, *config));
    w
}

/// The detail reported once a write succeeded.
pub open spec fn applied_text(w: SensorWrite) -> Seq<char> {
    match w {
        SensorWrite::SampleRate(r) => "Sample rate set to "@ + decimal_text(r as nat) + " sps"@,
        SensorWrite::StreamSize(n) => "Stream size set to "@ + decimal_text(n as nat)
            + " registers"@,
        SensorWrite::HighPassFilter(on) => "High pass filter: "@ + if on {
            "enabled"@
        } else {
            "disabled"@
        },
        SensorWrite::BaudRate(b) => "Baud rate set to "@ + decimal_text(b as nat)
            + " bps (requires power cycle)"@,
    }
}

/// What a write sets, as named in the error of a failed write.
pub open spec fn write_subject(w: SensorWrite) -> Seq<char> {
    match w {
        SensorWrite::SampleRate(_) => "sample rate"@,
        SensorWrite::StreamSize(_) => "stream size"@,
        SensorWrite::HighPassFilter(_) => "high pass filter"@,
        SensorWrite::BaudRate(_) => "baud rate"@,
    }
}

impl SensorWrite {
    fn subject(&self) -> (s: &'static str)
        ensures
            s@ == write_subject(*self),
    {
        match self {
            SensorWrite::SampleRate(_) => "sample rate",
            SensorWrite::StreamSize(_) => "stream size",
            SensorWrite::HighPassFilter(_) => "high pass filter",
            SensorWrite::BaudRate(_) => "baud rate",
        }
    }

    pub fn applied_text(&self) -> (s: String)
        ensures
            s@ == applied_text(*self),
    {
        match self {
            SensorWrite::SampleRate(r) => {
                let mut s = join2("Sample rate set to ", decimal(*r as u64).as_str());
                s.append(" sps");
                s
            },
            SensorWrite::StreamSize(n) => {
                let mut s = join2("Stream size set to ", decimal(*n as u64).as_str());
                s.append(" registers");
                s
            },
            SensorWrite::HighPassFilter(on) => {
                if *on {
                    join2("High pass filter: ", "enabled")
                } else {
                    join2("High pass filter: ", "disabled")
                }
            },
            SensorWrite::BaudRate(b) => {
                let mut s = join2("Baud rate set to ", decimal(*b as u64).as_str());
                s.append(" bps (requires power cycle)");
                s
            },
        }
    }
}

/// After one write: its detail when it succeeded, so that applying goes on;
/// else the error that stops applying, "Failed to set <subject>: <error>".
pub fn write_outcome(w: SensorWrite, result: Result<(), String>) -> (r: Result<String, String>)
    ensures
        result is Ok ==> (r matches Ok(d) && d@ == applied_text(w)),
        result matches Err(e) ==> (r matches Err(m) && m@ == "Failed to set "@ + write_subject(w)
            + ": "@ + e@),
{
    match result {
        Ok(()) => Ok(w.applied_text()),
        Err(e) => {
            let mut m = join2("Failed to set ", w.subject());
            m.append(": ");
            m.append(e.as_str());
            Err(m)
        },
    }
}

/// A connection test needs a new connection when the form's first sensor
/// differs from the configured first sensor in device, baud rate or slave
/// ID, or no sensor is configured.
pub fn settings_differ(first: &SensorConnectionForm, current: Option<&ModbusConfig>) -> (b: bool)
    ensures
        b == (match current {
            Some(c) => first.device@ != c.device@ || first.baud_rate != c.baud_rate
                || first.slave_id != c.slave_id,
            None => true,
        }),
{
    match current {
        Some(c) => !(first.device == c.device) || first.baud_rate != c.baud_rate || first.slave_id
            != c.slave_id,
        None => true,
    }
}

// ── Laws of the settings ranges ─────────────────────────────────────────────

/// A sensor's connection settings lie in their documented ranges: a device
/// path that is not blank, 115200 or 3000000 bps, slave ID 1–247, timeout
/// 1000–30000 ms, 1–10 retries.
pub open spec fn sensor_in_range(s: SensorConnectionForm) -> bool {
    &&& !is_blank(s.device@)
    &&& (s.baud_rate == 115200 || s.baud_rate == 3000000)
    &&& 1 <= s.slave_id <= 247
    &&& 1000 <= s.timeout_ms <= 30000
    &&& 1 <= s.retry_attempts <= 10
}

/// The shared settings lie in their documented ranges: 1–10000 sps, 1–123
/// registers, 1–50 connections, a 256–8192 buffer, a metrics rate from 0.1
/// to 5.0 Hz (the encodings of the values in between) and a 10–300 s ping.
pub open spec fn shared_in_range(f: SettingsForm) -> bool {
    &&& 1 <= f.sample_rate <= 10000
    &&& 1 <= f.stream_size <= 123
    &&& 1 <= f.max_connections <= 50
    &&& 256 <= f.buffer_size <= 8192
    &&& 0x3FB9_9999_9999_999A <= f.metrics_update_rate_hz.bits <= 0x4014_0000_0000_0000
    &&& 10 <= f.websocket_ping_interval_sec <= 300
}

proof fn lemma_sensors_in_range(sensors: Seq<SensorConnectionForm>, n: nat)
    requires
        n <= sensors.len(),
        forall|k: int| 0 <= k < n ==> sensor_in_range(#[trigger] sensors[k]),
    ensures
        sensors_issues(sensors, n).len() == 0,
    decreases n,
{
    if n > 0 {
        lemma_sensors_in_range(sensors, (n - 1) as nat);
        assert(sensor_in_range(sensors[n - 1]));
    }
}

/// A form with a sensor and every setting in its documented range is
/// accepted: checking it finds no issue at all.
pub proof fn lemma_settings_in_range_accepted(f: SettingsForm)
    requires
        forall|k: int| 0 <= k < f.sensors@.len() ==> sensor_in_range(#[trigger] f.sensors@[k]),
        shared_in_range(f),
    ensures
        settings_issues(f).len() == 0,
{
    lemma_sensors_in_range(f.sensors@, f.sensors@.len());
    let b = f.metrics_update_rate_hz.bits;
    assert(b as nat % 0x8000_0000_0000_0000 == b as nat);
    assert(!rate_out_of_range(f.metrics_update_rate_hz));
}

proof fn lemma_contains_in_concat(p: Seq<(Seq<char>, Seq<char>)>, q: Seq<(Seq<char>, Seq<char>)>, x: (Seq<char>, Seq<char>))
    ensures
        p.contains(x) ==> (p + q).contains(x),
        q.contains(x) ==> (p + q).contains(x),
{
    if p.contains(x) {
        let i = choose|i: int| 0 <= i < p.len() && p[i] == x;
        assert((p + q)[i] == x);
    }
    if q.contains(x) {
        let i = choose|i: int| 0 <= i < q.len() && q[i] == x;
        assert((p + q)[p.len() + i] == x);
    }
}

proof fn lemma_issue_listed(bad: bool, key: Seq<char>, msg: Seq<char>)
    ensures
        bad ==> issue_if(bad, key, msg).contains((key, msg)),
{
    if bad {
        assert(issue_if(bad, key, msg)[0] == (key, msg));
    }
}

/// Each shared setting outside its documented range is reported under its
/// own name, with its own message.
pub proof fn lemma_shared_out_of_range_reported(f: SettingsForm)
    ensures
        (f.sample_rate == 0 || f.sample_rate > 10000) ==> settings_issues(f).contains(
            ("sample_rate"@, "Sample rate must be between 1 and 10000 sps"@),
        ),
        (f.stream_size == 0 || f.stream_size > 123) ==> settings_issues(f).contains(
            ("stream_size"@, "Stream size must be between 1 and 123 registers"@),
        ),
        (f.max_connections == 0 || f.max_connections > 50) ==> settings_issues(f).contains(
            ("max_connections"@, "Max connections must be between 1 and 50"@),
        ),
        (f.buffer_size < 256 || f.buffer_size > 8192) ==> settings_issues(f).contains(
            ("buffer_size"@, "Buffer size must be between 256 and 8192"@),
        ),
        (f.websocket_ping_interval_sec < 10 || f.websocket_ping_interval_sec > 300)
            ==> settings_issues(f).contains(
            (
                "websocket_ping_interval_sec"@,
                "WebSocket ping interval must be between 10 and 300 seconds"@,
            ),
        ),
        (f.metrics_update_rate_hz.bits < 0x3FB9_9999_9999_999A || (0x4014_0000_0000_0000
            < f.metrics_update_rate_hz.bits && f.metrics_update_rate_hz.bits
            <= 0x7FF0_0000_0000_0000)) ==> settings_issues(f).contains(
            ("metrics_update_rate_hz"@, "Metrics update rate must be between 0.1 and 5.0 Hz"@),
        ),
{
    let x = sensors_issues(f.sensors@, f.sensors@.len());
    let a1 = issue_if(f.sample_rate == 0 || f.sample_rate > 10000, "sample_rate"@, "Sample rate must be between 1 and 10000 sps"@);
    let a2 = issue_if(f.stream_size == 0 || f.stream_size > 123, "stream_size"@, "Stream size must be between 1 and 123 registers"@);
    let b1 = issue_if(f.max_connections == 0 || f.max_connections > 50, "max_connections"@, "Max connections must be between 1 and 50"@);
    let b2 = issue_if(f.buffer_size < 256 || f.buffer_size > 8192, "buffer_size"@, "Buffer size must be between 256 and 8192"@);
    let b3 = issue_if(rate_out_of_range(f.metrics_update_rate_hz), "metrics_update_rate_hz"@, "Metrics update rate must be between 0.1 and 5.0 Hz"@);
    let b4 = issue_if(f.websocket_ping_interval_sec < 10 || f.websocket_ping_interval_sec > 300, "websocket_ping_interval_sec"@, "WebSocket ping interval must be between 10 and 300 seconds"@);
    assert(settings_issues(f) == x + ((a1 + a2) + (((b1 + b2) + b3) + b4)));
    let bits = f.metrics_update_rate_hz.bits;
    if bits < 0x3FB9_9999_9999_999A || (0x4014_0000_0000_0000 < bits && bits <= 0x7FF0_0000_0000_0000) {
        assert(bits as nat % 0x8000_0000_0000_0000 == bits as nat);
        assert(rate_out_of_range(f.metrics_update_rate_hz));
    }
    lemma_issue_listed(f.sample_rate == 0 || f.sample_rate > 10000, "sample_rate"@, "Sample rate must be between 1 and 10000 sps"@);
    lemma_issue_listed(f.stream_size == 0 || f.stream_size > 123, "stream_size"@, "Stream size must be between 1 and 123 registers"@);
    lemma_issue_listed(f.max_connections == 0 || f.max_connections > 50, "max_connections"@, "Max connections must be between 1 and 50"@);
    lemma_issue_listed(f.buffer_size < 256 || f.buffer_size > 8192, "buffer_size"@, "Buffer size must be between 256 and 8192"@);
    lemma_issue_listed(rate_out_of_range(f.metrics_update_rate_hz), "metrics_update_rate_hz"@, "Metrics update rate must be between 0.1 and 5.0 Hz"@);
    lemma_issue_listed(f.websocket_ping_interval_sec < 10 || f.websocket_ping_interval_sec > 300, "websocket_ping_interval_sec"@, "WebSocket ping interval must be between 10 and 300 seconds"@);
    let xs = seq![
        ("sample_rate"@, "Sample rate must be between 1 and 10000 sps"@),
        ("stream_size"@, "Stream size must be between 1 and 123 registers"@),
        ("max_connections"@, "Max connections must be between 1 and 50"@),
        ("buffer_size"@, "Buffer size must be between 256 and 8192"@),
        ("metrics_update_rate_hz"@, "Metrics update rate must be between 0.1 and 5.0 Hz"@),
        ("websocket_ping_interval_sec"@, "WebSocket ping interval must be between 10 and 300 seconds"@),
    ];
    assert forall|k: int| 0 <= k < 6 implies {
        let e = #[trigger] xs[k];
        (a1.contains(e) || a2.contains(e) || b1.contains(e) || b2.contains(e) || b3.contains(e) || b4.contains(e))
            ==> settings_issues(f).contains(e)
    } by {
        let e = xs[k];
        lemma_contains_in_concat(a1, a2, e);
        lemma_contains_in_concat(b1, b2, e);
        lemma_contains_in_concat(b1 + b2, b3, e);
        lemma_contains_in_concat((b1 + b2) + b3, b4, e);
        lemma_contains_in_concat(a1 + a2, ((b1 + b2) + b3) + b4, e);
        lemma_contains_in_concat(x, (a1 + a2) + (((b1 + b2) + b3) + b4), e);
    }
    assert(xs[0] == ("sample_rate"@, "Sample rate must be between 1 and 10000 sps"@));
    assert(xs[1] == ("stream_size"@, "Stream size must be between 1 and 123 registers"@));
    assert(xs[2] == ("max_connections"@, "Max connections must be between 1 and 50"@));
    assert(xs[3] == ("buffer_size"@, "Buffer size must be between 256 and 8192"@));
    assert(xs[4] == ("metrics_update_rate_hz"@, "Metrics update rate must be between 0.1 and 5.0 Hz"@));
    assert(xs[5] == ("websocket_ping_interval_sec"@, "WebSocket ping interval must be between 10 and 300 seconds"@));
}

proof fn lemma_sensor_issues_kept(sensors: Seq<SensorConnectionForm>, n: nat, i: nat, e: (Seq<char>, Seq<char>))
    requires
        i < n,
        sensor_issues(i, sensors[i as int]).contains(e),
    ensures
        sensors_issues(sensors, n).contains(e),
    decreases n,
{
    if i < n - 1 {
        lemma_sensor_issues_kept(sensors, (n - 1) as nat, i, e);
        lemma_contains_in_concat(sensors_issues(sensors, (n - 1) as nat), sensor_issues((n - 1) as nat, sensors[n - 1]), e);
    } else {
        lemma_contains_in_concat(sensors_issues(sensors, (n - 1) as nat), sensor_issues((n - 1) as nat, sensors[n - 1]), e);
    }
}

/// Each connection setting of sensor `i` outside its documented range is
/// reported under that sensor's field name, with its own message.
pub proof fn lemma_sensor_out_of_range_reported(f: SettingsForm, i: nat)
    requires
        i < f.sensors@.len(),
    ensures
        is_blank(f.sensors@[i as int].device@) ==> settings_issues(f).contains(
            (slot_key(i, "_device"@), "Device path cannot be empty"@),
        ),
        !(f.sensors@[i as int].baud_rate == 115200 || f.sensors@[i as int].baud_rate == 3000000)
            ==> settings_issues(f).contains(
            (slot_key(i, "_baud_rate"@), "Baud rate must be 115200 or 3000000 bps"@),
        ),
        (f.sensors@[i as int].slave_id == 0 || f.sensors@[i as int].slave_id > 247)
            ==> settings_issues(f).contains(
            (slot_key(i, "_slave_id"@), "Slave ID must be between 1 and 247"@),
        ),
        (f.sensors@[i as int].timeout_ms < 1000 || f.sensors@[i as int].timeout_ms > 30000)
            ==> settings_issues(f).contains(
            (slot_key(i, "_timeout_ms"@), "Timeout must be between 1000 and 30000 ms"@),
        ),
        (f.sensors@[i as int].retry_attempts == 0 || f.sensors@[i as int].retry_attempts > 10)
            ==> settings_issues(f).contains(
            (slot_key(i, "_retry_attempts"@), "Retry attempts must be between 1 and 10"@),
        ),
{
    let s = f.sensors@[i as int];
    let c1 = issue_if(is_blank(s.device@), slot_key(i, "_device"@), "Device path cannot be empty"@);
    let c2 = issue_if(!(s.baud_rate == 115200 || s.baud_rate == 3000000), slot_key(i, "_baud_rate"@), "Baud rate must be 115200 or 3000000 bps"@);
    let c3 = issue_if(s.slave_id == 0 || s.slave_id > 247, slot_key(i, "_slave_id"@), "Slave ID must be between 1 and 247"@);
    let c4 = issue_if(s.timeout_ms < 1000 || s.timeout_ms > 30000, slot_key(i, "_timeout_ms"@), "Timeout must be between 1000 and 30000 ms"@);
    let c5 = issue_if(s.retry_attempts == 0 || s.retry_attempts > 10, slot_key(i, "_retry_attempts"@), "Retry attempts must be between 1 and 10"@);
    assert(sensor_issues(i, s) == (((c1 + c2) + c3) + c4) + c5);
    let xs = seq![
        (slot_key(i, "_device"@), "Device path cannot be empty"@),
        (slot_key(i, "_baud_rate"@), "Baud rate must be 115200 or 3000000 bps"@),
        (slot_key(i, "_slave_id"@), "Slave ID must be between 1 and 247"@),
        (slot_key(i, "_timeout_ms"@), "Timeout must be between 1000 and 30000 ms"@),
        (slot_key(i, "_retry_attempts"@), "Retry attempts must be between 1 and 10"@),
    ];
    lemma_issue_listed(is_blank(s.device@), slot_key(i, "_device"@), "Device path cannot be empty"@);
    lemma_issue_listed(!(s.baud_rate == 115200 || s.baud_rate == 3000000), slot_key(i, "_baud_rate"@), "Baud rate must be 115200 or 3000000 bps"@);
    lemma_issue_listed(s.slave_id == 0 || s.slave_id > 247, slot_key(i, "_slave_id"@), "Slave ID must be between 1 and 247"@);
    lemma_issue_listed(s.timeout_ms < 1000 || s.timeout_ms > 30000, slot_key(i, "_timeout_ms"@), "Timeout must be between 1000 and 30000 ms"@);
    lemma_issue_listed(s.retry_attempts == 0 || s.retry_attempts > 10, slot_key(i, "_retry_attempts"@), "Retry attempts must be between 1 and 10"@);
    let n = f.sensors@.len();
    assert forall|k: int| 0 <= k < 5 implies {
        let e = #[trigger] xs[k];
        (c1.contains(e) || c2.contains(e) || c3.contains(e) || c4.contains(e) || c5.contains(e))
            ==> settings_issues(f).contains(e)
    } by {
        let e = xs[k];
        lemma_contains_in_concat(c1, c2, e);
        lemma_contains_in_concat(c1 + c2, c3, e);
        lemma_contains_in_concat((c1 + c2) + c3, c4, e);
        lemma_contains_in_concat(((c1 + c2) + c3) + c4, c5, e);
        if sensor_issues(i, s).contains(e) {
            lemma_sensor_issues_kept(f.sensors@, n, i, e);
        }
        lemma_contains_in_concat(sensors_issues(f.sensors@, n), global_issues(f), e);
    }
    assert(xs[0] == (slot_key(i, "_device"@), "Device path cannot be empty"@));
    assert(xs[1] == (slot_key(i, "_baud_rate"@), "Baud rate must be 115200 or 3000000 bps"@));
    assert(xs[2] == (slot_key(i, "_slave_id"@), "Slave ID must be between 1 and 247"@));
    assert(xs[3] == (slot_key(i, "_timeout_ms"@), "Timeout must be between 1000 and 30000 ms"@));
    assert(xs[4] == (slot_key(i, "_retry_attempts"@), "Retry attempts must be between 1 and 10"@));
}

/// The configuration saved after applying a form takes the form's sensors
/// and streaming settings, whatever the current configuration holds, and keeps
/// only the current server, logging and raw-sample limit.
pub proof fn lemma_saved_config_takes_form(c: AppConfig, current: AppConfig, s: SettingsForm)
    requires
        applies_settings(c, current, s),
    ensures
        c.sensors@.len() == s.sensors@.len(),
        forall|k: int|
            0 <= k < s.sensors@.len() ==> {
                &&& (#[trigger] c.sensors@[k]).device@ == s.sensors@[k].device@
                &&& c.sensors@[k].baud_rate == s.sensors@[k].baud_rate
                &&& c.sensors@[k].slave_id == s.sensors@[k].slave_id
                &&& c.sensors@[k].timeout_ms == s.sensors@[k].timeout_ms
                &&& c.sensors@[k].retry_attempts == s.sensors@[k].retry_attempts
            },
        c.streaming.max_connections == s.max_connections,
        c.streaming.buffer_size == s.buffer_size,
        c.streaming.metrics_update_rate_hz == s.metrics_update_rate_hz,
        c.streaming.websocket_ping_interval_sec == s.websocket_ping_interval_sec,
        c.streaming.raw_data_max_samples == current.streaming.raw_data_max_samples,
        c.server.host@ == current.server.host@,
        c.server.port == current.server.port,
        c.server.cors_origins@ == current.server.cors_origins@,
        c.logging.level@ == current.logging.level@,
        c.logging.format@ == current.logging.format@,
{
    assert forall|k: int| 0 <= k < s.sensors@.len() implies {
        &&& (#[trigger] c.sensors@[k]).device@ == s.sensors@[k].device@
        &&& c.sensors@[k].baud_rate == s.sensors@[k].baud_rate
        &&& c.sensors@[k].slave_id == s.sensors@[k].slave_id
        &&& c.sensors@[k].timeout_ms == s.sensors@[k].timeout_ms
        &&& c.sensors@[k].retry_attempts == s.sensors@[k].retry_attempts
    } by {
        assert(form_shows_sensor(s.sensors@[k], c.sensors@[k]));
    }
}

/// The form first shown for a configuration carries its sensors and
/// streaming settings, the sensor's start-up sample rate of 7812 sps and
/// stream size of 123 registers, and the high-pass filter off.
pub proof fn lemma_shown_form_takes_config(f: SettingsForm, c: AppConfig)
    requires
        shows_config(f, c),
    ensures
        f.sensors@.len() == c.sensors@.len(),
        forall|k: int|
            0 <= k < c.sensors@.len() ==> {
                &&& (#[trigger] f.sensors@[k]).device@ == c.sensors@[k].device@
                &&& f.sensors@[k].baud_rate == c.sensors@[k].baud_rate
                &&& f.sensors@[k].slave_id == c.sensors@[k].slave_id
                &&& f.sensors@[k].timeout_ms == c.sensors@[k].timeout_ms
                &&& f.sensors@[k].retry_attempts == c.sensors@[k].retry_attempts
            },
        f.sample_rate == 7812,
        f.stream_size == 123,
        !f.high_pass_filter,
        f.max_connections == c.streaming.max_connections,
        f.buffer_size == c.streaming.buffer_size,
        f.metrics_update_rate_hz == c.streaming.metrics_update_rate_hz,
        f.websocket_ping_interval_sec == c.streaming.websocket_ping_interval_sec,
{
    assert forall|k: int| 0 <= k < c.sensors@.len() implies {
        &&& (#[trigger] f.sensors@[k]).device@ == c.sensors@[k].device@
        &&& f.sensors@[k].baud_rate == c.sensors@[k].baud_rate
        &&& f.sensors@[k].slave_id == c.sensors@[k].slave_id
        &&& f.sensors@[k].timeout_ms == c.sensors@[k].timeout_ms
        &&& f.sensors@[k].retry_attempts == c.sensors@[k].retry_attempts
    } by {
        assert(form_shows_sensor(f.sensors@[k], c.sensors@[k]));
    }
}

/// Applying settings writes the sample rate, the stream size and the
/// high-pass filter, in that order, then the first sensor's baud rate exactly
/// when it differs from the configured one (115200 where there is none).
pub proof fn lemma_writes_in_order(s: SettingsForm, c: AppConfig)
    ensures
        planned_writes(s, c).len() >= 3,
        planned_writes(s, c)[0] == SensorWrite::SampleRate(s.sample_rate),
        planned_writes(s, c)[1] == SensorWrite::StreamSize(s.stream_size),
        planned_writes(s, c)[2] == SensorWrite::HighPassFilter(s.high_pass_filter),
        ({
            let new_baud: u32 = if s.sensors@.len() > 0 { s.sensors@[0].baud_rate } else { 115200 };
            let old_baud: u32 = if c.sensors@.len() > 0 { c.sensors@[0].baud_rate } else { 115200 };
            &&& new_baud != old_baud ==> planned_writes(s, c).len() == 4 && planned_writes(s, c)[3]
                == SensorWrite::BaudRate(new_baud)
            &&& new_baud == old_baud ==> planned_writes(s, c).len() == 3
        }),
{
}

/// The live check of each field follows the documented ranges: a device path
/// must not be blank and must start with `/dev/` or `COM`; a baud rate must
/// read as 115200 or 3000000; a slave ID as 1–247 (a `u8`); a sample rate as
/// 1–10000 and a stream size as 1–123 (`u16`); a timeout as 1000–30000 ms; a
/// metrics rate from 0.1 to 5.0 Hz. A value outside its range is reported as
/// out of range, one that does not read as invalid, and other fields pass.
pub proof fn lemma_field_checks_follow_ranges(value: Seq<char>, rate: Option<RateHz>, other: Seq<char>)
    ensures
        field_issue("device_path"@, value, rate) == (if is_blank(value) {
            Some(FieldIssue::DevicePathEmpty)
        } else if has_prefix(value, "/dev/"@) || has_prefix(value, "COM"@) {
            None
        } else {
            Some(FieldIssue::DevicePathPrefix)
        }),
        field_issue("baud_rate"@, value, rate) == (match spec_parse_unsigned(value, 0xFFFF_FFFF) {
            Some(n) => if n == 115200 || n == 3000000 {
                None
            } else {
                Some(FieldIssue::BaudRateUnsupported)
            },
            None => Some(FieldIssue::BaudRateInvalid),
        }),
        field_issue("slave_id"@, value, rate) == (match spec_parse_unsigned(value, 255) {
            Some(n) => if 1 <= n <= 247 {
                None
            } else {
                Some(FieldIssue::SlaveIdRange)
            },
            None => Some(FieldIssue::SlaveIdInvalid),
        }),
        field_issue("sample_rate"@, value, rate) == (match spec_parse_unsigned(value, 65535) {
            Some(n) => if 1 <= n <= 10000 {
                None
            } else {
                Some(FieldIssue::SampleRateRange)
            },
            None => Some(FieldIssue::SampleRateInvalid),
        }),
        field_issue("stream_size"@, value, rate) == (match spec_parse_unsigned(value, 65535) {
            Some(n) => if 1 <= n <= 123 {
                None
            } else {
                Some(FieldIssue::StreamSizeRange)
            },
            None => Some(FieldIssue::StreamSizeInvalid),
        }),
        field_issue("timeout_ms"@, value, rate) == (match spec_parse_unsigned(
            value,
            0xFFFF_FFFF_FFFF_FFFF,
        ) {
            Some(n) => if 1000 <= n <= 30000 {
                None
            } else {
                Some(FieldIssue::TimeoutRange)
            },
            None => Some(FieldIssue::TimeoutInvalid),
        }),
        field_issue("metrics_update_rate_hz"@, value, rate) == (match rate {
            Some(r) => if 0x3FB9_9999_9999_999A <= r.bits <= 0x4014_0000_0000_0000 {
                None
            } else {
                Some(FieldIssue::MetricsRateRange)
            },
            None => Some(FieldIssue::MetricsRateInvalid),
        }),
        other != "device_path"@ && other != "baud_rate"@ && other != "slave_id"@ && other
            != "sample_rate"@ && other != "stream_size"@ && other != "timeout_ms"@ && other
            != "metrics_update_rate_hz"@ ==> field_issue(other, value, rate) is None,
{
    reveal_strlit("device_path");
    reveal_strlit("baud_rate");
    reveal_strlit("slave_id");
    reveal_strlit("sample_rate");
    reveal_strlit("stream_size");
    reveal_strlit("timeout_ms");
    reveal_strlit("metrics_update_rate_hz");
    assert("baud_rate"@.len() != "device_path"@.len());
    assert("slave_id"@.len() != "device_path"@.len());
    assert("slave_id"@.len() != "baud_rate"@.len());
    assert("sample_rate"@[0] != "device_path"@[0]);
    assert("sample_rate"@.len() != "baud_rate"@.len());
    assert("sample_rate"@.len() != "slave_id"@.len());
    assert("stream_size"@[0] != "device_path"@[0]);
    assert("stream_size"@.len() != "baud_rate"@.len());
    assert("stream_size"@.len() != "slave_id"@.len());
    assert("stream_size"@[1] != "sample_rate"@[1]);
    assert("timeout_ms"@.len() != "device_path"@.len());
    assert("timeout_ms"@.len() != "baud_rate"@.len());
    assert("timeout_ms"@.len() != "slave_id"@.len());
    assert("timeout_ms"@.len() != "sample_rate"@.len());
    assert("timeout_ms"@.len() != "stream_size"@.len());
    assert("metrics_update_rate_hz"@.len() != "device_path"@.len());
    assert("metrics_update_rate_hz"@.len() != "baud_rate"@.len());
    assert("metrics_update_rate_hz"@.len() != "slave_id"@.len());
    assert("metrics_update_rate_hz"@.len() != "sample_rate"@.len());
    assert("metrics_update_rate_hz"@.len() != "stream_size"@.len());
    assert("metrics_update_rate_hz"@.len() != "timeout_ms"@.len());
}

/// The live check warns exactly when both the sample rate and the baud rate
/// read, the sample rate is above 1000 sps and the link is not at 3 Mbps.
pub proof fn lemma_fast_baud_warning(form: Seq<(String, String)>)
    ensures
        needs_fast_baud(form) <==> (lookup_parse(form, "sample_rate"@, 65535) is Some
            && lookup_parse(form, "baud_rate"@, 0xFFFF_FFFF) is Some && lookup_parse(
            form,
            "sample_rate"@,
            65535,
        )->0 > 1000 && lookup_parse(form, "baud_rate"@, 0xFFFF_FFFF)->0 != 3000000),
{
}

/// The sensors read from the form are the slots, in increasing order, whose
/// device field is present and not empty.
pub proof fn lemma_present_slots(form: Seq<(String, String)>, n: nat)
    ensures
        forall|i: nat|
            #![trigger present_slots(form, n).contains(i)]
            present_slots(form, n).contains(i) <==> (i < n && (form_lookup(form, slot_key(i, "_device"@)) is Some && form_lookup(form, slot_key(i, "_device"@))->0.len() > 0)),
        forall|a: int, b: int|
            0 <= a < b < present_slots(form, n).len() ==> #[trigger] present_slots(form, n)[a]
                < #[trigger] present_slots(form, n)[b],
        forall|a: int| 0 <= a < present_slots(form, n).len() ==> #[trigger] present_slots(form, n)[a] < n,
    decreases n,
{
    if n > 0 {
        let m = (n - 1) as nat;
        lemma_present_slots(form, m);
        let p = present_slots(form, m);
        let tail = if slot_present(form, m) { seq![m] } else { Seq::<nat>::empty() };
        let q = present_slots(form, n);
        assert(q == p + tail);
        assert forall|i: nat| #![trigger q.contains(i)] q.contains(i) <==> (i < n && (form_lookup(form, slot_key(i, "_device"@)) is Some && form_lookup(form, slot_key(i, "_device"@))->0.len() > 0)) by {
            if q.contains(i) {
                let k = choose|k: int| 0 <= k < q.len() && q[k] == i;
                if k < p.len() {
                    assert(p[k] == q[k]);
                    assert(p.contains(i));
                } else {
                    assert(tail[k - p.len()] == i);
                }
            }
            if i < n && (form_lookup(form, slot_key(i, "_device"@)) is Some && form_lookup(form, slot_key(i, "_device"@))->0.len() > 0) {
                if i < m {
                    assert(p.contains(i));
                    let k = choose|k: int| 0 <= k < p.len() && p[k] == i;
                    assert(q[k] == i);
                } else {
                    assert(q[p.len() as int] == i);
                }
            }
        }
        assert forall|a: int| 0 <= a < q.len() implies #[trigger] q[a] < n by {
            if a < p.len() {
                assert(q[a] == p[a]);
            }
        }
        assert forall|a: int, b: int| 0 <= a < b < q.len() implies #[trigger] q[a] < #[trigger] q[b] by {
            if b < p.len() {
                assert(q[a] == p[a] && q[b] == p[b]);
            } else {
                assert(q[a] == p[a]);
            }
        }
    }
}

/// A sensor read from slot `i` has the slot's device and each setting the
/// slot gives as a number; a missing or unreadable one falls back to
/// 115200 bps, slave ID 1, 5000 ms and 3 retries.
pub proof fn lemma_slot_defaults(s: SensorConnectionForm, form: Seq<(String, String)>, i: nat)
    requires
        slot_settings(s, form, i),
    ensures
        form_lookup(form, slot_key(i, "_device"@)) == Some(s.device@),
        lookup_parse(form, slot_key(i, "_baud_rate"@), 0xFFFF_FFFF) matches Some(b) ==> s.baud_rate == b,
        lookup_parse(form, slot_key(i, "_baud_rate"@), 0xFFFF_FFFF) is None ==> s.baud_rate == 115200,
        lookup_parse(form, slot_key(i, "_slave_id"@), 255) matches Some(v) ==> s.slave_id == v,
        lookup_parse(form, slot_key(i, "_slave_id"@), 255) is None ==> s.slave_id == 1,
        lookup_parse(form, slot_key(i, "_timeout_ms"@), 0xFFFF_FFFF_FFFF_FFFF) matches Some(t)
            ==> s.timeout_ms == t,
        lookup_parse(form, slot_key(i, "_timeout_ms"@), 0xFFFF_FFFF_FFFF_FFFF) is None
            ==> s.timeout_ms == 5000,
        lookup_parse(form, slot_key(i, "_retry_attempts"@), 255) matches Some(r) ==> s.retry_attempts == r,
        lookup_parse(form, slot_key(i, "_retry_attempts"@), 255) is None ==> s.retry_attempts == 3,
{
}

} // verus!
