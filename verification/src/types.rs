//! Data carried between the sensor, the configuration and the web front end.
use vstd::prelude::*;

use crate::config::RateHz;
use crate::text::owned;

verus! {

// ── UCID ─────────────────────────────────────────────────────────────────────

/// Decoded unique-chip-ID register pair: b31–b28 model, b27–b24 gain,
/// b23–b0 serial number.
pub struct UcidInfo {
    pub model: String,
    pub gain: String,
    pub serial_number: u32,
    pub raw_value: u32,
}

pub open spec fn model_bits(raw: u32) -> nat {
    (raw as nat / 0x1000_0000) % 16
}

pub open spec fn gain_bits(raw: u32) -> nat {
    (raw as nat / 0x0100_0000) % 16
}

pub open spec fn serial_bits(raw: u32) -> nat {
    raw as nat % 0x0100_0000
}

/// Model name for the model field of a UCID.
pub open spec fn model_name(bits: nat) -> Seq<char> {
    if bits == 0 {
        "12B"@
    } else if bits == 1 {
        "15B"@
    } else if bits == 2 {
        "KAX301"@
    } else if bits == 3 {
        "KAX302"@
    } else if bits == 4 {
        "S6S"@
    } else {
        "Unknown"@
    }
}

/// Gain name for the gain field of a UCID.
pub open spec fn gain_name(bits: nat) -> Seq<char> {
    if bits == 0 {
        "4G"@
    } else if bits == 1 {
        "2G"@
    } else if bits == 2 {
        "8G"@
    } else if bits == 3 {
        "16G"@
    } else if bits == 4 {
        "32G"@
    } else if bits == 5 {
        "64G"@
    } else {
        "Unknown"@
    }
}

/// ADC counts per g for a gain name: 32768 divided by the full-scale range,
/// and the 4G figure for a name that is not a known gain.
pub open spec fn gain_counts_per_g(gain: Seq<char>) -> u32 {
    if gain == "2G"@ {
        16384
    } else if gain == "4G"@ {
        8192
    } else if gain == "8G"@ {
        4096
    } else if gain == "16G"@ {
        2048
    } else if gain == "32G"@ {
        1024
    } else if gain == "64G"@ {
        512
    } else {
        8192
    }
}

/// Full-scale range in g of a known gain field value.
pub open spec fn full_scale_g(bits: nat) -> nat {
    if bits == 0 {
        4
    } else if bits == 1 {
        2
    } else if bits == 2 {
        8
    } else if bits == 3 {
        16
    } else if bits == 4 {
        32
    } else {
        64
    }
}

impl UcidInfo {
    pub fn from_raw(raw_value: u32) -> (u: UcidInfo)
        ensures
            u.model@ == model_name(model_bits(raw_value)),
            u.gain@ == gain_name(gain_bits(raw_value)),
            u.serial_number == serial_bits(raw_value),
            u.raw_value == raw_value,
    {
        let model_field: u32 = (raw_value / 0x1000_0000) % 16;
        let gain_field: u32 = (raw_value / 0x0100_0000) % 16;
        let serial_number: u32 = raw_value % 0x0100_0000;
        let model = if model_field == 0 {
            owned("12B")
        } else if model_field == 1 {
            owned("15B")
        } else if model_field == 2 {
            owned("KAX301")
        } else if model_field == 3 {
            owned("KAX302")
        } else if model_field == 4 {
            owned("S6S")
        } else {
            owned("Unknown")
        };
        let gain = if gain_field == 0 {
            owned("4G")
        } else if gain_field == 1 {
            owned("2G")
        } else if gain_field == 2 {
            owned("8G")
        } else if gain_field == 3 {
            owned("16G")
        } else if gain_field == 4 {
            owned("32G")
        } else if gain_field == 5 {
            owned("64G")
        } else {
            owned("Unknown")
        };
        UcidInfo { model, gain, serial_number, raw_value }
    }

    /// ADC counts per g for this sensor's gain (a 16-bit signed ADC spans
    /// ±full scale); the scale factor from counts to g is its reciprocal.
    pub fn counts_per_g(&self) -> (c: u32)
        ensures
            c == gain_counts_per_g(self.gain@),
    {
        if self.gain == owned("2G") {
            16384
        } else if self.gain == owned("4G") {
            8192
        } else if self.gain == owned("8G") {
            4096
        } else if self.gain == owned("16G") {
            2048
        } else if self.gain == owned("32G") {
            1024
        } else if self.gain == owned("64G") {
            512
        } else {
            8192
        }
    }
}

/// The three fields of a UCID and the raw value are recovered from one another:
/// the raw value is model · 2^28 + gain · 2^24 + serial, and each field fits
/// its width.
pub proof fn lemma_ucid_fields_recompose(raw: u32)
    ensures
        raw as nat == model_bits(raw) * 0x1000_0000 + gain_bits(raw) * 0x0100_0000 + serial_bits(
            raw,
        ),
        model_bits(raw) < 16,
        gain_bits(raw) < 16,
        serial_bits(raw) < 0x0100_0000,
{
    let r = raw as nat;
    assert(r / 0x1000_0000 < 16);
    assert(r == (r / 0x0100_0000) * 0x0100_0000 + r % 0x0100_0000);
    assert(r / 0x0100_0000 == (r / 0x0100_0000 / 16) * 16 + (r / 0x0100_0000) % 16);
    assert(r / 0x0100_0000 / 16 == r / 0x1000_0000) by {
        vstd::arithmetic::div_mod::lemma_div_denominator(r as int, 0x0100_0000, 16);
    }
}

/// For every gain that the sensor reports, counts per g times the full-scale
/// range is 32768; any other gain field reads at the 4G figure.
pub proof fn lemma_counts_per_g_of_gain(raw: u32)
    ensures
        gain_bits(raw) <= 5 ==> gain_counts_per_g(gain_name(gain_bits(raw))) * full_scale_g(
            gain_bits(raw),
        ) == 32768,
        gain_bits(raw) > 5 ==> gain_counts_per_g(gain_name(gain_bits(raw))) == 8192,
{
    reveal_strlit("2G");
    reveal_strlit("4G");
    reveal_strlit("8G");
    reveal_strlit("16G");
    reveal_strlit("32G");
    reveal_strlit("64G");
    reveal_strlit("Unknown");
    let b = gain_bits(raw);
    if b == 0 {
        assert("4G"@[0] != "2G"@[0]);
        assert(gain_name(b) == "4G"@);
        assert(gain_counts_per_g("4G"@) == 8192);
    } else if b == 1 {
        assert(gain_counts_per_g("2G"@) == 16384);
    } else if b == 2 {
        assert("8G"@[0] != "2G"@[0]);
        assert("8G"@[0] != "4G"@[0]);
    } else if b == 3 {
        assert("16G"@.len() != "2G"@.len());
        assert("16G"@.len() != "4G"@.len());
        assert("16G"@.len() != "8G"@.len());
    } else if b == 4 {
        assert("32G"@.len() != "2G"@.len());
        assert("32G"@.len() != "4G"@.len());
        assert("32G"@.len() != "8G"@.len());
        assert("32G"@[0] != "16G"@[0]);
    } else if b == 5 {
        assert("64G"@.len() != "2G"@.len());
        assert("64G"@.len() != "4G"@.len());
        assert("64G"@.len() != "8G"@.len());
        assert("64G"@[0] != "16G"@[0]);
        assert("64G"@[0] != "32G"@[0]);
    } else if b > 5 {
        assert("Unknown"@.len() != "2G"@.len());
        assert("Unknown"@.len() != "4G"@.len());
        assert("Unknown"@.len() != "8G"@.len());
        assert("Unknown"@.len() != "16G"@.len());
        assert("Unknown"@.len() != "32G"@.len());
        assert("Unknown"@.len() != "64G"@.len());
    }
}

// ── Validation errors ────────────────────────────────────────────────────────

/// Errors collected while checking a settings form: errors per field, in the
/// order in which the fields first failed, and errors of the form as a whole.
/// Field errors are only ever added through `add_field_error`, so no field
/// name occurs twice.
pub struct ValidationErrors {
    pub field_errors: Vec<(String, Vec<String>)>,
    pub general_errors: Vec<String>,
}

/// A field-error entry as text: the field name and its messages.
pub open spec fn entry_view(e: (String, Vec<String>)) -> (Seq<char>, Seq<Seq<char>>) {
    (e.0@, e.1@.map_values(|m: String| m@))
}

pub open spec fn fields_view(entries: Seq<(String, Vec<String>)>) -> Seq<(Seq<char>, Seq<Seq<char>>)> {
    entries.map_values(|e: (String, Vec<String>)| entry_view(e))
}

/// Position of the first entry for `field`, if any.
pub open spec fn find_field(v: Seq<(Seq<char>, Seq<Seq<char>>)>, field: Seq<char>) -> Option<int>
    decreases v.len(),
{
    if v.len() == 0 {
        None
    } else {
        match find_field(v.drop_last(), field) {
            Some(i) => Some(i),
            None => if v.last().0 == field {
                Some(v.len() - 1)
            } else {
                None
            },
        }
    }
}

/// The entries after recording `error` for `field`: appended to the field's
/// messages, or as a new last entry when the field had none.
pub open spec fn record_error(
    v: Seq<(Seq<char>, Seq<Seq<char>>)>,
    field: Seq<char>,
    error: Seq<char>,
) -> Seq<(Seq<char>, Seq<Seq<char>>)> {
    match find_field(v, field) {
        Some(i) => v.update(i, (field, v[i].1.push(error))),
        None => v.push((field, seq![error])),
    }
}

/// The entries after recording each (field, message) in turn, from none.
pub open spec fn record_all(issues: Seq<(Seq<char>, Seq<char>)>) -> Seq<
    (Seq<char>, Seq<Seq<char>>),
>
    decreases issues.len(),
{
    if issues.len() == 0 {
        Seq::empty()
    } else {
        record_error(record_all(issues.drop_last()), issues.last().0, issues.last().1)
    }
}

/// The error messages recorded for `field`.
pub open spec fn errors_of(v: Seq<(Seq<char>, Seq<Seq<char>>)>, field: Seq<char>) -> Seq<
    Seq<char>,
> {
    match find_field(v, field) {
        Some(i) => v[i].1,
        None => Seq::empty(),
    }
}

/// No field name occurs twice.
pub open spec fn distinct_fields(v: Seq<(Seq<char>, Seq<Seq<char>>)>) -> bool {
    forall|i: int, j: int| 0 <= i < j < v.len() ==> #[trigger] v[i].0 != #[trigger] v[j].0
}

proof fn lemma_find_field(v: Seq<(Seq<char>, Seq<Seq<char>>)>, field: Seq<char>)
    ensures
        match find_field(v, field) {
            Some(i) => 0 <= i < v.len() && v[i].0 == field && forall|j: int|
                0 <= j < i ==> #[trigger] v[j].0 != field,
            None => forall|j: int| 0 <= j < v.len() ==> #[trigger] v[j].0 != field,
        },
    decreases v.len(),
{
    if v.len() > 0 {
        let prefix = v.drop_last();
        lemma_find_field(prefix, field);
        match find_field(prefix, field) {
            Some(i) => {
                assert(prefix[i] == v[i]);
                assert forall|j: int| 0 <= j < i implies #[trigger] v[j].0 != field by {
                    assert(prefix[j] == v[j]);
                }
            },
            None => {
                assert forall|j: int| 0 <= j < prefix.len() implies #[trigger] v[j].0 != field by {
                    assert(prefix[j] == v[j]);
                }
            },
        }
    }
}

proof fn lemma_find_field_unique(v: Seq<(Seq<char>, Seq<Seq<char>>)>, field: Seq<char>, k: int)
    requires
        0 <= k < v.len(),
        v[k].0 == field,
        forall|j: int| 0 <= j < k ==> #[trigger] v[j].0 != field,
    ensures
        find_field(v, field) == Some(k),
{
    lemma_find_field(v, field);
}

proof fn lemma_record_error_distinct(
    v: Seq<(Seq<char>, Seq<Seq<char>>)>,
    field: Seq<char>,
    error: Seq<char>,
)
    requires
        distinct_fields(v),
    ensures
        distinct_fields(record_error(v, field, error)),
{
    lemma_find_field(v, field);
    let w = record_error(v, field, error);
    assert forall|i: int, j: int| 0 <= i < j < w.len() implies #[trigger] w[i].0 != #[trigger] w[j].0 by {
        match find_field(v, field) {
            Some(k) => {
                assert(w[i].0 == v[i].0 && w[j].0 == v[j].0);
            },
            None => {
                if j < v.len() {
                    assert(w[i] == v[i] && w[j] == v[j]);
                } else {
                    assert(w[i] == v[i]);
                }
            },
        }
    }
}

impl ValidationErrors {
    pub fn new() -> (e: ValidationErrors)
        ensures
            e.field_errors@.len() == 0,
            e.general_errors@.len() == 0,
    {
        ValidationErrors { field_errors: Vec::new(), general_errors: Vec::new() }
    }

    /// Appends `error` to the messages of `field`; a field seen for the first
    /// time is added after the fields already present.
    pub fn add_field_error(&mut self, field: &str, error: &str)
        ensures
            fields_view(final(self).field_errors@) == record_error(
                fields_view(old(self).field_errors@),
                field@,
                error@,
            ),
            distinct_fields(fields_view(old(self).field_errors@)) ==> distinct_fields(
                fields_view(final(self).field_errors@),
            ),
            final(self).general_errors@ == old(self).general_errors@,
    {
        let ghost v0 = fields_view(self.field_errors@);
        proof {
            lemma_find_field(v0, field@);
            if distinct_fields(v0) {
                lemma_record_error_distinct(v0, field@, error@);
            }
        }
        let key = owned(field);
        let n = self.field_errors.len();
        let mut i: usize = 0;
        while i < n
            invariant
                n == self.field_errors.len(),
                self.field_errors@ == old(self).field_errors@,
                self.general_errors@ == old(self).general_errors@,
                v0 == fields_view(old(self).field_errors@),
                key@ == field@,
                0 <= i <= n,
                forall|j: int| 0 <= j < i ==> #[trigger] self.field_errors@[j].0@ != field@,
            decreases n - i,
        {
            if self.field_errors[i].0 == key {
                proof {
                    assert forall|j: int| 0 <= j < i implies #[trigger] v0[j].0 != field@ by {
                        assert(v0[j] == entry_view(self.field_errors@[j]));
                    }
                    lemma_find_field_unique(v0, field@, i as int);
                    if distinct_fields(v0) {
                        lemma_record_error_distinct(v0, field@, error@);
                    }
                }
                let mut entry = self.field_errors.remove(i);
                let ghost before = entry.1@;
                entry.1.push(owned(error));
                assert(entry.1@.map_values(|m: String| m@) =~= before.map_values(|m: String| m@).push(
                    error@,
                ));
                self.field_errors.insert(i, entry);
                assert(fields_view(self.field_errors@) =~= record_error(v0, field@, error@));
                return;
            }
            i = i + 1;
        }
        proof {
            assert forall|j: int| 0 <= j < v0.len() implies #[trigger] v0[j].0 != field@ by {
                assert(v0[j] == entry_view(self.field_errors@[j]));
            }
            lemma_find_field(v0, field@);
        }
        let mut messages: Vec<String> = Vec::new();
        messages.push(owned(error));
        assert(messages@.map_values(|m: String| m@) =~= seq![error@]);
        self.field_errors.push((key, messages));
        assert(fields_view(self.field_errors@) =~= record_error(v0, field@, error@));
    }

    pub fn add_general_error(&mut self, error: &str)
        ensures
            final(self).field_errors@ == old(self).field_errors@,
            general_view(final(self).general_errors@) == general_view(old(self).general_errors@).push(
                error@,
            ),
            final(self).general_errors@.len() == old(self).general_errors@.len() + 1,
            final(self).general_errors@.drop_last() == old(self).general_errors@,
            final(self).general_errors@.last()@ == error@,
    {
        self.general_errors.push(owned(error));
        assert(self.general_errors@.drop_last() =~= old(self).general_errors@);
        assert(general_view(self.general_errors@) =~= general_view(old(self).general_errors@).push(
            error@,
        ));
    }

    pub fn has_errors(&self) -> (b: bool)
        ensures
            b == (self.field_errors@.len() > 0 || self.general_errors@.len() > 0),
    {
        !self.field_errors.is_empty() || !self.general_errors.is_empty()
    }
}

/// Recording an error for a field adds that message to the field's errors,
/// leaves every other field's errors as they were, keeps field names distinct,
/// and leaves the collection reporting errors.
pub proof fn lemma_add_field_error_law(
    before: Seq<(Seq<char>, Seq<Seq<char>>)>,
    field: Seq<char>,
    error: Seq<char>,
    other: Seq<char>,
)
    requires
        other != field,
    ensures
        errors_of(record_error(before, field, error), field) == errors_of(before, field).push(
            error,
        ),
        errors_of(record_error(before, field, error), other) == errors_of(before, other),
        distinct_fields(before) ==> distinct_fields(record_error(before, field, error)),
        record_error(before, field, error).len() > 0,
{
    let after = record_error(before, field, error);
    lemma_find_field(before, field);
    lemma_find_field(before, other);
    if distinct_fields(before) {
        lemma_record_error_distinct(before, field, error);
    }
    match find_field(before, field) {
        Some(i) => {
            assert forall|j: int| 0 <= j < after.len() implies #[trigger] after[j].0 == before[j].0 by {}
            lemma_find_field_unique(after, field, i);
            match find_field(before, other) {
                Some(k) => {
                    lemma_find_field_unique(after, other, k);
                },
                None => {
                    lemma_find_field(after, other);
                },
            }
        },
        None => {
            lemma_find_field_unique(after, field, before.len() as int);
            assert(Seq::<Seq<char>>::empty().push(error) =~= seq![error]);
            match find_field(before, other) {
                Some(k) => {
                    lemma_find_field_unique(after, other, k);
                },
                None => {
                    lemma_find_field(after, other);
                },
            }
        },
    }
}

/// The general errors as text.
pub open spec fn general_view(errors: Seq<String>) -> Seq<Seq<char>> {
    errors.map_values(|e: String| e@)
}

/// One error added to a collection: for a field, or for the form as a whole.
pub enum ErrorRecord {
    Field(Seq<char>, Seq<char>),
    General(Seq<char>),
}

/// The field entries and general errors after adding each error in turn, as
/// `add_field_error` and `add_general_error` do.
pub open spec fn errors_after(
    fields: Seq<(Seq<char>, Seq<Seq<char>>)>,
    general: Seq<Seq<char>>,
    adds: Seq<ErrorRecord>,
) -> (Seq<(Seq<char>, Seq<Seq<char>>)>, Seq<Seq<char>>)
    decreases adds.len(),
{
    if adds.len() == 0 {
        (fields, general)
    } else {
        let (f, g) = errors_after(fields, general, adds.drop_last());
        match adds.last() {
            ErrorRecord::Field(field, error) => (record_error(f, field, error), g),
            ErrorRecord::General(error) => (f, g.push(error)),
        }
    }
}

/// What `has_errors` reports of field entries and general errors.
pub open spec fn reports_errors(state: (Seq<(Seq<char>, Seq<Seq<char>>)>, Seq<Seq<char>>)) -> bool {
    state.0.len() > 0 || state.1.len() > 0
}

/// Errors are only ever added: after any sequence of additions a collection
/// reports errors exactly when it did before or something was added. From a
/// new collection, it reports errors exactly when an error was added, and once
/// it reports errors it keeps doing so.
pub proof fn lemma_errors_only_accumulate(
    fields: Seq<(Seq<char>, Seq<Seq<char>>)>,
    general: Seq<Seq<char>>,
    adds: Seq<ErrorRecord>,
)
    ensures
        reports_errors(errors_after(fields, general, adds)) == (reports_errors((fields, general))
            || adds.len() > 0),
        errors_after(fields, general, adds).0.len() >= fields.len(),
        errors_after(fields, general, adds).1.len() >= general.len(),
    decreases adds.len(),
{
    if adds.len() > 0 {
        lemma_errors_only_accumulate(fields, general, adds.drop_last());
        let (f, g) = errors_after(fields, general, adds.drop_last());
        match adds.last() {
            ErrorRecord::Field(field, error) => {
                lemma_find_field(f, field);
            },
            ErrorRecord::General(error) => {},
        }
    }
}

/// Recording an error never leaves the entries empty.
pub(crate) proof fn lemma_record_all_empty(issues: Seq<(Seq<char>, Seq<char>)>)
    ensures
        record_all(issues).len() == 0 <==> issues.len() == 0,
{
    if issues.len() > 0 {
        let v = record_all(issues.drop_last());
        lemma_find_field(v, issues.last().0);
    }
}

/// Errors recorded one by one never list a field twice.
pub proof fn lemma_recorded_fields_distinct(issues: Seq<(Seq<char>, Seq<char>)>)
    ensures
        distinct_fields(record_all(issues)),
    decreases issues.len(),
{
    if issues.len() > 0 {
        lemma_recorded_fields_distinct(issues.drop_last());
        lemma_record_error_distinct(record_all(issues.drop_last()), issues.last().0, issues.last().1);
    }
}

// ── Requests and stream types ────────────────────────────────────────────────

pub struct SampleRateRequest {
    pub sample_rate: u16,
}

pub struct BaudRateRequest {
    pub baud_rate: u32,
}

pub struct HighPassFilterRequest {
    pub enabled: bool,
}

pub struct StreamSizeRequest {
    pub stream_size: u16,
}

#[derive(PartialEq, Eq, Structural, Clone, Copy, Debug)]
pub enum StreamType {
    Raw,
    Metrics,
    Both,
}

pub struct StreamStartRequest {
    pub stream_type: StreamType,
    pub sample_rate: Option<u16>,
    pub buffer_size: Option<u16>,
}

// ── Settings form ────────────────────────────────────────────────────────────

/// Connection settings of one sensor as entered in the settings form.
pub struct SensorConnectionForm {
    pub device: String,
    pub baud_rate: u32,
    pub slave_id: u8,
    pub timeout_ms: u64,
    pub retry_attempts: u8,
}

/// The settings form: per-sensor connections, sensor settings and streaming
/// settings.
pub struct SettingsForm {
    pub sensors: Vec<SensorConnectionForm>,
    pub sample_rate: u16,
    pub stream_size: u16,
    pub high_pass_filter: bool,
    pub max_connections: usize,
    pub buffer_size: usize,
    pub metrics_update_rate_hz: RateHz,
    pub websocket_ping_interval_sec: u64,
}

/// Feedback shown in the settings page.
pub struct Feedback {
    pub feedback_type: String,
    pub title: Option<String>,
    pub message: String,
    pub details: Option<Vec<String>>,
    pub field_errors: Option<Vec<(String, Vec<String>)>>,
}

} // verus!
