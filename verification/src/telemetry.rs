//! Telemetry samples: one timestamped bundle of measurement values, produced
//! by either acquisition strategy, published once and then discarded.
//!
//! Measurement values are carried in milli-unit fixed point (see
//! [`crate::MILLI`]): the verified core never computes on machine floats.

use vstd::prelude::*;
use vstd::string::{StrSliceExecFns, StringExecFns};

use crate::audit::hex_digits;
use crate::MILLI;

verus! {

/// Which acquisition strategy produced a sample.
#[derive(Clone, Copy, Debug, PartialEq, Eq, Structural)]
pub enum SampleSource {
    Simulated,
    Field,
}

/// One measurement: a channel or equipment key and its milli-unit value.
#[derive(Clone, Debug)]
pub struct Measurement {
    pub key: String,
    pub milli: i64,
}

/// One sample: a timestamp, the producing source, and at least one value.
#[derive(Clone, Debug)]
pub struct TelemetrySample {
    pub timestamp: String,
    pub source: SampleSource,
    pub values: Vec<Measurement>,
}

impl TelemetrySample {
    /// A sample is meaningful only with at least one measurement.
    pub open spec fn wf(&self) -> bool {
        self.values@.len() >= 1
    }
}

/// The ten decimal digits, in value order.
pub open spec fn dec_digits() -> Seq<char> {
    seq!['0', '1', '2', '3', '4', '5', '6', '7', '8', '9']
}

/// The decimal representation of `n`, most significant digit first, with no
/// leading zero except for zero itself.
pub open spec fn dec_rep(n: nat) -> Seq<char>
    decreases n,
{
    if n < 10 {
        seq![dec_digits()[n as int]]
    } else {
        dec_rep(n / 10).push(dec_digits()[(n % 10) as int])
    }
}

/// The thousandths part, always three digits.
pub open spec fn frac3(f: nat) -> Seq<char> {
    if f < 10 {
        seq!['0', '0'] + dec_rep(f)
    } else if f < 100 {
        seq!['0'] + dec_rep(f)
    } else {
        dec_rep(f)
    }
}

/// A milli-unit value rendered as its exact decimal number: sign, integer
/// part, a point, and three fraction digits — `130250` is `"130.250"`.
pub open spec fn format_milli_spec(v: int) -> Seq<char> {
    if v < 0 {
        seq!['-'] + dec_rep(((-v) / (crate::MILLI as int)) as nat) + seq!['.'] + frac3(
            ((-v) % (crate::MILLI as int)) as nat,
        )
    } else {
        dec_rep((v / (crate::MILLI as int)) as nat) + seq!['.'] + frac3(
            (v % (crate::MILLI as int)) as nat,
        )
    }
}

fn dec_char(d: u64) -> (c: char)
    requires
        d < 10,
    ensures
        c == dec_digits()[d as int],
{
    match d {
        0 => '0',
        1 => '1',
        2 => '2',
        3 => '3',
        4 => '4',
        5 => '5',
        6 => '6',
        7 => '7',
        8 => '8',
        _ => '9',
    }
}

fn hex_char(d: u32) -> (c: char)
    requires
        d < 16,
    ensures
        c == hex_digits()[d as int],
{
    match d {
        0 => '0',
        1 => '1',
        2 => '2',
        3 => '3',
        4 => '4',
        5 => '5',
        6 => '6',
        7 => '7',
        8 => '8',
        9 => '9',
        10 => 'a',
        11 => 'b',
        12 => 'c',
        13 => 'd',
        14 => 'e',
        _ => 'f',
    }
}

fn push_dec_rep(n: u64, out: &mut Vec<char>)
    ensures
        final(out)@ == old(out)@ + dec_rep(n as nat),
    decreases n,
{
    if n < 10 {
        out.push(dec_char(n));
        proof {
            assert(out@ =~= old(out)@ + dec_rep(n as nat));
        }
    } else {
        push_dec_rep(n / 10, out);
        out.push(dec_char(n % 10));
        proof {
            assert(out@ =~= old(out)@ + dec_rep(n as nat));
        }
    }
}

/// Relies on String's FromIterator over chars: collecting yields the string
/// of exactly those characters.
#[verifier::external_body]
fn chars_to_string(v: &Vec<char>) -> (r: String)
    ensures
        r@ == v@,
{
    v.iter().collect()
}

/// Render a milli-unit value as its exact decimal string for the wire.
pub fn format_milli(v: i64) -> (r: String)
    requires
        v > i64::MIN,
    ensures
        r@ == format_milli_spec(v as int),
{
    let mut out: Vec<char> = Vec::new();
    let n: u64 = if v < 0 {
        out.push('-');
        (-v) as u64
    } else {
        v as u64
    };
    push_dec_rep(n / (MILLI as u64), &mut out);
    out.push('.');
    let f = n % (MILLI as u64);
    if f < 10 {
        out.push('0');
        out.push('0');
    } else if f < 100 {
        out.push('0');
    }
    push_dec_rep(f, &mut out);
    proof {
        assert(out@ =~= format_milli_spec(v as int));
    }
    chars_to_string(&out)
}

/// How one character appears inside a JSON string: quotes and backslashes
/// are escaped, control characters become `\u00XX`, everything else stands
/// as itself.
pub open spec fn escape_char(c: char) -> Seq<char> {
    if c == '"' {
        seq!['\\', '"']
    } else if c == '\\' {
        seq!['\\', '\\']
    } else if (c as u32) < 32 {
        seq!['\\', 'u', '0', '0'] + seq![
            hex_digits()[((c as u32) / 16) as int],
            hex_digits()[((c as u32) % 16) as int],
        ]
    } else {
        seq![c]
    }
}

/// A whole string as it appears inside JSON quotes.
pub open spec fn json_escaped(s: Seq<char>) -> Seq<char>
    decreases s.len(),
{
    if s.len() == 0 {
        Seq::empty()
    } else {
        escape_char(s.first()) + json_escaped(s.drop_first())
    }
}

proof fn lemma_json_escaped_push(s: Seq<char>, c: char)
    ensures
        json_escaped(s.push(c)) == json_escaped(s) + escape_char(c),
    decreases s.len(),
{
    let t = s.push(c);
    if s.len() == 0 {
        assert(t.first() == c);
        assert(t.drop_first() =~= Seq::<char>::empty());
        assert(json_escaped(t) == escape_char(c) + json_escaped(Seq::<char>::empty()));
        assert(json_escaped(Seq::<char>::empty()) == Seq::<char>::empty());
        assert(json_escaped(s) == Seq::<char>::empty());
        assert(json_escaped(t) =~= json_escaped(s) + escape_char(c));
    } else {
        assert(t.first() == s.first());
        assert(t.drop_first() =~= s.drop_first().push(c));
        lemma_json_escaped_push(s.drop_first(), c);
        assert(json_escaped(t) == escape_char(s.first()) + (json_escaped(s.drop_first())
            + escape_char(c)));
        assert(json_escaped(s) == escape_char(s.first()) + json_escaped(s.drop_first()));
        assert(json_escaped(t) =~= json_escaped(s) + escape_char(c));
    }
}

fn push_escaped(c: char, out: &mut Vec<char>)
    ensures
        final(out)@ == old(out)@ + escape_char(c),
{
    if c == '"' {
        out.push('\\');
        out.push('"');
    } else if c == '\\' {
        out.push('\\');
        out.push('\\');
    } else if (c as u32) < 32 {
        out.push('\\');
        out.push('u');
        out.push('0');
        out.push('0');
        out.push(hex_char((c as u32) / 16));
        out.push(hex_char((c as u32) % 16));
    } else {
        out.push(c);
    }
    proof {
        assert(out@ =~= old(out)@ + escape_char(c));
    }
}

/// Escape a string for embedding between JSON quotes.
pub fn json_escape(s: &str) -> (r: String)
    ensures
        r@ == json_escaped(s@),
{
    let mut out: Vec<char> = Vec::new();
    let n = s.unicode_len();
    let mut i: usize = 0;
    proof {
        assert(s@.subrange(0, 0) =~= Seq::<char>::empty());
    }
    while i < n
        invariant
            0 <= i <= n,
            n == s@.len(),
            out@ == json_escaped(s@.subrange(0, i as int)),
        decreases n - i,
    {
        let c = s.get_char(i);
        push_escaped(c, &mut out);
        proof {
            assert(s@.subrange(0, i + 1) =~= s@.subrange(0, i as int).push(s@[i as int]));
            lemma_json_escaped_push(s@.subrange(0, i as int), s@[i as int]);
        }
        i = i + 1;
    }
    proof {
        assert(s@.subrange(0, n as int) =~= s@);
    }
    chars_to_string(&out)
}

/// The wire name of each source.
pub open spec fn spec_source_name(s: SampleSource) -> Seq<char> {
    match s {
        SampleSource::Simulated => "SIMULATED"@,
        SampleSource::Field => "FIELD"@,
    }
}

/// The `values` object: each key escaped and quoted, each value an exact
/// decimal number, in sample order, comma-separated.
pub open spec fn spec_values_json(values: Seq<Measurement>) -> Seq<char>
    decreases values.len(),
{
    if values.len() == 0 {
        Seq::empty()
    } else if values.len() == 1 {
        spec_measurement_json(values[0])
    } else {
        spec_values_json(values.drop_last()) + seq![','] + spec_measurement_json(values.last())
    }
}

pub open spec fn spec_measurement_json(m: Measurement) -> Seq<char> {
    seq!['"'] + json_escaped(m.key@) + seq!['"', ':'] + format_milli_spec(m.milli as int)
}

/// The published message: the sample in the fixed wire schema
/// `{"timestamp":...,"source":...,"values":{...}}`.
pub open spec fn spec_wire_json(sample: TelemetrySample) -> Seq<char> {
    "{\"timestamp\":\""@ + json_escaped(sample.timestamp@) + "\",\"source\":\""@
        + spec_source_name(sample.source) + "\",\"values\":{"@ + spec_values_json(sample.values@)
        + "}}"@
}

/// Serialize one sample to the published wire schema.
pub fn wire_json(sample: &TelemetrySample) -> (r: String)
    requires
        forall|i: int| 0 <= i < sample.values@.len() ==> (#[trigger] sample.values@[i].milli)
            > i64::MIN,
    ensures
        r@ == spec_wire_json(*sample),
{
    let mut out = String::new();
    out.append("{\"timestamp\":\"");
    let escaped_ts = json_escape(sample.timestamp.as_str());
    out.append(escaped_ts.as_str());
    out.append("\",\"source\":\"");
    match sample.source {
        SampleSource::Simulated => out.append("SIMULATED"),
        SampleSource::Field => out.append("FIELD"),
    }
    out.append("\",\"values\":{");
    let n = sample.values.len();
    let mut i: usize = 0;
    let ghost header = "{\"timestamp\":\""@ + json_escaped(sample.timestamp@)
        + "\",\"source\":\""@ + spec_source_name(sample.source) + "\",\"values\":{"@;
    proof {
        assert(out@ =~= header + spec_values_json(sample.values@.subrange(0, 0)));
    }
    while i < n
        invariant
            0 <= i <= n,
            n == sample.values@.len(),
            forall|k: int| 0 <= k < sample.values@.len() ==> (#[trigger] sample.values@[k].milli)
                > i64::MIN,
            out@ == header + spec_values_json(sample.values@.subrange(0, i as int)),
        decreases n - i,
    {
        if i > 0 {
            out.append(",");
        }
        let m = &sample.values[i];
        out.append("\"");
        let escaped_key = json_escape(m.key.as_str());
        out.append(escaped_key.as_str());
        out.append("\":");
        let rendered = format_milli(m.milli);
        out.append(rendered.as_str());
        proof {
            reveal_strlit(",");
            reveal_strlit("\"");
            reveal_strlit("\":");
            let prefix = sample.values@.subrange(0, i as int);
            let next = sample.values@.subrange(0, i + 1);
            assert(next.drop_last() =~= prefix);
            assert(next.last() == sample.values@[i as int]);
            if i > 0 {
                assert(out@ =~= header + spec_values_json(next));
            } else {
                assert(next.len() == 1);
                assert(out@ =~= header + spec_values_json(next));
            }
        }
        i = i + 1;
    }
    out.append("}}");
    proof {
        assert(sample.values@.subrange(0, n as int) =~= sample.values@);
        assert(out@ =~= spec_wire_json(*sample));
    }
    out
}

/// A field update is forwarded as a one-entry sample keyed by the mapped
/// equipment identifier; there is no batching across tags in field mode.
pub fn field_sample(key: String, milli: i64, timestamp: String) -> (r: TelemetrySample)
    ensures
        r.wf(),
        r.source == SampleSource::Field,
        r.timestamp@ == timestamp@,
        r.values@.len() == 1,
        r.values@[0].key@ == key@,
        r.values@[0].milli == milli,
{
    let mut values: Vec<Measurement> = Vec::new();
    values.push(Measurement { key, milli });
    TelemetrySample { timestamp, source: SampleSource::Field, values }
}

} // verus!
