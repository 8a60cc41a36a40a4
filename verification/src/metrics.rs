//! The remote-write data model and the metric assembler.
//!
//! Measured values are carried as the raw bit pattern of the 64-bit IEEE 754
//! number the measurement produced. The assembler never interprets a value —
//! zero or negative measurements pass through untouched — so the bits are all
//! it needs, and the process around this crate converts at its edge.

use vstd::prelude::*;
use vstd::string::StringExecFns;
use crate::error::SwError;

verus! {

/// A label: one key/value pair on a time series. The wire protocol requires
/// label names to be unique within a series.
#[derive(Debug, Clone)]
pub struct Label {
    pub name: String,
    pub value: String,
}

/// One measured point: the bit pattern of the 64-bit floating-point value,
/// and the Unix epoch time in milliseconds at which the cycle started.
#[derive(Debug, Clone, PartialEq, Eq, Structural)]
pub struct Sample {
    pub value_bits: u64,
    pub timestamp_millis: i64,
}

/// A labeled series of samples. In this design every series carries exactly
/// one sample per cycle.
#[derive(Debug, Clone)]
pub struct TimeSeries {
    pub labels: Vec<Label>,
    pub samples: Vec<Sample>,
}

/// One write request: everything a single cycle publishes. Built once per
/// cycle, encoded, sent, and dropped.
#[derive(Debug, Clone)]
pub struct WriteRequest {
    pub timeseries: Vec<TimeSeries>,
}

/// The label `l` is named `name` and carries `value`.
pub open spec fn label_is(l: Label, name: Seq<char>, value: Seq<char>) -> bool {
    &&& l.name@ == name
    &&& l.value@ == value
}

/// The series `ts` is exactly what one cycle produces for one metric: the
/// hostname label, the protocol's metric-name label naming `metric`, and a
/// single sample holding `bits` at `t`.
pub open spec fn series_is(
    ts: TimeSeries,
    hostname: Seq<char>,
    metric: Seq<char>,
    bits: u64,
    t: i64,
) -> bool {
    &&& ts.labels@.len() == 2
    &&& label_is(ts.labels@[0], "hostname"@, hostname)
    &&& label_is(ts.labels@[1], "__name__"@, metric)
    &&& ts.samples@.len() == 1
    &&& ts.samples@[0].value_bits == bits
    &&& ts.samples@[0].timestamp_millis == t
}

/// The write request `wr` is exactly what one cycle assembles: a bandwidth
/// series and a latency series, both stamped with the same hostname and time.
pub open spec fn assembled(
    wr: WriteRequest,
    hostname: Seq<char>,
    download_bits: u64,
    latency_bits: u64,
    t: i64,
) -> bool {
    &&& wr.timeseries@.len() == 2
    &&& series_is(wr.timeseries@[0], hostname, "sw_internet_bandwidth_mbit"@, download_bits, t)
    &&& series_is(wr.timeseries@[1], hostname, "sw_internet_latency_ms"@, latency_bits, t)
}

/// Narrows the clock's count of milliseconds since the Unix epoch to the
/// sample timestamp type. The count only exceeds it for a clock hundreds of
/// millions of years past any plausible present, and such a reading is
/// reported as a clock failure rather than folded into a timestamp.
pub fn epoch_millis_timestamp(millis: u128) -> (r: Result<i64, SwError>)
    ensures
        millis <= i64::MAX ==> r == Ok::<i64, SwError>(millis as i64),
        r is Err <==> millis > i64::MAX,
        r matches Err(e) ==> e matches SwError::Clock(m) && m@
            == "current time overflows a millisecond count"@,
{
    if millis <= i64::MAX as u128 {
        Ok(millis as i64)
    } else {
        Err(SwError::Clock(String::from_str("current time overflows a millisecond count")))
    }
}

/// Builds one series for `metric`: the hostname label, the metric-name label,
/// and the single sample of this cycle.
fn single_series(hostname: &str, metric: &str, bits: u64, t: i64) -> (r: TimeSeries)
    ensures
        series_is(r, hostname@, metric@, bits, t),
{
    let mut labels: Vec<Label> = Vec::new();
    labels.push(Label { name: String::from_str("hostname"), value: String::from_str(hostname) });
    labels.push(Label { name: String::from_str("__name__"), value: String::from_str(metric) });
    let mut samples: Vec<Sample> = Vec::new();
    samples.push(Sample { value_bits: bits, timestamp_millis: t });
    TimeSeries { labels, samples }
}

/// The metric assembler: turns the raw numbers of one cycle, the cycle's
/// start time and the host's identity into the write request of that cycle.
/// Pure data transformation; it cannot fail, and it does not interpret the
/// measured values.
pub fn assemble(hostname: &str, download_bits: u64, latency_bits: u64, timestamp_millis: i64) -> (r:
    WriteRequest)
    ensures
        assembled(r, hostname@, download_bits, latency_bits, timestamp_millis),
{
    let bandwidth = single_series(hostname, "sw_internet_bandwidth_mbit", download_bits, timestamp_millis);
    let latency = single_series(hostname, "sw_internet_latency_ms", latency_bits, timestamp_millis);
    let mut timeseries: Vec<TimeSeries> = Vec::new();
    timeseries.push(bandwidth);
    timeseries.push(latency);
    WriteRequest { timeseries }
}

/// In every assembled write request the two labels of each series bear
/// distinct names: the assembler never emits a duplicate label name on one
/// series, as the wire protocol demands.
pub proof fn lemma_assembled_label_names_distinct(
    wr: WriteRequest,
    hostname: Seq<char>,
    download_bits: u64,
    latency_bits: u64,
    t: i64,
)
    requires
        assembled(wr, hostname, download_bits, latency_bits, t),
    ensures
        forall|i: int|
            0 <= i < wr.timeseries@.len() ==> (#[trigger] wr.timeseries@[i].labels@[0].name)@
                != wr.timeseries@[i].labels@[1].name@,
{
    reveal_strlit("hostname");
    reveal_strlit("__name__");
    assert forall|i: int| 0 <= i < wr.timeseries@.len() implies (
    #[trigger] wr.timeseries@[i].labels@[0].name)@ != wr.timeseries@[i].labels@[1].name@ by {
        assert(wr.timeseries@[i].labels@[0].name@[0] == 'h');
        assert(wr.timeseries@[i].labels@[1].name@[0] == '_');
    }
}

} // verus!
