use speedwatch::metrics::assemble;

#[test]
fn assemble_two_series_with_labels_and_sample() {
    let t: i64 = 1700000000123;
    let bw = 50.0f64.to_bits();
    let lat = 20.0f64.to_bits();
    let wr = assemble("h", bw, lat, t);

    assert_eq!(wr.timeseries.len(), 2);

    let bandwidth = &wr.timeseries[0];
    assert_eq!(bandwidth.labels.len(), 2);
    assert_eq!(bandwidth.labels[0].name, "hostname");
    assert_eq!(bandwidth.labels[0].value, "h");
    assert_eq!(bandwidth.labels[1].name, "__name__");
    assert_eq!(bandwidth.labels[1].value, "sw_internet_bandwidth_mbit");
    assert_eq!(bandwidth.samples.len(), 1);
    assert_eq!(f64::from_bits(bandwidth.samples[0].value_bits), 50.0);
    assert_eq!(bandwidth.samples[0].timestamp_millis, t);

    let latency = &wr.timeseries[1];
    assert_eq!(latency.labels.len(), 2);
    assert_eq!(latency.labels[0].name, "hostname");
    assert_eq!(latency.labels[0].value, "h");
    assert_eq!(latency.labels[1].name, "__name__");
    assert_eq!(latency.labels[1].value, "sw_internet_latency_ms");
    assert_eq!(latency.samples.len(), 1);
    assert_eq!(f64::from_bits(latency.samples[0].value_bits), 20.0);
    assert_eq!(latency.samples[0].timestamp_millis, t);
}

#[test]
fn assemble_passes_values_through_uninterpreted() {
    let zero = 0.0f64.to_bits();
    let negative = (-1.5f64).to_bits();
    let wr = assemble("box", zero, negative, 0);
    assert_eq!(wr.timeseries[0].samples[0].value_bits, zero);
    assert_eq!(wr.timeseries[1].samples[0].value_bits, negative);
    assert_eq!(f64::from_bits(wr.timeseries[1].samples[0].value_bits), -1.5);
}

#[test]
fn assemble_accepts_empty_hostname() {
    let wr = assemble("", 0, 0, -7);
    assert_eq!(wr.timeseries.len(), 2);
    assert_eq!(wr.timeseries[0].labels[0].value, "");
    assert_eq!(wr.timeseries[0].samples[0].timestamp_millis, -7);
}
