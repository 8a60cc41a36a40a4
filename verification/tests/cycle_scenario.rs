use speedwatch::error::SwError;
use speedwatch::metrics::{assemble, epoch_millis_timestamp};
use speedwatch::request::{with_authorization, Header, HttpRequest};
use speedwatch::scheduler::{next_action, Action, CycleOutcome};

// One whole cycle at a one-minute interval: measurements (50.0 Mbit, 20.0 ms)
// taken at epoch-millis T become the two expected series, the delivery request
// carries the Basic auth header, and the scheduler sleeps the rest of the
// minute before the next cycle.
#[test]
fn one_minute_cycle() {
    let t: i64 = epoch_millis_timestamp(1700000000123).unwrap();
    assert_eq!(t, 1700000000123);

    let wr = assemble("h", 50.0f64.to_bits(), 20.0f64.to_bits(), t);
    assert_eq!(wr.timeseries.len(), 2);
    let bandwidth = &wr.timeseries[0];
    assert_eq!(bandwidth.labels[0].value, "h");
    assert_eq!(bandwidth.labels[1].value, "sw_internet_bandwidth_mbit");
    assert_eq!(f64::from_bits(bandwidth.samples[0].value_bits), 50.0);
    assert_eq!(bandwidth.samples[0].timestamp_millis, t);
    let latency = &wr.timeseries[1];
    assert_eq!(latency.labels[0].value, "h");
    assert_eq!(latency.labels[1].value, "sw_internet_latency_ms");
    assert_eq!(f64::from_bits(latency.samples[0].value_bits), 20.0);
    assert_eq!(latency.samples[0].timestamp_millis, t);

    // what the wire encoder built from the assembled request, authorized
    let built = HttpRequest {
        method: String::from("POST"),
        url: String::from("http://localhost:9090/api/v1/write"),
        headers: vec![Header {
            name: String::from("content-type"),
            value: String::from("application/x-protobuf"),
        }],
        body: vec![0],
    };
    let delivered = with_authorization(built, "user", "pass");
    assert_eq!(delivered.url, "http://localhost:9090/api/v1/write");
    assert!(delivered
        .headers
        .iter()
        .any(|h| h.name == "Authorization" && h.value == "Basic dXNlcjpwYXNz"));

    // the cycle took 1500 ms of the minute: sleep until about T + 60000
    let action = next_action(1, CycleOutcome::Completed { elapsed_millis: 1500 });
    assert_eq!(action, Action::Sleep(58500));
}

// A first cycle that fails in transport stops the scheduler at once: the very
// error comes back, and nothing asks for a sleep before it.
#[test]
fn failing_first_cycle_terminates() {
    let e = SwError::Transport(String::from("connection refused"));
    let action = next_action(1, CycleOutcome::Failed(e.clone()));
    assert_eq!(action, Action::Terminate(e));
}

#[test]
fn epoch_millis_timestamp_rejects_an_absurd_clock() {
    assert_eq!(epoch_millis_timestamp(i64::MAX as u128), Ok(i64::MAX));
    let r = epoch_millis_timestamp(i64::MAX as u128 + 1);
    assert_eq!(
        r,
        Err(SwError::Clock(String::from(
            "current time overflows a millisecond count"
        )))
    );
}
