use speedwatch::endpoint::parse_endpoint;
use speedwatch::error::SwError;

#[test]
fn parse_endpoint_accepts_the_default_url() {
    let u = parse_endpoint("http://localhost:9090/api/v1/write").unwrap();
    assert_eq!(u.as_str(), "http://localhost:9090/api/v1/write");
    assert_eq!(u.scheme(), "http");
}

#[test]
fn parse_endpoint_rejects_a_relative_path() {
    let r = parse_endpoint("api/v1/write");
    assert_eq!(
        r.unwrap_err(),
        SwError::Encoding(String::from("invalid remote write URL: api/v1/write"))
    );
}

#[test]
fn parse_endpoint_rejects_plain_text() {
    let r = parse_endpoint("not a url");
    assert!(matches!(r, Err(SwError::Encoding(_))));
}
