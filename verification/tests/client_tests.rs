use influx_client::client::{complete_send, InfluxClient, InfluxClientError};
use influx_client::line_protocol::Measurement;
use influx_client::query::Query;

fn client(url: &str, key: &str, org: &str) -> InfluxClient {
    InfluxClient::builder(url.to_owned(), key.to_owned(), org.to_owned())
        .build()
        .unwrap()
}

#[test]
fn builder_always_builds() {
    let b = InfluxClient::builder(String::new(), String::new(), String::new());
    assert!(b.build().is_ok());
}

#[test]
fn write_url_has_org_bucket_and_precision() {
    let c = client("http://localhost:9999", "T", "myorg");
    let url = c.write_url("bucket1");
    assert_eq!(url, "http://localhost:9999/api/v2/write?org=myorg&bucket=bucket1&precision=ms");
    assert_eq!(url.matches("org=").count(), 1);
    assert_eq!(url.matches("bucket=").count(), 1);
    assert_eq!(url.matches("precision=ms").count(), 1);
}

#[test]
fn query_url_has_org() {
    let c = client("http://localhost:9999", "T", "myorg");
    assert_eq!(c.query_url(), "http://localhost:9999/api/v2/query?org=myorg");
}

#[test]
fn auth_header_is_token_space_key() {
    let c = client("http://localhost:9999", "s3cr3t-token", "myorg");
    assert_eq!(c.auth_header_value().as_bytes(), b"Token s3cr3t-token");
}

#[test]
fn write_request_scenario() {
    let c = client("http://localhost:9999", "T", "myorg");
    let batch = vec![
        Measurement::new("cpu,host=a value=1".to_owned()),
        Measurement::new("cpu,host=b value=2".to_owned()),
    ];
    let req = c.write_request("bucket1", &batch).unwrap();
    assert_eq!(req.method().as_str(), "POST");
    assert_eq!(
        req.url().as_str(),
        "http://localhost:9999/api/v2/write?org=myorg&bucket=bucket1&precision=ms"
    );
    assert_eq!(req.headers().get("Authorization").unwrap().as_bytes(), b"Token T");
    assert_eq!(req.headers().get_all("Authorization").iter().count(), 1);
    assert_eq!(req.headers().len(), 1);
    assert_eq!(
        req.body().unwrap().as_bytes().unwrap(),
        b"cpu,host=a value=1\ncpu,host=b value=2"
    );
}

#[test]
fn write_request_empty_batch_still_built() {
    let c = client("http://localhost:9999", "T", "myorg");
    let req = c.write_request("bucket1", &Vec::new()).unwrap();
    assert_eq!(req.body().unwrap().as_bytes().unwrap(), b"");
}

#[test]
fn query_request_headers_and_body() {
    let c = client("http://localhost:9999", "T", "myorg");
    let q = Query::new("from(bucket: \"bucket1\") |> range(start: -1h)".to_owned());
    let req = c.query_request(&q).unwrap();
    assert_eq!(req.method().as_str(), "POST");
    assert_eq!(req.url().as_str(), "http://localhost:9999/api/v2/query?org=myorg");
    assert_eq!(req.headers().get("Authorization").unwrap().as_bytes(), b"Token T");
    assert_eq!(
        req.headers().get("Content-type").unwrap().as_bytes(),
        b"application/vnd.flux"
    );
    assert_eq!(req.headers().get("Accept").unwrap().as_bytes(), b"application/csv");
    assert_eq!(req.headers().len(), 3);
    assert_eq!(
        req.body().unwrap().as_bytes().unwrap(),
        "from(bucket: \"bucket1\") |> range(start: -1h)".as_bytes()
    );
}

#[test]
fn query_request_bad_url_yields_wrapped_error() {
    let c = client("not a url", "T", "myorg");
    let q = Query::new("buckets()".to_owned());
    let r = c.query_request(&q);
    assert!(matches!(r, Err(InfluxClientError::ReqwestError(_))));
}

#[test]
fn write_request_bad_url_yields_wrapped_error() {
    let c = client("not a url", "T", "myorg");
    let batch = vec![Measurement::new("cpu value=1".to_owned())];
    let r = c.write_request("bucket1", &batch);
    assert!(matches!(r, Err(InfluxClientError::ReqwestError(_))));
}

#[test]
fn complete_send_passes_response_through() {
    let inner = http::Response::builder()
        .status(204)
        .body(String::new())
        .unwrap();
    let response = reqwest::Response::from(inner);
    match complete_send(Ok(response)) {
        Ok(passed) => assert_eq!(passed.status().as_u16(), 204),
        Err(_) => panic!("a transport success must be handed back unchanged"),
    }
}

#[test]
fn complete_send_wraps_transport_error() {
    let err = reqwest::Client::new().post("not a url").build().unwrap_err();
    let r = complete_send(Err(err));
    assert!(matches!(r, Err(InfluxClientError::ReqwestError(_))));
}
