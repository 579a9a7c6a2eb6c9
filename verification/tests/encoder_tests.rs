use influx_client::line_protocol::{encode_batch, Measurement};

#[test]
fn encode_empty_batch_is_empty_string() {
    let batch: Vec<Measurement> = Vec::new();
    assert_eq!(encode_batch(&batch), "");
}

#[test]
fn encode_single_measurement_has_no_separator() {
    let batch = vec![Measurement::new("cpu,host=a value=1".to_owned())];
    assert_eq!(encode_batch(&batch), "cpu,host=a value=1");
}

#[test]
fn encode_batch_joins_in_order_with_newlines() {
    let batch = vec![
        Measurement::new("cpu,host=a value=1".to_owned()),
        Measurement::new("cpu,host=b value=2".to_owned()),
        Measurement::new("mem,host=a used=7".to_owned()),
    ];
    let body = encode_batch(&batch);
    assert_eq!(body, "cpu,host=a value=1\ncpu,host=b value=2\nmem,host=a used=7");
    assert_eq!(body.matches('\n').count(), batch.len() - 1);
    assert!(!body.starts_with('\n'));
    assert!(!body.ends_with('\n'));
}

#[test]
fn measurement_returns_its_own_line() {
    let m = Measurement::new("weather,city=ln temp=11 1672531200000".to_owned());
    assert_eq!(m.to_line_protocol(), "weather,city=ln temp=11 1672531200000");
}
