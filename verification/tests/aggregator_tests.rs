use gateway::aggregator::Aggregator;
use gateway::definitions::KvMap;
use gateway::definitions::OneTelemetry;
use gateway::definitions::TransportAction;
use gateway::json::render_attributes_envelope;
use gateway::json::render_timeseries_envelope;
use gateway::storage::SqliteStorageAction;

#[test]
fn envelope_shape_end_to_end() {
    // One batch: attributes {"serial": "42"} and one telemetry frame.
    let mut attrs = KvMap::new();
    attrs.insert(String::from("serial"), String::from("42"));

    let mut frame_values = KvMap::new();
    frame_values.insert(String::from("power"), String::from("120.5"));
    let frame = OneTelemetry { ts: 1700000000000, values: frame_values };

    let (insert, send_series, send_attrs) = Aggregator::aggregate(
        (String::from("dev1"), attrs),
        (String::from("dev1"), vec![frame]),
        1700000000500,
    );

    let expected_series =
        "{\"dev1\":[{\"ts\":1700000000000,\"values\":{\"power\":\"120.5\"}}]}";
    let expected_attrs = "{\"dev1\":{\"serial\":\"42\"}}";

    match insert {
        SqliteStorageAction::InsertBoth(ins) => {
            assert_eq!(ins.ts, 1700000000500);
            assert_eq!(ins.device_name, "dev1");
            assert_eq!(ins.timeseries_message.as_deref(), Some(expected_series));
            assert_eq!(ins.attributes_message.as_deref(), Some(expected_attrs));
        }
        other => panic!("expected an insert, got {:?}", other),
    }
    match send_series {
        TransportAction::SendTimeseries(body) => assert_eq!(body, expected_series),
        other => panic!("expected a timeseries publish, got {:?}", other),
    }
    match send_attrs {
        TransportAction::SendAttributes(body) => assert_eq!(body, expected_attrs),
        other => panic!("expected an attributes publish, got {:?}", other),
    }
}

#[test]
fn empty_batch_still_makes_one_envelope() {
    // Zero readers produce empty maps but still one envelope of each kind.
    let attrs = KvMap::new();
    let (insert, send_series, send_attrs) = Aggregator::aggregate(
        (String::from("dev"), attrs),
        (String::from("dev"), vec![]),
        7,
    );
    match insert {
        SqliteStorageAction::InsertBoth(ins) => {
            assert_eq!(ins.timeseries_message.as_deref(), Some("{\"dev\":[]}"));
            assert_eq!(ins.attributes_message.as_deref(), Some("{\"dev\":{}}"));
        }
        other => panic!("expected an insert, got {:?}", other),
    }
    assert!(matches!(send_series, TransportAction::SendTimeseries(_)));
    assert!(matches!(send_attrs, TransportAction::SendAttributes(_)));
}

#[test]
fn envelope_escaping_matches_serde_json() {
    // A nasty device name and value, rendered by the library and by
    // serde_json: both must agree on the escaped text.
    let device = "de\"v\\1\n\tx";
    let value = "a\"b\\c\u{8}\u{c}\r\u{1f}z";

    let mut attrs = KvMap::new();
    attrs.insert(String::from("k"), String::from(value));
    let rendered = render_attributes_envelope(&String::from(device), &attrs);

    let mut inner = serde_json::Map::new();
    inner.insert(String::from("k"), serde_json::Value::String(String::from(value)));
    let mut outer = serde_json::Map::new();
    outer.insert(String::from(device), serde_json::Value::Object(inner));
    let expected = serde_json::to_string(&serde_json::Value::Object(outer)).unwrap();

    assert_eq!(rendered, expected);
}

#[test]
fn envelope_single_top_level_key() {
    // Envelope keying, checked against an independent parser: the top-level
    // object holds exactly one key, the device name.
    let device = "oddly \"named\" device";
    let mut attrs = KvMap::new();
    attrs.insert(String::from("k"), String::from("v"));
    let rendered = render_attributes_envelope(&String::from(device), &attrs);

    let parsed: serde_json::Value = serde_json::from_str(&rendered).unwrap();
    let object = parsed.as_object().unwrap();
    assert_eq!(object.len(), 1);
    assert!(object.contains_key(device));

    let rendered = render_timeseries_envelope(&String::from(device), &vec![]);
    let parsed: serde_json::Value = serde_json::from_str(&rendered).unwrap();
    let object = parsed.as_object().unwrap();
    assert_eq!(object.len(), 1);
    assert!(object.get(device).unwrap().is_array());
}

#[test]
fn timeseries_envelope_two_frames() {
    let mut v1 = KvMap::new();
    v1.insert(String::from("a"), String::from("1"));
    let mut v2 = KvMap::new();
    v2.insert(String::from("a"), String::from("2"));
    let frames = vec![
        OneTelemetry { ts: -5, values: v1 },
        OneTelemetry { ts: 6, values: v2 },
    ];
    let rendered = render_timeseries_envelope(&String::from("d"), &frames);
    assert_eq!(
        rendered,
        "{\"d\":[{\"ts\":-5,\"values\":{\"a\":\"1\"}},{\"ts\":6,\"values\":{\"a\":\"2\"}}]}"
    );
}
