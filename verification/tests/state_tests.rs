use gateway::state::sha256_hex;
use gateway::state::MainState;
use gateway::transport::plan_publish;
use gateway::transport::qos_from_config;
use gateway::definitions::TransportAction;

#[test]
fn sha256_known_digests() {
    assert_eq!(
        sha256_hex(&String::new()),
        "e3b0c44298fc1c149afbf4c8996fb92427ae41e4649b934ca495991b7852b855"
    );
    assert_eq!(
        sha256_hex(&String::from("abc")),
        "ba7816bf8f01cfea414140de5dae2223b00361a396177a9cb410ff61f20015ad"
    );
}

#[test]
fn recorded_hashes_by_path() {
    let mut state = MainState::new();
    state.record_file(String::from("root.yml"), &String::from("abc"));
    state.record_file(String::from("chan.yml"), &String::new());
    let hashes = state.get_configured_hashes();
    assert_eq!(hashes.len(), 2);
    assert_eq!(
        hashes.get(&String::from("root.yml")),
        Some(&String::from(
            "ba7816bf8f01cfea414140de5dae2223b00361a396177a9cb410ff61f20015ad"
        ))
    );

    // Re-reading a file replaces its hash in place.
    let mut state2 = MainState::new();
    state2.record_file(String::from("root.yml"), &String::from("abc"));
    state2.record_file(String::from("root.yml"), &String::new());
    let hashes2 = state2.get_configured_hashes();
    assert_eq!(hashes2.len(), 1);
    assert_eq!(
        hashes2.get(&String::from("root.yml")),
        Some(&String::from(
            "e3b0c44298fc1c149afbf4c8996fb92427ae41e4649b934ca495991b7852b855"
        ))
    );
}

#[test]
fn qos_mapping() {
    assert_eq!(qos_from_config(0), 0);
    assert_eq!(qos_from_config(1), 1);
    assert_eq!(qos_from_config(2), 2);
    assert_eq!(qos_from_config(3), 1);
    assert_eq!(qos_from_config(255), 1);
}

#[test]
fn publish_topics() {
    let (topic, body) = plan_publish(&TransportAction::SendTimeseries(String::from("{}")));
    assert_eq!(topic, "v1/gateway/telemetry");
    assert_eq!(body, "{}");

    let (topic, body) = plan_publish(&TransportAction::SendAttributes(String::from("{\"a\":1}")));
    assert_eq!(topic, "v1/gateway/attributes");
    assert_eq!(body, "{\"a\":1}");
}
