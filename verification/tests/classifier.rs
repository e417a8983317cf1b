use mcp_scanner::scanner::{
    classify_port, observation_time, open_port_endpoint, probe_endpoint, stamp_from_seconds,
    EndpointType, Protocol,
};

fn kind_name(kind: &EndpointType) -> String {
    match kind {
        EndpointType::API => "API".to_string(),
        EndpointType::Log => "Log".to_string(),
        EndpointType::Database => "Database".to_string(),
        EndpointType::MessageQueue => "MessageQueue".to_string(),
        EndpointType::Other(label) => format!("Other({})", label),
    }
}

fn protocol_name(protocol: &Protocol) -> String {
    match protocol {
        Protocol::HTTP => "HTTP".to_string(),
        Protocol::HTTPS => "HTTPS".to_string(),
        Protocol::TCP => "TCP".to_string(),
        Protocol::UDP => "UDP".to_string(),
        Protocol::MQTT => "MQTT".to_string(),
        Protocol::AMQP => "AMQP".to_string(),
        Protocol::Other(label) => format!("Other({})", label),
    }
}

fn classified(port: u16) -> (String, String) {
    let (protocol, kind) = classify_port(port);
    (protocol_name(&protocol), kind_name(&kind))
}

fn pair(protocol: &str, kind: &str) -> (String, String) {
    (protocol.to_string(), kind.to_string())
}

#[test]
fn web_ports_are_apis() {
    assert_eq!(classified(80), pair("HTTP", "API"));
    assert_eq!(classified(443), pair("HTTPS", "API"));
    assert_eq!(classified(8080), pair("TCP", "API"));
    assert_eq!(classified(8443), pair("TCP", "API"));
}

#[test]
fn broker_ports_are_message_queues() {
    assert_eq!(classified(1883), pair("MQTT", "MessageQueue"));
    assert_eq!(classified(8883), pair("MQTT", "MessageQueue"));
    assert_eq!(classified(5672), pair("AMQP", "MessageQueue"));
}

#[test]
fn syslog_ports_are_logs() {
    for port in [514u16, 1468, 10514] {
        assert_eq!(classified(port), pair("TCP", "Log"));
    }
}

#[test]
fn database_ports_are_databases() {
    for port in [3306u16, 5432, 1521, 27017] {
        assert_eq!(classified(port), pair("TCP", "Database"));
    }
}

#[test]
fn unlisted_ports_are_unknown_tcp() {
    for port in [0u16, 1, 22, 81, 9000, 9200, 9999, 65535] {
        assert_eq!(classified(port), pair("TCP", "Other(Unknown)"));
    }
}

#[test]
fn classification_is_repeatable() {
    for port in 0..=u16::MAX {
        assert_eq!(classified(port), classified(port));
    }
}

#[test]
fn every_port_outside_the_table_falls_back() {
    let listed = [
        80u16, 443, 8080, 8443, 1883, 8883, 5672, 514, 1468, 10514, 3306, 5432, 1521, 27017,
    ];
    for port in 0..=u16::MAX {
        if !listed.contains(&port) {
            assert_eq!(classified(port), pair("TCP", "Other(Unknown)"));
        }
    }
}

#[test]
fn open_port_becomes_an_endpoint() {
    let e = open_port_endpoint("198.51.100.7", 3306, 1_700_000_000);
    assert!(matches!(e.endpoint_type, EndpointType::Database));
    assert!(matches!(e.protocol, Protocol::TCP));
    assert_eq!(e.address, "198.51.100.7");
    assert_eq!(e.port, 3306);
    assert_eq!(e.discovered_timestamp, 1_700_000_000);
    assert_eq!(e.metadata.get("detected_by").map(|v| v.as_str()), Some("port_scan"));
    assert_eq!(e.metadata.entries().len(), 1);
}

#[test]
fn closed_port_gives_no_endpoint() {
    assert!(probe_endpoint("198.51.100.7", 3306, false).is_none());
}

#[test]
fn port_zero_gives_no_endpoint() {
    assert!(probe_endpoint("198.51.100.7", 0, true).is_none());
}

#[test]
fn answered_probe_is_stamped_with_the_current_time() {
    let e = probe_endpoint("198.51.100.7", 443, true).expect("an endpoint");
    assert!(matches!(e.endpoint_type, EndpointType::API));
    assert!(matches!(e.protocol, Protocol::HTTPS));
    assert_eq!(e.address, "198.51.100.7");
    assert_eq!(e.port, 443);
    // Later than 2020-01-01: the stamp comes from the clock.
    assert!(e.discovered_timestamp > 1_577_836_800);
}

#[test]
fn endpoint_clone_keeps_every_field() {
    let e = open_port_endpoint("10.1.2.3", 9999, 42);
    let c = e.clone();
    assert_eq!(c.address, "10.1.2.3");
    assert_eq!(c.port, 9999);
    assert_eq!(c.discovered_timestamp, 42);
    assert_eq!(kind_name(&c.endpoint_type), "Other(Unknown)");
    assert_eq!(protocol_name(&c.protocol), "TCP");
    assert_eq!(c.metadata.get("detected_by").map(|v| v.as_str()), Some("port_scan"));
}

#[test]
fn a_stamp_is_the_clock_reading() {
    assert_eq!(stamp_from_seconds(0), 0);
    assert_eq!(stamp_from_seconds(1), 1);
    assert_eq!(stamp_from_seconds(1_700_000_000), 1_700_000_000);
    assert_eq!(stamp_from_seconds(i64::MAX), 9_223_372_036_854_775_807);
}

#[test]
fn a_reading_before_the_epoch_counts_round_from_the_top() {
    assert_eq!(stamp_from_seconds(-1), u64::MAX);
    assert_eq!(stamp_from_seconds(-86_400), u64::MAX - 86_399);
    assert_eq!(stamp_from_seconds(i64::MIN), 9_223_372_036_854_775_808);
}

#[test]
fn observation_time_follows_the_clock() {
    let first = observation_time();
    let second = observation_time();
    // Later than 2020-01-01, and the clock does not run backwards by much.
    assert!(first > 1_577_836_800);
    assert!(second + 5 >= first);
}
