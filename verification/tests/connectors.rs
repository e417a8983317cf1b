use mcp_scanner::config::create_default_config;
use mcp_scanner::connector_generator::{
    connector_data, connector_details, connector_file_name, plan_connector, plan_connectors,
    prepare_connector_data, select_template_for_endpoint, summarize, ConnectorData,
    ConnectorDetails, EndpointSummary, FieldValue,
};
use mcp_scanner::metadata::Metadata;
use mcp_scanner::scanner::{open_port_endpoint, EndpointInfo, EndpointType, Protocol};

fn endpoint(kind: EndpointType, protocol: Protocol, port: u16) -> EndpointInfo {
    let mut metadata = Metadata::new();
    metadata.insert("detected_by".to_string(), "test".to_string());
    EndpointInfo {
        endpoint_type: kind,
        address: "203.0.113.9".to_string(),
        port,
        protocol,
        metadata,
        discovered_timestamp: 7,
    }
}

fn is_uuid(text: &str) -> bool {
    let bytes = text.as_bytes();
    bytes.len() == 36
        && bytes.iter().enumerate().all(|(i, b)| match i {
            8 | 13 | 18 | 23 => *b == b'-',
            _ => b.is_ascii_hexdigit() && !b.is_ascii_uppercase(),
        })
}

#[test]
fn each_kind_has_its_template() {
    let cases = [
        (EndpointType::API, "api_connector"),
        (EndpointType::Log, "log_connector"),
        (EndpointType::Database, "database_connector"),
        (EndpointType::MessageQueue, "message_queue_connector"),
        (EndpointType::Other("Unknown".to_string()), "generic_connector"),
        (EndpointType::Other(String::new()), "generic_connector"),
    ];
    for (kind, name) in cases {
        assert_eq!(select_template_for_endpoint(&endpoint(kind, Protocol::TCP, 1)), name);
    }
}

#[test]
fn common_values_come_from_endpoint_and_configuration() {
    let mut config = create_default_config();
    config.connector.default_polling_interval = 15;
    let e = open_port_endpoint("198.51.100.42", 3306, 99);
    let data = connector_data(&e, &config, "abc-123".to_string());
    assert_eq!(data.connector_id, "abc-123");
    assert_eq!(data.name, "MCP Connector for 198.51.100.42:3306");
    assert_eq!(data.host, "198.51.100.42");
    assert_eq!(data.port, 3306);
    assert_eq!(data.polling_interval, 15);
    assert_eq!(data.metadata.get("detected_by").map(|v| v.as_str()), Some("port_scan"));
    assert_eq!(data.metadata.entries().len(), 1);
}

#[test]
fn names_show_the_port_in_decimal() {
    let config = create_default_config();
    for (port, text) in [(0u16, "0"), (7, "7"), (10, "10"), (80, "80"), (65535, "65535"), (10514, "10514")] {
        let e = endpoint(EndpointType::Log, Protocol::TCP, port);
        let data = connector_data(&e, &config, String::new());
        assert_eq!(data.name, format!("MCP Connector for 203.0.113.9:{}", text));
    }
}

#[test]
fn api_details() {
    for (protocol, expected) in [
        (Protocol::HTTP, "http"),
        (Protocol::HTTPS, "https"),
        (Protocol::TCP, "http"),
        (Protocol::MQTT, "http"),
        (Protocol::Other("x".to_string()), "http"),
    ] {
        match connector_details(&endpoint(EndpointType::API, protocol, 8080)) {
            ConnectorDetails::Api { protocol, base_path, auth_type, default_transformation } => {
                assert_eq!(protocol, expected);
                assert_eq!(base_path, "/");
                assert_eq!(auth_type, "none");
                assert_eq!(default_transformation, ".");
            }
            _ => panic!("API details are due"),
        }
    }
}

#[test]
fn log_details() {
    for (protocol, expected) in
        [(Protocol::TCP, "tcp"), (Protocol::UDP, "udp"), (Protocol::HTTP, "tcp")]
    {
        match connector_details(&endpoint(EndpointType::Log, protocol, 514)) {
            ConnectorDetails::Log { protocol, format, min_severity, log_pattern, time_format } => {
                assert_eq!(protocol, expected);
                assert_eq!(format, "syslog");
                assert_eq!(min_severity, "warning");
                assert_eq!(
                    log_pattern,
                    "%{TIMESTAMP_ISO8601:timestamp} %{LOGLEVEL:severity} %{GREEDYDATA:message}"
                );
                assert_eq!(time_format, "yyyy-MM-dd'T'HH:mm:ss.SSSZ");
            }
            _ => panic!("log details are due"),
        }
    }
}

#[test]
fn database_details() {
    for (port, kind, query) in [
        (3306u16, "mysql", "SELECT 1"),
        (5432, "postgresql", "SELECT 1"),
        (1521, "oracle", "SELECT 1"),
        (27017, "mongodb", "{\"serverStatus\": 1}"),
        (1433, "unknown", "SELECT 1"),
    ] {
        match connector_details(&endpoint(EndpointType::Database, Protocol::TCP, port)) {
            ConnectorDetails::Database { db_type, auth_type, health_query } => {
                assert_eq!(db_type, kind);
                assert_eq!(auth_type, "basic");
                assert_eq!(health_query, query);
            }
            _ => panic!("database details are due"),
        }
    }
}

#[test]
fn message_queue_details() {
    for (protocol, expected) in
        [(Protocol::MQTT, "mqtt"), (Protocol::AMQP, "amqp"), (Protocol::TCP, "mqtt")]
    {
        match connector_details(&endpoint(EndpointType::MessageQueue, protocol, 1883)) {
            ConnectorDetails::MessageQueue {
                protocol,
                auth_type,
                default_topic,
                processing_type,
            } => {
                assert_eq!(protocol, expected);
                assert_eq!(auth_type, "none");
                assert_eq!(default_topic, "mcp/events");
                assert_eq!(processing_type, "passthrough");
            }
            _ => panic!("message queue details are due"),
        }
    }
}

#[test]
fn generic_details() {
    for (protocol, expected) in [
        (Protocol::TCP, "tcp"),
        (Protocol::UDP, "udp"),
        (Protocol::HTTP, "http"),
        (Protocol::HTTPS, "https"),
        (Protocol::MQTT, "tcp"),
        (Protocol::AMQP, "tcp"),
        (Protocol::Other("quic".to_string()), "tcp"),
    ] {
        let e = endpoint(EndpointType::Other("MediaServer".to_string()), protocol, 8200);
        match connector_details(&e) {
            ConnectorDetails::Generic { protocol, service_type } => {
                assert_eq!(protocol, expected);
                assert_eq!(service_type, "MediaServer");
            }
            _ => panic!("generic details are due"),
        }
    }
}

#[test]
fn prepared_data_has_a_fresh_identifier() {
    let config = create_default_config();
    let e = open_port_endpoint("198.51.100.42", 443, 99);
    let first = prepare_connector_data(&e, &config);
    let second = prepare_connector_data(&e, &config);
    assert!(is_uuid(&first.connector_id), "{}", first.connector_id);
    assert!(is_uuid(&second.connector_id), "{}", second.connector_id);
    assert_ne!(first.connector_id, second.connector_id);
    assert_eq!(first.name, "MCP Connector for 198.51.100.42:443");
    assert_eq!(first.polling_interval, 60);
    assert!(matches!(first.details, ConnectorDetails::Api { protocol: "https", .. }));
}

#[test]
fn file_names_hold_the_identifier() {
    assert_eq!(connector_file_name("abc"), "mcp_connector_abc.json");
    assert_eq!(connector_file_name(""), "mcp_connector_.json");
}

#[test]
fn a_plan_names_template_data_and_file() {
    let config = create_default_config();
    let e = open_port_endpoint("198.51.100.42", 5672, 99);
    let plan = plan_connector(&e, &config);
    assert_eq!(plan.template_name, "message_queue_connector");
    assert!(is_uuid(&plan.file_id));
    assert_eq!(plan.file_name, format!("mcp_connector_{}.json", plan.file_id));
    assert!(is_uuid(&plan.data.connector_id));
    assert_ne!(plan.data.connector_id, plan.file_id);
    assert_eq!(plan.data.host, "198.51.100.42");
    assert!(matches!(plan.data.details, ConnectorDetails::MessageQueue { protocol: "amqp", .. }));
}

#[test]
fn one_plan_for_each_endpoint_in_order() {
    let config = create_default_config();
    let inventory = vec![
        open_port_endpoint("10.0.0.1", 80, 1),
        open_port_endpoint("10.0.0.2", 514, 2),
        open_port_endpoint("10.0.0.3", 22, 3),
    ];
    let plans = plan_connectors(&inventory, &config);
    assert_eq!(plans.len(), 3);
    let templates: Vec<&str> = plans.iter().map(|p| p.template_name).collect();
    assert_eq!(templates, vec!["api_connector", "log_connector", "generic_connector"]);
    let hosts: Vec<&str> = plans.iter().map(|p| p.data.host.as_str()).collect();
    assert_eq!(hosts, vec!["10.0.0.1", "10.0.0.2", "10.0.0.3"]);
    assert!(plan_connectors(&Vec::new(), &config).is_empty());
}

#[test]
fn summary_counts_by_kind() {
    let ports = [80u16, 443, 3306, 514, 1883, 5672, 8883, 22, 23, 27017, 8080, 5432, 1521];
    let inventory: Vec<EndpointInfo> =
        ports.iter().map(|p| open_port_endpoint("10.0.0.1", *p, 0)).collect();
    let summary = summarize(&inventory);
    assert_eq!(
        summary,
        EndpointSummary {
            connector_count: 13,
            api_count: 3,
            log_count: 1,
            database_count: 4,
            message_queue_count: 3,
            other_count: 2,
        }
    );
    assert_eq!(
        summary.api_count
            + summary.log_count
            + summary.database_count
            + summary.message_queue_count
            + summary.other_count,
        summary.connector_count
    );
}

#[test]
fn summary_of_nothing_is_all_zero() {
    assert_eq!(
        summarize(&Vec::new()),
        EndpointSummary {
            connector_count: 0,
            api_count: 0,
            log_count: 0,
            database_count: 0,
            message_queue_count: 0,
            other_count: 0,
        }
    );
}

fn shown(data: &ConnectorData) -> Vec<(String, String)> {
    data.fields()
        .iter()
        .map(|field| {
            let value = match &field.value {
                FieldValue::Text(text) => format!("text {}", text),
                FieldValue::Number(n) => format!("number {}", n),
                FieldValue::Table(table) => {
                    let mut pairs: Vec<String> = table
                        .entries()
                        .iter()
                        .map(|e| format!("{}={}", e.key, e.value))
                        .collect();
                    pairs.sort();
                    format!("table {}", pairs.join(","))
                }
            };
            (field.name.to_string(), value)
        })
        .collect()
}

fn expected(pairs: &[(&str, &str)]) -> Vec<(String, String)> {
    pairs.iter().map(|(name, value)| (name.to_string(), value.to_string())).collect()
}

#[test]
fn fields_of_a_database_connector() {
    let config = create_default_config();
    let e = open_port_endpoint("198.51.100.42", 5432, 99);
    let data = connector_data(&e, &config, "id-7".to_string());
    assert_eq!(
        shown(&data),
        expected(&[
            ("connector_id", "text id-7"),
            ("name", "text MCP Connector for 198.51.100.42:5432"),
            ("host", "text 198.51.100.42"),
            ("port", "number 5432"),
            ("metadata", "table detected_by=port_scan"),
            ("polling_interval", "number 60"),
            ("db_type", "text postgresql"),
            ("auth_type", "text basic"),
            ("health_query", "text SELECT 1"),
        ])
    );
}

#[test]
fn fields_of_a_generic_connector() {
    let config = create_default_config();
    let mut e = endpoint(EndpointType::Other("MediaServer".to_string()), Protocol::HTTP, 8200);
    e.metadata.insert("device_type".to_string(), "MediaServer".to_string());
    let data = connector_data(&e, &config, "x".to_string());
    assert_eq!(
        shown(&data),
        expected(&[
            ("connector_id", "text x"),
            ("name", "text MCP Connector for 203.0.113.9:8200"),
            ("host", "text 203.0.113.9"),
            ("port", "number 8200"),
            ("metadata", "table detected_by=test,device_type=MediaServer"),
            ("polling_interval", "number 60"),
            ("protocol", "text http"),
            ("service_type", "text MediaServer"),
        ])
    );
}

#[test]
fn every_kind_of_connector_has_distinct_field_names() {
    let config = create_default_config();
    let kinds = [
        (EndpointType::API, vec!["protocol", "base_path", "auth_type", "default_transformation"]),
        (
            EndpointType::Log,
            vec!["protocol", "format", "min_severity", "log_pattern", "time_format"],
        ),
        (EndpointType::Database, vec!["db_type", "auth_type", "health_query"]),
        (
            EndpointType::MessageQueue,
            vec!["protocol", "auth_type", "default_topic", "processing_type"],
        ),
        (EndpointType::Other("x".to_string()), vec!["protocol", "service_type"]),
    ];
    for (kind, particular) in kinds {
        let data = connector_data(&endpoint(kind, Protocol::TCP, 1), &config, String::new());
        let names: Vec<&str> = data.fields().iter().map(|f| f.name).collect();
        let mut all = vec!["connector_id", "name", "host", "port", "metadata", "polling_interval"];
        all.extend(particular);
        assert_eq!(names, all);
        let mut sorted = names.clone();
        sorted.sort();
        sorted.dedup();
        assert_eq!(sorted.len(), names.len());
    }
}
