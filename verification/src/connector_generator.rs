//! What a connector is generated from: the template that fits an endpoint,
//! the values that fill it, and the summary that goes into the manifest.

use crate::config::Config;
use crate::metadata::Metadata;
use crate::scanner::{
    endpoint_views, CategoryModel, EndpointInfo, EndpointModel, EndpointType, Protocol,
    ProtocolModel,
};
use crate::text::{decimal_text, push_decimal};
use vstd::prelude::*;
use vstd::string::*;

verus! {

/// The values that are particular to one kind of connector.
#[derive(Debug)]
pub enum ConnectorDetails {
    Api {
        protocol: &'static str,
        base_path: &'static str,
        auth_type: &'static str,
        default_transformation: &'static str,
    },
    Log {
        protocol: &'static str,
        format: &'static str,
        min_severity: &'static str,
        log_pattern: &'static str,
        time_format: &'static str,
    },
    Database { db_type: &'static str, auth_type: &'static str, health_query: &'static str },
    MessageQueue {
        protocol: &'static str,
        auth_type: &'static str,
        default_topic: &'static str,
        processing_type: &'static str,
    },
    Generic { protocol: &'static str, service_type: String },
}

/// The values that fill a connector template.
#[derive(Debug)]
pub struct ConnectorData {
    pub connector_id: String,
    pub name: String,
    pub host: String,
    pub port: u16,
    pub metadata: Metadata,
    pub polling_interval: u64,
    pub details: ConnectorDetails,
}

/// What `ConnectorDetails` stands for.
pub enum DetailsModel {
    Api {
        protocol: Seq<char>,
        base_path: Seq<char>,
        auth_type: Seq<char>,
        default_transformation: Seq<char>,
    },
    Log {
        protocol: Seq<char>,
        format: Seq<char>,
        min_severity: Seq<char>,
        log_pattern: Seq<char>,
        time_format: Seq<char>,
    },
    Database { db_type: Seq<char>, auth_type: Seq<char>, health_query: Seq<char> },
    MessageQueue {
        protocol: Seq<char>,
        auth_type: Seq<char>,
        default_topic: Seq<char>,
        processing_type: Seq<char>,
    },
    Generic { protocol: Seq<char>, service_type: Seq<char> },
}

/// What `ConnectorData` stands for.
#[verifier::ext_equal]
pub struct ConnectorModel {
    pub connector_id: Seq<char>,
    pub name: Seq<char>,
    pub host: Seq<char>,
    pub port: u16,
    pub metadata: Map<Seq<char>, Seq<char>>,
    pub polling_interval: u64,
    pub details: DetailsModel,
}

impl View for ConnectorDetails {
    type V = DetailsModel;

    open spec fn view(&self) -> DetailsModel {
        match self {
            ConnectorDetails::Api { protocol, base_path, auth_type, default_transformation } => {
                DetailsModel::Api {
                    protocol: protocol@,
                    base_path: base_path@,
                    auth_type: auth_type@,
                    default_transformation: default_transformation@,
                }
            },
            ConnectorDetails::Log { protocol, format, min_severity, log_pattern, time_format } => {
                DetailsModel::Log {
                    protocol: protocol@,
                    format: format@,
                    min_severity: min_severity@,
                    log_pattern: log_pattern@,
                    time_format: time_format@,
                }
            },
            ConnectorDetails::Database { db_type, auth_type, health_query } => {
                DetailsModel::Database {
                    db_type: db_type@,
                    auth_type: auth_type@,
                    health_query: health_query@,
                }
            },
            ConnectorDetails::MessageQueue {
                protocol,
                auth_type,
                default_topic,
                processing_type,
            } => DetailsModel::MessageQueue {
                protocol: protocol@,
                auth_type: auth_type@,
                default_topic: default_topic@,
                processing_type: processing_type@,
            },
            ConnectorDetails::Generic { protocol, service_type } => DetailsModel::Generic {
                protocol: protocol@,
                service_type: service_type@,
            },
        }
    }
}

impl View for ConnectorData {
    type V = ConnectorModel;

    open spec fn view(&self) -> ConnectorModel {
        ConnectorModel {
            connector_id: self.connector_id@,
            name: self.name@,
            host: self.host@,
            port: self.port,
            metadata: self.metadata@,
            polling_interval: self.polling_interval,
            details: self.details@,
        }
    }
}

/// The name of the template that renders endpoints of kind `category`.
pub open spec fn template_name(category: CategoryModel) -> Seq<char> {
    match category {
        CategoryModel::API => "api_connector"@,
        CategoryModel::Log => "log_connector"@,
        CategoryModel::Database => "database_connector"@,
        CategoryModel::MessageQueue => "message_queue_connector"@,
        CategoryModel::Other(_) => "generic_connector"@,
    }
}

/// The name of the template that renders `endpoint`.
pub fn select_template_for_endpoint(endpoint: &EndpointInfo) -> (name: &'static str)
    ensures
        name@ == template_name(endpoint@.category),
{
    match endpoint.endpoint_type {
        EndpointType::API => "api_connector",
        EndpointType::Log => "log_connector",
        EndpointType::Database => "database_connector",
        EndpointType::MessageQueue => "message_queue_connector",
        EndpointType::Other(_) => "generic_connector",
    }
}

/// The scheme of an API connector: what is not HTTPS is taken for HTTP.
pub open spec fn api_protocol_name(protocol: ProtocolModel) -> Seq<char> {
    match protocol {
        ProtocolModel::HTTPS => "https"@,
        _ => "http"@,
    }
}

/// The transport of a log source: what is not UDP is taken for TCP.
pub open spec fn log_protocol_name(protocol: ProtocolModel) -> Seq<char> {
    match protocol {
        ProtocolModel::UDP => "udp"@,
        _ => "tcp"@,
    }
}

/// The protocol of a message queue: what is not AMQP is taken for MQTT.
pub open spec fn queue_protocol_name(protocol: ProtocolModel) -> Seq<char> {
    match protocol {
        ProtocolModel::AMQP => "amqp"@,
        _ => "mqtt"@,
    }
}

/// The protocol of a generic connector: TCP unless it is UDP, HTTP or HTTPS.
pub open spec fn generic_protocol_name(protocol: ProtocolModel) -> Seq<char> {
    match protocol {
        ProtocolModel::UDP => "udp"@,
        ProtocolModel::HTTP => "http"@,
        ProtocolModel::HTTPS => "https"@,
        _ => "tcp"@,
    }
}

/// The database product that is guessed from the port.
pub open spec fn database_kind(port: u16) -> Seq<char> {
    if port == 3306 {
        "mysql"@
    } else if port == 5432 {
        "postgresql"@
    } else if port == 1521 {
        "oracle"@
    } else if port == 27017 {
        "mongodb"@
    } else {
        "unknown"@
    }
}

/// The query that checks the health of the database at `port`.
pub open spec fn health_query(port: u16) -> Seq<char> {
    if port == 27017 {
        "{\"serverStatus\": 1}"@
    } else {
        "SELECT 1"@
    }
}

/// The values particular to the kind of connector that fits an endpoint
/// of the given kind, protocol and port.
pub open spec fn details_model(category: CategoryModel, protocol: ProtocolModel, port: u16) -> DetailsModel {
    match category {
        CategoryModel::API => DetailsModel::Api {
            protocol: api_protocol_name(protocol),
            base_path: "/"@,
            auth_type: "none"@,
            default_transformation: "."@,
        },
        CategoryModel::Log => DetailsModel::Log {
            protocol: log_protocol_name(protocol),
            format: "syslog"@,
            min_severity: "warning"@,
            log_pattern: "%{TIMESTAMP_ISO8601:timestamp} %{LOGLEVEL:severity} %{GREEDYDATA:message}"@,
            time_format: "yyyy-MM-dd'T'HH:mm:ss.SSSZ"@,
        },
        CategoryModel::Database => DetailsModel::Database {
            db_type: database_kind(port),
            auth_type: "basic"@,
            health_query: health_query(port),
        },
        CategoryModel::MessageQueue => DetailsModel::MessageQueue {
            protocol: queue_protocol_name(protocol),
            auth_type: "none"@,
            default_topic: "mcp/events"@,
            processing_type: "passthrough"@,
        },
        CategoryModel::Other(label) => DetailsModel::Generic {
            protocol: generic_protocol_name(protocol),
            service_type: label,
        },
    }
}

/// The display name of the connector for the service at `host:port`.
pub open spec fn connector_name(host: Seq<char>, port: u16) -> Seq<char> {
    "MCP Connector for "@ + host + ":"@ + decimal_text(port as nat)
}

/// The values that fill the template of `endpoint`, for the connector
/// called `connector_id`.
pub open spec fn connector_model(
    endpoint: EndpointModel,
    polling_interval: u64,
    connector_id: Seq<char>,
) -> ConnectorModel {
    ConnectorModel {
        connector_id,
        name: connector_name(endpoint.address, endpoint.port),
        host: endpoint.address,
        port: endpoint.port,
        metadata: endpoint.metadata,
        polling_interval,
        details: details_model(endpoint.category, endpoint.protocol, endpoint.port),
    }
}

/// The values particular to the kind of connector that fits `endpoint`.
pub fn connector_details(endpoint: &EndpointInfo) -> (d: ConnectorDetails)
    ensures
        d@ == details_model(endpoint@.category, endpoint@.protocol, endpoint.port),
{
    let port = endpoint.port;
    match &endpoint.endpoint_type {
        EndpointType::API => {
            let protocol = match endpoint.protocol {
                Protocol::HTTPS => "https",
                _ => "http",
            };
            ConnectorDetails::Api {
                protocol,
                base_path: "/",
                auth_type: "none",
                default_transformation: ".",
            }
        },
        EndpointType::Log => {
            let protocol = match endpoint.protocol {
                Protocol::UDP => "udp",
                _ => "tcp",
            };
            ConnectorDetails::Log {
                protocol,
                format: "syslog",
                min_severity: "warning",
                log_pattern: "%{TIMESTAMP_ISO8601:timestamp} %{LOGLEVEL:severity} %{GREEDYDATA:message}",
                time_format: "yyyy-MM-dd'T'HH:mm:ss.SSSZ",
            }
        },
        EndpointType::Database => {
            let db_type = match port {
                3306 => "mysql",
                5432 => "postgresql",
                1521 => "oracle",
                27017 => "mongodb",
                _ => "unknown",
            };
            let health_query = if port == 27017 {
                "{\"serverStatus\": 1}"
            } else {
                "SELECT 1"
            };
            ConnectorDetails::Database { db_type, auth_type: "basic", health_query }
        },
        EndpointType::MessageQueue => {
            let protocol = match endpoint.protocol {
                Protocol::AMQP => "amqp",
                _ => "mqtt",
            };
            ConnectorDetails::MessageQueue {
                protocol,
                auth_type: "none",
                default_topic: "mcp/events",
                processing_type: "passthrough",
            }
        },
        EndpointType::Other(service_type) => {
            let protocol = match endpoint.protocol {
                Protocol::UDP => "udp",
                Protocol::HTTP => "http",
                Protocol::HTTPS => "https",
                _ => "tcp",
            };
            ConnectorDetails::Generic { protocol, service_type: service_type.clone() }
        },
    }
}

/// The values that fill the template of `endpoint`, for the connector
/// called `connector_id`.
pub fn connector_data(endpoint: &EndpointInfo, config: &Config, connector_id: String) -> (data:
    ConnectorData)
    ensures
        data@ == connector_model(
            endpoint@,
            config.connector.default_polling_interval,
            connector_id@,
        ),
{
    let mut name = "MCP Connector for ".to_string();
    name.append(endpoint.address.as_str());
    name.append(":");
    push_decimal(&mut name, endpoint.port as u64);
    ConnectorData {
        connector_id,
        name,
        host: endpoint.address.clone(),
        port: endpoint.port,
        metadata: endpoint.metadata.clone(),
        polling_interval: config.connector.default_polling_interval,
        details: connector_details(endpoint),
    }
}

/// Calls `uuid::Uuid::new_v4` and renders the identifier as text. The
/// identifier is random; nothing is claimed about it. `new_v4` panics
/// where the system hands out no random bytes.
#[verifier::external_body]
fn random_identifier() -> String {
    uuid::Uuid::new_v4().to_string()
}

/// The values that fill the template of `endpoint`, under a fresh random
/// connector identifier.
pub fn prepare_connector_data(endpoint: &EndpointInfo, config: &Config) -> (data: ConnectorData)
    ensures
        data@ == connector_model(
            endpoint@,
            config.connector.default_polling_interval,
            data.connector_id@,
        ),
{
    connector_data(endpoint, config, random_identifier())
}

/// The name of the file that holds the connector called `connector_id`.
pub open spec fn connector_file_name_of(connector_id: Seq<char>) -> Seq<char> {
    "mcp_connector_"@ + connector_id + ".json"@
}

/// The name of the file that holds the connector called `connector_id`.
pub fn connector_file_name(connector_id: &str) -> (name: String)
    ensures
        name@ == connector_file_name_of(connector_id@),
{
    let mut name = "mcp_connector_".to_string();
    name.append(connector_id);
    name.append(".json");
    name
}

/// The value of one field of a connector.
#[derive(Debug)]
pub enum FieldValue {
    Text(String),
    Number(u64),
    Table(Metadata),
}

/// One field of a connector, under the name by which templates refer to
/// it.
#[derive(Debug)]
pub struct ConnectorField {
    pub name: &'static str,
    pub value: FieldValue,
}

/// What a `FieldValue` stands for.
pub enum FieldValueModel {
    Text(Seq<char>),
    Number(u64),
    Table(Map<Seq<char>, Seq<char>>),
}

impl View for FieldValue {
    type V = FieldValueModel;

    open spec fn view(&self) -> FieldValueModel {
        match self {
            FieldValue::Text(text) => FieldValueModel::Text(text@),
            FieldValue::Number(n) => FieldValueModel::Number(*n),
            FieldValue::Table(table) => FieldValueModel::Table(table@),
        }
    }
}

impl View for ConnectorField {
    type V = (Seq<char>, FieldValueModel);

    open spec fn view(&self) -> (Seq<char>, FieldValueModel) {
        (self.name@, self.value@)
    }
}

/// What a list of fields stands for.
pub open spec fn field_views(v: Seq<ConnectorField>) -> Seq<(Seq<char>, FieldValueModel)> {
    Seq::new(v.len(), |i: int| v[i]@)
}

/// A field that holds a text.
pub open spec fn text_field(name: Seq<char>, text: Seq<char>) -> (Seq<char>, FieldValueModel) {
    (name, FieldValueModel::Text(text))
}

/// A field that holds a number.
pub open spec fn number_field(name: Seq<char>, n: u64) -> (Seq<char>, FieldValueModel) {
    (name, FieldValueModel::Number(n))
}

/// The fields that every connector has.
pub open spec fn common_fields(m: ConnectorModel) -> Seq<(Seq<char>, FieldValueModel)> {
    seq![
        text_field("connector_id"@, m.connector_id),
        text_field("name"@, m.name),
        text_field("host"@, m.host),
        number_field("port"@, m.port as u64),
        ("metadata"@, FieldValueModel::Table(m.metadata)),
        number_field("polling_interval"@, m.polling_interval),
    ]
}

/// The fields that are particular to one kind of connector.
pub open spec fn detail_fields(d: DetailsModel) -> Seq<(Seq<char>, FieldValueModel)> {
    match d {
        DetailsModel::Api { protocol, base_path, auth_type, default_transformation } => seq![
            text_field("protocol"@, protocol),
            text_field("base_path"@, base_path),
            text_field("auth_type"@, auth_type),
            text_field("default_transformation"@, default_transformation),
        ],
        DetailsModel::Log { protocol, format, min_severity, log_pattern, time_format } => seq![
            text_field("protocol"@, protocol),
            text_field("format"@, format),
            text_field("min_severity"@, min_severity),
            text_field("log_pattern"@, log_pattern),
            text_field("time_format"@, time_format),
        ],
        DetailsModel::Database { db_type, auth_type, health_query } => seq![
            text_field("db_type"@, db_type),
            text_field("auth_type"@, auth_type),
            text_field("health_query"@, health_query),
        ],
        DetailsModel::MessageQueue { protocol, auth_type, default_topic, processing_type } => seq![
            text_field("protocol"@, protocol),
            text_field("auth_type"@, auth_type),
            text_field("default_topic"@, default_topic),
            text_field("processing_type"@, processing_type),
        ],
        DetailsModel::Generic { protocol, service_type } => seq![
            text_field("protocol"@, protocol),
            text_field("service_type"@, service_type),
        ],
    }
}

/// The fields of a connector, by the names under which the templates
/// refer to them: those that every connector has, then those of its kind.
pub open spec fn fields_of(m: ConnectorModel) -> Seq<(Seq<char>, FieldValueModel)> {
    common_fields(m) + detail_fields(m.details)
}

/// No two fields of a connector have the same name.
pub proof fn lemma_field_names_are_distinct(m: ConnectorModel, i: int, j: int)
    requires
        0 <= i < j < fields_of(m).len(),
    ensures
        fields_of(m)[i].0 != fields_of(m)[j].0,
{
    // Two names of one connector differ in their length or in their first
    // letter.
    reveal_strlit("connector_id");
    reveal_strlit("name");
    reveal_strlit("host");
    reveal_strlit("port");
    reveal_strlit("metadata");
    reveal_strlit("polling_interval");
    reveal_strlit("protocol");
    reveal_strlit("base_path");
    reveal_strlit("auth_type");
    reveal_strlit("default_transformation");
    reveal_strlit("format");
    reveal_strlit("min_severity");
    reveal_strlit("log_pattern");
    reveal_strlit("time_format");
    reveal_strlit("db_type");
    reveal_strlit("health_query");
    reveal_strlit("default_topic");
    reveal_strlit("processing_type");
    reveal_strlit("service_type");
    assert("name"@.len() == 4 && "name"@[0] == 'n');
    assert("host"@.len() == 4 && "host"@[0] == 'h');
    assert("port"@.len() == 4 && "port"@[0] == 'p');
    assert("metadata"@.len() == 8 && "metadata"@[0] == 'm');
    assert("polling_interval"@.len() == 16 && "polling_interval"@[0] == 'p');
    assert("protocol"@.len() == 8 && "protocol"@[0] == 'p');
    assert("base_path"@.len() == 9 && "base_path"@[0] == 'b');
    assert("auth_type"@.len() == 9 && "auth_type"@[0] == 'a');
    assert("default_transformation"@.len() == 22 && "default_transformation"@[0] == 'd');
    assert("format"@.len() == 6 && "format"@[0] == 'f');
    assert("min_severity"@.len() == 12 && "min_severity"@[0] == 'm');
    assert("log_pattern"@.len() == 11 && "log_pattern"@[0] == 'l');
    assert("time_format"@.len() == 11 && "time_format"@[0] == 't');
    assert("db_type"@.len() == 7 && "db_type"@[0] == 'd');
    assert("health_query"@.len() == 12 && "health_query"@[0] == 'h');
    assert("default_topic"@.len() == 13 && "default_topic"@[0] == 'd');
    assert("processing_type"@.len() == 15 && "processing_type"@[0] == 'p');
    assert("service_type"@.len() == 12 && "service_type"@[0] == 's');
}

/// A field that holds the text `value` under the name `name`.
fn text(name: &'static str, value: &str) -> (field: ConnectorField)
    ensures
        field@ == text_field(name@, value@),
{
    ConnectorField { name, value: FieldValue::Text(value.to_owned()) }
}

impl ConnectorDetails {
    /// Appends the fields of these details to `fields`.
    fn push_fields(&self, fields: &mut Vec<ConnectorField>)
        ensures
            field_views(final(fields)@) == field_views(old(fields)@) + detail_fields(self@),
    {
        let ghost held = field_views(fields@);
        match self {
            ConnectorDetails::Api { protocol, base_path, auth_type, default_transformation } => {
                fields.push(text("protocol", protocol));
                fields.push(text("base_path", base_path));
                fields.push(text("auth_type", auth_type));
                fields.push(text("default_transformation", default_transformation));
            },
            ConnectorDetails::Log { protocol, format, min_severity, log_pattern, time_format } => {
                fields.push(text("protocol", protocol));
                fields.push(text("format", format));
                fields.push(text("min_severity", min_severity));
                fields.push(text("log_pattern", log_pattern));
                fields.push(text("time_format", time_format));
            },
            ConnectorDetails::Database { db_type, auth_type, health_query } => {
                fields.push(text("db_type", db_type));
                fields.push(text("auth_type", auth_type));
                fields.push(text("health_query", health_query));
            },
            ConnectorDetails::MessageQueue {
                protocol,
                auth_type,
                default_topic,
                processing_type,
            } => {
                fields.push(text("protocol", protocol));
                fields.push(text("auth_type", auth_type));
                fields.push(text("default_topic", default_topic));
                fields.push(text("processing_type", processing_type));
            },
            ConnectorDetails::Generic { protocol, service_type } => {
                fields.push(text("protocol", protocol));
                fields.push(text("service_type", service_type.as_str()));
            },
        }
    }
}

impl ConnectorData {
    /// The fields of the connector, by the names under which the templates
    /// refer to them.
    pub fn fields(&self) -> (fields: Vec<ConnectorField>)
        ensures
            field_views(fields@) == fields_of(self@),
    {
        let mut fields: Vec<ConnectorField> = Vec::new();
        fields.push(text("connector_id", self.connector_id.as_str()));
        fields.push(text("name", self.name.as_str()));
        fields.push(text("host", self.host.as_str()));
        fields.push(ConnectorField { name: "port", value: FieldValue::Number(self.port as u64) });
        fields.push(
            ConnectorField { name: "metadata", value: FieldValue::Table(self.metadata.clone()) },
        );
        fields.push(
            ConnectorField {
                name: "polling_interval",
                value: FieldValue::Number(self.polling_interval),
            },
        );
        self.details.push_fields(&mut fields);
        fields
    }
}

/// What is generated for one endpoint: the values to render, the template
/// to render them with, and the file to write the result to.
#[derive(Debug)]
pub struct ConnectorPlan {
    pub template_name: &'static str,
    pub data: ConnectorData,
    /// The identifier in the file's name; not that of the connector.
    pub file_id: String,
    pub file_name: String,
}

/// Whether `plan` is what is generated for `endpoint`, whatever the two
/// identifiers in it.
pub open spec fn plans_for(plan: ConnectorPlan, endpoint: EndpointModel, polling_interval: u64) -> bool {
    &&& plan.template_name@ == template_name(endpoint.category)
    &&& plan.data@ == connector_model(endpoint, polling_interval, plan.data.connector_id@)
    &&& plan.file_name@ == connector_file_name_of(plan.file_id@)
}

/// What is generated for `endpoint`, under fresh random identifiers.
pub fn plan_connector(endpoint: &EndpointInfo, config: &Config) -> (plan: ConnectorPlan)
    ensures
        plans_for(plan, endpoint@, config.connector.default_polling_interval),
{
    let template_name = select_template_for_endpoint(endpoint);
    let data = prepare_connector_data(endpoint, config);
    let file_id = random_identifier();
    let file_name = connector_file_name(file_id.as_str());
    ConnectorPlan { template_name, data, file_id, file_name }
}

/// What is generated for a whole inventory: one connector for each
/// endpoint, in the order of the inventory.
pub fn plan_connectors(scan_results: &Vec<EndpointInfo>, config: &Config) -> (plans: Vec<
    ConnectorPlan,
>)
    ensures
        plans@.len() == scan_results@.len(),
        forall|i: int|
            0 <= i < plans@.len() ==> plans_for(
                #[trigger] plans@[i],
                scan_results@[i]@,
                config.connector.default_polling_interval,
            ),
{
    let mut plans: Vec<ConnectorPlan> = Vec::new();
    let mut i: usize = 0;
    while i < scan_results.len()
        invariant
            i <= scan_results@.len(),
            plans@.len() == i,
            forall|j: int|
                0 <= j < i ==> plans_for(
                    #[trigger] plans@[j],
                    scan_results@[j]@,
                    config.connector.default_polling_interval,
                ),
        decreases scan_results@.len() - i,
    {
        plans.push(plan_connector(&scan_results[i], config));
        i = i + 1;
    }
    plans
}

/// How many endpoints of each kind an inventory holds.
#[derive(Debug, Clone, Copy, PartialEq, Eq, Structural)]
pub struct EndpointSummary {
    pub connector_count: usize,
    pub api_count: usize,
    pub log_count: usize,
    pub database_count: usize,
    pub message_queue_count: usize,
    pub other_count: usize,
}

/// The number of endpoints in `inventory` that are `wanted`.
pub open spec fn count_of(inventory: Seq<EndpointModel>, wanted: spec_fn(EndpointModel) -> bool) -> nat {
    inventory.filter(wanted).len()
}

pub open spec fn is_api(e: EndpointModel) -> bool {
    e.category is API
}

pub open spec fn is_log(e: EndpointModel) -> bool {
    e.category is Log
}

pub open spec fn is_database(e: EndpointModel) -> bool {
    e.category is Database
}

pub open spec fn is_message_queue(e: EndpointModel) -> bool {
    e.category is MessageQueue
}

pub open spec fn is_other(e: EndpointModel) -> bool {
    e.category is Other
}

/// The summary of `inventory`.
pub open spec fn summary_of(inventory: Seq<EndpointModel>) -> EndpointSummary {
    EndpointSummary {
        connector_count: inventory.len() as usize,
        api_count: count_of(inventory, |e: EndpointModel| is_api(e)) as usize,
        log_count: count_of(inventory, |e: EndpointModel| is_log(e)) as usize,
        database_count: count_of(inventory, |e: EndpointModel| is_database(e)) as usize,
        message_queue_count: count_of(inventory, |e: EndpointModel| is_message_queue(e)) as usize,
        other_count: count_of(inventory, |e: EndpointModel| is_other(e)) as usize,
    }
}

/// The five counts by kind add up to the number of endpoints.
pub proof fn lemma_counts_add_up(inventory: Seq<EndpointModel>)
    ensures
        count_of(inventory, |e: EndpointModel| is_api(e)) + count_of(
            inventory,
            |e: EndpointModel| is_log(e),
        ) + count_of(inventory, |e: EndpointModel| is_database(e)) + count_of(
            inventory,
            |e: EndpointModel| is_message_queue(e),
        ) + count_of(inventory, |e: EndpointModel| is_other(e)) == inventory.len(),
    decreases inventory.len(),
{
    reveal(Seq::filter);
    if inventory.len() > 0 {
        lemma_counts_add_up(inventory.drop_last());
    }
}

/// Counts the endpoints of an inventory by kind, for the manifest.
pub fn summarize(scan_results: &Vec<EndpointInfo>) -> (summary: EndpointSummary)
    ensures
        summary == summary_of(endpoint_views(scan_results@)),
{
    let ghost all = endpoint_views(scan_results@);
    let mut summary = EndpointSummary {
        connector_count: 0,
        api_count: 0,
        log_count: 0,
        database_count: 0,
        message_queue_count: 0,
        other_count: 0,
    };
    let mut i: usize = 0;
    while i < scan_results.len()
        invariant
            i <= scan_results@.len(),
            all == endpoint_views(scan_results@),
            summary == summary_of(all.take(i as int)),
        decreases scan_results@.len() - i,
    {
        proof {
            let done = all.take(i as int);
            let e = scan_results@[i as int]@;
            assert(all.take(i + 1) =~= done.push(e));
            done.lemma_filter_push(e, |e: EndpointModel| is_api(e));
            done.lemma_filter_push(e, |e: EndpointModel| is_log(e));
            done.lemma_filter_push(e, |e: EndpointModel| is_database(e));
            done.lemma_filter_push(e, |e: EndpointModel| is_message_queue(e));
            done.lemma_filter_push(e, |e: EndpointModel| is_other(e));
        }
        summary.connector_count = summary.connector_count + 1;
        match scan_results[i].endpoint_type {
            EndpointType::API => {
                summary.api_count = summary.api_count + 1;
            },
            EndpointType::Log => {
                summary.log_count = summary.log_count + 1;
            },
            EndpointType::Database => {
                summary.database_count = summary.database_count + 1;
            },
            EndpointType::MessageQueue => {
                summary.message_queue_count = summary.message_queue_count + 1;
            },
            EndpointType::Other(_) => {
                summary.other_count = summary.other_count + 1;
            },
        }
        i = i + 1;
    }
    assert(all.take(scan_results@.len() as int) =~= all);
    summary
}

} // verus!
