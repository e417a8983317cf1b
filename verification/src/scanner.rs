//! Endpoints, and what is inferred about a service from its port.

use crate::metadata::Metadata;
use crate::network::is_ipv4_literal;
use vstd::prelude::*;

verus! {

/// The kind of service behind an endpoint.
#[derive(Debug)]
pub enum EndpointType {
    API,
    Log,
    Database,
    MessageQueue,
    Other(String),
}

/// The protocol that an endpoint speaks.
#[derive(Debug)]
pub enum Protocol {
    HTTP,
    HTTPS,
    TCP,
    UDP,
    MQTT,
    AMQP,
    Other(String),
}

/// A reachable service that was found.
#[derive(Debug)]
pub struct EndpointInfo {
    pub endpoint_type: EndpointType,
    pub address: String,
    pub port: u16,
    pub protocol: Protocol,
    pub metadata: Metadata,
    pub discovered_timestamp: u64,
}

/// The endpoints found by a run. Their order is that in which the work
/// completed, and carries no meaning.
pub type ScanResults = Vec<EndpointInfo>;

/// What an `EndpointType` stands for.
pub enum CategoryModel {
    API,
    Log,
    Database,
    MessageQueue,
    Other(Seq<char>),
}

/// What a `Protocol` stands for.
pub enum ProtocolModel {
    HTTP,
    HTTPS,
    TCP,
    UDP,
    MQTT,
    AMQP,
    Other(Seq<char>),
}

/// What an `EndpointInfo` stands for.
#[verifier::ext_equal]
pub struct EndpointModel {
    pub category: CategoryModel,
    pub address: Seq<char>,
    pub port: u16,
    pub protocol: ProtocolModel,
    pub metadata: Map<Seq<char>, Seq<char>>,
    pub discovered_at: u64,
}

impl View for EndpointType {
    type V = CategoryModel;

    open spec fn view(&self) -> CategoryModel {
        match self {
            EndpointType::API => CategoryModel::API,
            EndpointType::Log => CategoryModel::Log,
            EndpointType::Database => CategoryModel::Database,
            EndpointType::MessageQueue => CategoryModel::MessageQueue,
            EndpointType::Other(label) => CategoryModel::Other(label@),
        }
    }
}

impl View for Protocol {
    type V = ProtocolModel;

    open spec fn view(&self) -> ProtocolModel {
        match self {
            Protocol::HTTP => ProtocolModel::HTTP,
            Protocol::HTTPS => ProtocolModel::HTTPS,
            Protocol::TCP => ProtocolModel::TCP,
            Protocol::UDP => ProtocolModel::UDP,
            Protocol::MQTT => ProtocolModel::MQTT,
            Protocol::AMQP => ProtocolModel::AMQP,
            Protocol::Other(label) => ProtocolModel::Other(label@),
        }
    }
}

impl View for EndpointInfo {
    type V = EndpointModel;

    open spec fn view(&self) -> EndpointModel {
        EndpointModel {
            category: self.endpoint_type@,
            address: self.address@,
            port: self.port,
            protocol: self.protocol@,
            metadata: self.metadata@,
            discovered_at: self.discovered_timestamp,
        }
    }
}

impl Clone for EndpointType {
    fn clone(&self) -> (r: EndpointType)
        ensures
            r@ == self@,
    {
        match self {
            EndpointType::API => EndpointType::API,
            EndpointType::Log => EndpointType::Log,
            EndpointType::Database => EndpointType::Database,
            EndpointType::MessageQueue => EndpointType::MessageQueue,
            EndpointType::Other(label) => EndpointType::Other(label.clone()),
        }
    }
}

impl Clone for Protocol {
    fn clone(&self) -> (r: Protocol)
        ensures
            r@ == self@,
    {
        match self {
            Protocol::HTTP => Protocol::HTTP,
            Protocol::HTTPS => Protocol::HTTPS,
            Protocol::TCP => Protocol::TCP,
            Protocol::UDP => Protocol::UDP,
            Protocol::MQTT => Protocol::MQTT,
            Protocol::AMQP => Protocol::AMQP,
            Protocol::Other(label) => Protocol::Other(label.clone()),
        }
    }
}

impl Clone for EndpointInfo {
    fn clone(&self) -> (r: EndpointInfo)
        ensures
            r@ == self@,
    {
        EndpointInfo {
            endpoint_type: self.endpoint_type.clone(),
            address: self.address.clone(),
            port: self.port,
            protocol: self.protocol.clone(),
            metadata: self.metadata.clone(),
            discovered_timestamp: self.discovered_timestamp,
        }
    }
}

/// What a list of endpoints stands for.
pub open spec fn endpoint_views(v: Seq<EndpointInfo>) -> Seq<EndpointModel> {
    Seq::new(v.len(), |i: int| v[i]@)
}

/// The protocol that is inferred from a port: the well-known web and
/// message-broker ports have their own, every other port is plain TCP.
pub open spec fn protocol_of_port(port: u16) -> ProtocolModel {
    if port == 80 {
        ProtocolModel::HTTP
    } else if port == 443 {
        ProtocolModel::HTTPS
    } else if port == 1883 || port == 8883 {
        ProtocolModel::MQTT
    } else if port == 5672 {
        ProtocolModel::AMQP
    } else {
        ProtocolModel::TCP
    }
}

/// The kind of service that is inferred from a port; a port that is not
/// listed is `Other("Unknown")`.
pub open spec fn category_of_port(port: u16) -> CategoryModel {
    if port == 80 || port == 443 || port == 8080 || port == 8443 {
        CategoryModel::API
    } else if port == 514 || port == 1468 || port == 10514 {
        CategoryModel::Log
    } else if port == 3306 || port == 5432 || port == 1521 || port == 27017 {
        CategoryModel::Database
    } else if port == 1883 || port == 8883 || port == 5672 {
        CategoryModel::MessageQueue
    } else {
        CategoryModel::Other("Unknown"@)
    }
}

/// Infers protocol and kind of service from the port number alone.
pub fn classify_port(port: u16) -> (r: (Protocol, EndpointType))
    ensures
        r.0@ == protocol_of_port(port),
        r.1@ == category_of_port(port),
{
    let protocol = match port {
        80 => Protocol::HTTP,
        443 => Protocol::HTTPS,
        1883 | 8883 => Protocol::MQTT,
        5672 => Protocol::AMQP,
        _ => Protocol::TCP,
    };
    let endpoint_type = match port {
        80 | 443 | 8080 | 8443 => EndpointType::API,
        514 | 1468 | 10514 => EndpointType::Log,
        3306 | 5432 | 1521 | 27017 => EndpointType::Database,
        1883 | 8883 | 5672 => EndpointType::MessageQueue,
        _ => EndpointType::Other("Unknown".to_string()),
    };
    (protocol, endpoint_type)
}

/// Classification depends on the port alone: two classifications of one
/// port agree, whenever and in whatever order they were made.
pub proof fn lemma_classification_is_a_function(
    port: u16,
    first: (Protocol, EndpointType),
    second: (Protocol, EndpointType),
)
    requires
        first.0@ == protocol_of_port(port) && first.1@ == category_of_port(port),
        second.0@ == protocol_of_port(port) && second.1@ == category_of_port(port),
    ensures
        first.0@ == second.0@,
        first.1@ == second.1@,
{
}

/// A port outside the table is classified as plain TCP of unknown kind.
pub proof fn lemma_unlisted_port_is_unknown_tcp(port: u16)
    requires
        port != 80 && port != 443 && port != 8080 && port != 8443,
        port != 1883 && port != 8883 && port != 5672,
        port != 514 && port != 1468 && port != 10514,
        port != 3306 && port != 5432 && port != 1521 && port != 27017,
    ensures
        protocol_of_port(port) == ProtocolModel::TCP,
        category_of_port(port) == CategoryModel::Other("Unknown"@),
{
}

/// The name under which active probing signs its findings.
pub open spec fn port_scan_source() -> Seq<char> {
    "port_scan"@
}

/// The endpoint that is reported for a port found open at `address`.
pub open spec fn port_scan_endpoint(address: Seq<char>, port: u16, seen_at: u64) -> EndpointModel {
    EndpointModel {
        category: category_of_port(port),
        address,
        port,
        protocol: protocol_of_port(port),
        metadata: map!["detected_by"@ => port_scan_source()],
        discovered_at: seen_at,
    }
}

/// Calls `chrono::Utc::now` and `DateTime::timestamp`: the number of
/// seconds since the Unix epoch, read from the machine's clock. Nothing is
/// claimed about the value. `Utc::now` panics where the clock stands
/// before the epoch.
#[verifier::external_body]
fn unix_seconds_now() -> i64 {
    chrono::Utc::now().timestamp()
}

/// The stamp of what the clock reads now, whatever that is: the time of observation.
pub fn observation_time() -> u64 {
    stamp_from_seconds(unix_seconds_now())
}

/// The stamp that stands for a clock reading of `seconds` since the Unix
/// epoch: the same number, and for a reading before the epoch that
/// number counted round from 2^64.
pub open spec fn stamp_of(seconds: i64) -> u64 {
    if seconds >= 0 {
        seconds as u64
    } else {
        (seconds + 0x1_0000_0000_0000_0000) as u64
    }
}

/// The stamp that stands for a clock reading of `seconds` since the Unix
/// epoch.
pub fn stamp_from_seconds(seconds: i64) -> (stamp: u64)
    ensures
        stamp == stamp_of(seconds),
{
    assert(seconds < 0 ==> (seconds as u64) as i128 == seconds as i128
        + 0x1_0000_0000_0000_0000i128) by (bit_vector);
    seconds as u64
}

/// The endpoint for a port that was found open at `address` at the time
/// `seen_at`.
pub fn open_port_endpoint(address: &str, port: u16, seen_at: u64) -> (e: EndpointInfo)
    requires
        is_ipv4_literal(address@),
    ensures
        e@ == port_scan_endpoint(address@, port, seen_at),
{
    let (protocol, endpoint_type) = classify_port(port);
    let mut metadata = Metadata::new();
    metadata.insert("detected_by".to_string(), "port_scan".to_string());
    EndpointInfo {
        endpoint_type,
        address: address.to_owned(),
        port,
        protocol,
        metadata,
        discovered_timestamp: seen_at,
    }
}

/// Turns the outcome of one probe into an endpoint: none where nothing
/// answered, and none for port 0, which names no service; else the
/// classified endpoint, stamped with the current time.
pub fn probe_endpoint(address: &str, port: u16, reachable: bool) -> (r: Option<EndpointInfo>)
    requires
        is_ipv4_literal(address@),
    ensures
        r is Some <==> reachable && port != 0,
        r matches Some(e) ==> e@ == port_scan_endpoint(address@, port, e.discovered_timestamp),
{
    if reachable && port != 0 {
        Some(open_port_endpoint(address, port, observation_time()))
    } else {
        None
    }
}

} // verus!
