//! Discovery backends: sources of endpoints besides active probing. The
//! two that are built in stand in for listeners on the local network, and
//! each reports one example service.

use crate::metadata::Metadata;
use crate::network::{dotted, is_ipv4_literal, lemma_dotted_octets, lemma_octet_of_number};
use crate::scanner::{
    observation_time, CategoryModel, EndpointInfo, EndpointModel, EndpointType, Protocol,
    ProtocolModel,
};
use crate::text::decimal_text;
use vstd::prelude::*;

verus! {

/// The name under which the service-advertisement backend signs its
/// findings.
pub open spec fn mdns_source() -> Seq<char> {
    "mdns"@
}

/// The name under which the device-discovery backend signs its findings.
pub open spec fn upnp_source() -> Seq<char> {
    "upnp"@
}

/// The service that the service-advertisement backend reports.
pub open spec fn mdns_endpoint(seen_at: u64) -> EndpointModel {
    EndpointModel {
        category: CategoryModel::API,
        address: "192.168.1.100"@,
        port: 8080,
        protocol: ProtocolModel::HTTP,
        metadata: map!["service_name"@ => "example-api"@, "detected_by"@ => mdns_source()],
        discovered_at: seen_at,
    }
}

/// The service that the device-discovery backend reports.
pub open spec fn upnp_endpoint(seen_at: u64) -> EndpointModel {
    EndpointModel {
        category: CategoryModel::Other("MediaServer"@),
        address: "192.168.1.150"@,
        port: 8200,
        protocol: ProtocolModel::HTTP,
        metadata: map!["device_type"@ => "MediaServer"@, "detected_by"@ => upnp_source()],
        discovered_at: seen_at,
    }
}

/// What the built-in backends report has an IPv4 address in dotted
/// decimal form, a port from 1 to 65535, and names its source.
pub proof fn lemma_backend_endpoints_are_well_formed(seen_at: u64)
    ensures
        is_ipv4_literal(mdns_endpoint(seen_at).address),
        is_ipv4_literal(upnp_endpoint(seen_at).address),
        1 <= mdns_endpoint(seen_at).port <= 65535,
        1 <= upnp_endpoint(seen_at).port <= 65535,
        mdns_endpoint(seen_at).metadata["detected_by"@] == mdns_source(),
        upnp_endpoint(seen_at).metadata["detected_by"@] == upnp_source(),
{
    reveal_strlit("192.168.1.100");
    reveal_strlit("192.168.1.150");
    reveal_with_fuel(decimal_text, 3);
    lemma_octet_of_number(192);
    lemma_octet_of_number(168);
    lemma_octet_of_number(1);
    lemma_octet_of_number(100);
    lemma_octet_of_number(150);
    let a = decimal_text(192);
    let b = decimal_text(168);
    let c = decimal_text(1);
    lemma_dotted_octets(a, b, c, decimal_text(100));
    lemma_dotted_octets(a, b, c, decimal_text(150));
    assert("192.168.1.100"@ =~= dotted(a, b, c, decimal_text(100)));
    assert("192.168.1.150"@ =~= dotted(a, b, c, decimal_text(150)));
}

/// What the service-advertisement backend reports when it runs at the
/// time `seen_at`.
pub fn mdns_findings(seen_at: u64) -> (found: Vec<EndpointInfo>)
    ensures
        found@.len() == 1,
        found@[0]@ == mdns_endpoint(seen_at),
{
    let mut metadata = Metadata::new();
    metadata.insert("service_name".to_string(), "example-api".to_string());
    metadata.insert("detected_by".to_string(), "mdns".to_string());
    let e = EndpointInfo {
        endpoint_type: EndpointType::API,
        address: "192.168.1.100".to_string(),
        port: 8080,
        protocol: Protocol::HTTP,
        metadata,
        discovered_timestamp: seen_at,
    };
    let mut found: Vec<EndpointInfo> = Vec::new();
    found.push(e);
    found
}

/// What the device-discovery backend reports when it runs at the time
/// `seen_at`.
pub fn upnp_findings(seen_at: u64) -> (found: Vec<EndpointInfo>)
    ensures
        found@.len() == 1,
        found@[0]@ == upnp_endpoint(seen_at),
{
    let mut metadata = Metadata::new();
    metadata.insert("device_type".to_string(), "MediaServer".to_string());
    metadata.insert("detected_by".to_string(), "upnp".to_string());
    let e = EndpointInfo {
        endpoint_type: EndpointType::Other("MediaServer".to_string()),
        address: "192.168.1.150".to_string(),
        port: 8200,
        protocol: Protocol::HTTP,
        metadata,
        discovered_timestamp: seen_at,
    };
    let mut found: Vec<EndpointInfo> = Vec::new();
    found.push(e);
    found
}

/// Runs the service-advertisement backend. It never fails; a backend that
/// did would report nothing.
pub fn discover_mdns() -> (r: Option<Vec<EndpointInfo>>)
    ensures
        r matches Some(found) && found@.len() == 1 && found@[0]@ == mdns_endpoint(
            found@[0].discovered_timestamp,
        ),
{
    Some(mdns_findings(observation_time()))
}

/// Runs the device-discovery backend. It never fails; a backend that did
/// would report nothing.
pub fn discover_upnp() -> (r: Option<Vec<EndpointInfo>>)
    ensures
        r matches Some(found) && found@.len() == 1 && found@[0]@ == upnp_endpoint(
            found@[0].discovered_timestamp,
        ),
{
    Some(upnp_findings(observation_time()))
}

} // verus!
