//! The settings of a run.

use vstd::prelude::*;

verus! {

/// All settings: scanning, connector generation and logging.
#[derive(Debug)]
pub struct Config {
    pub scan: ScanConfig,
    pub connector: ConnectorConfig,
    pub logging: LoggingConfig,
}

/// What to scan and how.
#[derive(Debug)]
pub struct ScanConfig {
    /// Network specifications, each of the form `a.b.c.d/prefix`.
    pub networks: Vec<String>,
    /// The ports probed on every host.
    pub ports: Vec<u16>,
    /// The largest number of probes that may be open at once; positive.
    pub concurrency: usize,
    /// The time allowed to one probe, in milliseconds.
    pub timeout_ms: u64,
    pub use_mdns: bool,
    pub use_upnp: bool,
    /// Addresses that are never probed.
    pub exclude_ips: Vec<String>,
}

/// How connectors are generated.
#[derive(Debug)]
pub struct ConnectorConfig {
    pub default_polling_interval: u64,
    pub output_format: String,
    pub include_metadata: bool,
    pub templates_dir: Option<String>,
}

/// Where log records go, and from which level on.
#[derive(Debug)]
pub struct LoggingConfig {
    pub level: String,
    pub file: Option<String>,
    pub console: bool,
}

/// The ports of the default configuration: common services, web
/// services, syslog, and message brokers.
pub open spec fn default_ports() -> Seq<u16> {
    seq![
        22u16, 80, 443, 3306, 5432, 1521, 27017,
        8080, 8443, 9000, 9200,
        514, 1468, 10514,
        1883, 8883, 5672,
    ]
}

/// The configuration that is used, and written out, when none is found.
pub fn create_default_config() -> (c: Config)
    ensures
        c.scan.networks@.len() == 1,
        c.scan.networks@[0]@ == "192.168.1.0/24"@,
        c.scan.ports@ == default_ports(),
        c.scan.concurrency == 100,
        c.scan.timeout_ms == 1000,
        c.scan.use_mdns,
        c.scan.use_upnp,
        c.scan.exclude_ips@.len() == 0,
        c.connector.default_polling_interval == 60,
        c.connector.output_format@ == "json"@,
        c.connector.include_metadata,
        c.connector.templates_dir is None,
        c.logging.level@ == "info"@,
        c.logging.file matches Some(f) && f@ == "mcp_scanner.log"@,
        c.logging.console,
{
    let networks = vec!["192.168.1.0/24".to_string()];
    let ports: Vec<u16> = vec![
        22, 80, 443, 3306, 5432, 1521, 27017,
        8080, 8443, 9000, 9200,
        514, 1468, 10514,
        1883, 8883, 5672,
    ];
    Config {
        scan: ScanConfig {
            networks,
            ports,
            concurrency: 100,
            timeout_ms: 1000,
            use_mdns: true,
            use_upnp: true,
            exclude_ips: Vec::new(),
        },
        connector: ConnectorConfig {
            default_polling_interval: 60,
            output_format: "json".to_string(),
            include_metadata: true,
            templates_dir: None,
        },
        logging: LoggingConfig {
            level: "info".to_string(),
            file: Some("mcp_scanner.log".to_string()),
            console: true,
        },
    }
}

} // verus!
