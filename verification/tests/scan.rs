use mcp_scanner::config::ScanConfig;
use mcp_scanner::network::NetworkError;
use mcp_scanner::scan_run::{NetworkWarning, ProbeTask, ScanAction, ScanPhase, ScanRun};
use mcp_scanner::scanner::{EndpointInfo, EndpointType, Protocol};

fn settings(networks: &[&str], ports: &[u16], concurrency: usize) -> ScanConfig {
    ScanConfig {
        networks: networks.iter().map(|n| n.to_string()).collect(),
        ports: ports.to_vec(),
        concurrency,
        timeout_ms: 200,
        use_mdns: false,
        use_upnp: false,
        exclude_ips: Vec::new(),
    }
}

struct Outcome {
    inventory: Vec<EndpointInfo>,
    warnings: Vec<NetworkWarning>,
    probed: Vec<(String, u16)>,
    most_in_flight: usize,
    steps: usize,
}

/// Runs a scan to its end. Probes end in the reverse of the order in
/// which they started, as far as the limit lets them pile up.
fn drive(config: &ScanConfig, answers: &dyn Fn(&str, u16) -> bool) -> Outcome {
    let mut run = ScanRun::new(config);
    let mut under_way: Vec<ProbeTask> = Vec::new();
    let mut probed = Vec::new();
    let mut most_in_flight = 0;
    let mut steps = 0;
    loop {
        steps += 1;
        assert!(steps < 1_000_000, "the run does not end");
        match run.step() {
            ScanAction::Proceed => {}
            ScanAction::Warn(w) => {
                assert_eq!(run.warnings().last(), Some(&w));
            }
            ScanAction::Probe(task) => {
                probed.push((task.address.clone(), task.port));
                under_way.push(task);
                assert_eq!(run.probes_in_flight(), under_way.len());
                assert!(run.probes_in_flight() <= config.concurrency);
                most_in_flight = most_in_flight.max(under_way.len());
            }
            ScanAction::Await => {
                let task = under_way.pop().expect("a probe under way");
                let reachable = answers(&task.address, task.port);
                assert!(run.probe_finished(&task, reachable));
                assert_eq!(run.probes_in_flight(), under_way.len());
            }
            ScanAction::Finish => break,
        }
    }
    assert!(under_way.is_empty());
    assert!(run.is_complete());
    assert_eq!(run.phase(), ScanPhase::Complete);
    assert_eq!(run.probes_in_flight(), 0);
    let warnings = run.warnings().clone();
    Outcome { inventory: run.into_results(), warnings, probed, most_in_flight, steps }
}

fn source(e: &EndpointInfo) -> &str {
    e.metadata.get("detected_by").expect("a source").as_str()
}

#[test]
fn nothing_reachable_gives_an_empty_inventory() {
    let config = settings(&["198.51.100.0/24"], &[22, 9999], 50);
    let outcome = drive(&config, &|_, _| false);
    assert!(outcome.inventory.is_empty());
    assert!(outcome.warnings.is_empty());
    assert_eq!(outcome.probed.len(), 254 * 2);
    assert_eq!(outcome.most_in_flight, 50);
}

#[test]
fn unsupported_prefix_is_skipped_with_a_warning() {
    let config = settings(&["198.51.100.0/16"], &[22, 9999], 50);
    let outcome = drive(&config, &|_, _| true);
    assert!(outcome.inventory.is_empty());
    assert!(outcome.probed.is_empty());
    assert_eq!(
        outcome.warnings,
        vec![NetworkWarning { network: 0, reason: NetworkError::UnsupportedPrefix }]
    );
}

#[test]
fn one_answer_on_3306_gives_one_database_endpoint() {
    let config = settings(&["198.51.100.0/24"], &[22, 3306], 50);
    let outcome = drive(&config, &|address, port| address == "198.51.100.42" && port == 3306);
    assert_eq!(outcome.inventory.len(), 1);
    let e = &outcome.inventory[0];
    assert!(matches!(e.endpoint_type, EndpointType::Database));
    assert!(matches!(e.protocol, Protocol::TCP));
    assert_eq!(e.address, "198.51.100.42");
    assert_eq!(e.port, 3306);
    assert_eq!(source(e), "port_scan");
}

#[test]
fn probes_start_host_by_host_and_port_by_port() {
    let config = settings(&["10.0.0.0/24"], &[80, 443, 22], 7);
    let outcome = drive(&config, &|_, _| false);
    assert_eq!(outcome.probed.len(), 254 * 3);
    for (k, (address, port)) in outcome.probed.iter().enumerate() {
        assert_eq!(*address, format!("10.0.0.{}", k / 3 + 1));
        assert_eq!(*port, [80u16, 443, 22][k % 3]);
    }
}

#[test]
fn never_more_probes_under_way_than_allowed() {
    for limit in [1usize, 2, 3, 10, 253, 254, 255, 100_000] {
        let config = settings(&["10.0.0.0/24", "10.0.1.0/24"], &[80], limit);
        let outcome = drive(&config, &|_, _| false);
        assert_eq!(outcome.most_in_flight, limit.min(254), "limit {}", limit);
        assert_eq!(outcome.probed.len(), 508);
    }
}

#[test]
fn the_limit_is_never_passed_while_probes_pile_up() {
    let config = settings(&["10.0.0.0/24"], &[80, 443], 5);
    let mut run = ScanRun::new(&config);
    let mut started = 0;
    loop {
        match run.step() {
            ScanAction::Probe(_) => started += 1,
            ScanAction::Await => break,
            ScanAction::Finish => panic!("the run ended with probes under way"),
            _ => {}
        }
        assert!(run.probes_in_flight() <= 5);
    }
    assert_eq!(started, 5);
    assert_eq!(run.probes_in_flight(), 5);
    // Asking again changes nothing until a probe has ended.
    assert!(matches!(run.step(), ScanAction::Await));
    assert!(matches!(run.step(), ScanAction::Await));
    assert_eq!(run.probes_in_flight(), 5);
    let first = ProbeTask { address: "10.0.0.1".to_string(), port: 80 };
    assert!(run.probe_finished(&first, false));
    assert_eq!(run.probes_in_flight(), 4);
    match run.step() {
        ScanAction::Probe(task) => {
            assert_eq!(task.address, "10.0.0.3");
            assert_eq!(task.port, 443);
        }
        _ => panic!("a probe should start"),
    }
    assert!(matches!(run.step(), ScanAction::Await));
}

#[test]
fn a_report_for_a_probe_that_is_not_under_way_is_refused() {
    let config = settings(&["10.0.0.0/24"], &[80], 2);
    let mut run = ScanRun::new(&config);
    let stray = ProbeTask { address: "10.0.0.1".to_string(), port: 80 };
    assert!(!run.probe_finished(&stray, true));
    assert!(matches!(run.step(), ScanAction::Proceed));
    assert!(matches!(run.step(), ScanAction::Proceed));
    assert!(!run.probe_finished(&stray, true));
    assert!(matches!(run.step(), ScanAction::Probe(_)));
    let other_port = ProbeTask { address: "10.0.0.1".to_string(), port: 81 };
    let other_host = ProbeTask { address: "10.0.0.9".to_string(), port: 80 };
    assert!(!run.probe_finished(&other_port, true));
    assert!(!run.probe_finished(&other_host, true));
    assert!(run.results().is_empty());
    assert!(run.probe_finished(&stray, true));
    assert_eq!(run.results().len(), 1);
    assert!(!run.probe_finished(&stray, true));
    assert_eq!(run.results().len(), 1);
}

#[test]
fn phases_follow_one_another() {
    let config = settings(&["bad", "10.0.0.0/24"], &[], 1);
    let mut run = ScanRun::new(&config);
    assert_eq!(run.phase(), ScanPhase::Idle);
    assert!(matches!(run.step(), ScanAction::Proceed));
    assert_eq!(run.phase(), ScanPhase::Enumerating(0));
    match run.step() {
        ScanAction::Warn(w) => {
            assert_eq!(w, NetworkWarning { network: 0, reason: NetworkError::InvalidFormat })
        }
        _ => panic!("a warning is due"),
    }
    assert_eq!(run.phase(), ScanPhase::Enumerating(1));
    assert!(matches!(run.step(), ScanAction::Proceed));
    assert_eq!(run.phase(), ScanPhase::Probing(1));
    assert!(matches!(run.step(), ScanAction::Proceed));
    assert_eq!(run.phase(), ScanPhase::RunningBackends);
    assert!(!run.is_complete());
    assert!(matches!(run.step(), ScanAction::Proceed));
    assert_eq!(run.phase(), ScanPhase::Complete);
    assert!(run.is_complete());
    assert!(matches!(run.step(), ScanAction::Finish));
    assert!(matches!(run.step(), ScanAction::Finish));
    assert_eq!(run.phase(), ScanPhase::Complete);
}

#[test]
fn no_networks_means_no_probes() {
    let config = settings(&[], &[80], 4);
    let outcome = drive(&config, &|_, _| true);
    assert!(outcome.inventory.is_empty());
    assert!(outcome.probed.is_empty());
    assert_eq!(outcome.steps, 3);
}

#[test]
fn a_bad_network_leaves_the_others_alone() {
    let only_good = settings(&["10.0.0.0/24", "10.0.2.0/24"], &[80], 16);
    let with_bad = settings(
        &["10.0.0.0/24", "10.0.1.0/16", "10.0.1/24", "10.0.1.0/xx", "10.0.1.0", "10.0.2.0/24"],
        &[80],
        16,
    );
    let answers = |address: &str, _: u16| address.ends_with(".7");
    let expected = drive(&only_good, &answers);
    let outcome = drive(&with_bad, &answers);
    assert_eq!(outcome.probed, expected.probed);
    let found: Vec<&str> = outcome.inventory.iter().map(|e| e.address.as_str()).collect();
    assert_eq!(found, vec!["10.0.0.7", "10.0.2.7"]);
    assert_eq!(
        outcome.warnings,
        vec![
            NetworkWarning { network: 1, reason: NetworkError::UnsupportedPrefix },
            NetworkWarning { network: 2, reason: NetworkError::InvalidAddress },
            NetworkWarning { network: 3, reason: NetworkError::InvalidPrefix },
            NetworkWarning { network: 4, reason: NetworkError::InvalidFormat },
        ]
    );
}

#[test]
fn without_backends_everything_is_signed_by_the_port_scan() {
    let config = settings(&["10.0.0.0/24"], &[80, 5672, 12345], 32);
    let outcome = drive(&config, &|address, _| address.ends_with("0"));
    assert_eq!(outcome.inventory.len(), 25 * 3);
    for e in &outcome.inventory {
        assert_eq!(source(e), "port_scan");
    }
}

#[test]
fn excluded_addresses_are_never_probed_nor_reported() {
    let mut config = settings(&["10.0.0.0/24"], &[80, 443], 9);
    config.exclude_ips =
        vec!["10.0.0.1".to_string(), "10.0.0.200".to_string(), "10.9.9.9".to_string()];
    let outcome = drive(&config, &|_, _| true);
    assert_eq!(outcome.probed.len(), 252 * 2);
    assert_eq!(outcome.inventory.len(), 252 * 2);
    for excluded in &config.exclude_ips {
        assert!(outcome.probed.iter().all(|(address, _)| address != excluded));
        assert!(outcome.inventory.iter().all(|e| e.address != *excluded));
    }
}

#[test]
fn backends_report_after_the_networks() {
    let mut config = settings(&["10.0.0.0/24"], &[1883], 3);
    config.use_mdns = true;
    config.use_upnp = true;
    let outcome = drive(&config, &|address, _| address == "10.0.0.3");
    assert_eq!(outcome.inventory.len(), 3);
    let probed = &outcome.inventory[0];
    assert_eq!(probed.address, "10.0.0.3");
    assert!(matches!(probed.protocol, Protocol::MQTT));
    assert!(matches!(probed.endpoint_type, EndpointType::MessageQueue));
    let mdns = &outcome.inventory[1];
    assert_eq!(source(mdns), "mdns");
    assert_eq!(mdns.address, "192.168.1.100");
    assert_eq!(mdns.port, 8080);
    let upnp = &outcome.inventory[2];
    assert_eq!(source(upnp), "upnp");
    assert_eq!(upnp.address, "192.168.1.150");
    assert_eq!(upnp.port, 8200);
}

#[test]
fn each_backend_runs_only_if_enabled() {
    let mut config = settings(&[], &[], 1);
    config.use_upnp = true;
    let outcome = drive(&config, &|_, _| true);
    assert_eq!(outcome.inventory.len(), 1);
    assert_eq!(source(&outcome.inventory[0]), "upnp");
    config.use_upnp = false;
    config.use_mdns = true;
    let outcome = drive(&config, &|_, _| true);
    assert_eq!(outcome.inventory.len(), 1);
    assert_eq!(source(&outcome.inventory[0]), "mdns");
}

#[test]
fn the_same_service_may_be_reported_twice() {
    let config = settings(&["10.0.0.0/24", "10.0.0.0/24"], &[80, 80], 4);
    let outcome = drive(&config, &|address, _| address == "10.0.0.5");
    assert_eq!(outcome.inventory.len(), 4);
    for e in &outcome.inventory {
        assert_eq!(e.address, "10.0.0.5");
        assert_eq!(e.port, 80);
    }
}

#[test]
fn port_zero_is_probed_but_never_reported() {
    let config = settings(&["10.0.0.0/24"], &[0, 80], 4);
    let outcome = drive(&config, &|address, _| address == "10.0.0.5");
    assert_eq!(outcome.probed.len(), 508);
    assert_eq!(outcome.inventory.len(), 1);
    assert_eq!(outcome.inventory[0].port, 80);
}

#[test]
fn results_come_in_the_order_in_which_probes_end() {
    let config = settings(&["10.0.0.0/24"], &[80], 3);
    let mut run = ScanRun::new(&config);
    let mut started = Vec::new();
    while started.len() < 3 {
        if let ScanAction::Probe(task) = run.step() {
            started.push(task);
        }
    }
    assert!(run.probe_finished(&started[2], true));
    assert!(run.probe_finished(&started[0], true));
    assert!(run.probe_finished(&started[1], false));
    let found: Vec<&str> = run.results().iter().map(|e| e.address.as_str()).collect();
    assert_eq!(found, vec!["10.0.0.3", "10.0.0.1"]);
}

#[test]
fn a_run_needs_room_for_one_probe() {
    assert!(ScanRun::start(&settings(&["10.0.0.0/24"], &[80], 0)).is_none());
    let config = settings(&["10.0.0.0/24"], &[80], 1);
    let run = ScanRun::start(&config).expect("a run");
    assert_eq!(run.phase(), ScanPhase::Idle);
    assert_eq!(run.probes_in_flight(), 0);
    assert!(run.results().is_empty());
    assert!(run.warnings().is_empty());
}

#[test]
fn a_backend_finding_at_an_excluded_address_is_dropped() {
    let mut config = settings(&[], &[], 1);
    config.use_mdns = true;
    config.use_upnp = true;
    config.exclude_ips = vec!["192.168.1.100".to_string()];
    let outcome = drive(&config, &|_, _| true);
    assert_eq!(outcome.inventory.len(), 1);
    assert_eq!(source(&outcome.inventory[0]), "upnp");
    assert_eq!(outcome.inventory[0].address, "192.168.1.150");

    config.exclude_ips = vec!["192.168.1.150".to_string()];
    let outcome = drive(&config, &|_, _| true);
    assert_eq!(outcome.inventory.len(), 1);
    assert_eq!(source(&outcome.inventory[0]), "mdns");
    assert_eq!(outcome.inventory[0].address, "192.168.1.100");

    config.exclude_ips = vec!["192.168.1.150".to_string(), "192.168.1.100".to_string()];
    let outcome = drive(&config, &|_, _| true);
    assert!(outcome.inventory.is_empty());
}

#[test]
fn no_excluded_address_is_in_the_inventory_whoever_found_it() {
    let mut config = settings(&["192.168.1.0/24"], &[8080, 8200], 20);
    config.use_mdns = true;
    config.use_upnp = true;
    config.exclude_ips = vec![
        "192.168.1.100".to_string(),
        "192.168.1.7".to_string(),
        "192.168.1.150".to_string(),
    ];
    let outcome = drive(&config, &|_, _| true);
    assert_eq!(outcome.inventory.len(), 251 * 2);
    for e in &outcome.inventory {
        assert!(!config.exclude_ips.contains(&e.address));
        assert_eq!(source(e), "port_scan");
    }
}

fn found_sorted(outcome: &Outcome) -> Vec<(String, u16, String)> {
    let mut found: Vec<(String, u16, String)> = outcome
        .inventory
        .iter()
        .map(|e| (e.address.clone(), e.port, source(e).to_string()))
        .collect();
    found.sort();
    found
}

#[test]
fn a_refused_network_before_or_after_changes_nothing() {
    let answers = |address: &str, port: u16| address.ends_with("3") && port != 22;
    let mut alone = settings(&["198.51.100.0/24"], &[22, 80, 3306], 11);
    alone.use_upnp = true;
    alone.exclude_ips = vec!["198.51.100.13".to_string()];
    let expected = drive(&alone, &answers);
    for bad in ["198.51.100.0/16", "198.51.100/24", "198.51.100.0/x", "nonsense"] {
        for networks in [[bad, "198.51.100.0/24"], ["198.51.100.0/24", bad]] {
            let mut config = settings(&networks, &[22, 80, 3306], 11);
            config.use_upnp = true;
            config.exclude_ips = vec!["198.51.100.13".to_string()];
            let outcome = drive(&config, &answers);
            assert_eq!(outcome.probed, expected.probed);
            assert_eq!(found_sorted(&outcome), found_sorted(&expected));
            assert_eq!(outcome.warnings.len(), 1);
        }
    }
    assert_eq!(expected.inventory.len(), 25 * 2 + 1);
}
