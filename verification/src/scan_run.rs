//! The run of a scan as a state machine. The machine decides what is done
//! next; its caller does the work that needs the network, one probe at a
//! time, and reports how each probe ended.

use crate::config::ScanConfig;
use crate::discovery::{
    discover_mdns, discover_upnp, lemma_backend_endpoints_are_well_formed, mdns_endpoint,
    upnp_endpoint,
};
use crate::network::{
    enumerate_targets, is_ipv4_literal, lemma_hosts_are_ipv4_literals, lemma_targets_exclude,
    lists_text, network_error, network_hosts, network_targets, NetworkError,
};
use crate::run_plan::{
    follows_plan, lemma_finish_follows_plan, lemma_start_follows_plan, lemma_step_follows_plan,
};
use crate::scanner::{
    endpoint_views, port_scan_endpoint, probe_endpoint, EndpointInfo, EndpointModel,
};
use crate::text::texts;
use vstd::prelude::*;

verus! {

/// One probe: a connection attempt to `address` at `port`.
#[derive(Debug)]
pub struct ProbeTask {
    pub address: String,
    pub port: u16,
}

impl View for ProbeTask {
    type V = (Seq<char>, u16);

    open spec fn view(&self) -> (Seq<char>, u16) {
        (self.address@, self.port)
    }
}

impl Clone for ProbeTask {
    fn clone(&self) -> (r: ProbeTask)
        ensures
            r@ == self@,
    {
        ProbeTask { address: self.address.clone(), port: self.port }
    }
}

/// Where a run stands. The number is the position of a network in the
/// configuration.
#[derive(Debug, Clone, Copy, PartialEq, Eq, Structural)]
pub enum ScanPhase {
    Idle,
    Enumerating(usize),
    Probing(usize),
    RunningBackends,
    Complete,
}

/// A network that was skipped, and why.
#[derive(Debug, Clone, Copy, PartialEq, Eq, Structural)]
pub struct NetworkWarning {
    pub network: usize,
    pub reason: NetworkError,
}

/// What the caller of a run is to do next.
#[derive(Debug)]
pub enum ScanAction {
    /// Nothing; ask again.
    Proceed,
    /// Report that a network is skipped, then ask again.
    Warn(NetworkWarning),
    /// Start this probe, then ask again.
    Probe(ProbeTask),
    /// Wait until one of the probes under way has ended, report it, then
    /// ask again.
    Await,
    /// The run is complete.
    Finish,
}

/// What a `ScanAction` stands for.
pub enum ActionModel {
    Proceed,
    Warn(NetworkWarning),
    Probe((Seq<char>, u16)),
    Await,
    Finish,
}

impl View for ScanAction {
    type V = ActionModel;

    open spec fn view(&self) -> ActionModel {
        match self {
            ScanAction::Proceed => ActionModel::Proceed,
            ScanAction::Warn(w) => ActionModel::Warn(*w),
            ScanAction::Probe(task) => ActionModel::Probe(task@),
            ScanAction::Await => ActionModel::Await,
            ScanAction::Finish => ActionModel::Finish,
        }
    }
}

/// The state of a run.
#[verifier::ext_equal]
pub struct ScanModel {
    pub phase: ScanPhase,
    /// The addresses to probe in the network that is being probed.
    pub targets: Seq<Seq<char>>,
    /// The next probe to start is for `targets[host]` at the port at
    /// position `port` of the configuration.
    pub host: nat,
    pub port: nat,
    /// The probes under way, oldest first.
    pub in_flight: Seq<(Seq<char>, u16)>,
    pub inventory: Seq<EndpointModel>,
    pub warnings: Seq<NetworkWarning>,
    /// Every probe that was started so far, in the order of starting.
    pub started: Seq<(Seq<char>, u16)>,
    /// Every probe that has ended so far, with whether something
    /// answered, in the order of ending.
    pub reported: Seq<((Seq<char>, u16), bool)>,
}

/// The addresses that are never probed.
pub open spec fn excluded(config: &ScanConfig) -> Seq<Seq<char>> {
    texts(config.exclude_ips@)
}

/// The addresses to probe in the network at position `i`.
pub open spec fn targets_of(config: &ScanConfig, i: int) -> Seq<Seq<char>> {
    network_targets(config.networks@[i]@, excluded(config))
}

/// The state in which a run starts.
pub open spec fn initial_model() -> ScanModel {
    ScanModel {
        phase: ScanPhase::Idle,
        targets: Seq::empty(),
        host: 0,
        port: 0,
        in_flight: Seq::empty(),
        inventory: Seq::empty(),
        warnings: Seq::empty(),
        started: Seq::empty(),
        reported: Seq::empty(),
    }
}

/// The phase that follows when nothing remains to do for the network at
/// position `i`: the next network, or the backends after the last one.
pub open spec fn phase_after(config: &ScanConfig, i: int) -> ScanPhase {
    if i + 1 < config.networks@.len() {
        ScanPhase::Enumerating((i + 1) as usize)
    } else {
        ScanPhase::RunningBackends
    }
}

/// The phase that follows the start of a run: the first network, or the
/// backends where no network is configured.
pub open spec fn first_phase(config: &ScanConfig) -> ScanPhase {
    if config.networks@.len() > 0 {
        ScanPhase::Enumerating(0)
    } else {
        ScanPhase::RunningBackends
    }
}

/// Whether a probe of the network that is being probed is still to start.
pub open spec fn has_pending(config: &ScanConfig, m: ScanModel) -> bool {
    m.host < m.targets.len() && m.port < config.ports@.len()
}

/// An endpoint without its time of observation.
pub open spec fn timeless(e: EndpointModel) -> EndpointModel {
    EndpointModel { discovered_at: 0, ..e }
}

/// What the enabled backends report, in the order in which they run.
pub open spec fn backend_entries(config: &ScanConfig) -> Seq<EndpointModel> {
    (if config.use_mdns {
        seq![mdns_endpoint(0)]
    } else {
        Seq::empty()
    }) + (if config.use_upnp {
        seq![upnp_endpoint(0)]
    } else {
        Seq::empty()
    })
}

/// Whether the address of an endpoint is not excluded.
pub open spec fn not_excluded(config: &ScanConfig) -> spec_fn(EndpointModel) -> bool {
    |e: EndpointModel| !excluded(config).contains(e.address)
}

/// What of the enabled backends' reports enters the inventory: what is
/// not at an excluded address.
pub open spec fn admitted_backend_entries(config: &ScanConfig) -> Seq<EndpointModel> {
    backend_entries(config).filter(not_excluded(config))
}

/// Whether `after` is `before` followed by `found`, whatever the times of
/// observation.
pub open spec fn extended_by(
    before: Seq<EndpointModel>,
    after: Seq<EndpointModel>,
    found: Seq<EndpointModel>,
) -> bool {
    &&& after.len() == before.len() + found.len()
    &&& after.take(before.len() as int) == before
    &&& forall|k: int|
        0 <= k < found.len() ==> timeless(#[trigger] after[before.len() + k]) == timeless(found[k])
}

/// One step of a run: what the run asks of its caller in the state
/// `before`, and the state `after` in which that leaves it.
pub open spec fn steps_to(
    config: &ScanConfig,
    before: ScanModel,
    after: ScanModel,
    action: ActionModel,
) -> bool {
    match before.phase {
        ScanPhase::Idle => {
            &&& action == ActionModel::Proceed
            &&& after =~= ScanModel { phase: first_phase(config), ..before }
        },
        ScanPhase::Enumerating(i) => match network_error(config.networks@[i as int]@) {
            Some(reason) => {
                let warning = NetworkWarning { network: i, reason };
                &&& action == ActionModel::Warn(warning)
                &&& after =~= ScanModel {
                    phase: phase_after(config, i as int),
                    warnings: before.warnings.push(warning),
                    ..before
                }
            },
            None => {
                &&& action == ActionModel::Proceed
                &&& after =~= ScanModel {
                    phase: ScanPhase::Probing(i),
                    targets: targets_of(config, i as int),
                    host: 0,
                    port: 0,
                    ..before
                }
            },
        },
        ScanPhase::Probing(i) => if before.in_flight.len() < config.concurrency && has_pending(
            config,
            before,
        ) {
            let task = (before.targets[before.host as int], config.ports@[before.port as int]);
            let last_port = before.port + 1 == config.ports@.len();
            &&& action == ActionModel::Probe(task)
            &&& after =~= ScanModel {
                in_flight: before.in_flight.push(task),
                started: before.started.push(task),
                host: if last_port {
                    before.host + 1
                } else {
                    before.host
                },
                port: if last_port {
                    0
                } else {
                    before.port + 1
                },
                ..before
            }
        } else if before.in_flight.len() > 0 {
            &&& action == ActionModel::Await
            &&& after =~= before
        } else {
            &&& action == ActionModel::Proceed
            &&& after =~= ScanModel {
                phase: phase_after(config, i as int),
                targets: Seq::empty(),
                host: 0,
                port: 0,
                ..before
            }
        },
        ScanPhase::RunningBackends => {
            &&& action == ActionModel::Proceed
            &&& extended_by(before.inventory, after.inventory, admitted_backend_entries(config))
            &&& after =~= ScanModel {
                phase: ScanPhase::Complete,
                inventory: after.inventory,
                ..before
            }
        },
        ScanPhase::Complete => {
            &&& action == ActionModel::Finish
            &&& after =~= before
        },
    }
}

/// Whether `i` is the position of the oldest probe of `task` under way.
pub open spec fn is_oldest(in_flight: Seq<(Seq<char>, u16)>, task: (Seq<char>, u16), i: int) -> bool {
    &&& 0 <= i < in_flight.len()
    &&& in_flight[i] == task
    &&& forall|j: int| 0 <= j < i ==> in_flight[j] != task
}

/// The end of a probe: a report for a probe that is not under way is
/// refused and changes nothing. Else the oldest such probe is no longer
/// under way, and where something answered, at a port other than 0, the
/// inventory gains the endpoint.
pub open spec fn finishes(
    before: ScanModel,
    after: ScanModel,
    task: (Seq<char>, u16),
    reachable: bool,
    accepted: bool,
) -> bool {
    if before.in_flight.contains(task) {
        &&& accepted
        &&& exists|i: int| #[trigger]
            is_oldest(before.in_flight, task, i) && after.in_flight == before.in_flight.remove(i)
        &&& if reachable && task.1 != 0 {
            extended_by(
                before.inventory,
                after.inventory,
                seq![port_scan_endpoint(task.0, task.1, 0)],
            )
        } else {
            after.inventory == before.inventory
        }
        &&& after =~= ScanModel {
            in_flight: after.in_flight,
            inventory: after.inventory,
            reported: before.reported.push((task, reachable)),
            ..before
        }
    } else {
        !accepted && after =~= before
    }
}

/// Whether `e` is what active probing reports for a target of one of the
/// configured networks at one of the configured ports.
pub open spec fn found_by_probe(config: &ScanConfig, e: EndpointModel) -> bool {
    &&& exists|i: int|
        0 <= i < config.networks@.len() && (#[trigger] targets_of(config, i)).contains(e.address)
    &&& config.ports@.contains(e.port)
    &&& e.port != 0
    &&& e == port_scan_endpoint(e.address, e.port, e.discovered_at)
}

/// Whether `e` is what one of the enabled backends reports, at an
/// address that is not excluded.
pub open spec fn found_by_backend(config: &ScanConfig, e: EndpointModel) -> bool {
    &&& !excluded(config).contains(e.address)
    &&& {
        ||| config.use_mdns && e == mdns_endpoint(e.discovered_at)
        ||| config.use_upnp && e == upnp_endpoint(e.discovered_at)
    }
}

/// What holds of every state that a run reaches: no more probes are under
/// way than the configuration allows, and only in the phase of probing;
/// every probe under way is for a target of the network that is being
/// probed, at a configured port; every endpoint of the inventory was found
/// by such a probe or by an enabled backend, and none is at an excluded
/// address; and every warning names a network whose specification is
/// refused, with the reason.
pub open spec fn sound(config: &ScanConfig, m: ScanModel) -> bool {
    &&& config.concurrency >= 1
    &&& m.in_flight.len() <= config.concurrency
    &&& m.host <= m.targets.len()
    &&& (m.port < config.ports@.len() || m.port == 0)
    &&& match m.phase {
        ScanPhase::Probing(i) => {
            &&& i < config.networks@.len()
            &&& m.targets == targets_of(config, i as int)
            &&& forall|k: int|
                0 <= k < m.in_flight.len() ==> m.targets.contains((#[trigger] m.in_flight[k]).0)
                    && config.ports@.contains(m.in_flight[k].1)
        },
        ScanPhase::Enumerating(i) => i < config.networks@.len() && m.in_flight.len() == 0,
        _ => m.in_flight.len() == 0,
    }
    &&& forall|k: int|
        0 <= k < m.inventory.len() ==> found_by_probe(config, #[trigger] m.inventory[k])
            || found_by_backend(config, m.inventory[k])
    &&& forall|k: int|
        0 <= k < m.inventory.len() ==> !excluded(config).contains(
            (#[trigger] m.inventory[k]).address,
        )
    &&& forall|k: int|
        0 <= k < m.warnings.len() ==> (#[trigger] m.warnings[k]).network < config.networks@.len()
            && network_error(config.networks@[m.warnings[k].network as int]@) == Some(
            m.warnings[k].reason,
        )
}

/// A run starts in a sound state.
pub proof fn lemma_start_is_sound(config: &ScanConfig)
    requires
        config.concurrency >= 1,
    ensures
        sound(config, initial_model()),
{
}

/// A step leads from a sound state to a sound state, and asks for a probe
/// only where fewer probes are under way than the configuration allows.
pub proof fn lemma_step_keeps_sound(
    config: &ScanConfig,
    before: ScanModel,
    after: ScanModel,
    action: ActionModel,
)
    requires
        sound(config, before),
        steps_to(config, before, after, action),
    ensures
        sound(config, after),
        action is Probe ==> before.in_flight.len() < config.concurrency,
        after.in_flight.len() <= config.concurrency,
{
    if before.phase is RunningBackends {
        let found = admitted_backend_entries(config);
        let n = before.inventory.len() as int;
        assert forall|k: int| 0 <= k < after.inventory.len() implies (found_by_probe(
            config,
            #[trigger] after.inventory[k],
        ) || found_by_backend(config, after.inventory[k])) && !excluded(config).contains(
            after.inventory[k].address,
        ) by {
            if k < n {
                assert(after.inventory[k] == before.inventory[k]);
            } else {
                let reported = found[k - n];
                assert(timeless(after.inventory[n + (k - n)]) == timeless(reported));
                backend_entries(config).lemma_filter_contains_rev(not_excluded(config), reported);
            }
        }
    }
}

/// The end of a probe leads from a sound state to a sound state.
pub proof fn lemma_finish_keeps_sound(
    config: &ScanConfig,
    before: ScanModel,
    after: ScanModel,
    task: (Seq<char>, u16),
    reachable: bool,
    accepted: bool,
)
    requires
        sound(config, before),
        finishes(before, after, task, reachable, accepted),
    ensures
        sound(config, after),
        after.in_flight.len() <= before.in_flight.len(),
{
    if before.in_flight.contains(task) {
        let i = choose|i: int| #[trigger]
            is_oldest(before.in_flight, task, i) && after.in_flight == before.in_flight.remove(i);
        if reachable && task.1 != 0 {
            let n = before.inventory.len() as int;
            assert forall|k: int| 0 <= k < after.inventory.len() implies (found_by_probe(
                config,
                #[trigger] after.inventory[k],
            ) || found_by_backend(config, after.inventory[k])) && !excluded(config).contains(
                after.inventory[k].address,
            ) by {
                if k < n {
                    assert(after.inventory[k] == before.inventory[k]);
                } else {
                    let found = seq![port_scan_endpoint(task.0, task.1, 0)];
                    assert(timeless(after.inventory[n + 0]) == timeless(found[0]));
                }
            }
        }
    }
}

/// No more probes are under way than the configuration allows.
pub proof fn lemma_probes_are_bounded(config: &ScanConfig, m: ScanModel)
    requires
        sound(config, m),
    ensures
        m.in_flight.len() <= config.concurrency,
{
}

/// With both backends disabled, the inventory holds only what active
/// probing found, and every endpoint in it is signed by active probing.
pub proof fn lemma_only_probed_without_backends(config: &ScanConfig, m: ScanModel, k: int)
    requires
        sound(config, m),
        !config.use_mdns,
        !config.use_upnp,
        0 <= k < m.inventory.len(),
    ensures
        found_by_probe(config, m.inventory[k]),
        m.inventory[k].metadata.contains_key("detected_by"@),
        m.inventory[k].metadata["detected_by"@] == "port_scan"@,
{
}

/// Every endpoint of the inventory names the source that found it.
pub proof fn lemma_every_endpoint_is_signed(config: &ScanConfig, m: ScanModel, k: int)
    requires
        sound(config, m),
        0 <= k < m.inventory.len(),
    ensures
        m.inventory[k].metadata.contains_key("detected_by"@),
        m.inventory[k].metadata["detected_by"@] == "port_scan"@ || (config.use_mdns
            && m.inventory[k].metadata["detected_by"@] == "mdns"@) || (config.use_upnp
            && m.inventory[k].metadata["detected_by"@] == "upnp"@),
{
}

/// What active probing found has an IPv4 address in dotted decimal form
/// and a port from 1 to 65535.
pub proof fn lemma_probed_endpoint_is_well_formed(config: &ScanConfig, e: EndpointModel)
    requires
        found_by_probe(config, e),
    ensures
        is_ipv4_literal(e.address),
        1 <= e.port <= 65535,
{
    let i = choose|i: int|
        0 <= i < config.networks@.len() && (#[trigger] targets_of(config, i)).contains(e.address);
    let s = config.networks@[i]@;
    lemma_targets_exclude(s, excluded(config), e.address);
    let hosts = network_hosts(s);
    let k = choose|k: int| 0 <= k < hosts.len() && hosts[k] == e.address;
    lemma_hosts_are_ipv4_literals(s, k);
}

/// Every endpoint of the inventory has an IPv4 address in dotted decimal
/// form and a port from 1 to 65535.
pub proof fn lemma_inventory_is_well_formed(config: &ScanConfig, m: ScanModel, k: int)
    requires
        sound(config, m),
        0 <= k < m.inventory.len(),
    ensures
        is_ipv4_literal(m.inventory[k].address),
        1 <= m.inventory[k].port <= 65535,
{
    let e = m.inventory[k];
    if found_by_probe(config, e) {
        lemma_probed_endpoint_is_well_formed(config, e);
    } else {
        lemma_backend_endpoints_are_well_formed(e.discovered_at);
    }
}

/// A network whose specification is refused has no targets: nothing is
/// probed for it.
pub proof fn lemma_refused_network_has_no_targets(config: &ScanConfig, i: int)
    requires
        0 <= i < config.networks@.len(),
        network_error(config.networks@[i]@) is Some,
    ensures
        targets_of(config, i).len() == 0,
{
}

/// An address that is excluded never appears in what active probing
/// found.
pub proof fn lemma_probed_is_not_excluded(config: &ScanConfig, e: EndpointModel)
    requires
        found_by_probe(config, e),
    ensures
        !excluded(config).contains(e.address),
{
    let i = choose|i: int|
        0 <= i < config.networks@.len() && (#[trigger] targets_of(config, i)).contains(e.address);
}

/// An address that is excluded never appears in the inventory, whoever
/// found the endpoint.
pub proof fn lemma_excluded_never_reported(config: &ScanConfig, m: ScanModel, k: int)
    requires
        sound(config, m),
        0 <= k < m.inventory.len(),
    ensures
        !excluded(config).contains(m.inventory[k].address),
{
}

/// A probe under way is for an IPv4 address in dotted decimal form.
pub proof fn lemma_probe_under_way_is_ipv4(config: &ScanConfig, m: ScanModel, k: int)
    requires
        sound(config, m),
        0 <= k < m.in_flight.len(),
    ensures
        is_ipv4_literal(m.in_flight[k].0),
{
    let i = m.phase->Probing_0;
    let s = config.networks@[i as int]@;
    let address = m.in_flight[k].0;
    lemma_targets_exclude(s, excluded(config), address);
    let hosts = network_hosts(s);
    let h = choose|h: int| 0 <= h < hosts.len() && hosts[h] == address;
    lemma_hosts_are_ipv4_literals(s, h);
}

/// What of one backend's report enters the inventory.
proof fn lemma_filter_one(e: EndpointModel, keep: spec_fn(EndpointModel) -> bool)
    ensures
        seq![e].filter(keep) == if keep(e) {
            seq![e]
        } else {
            Seq::empty()
        },
        Seq::<EndpointModel>::empty().filter(keep) == Seq::<EndpointModel>::empty(),
{
    Seq::<EndpointModel>::empty().lemma_filter_push(e, keep);
}

/// What the two backends found, each filtered by the exclusion list, is
/// what of the enabled backends' reports enters the inventory.
proof fn lemma_backend_findings(
    config: &ScanConfig,
    held: Seq<EndpointModel>,
    now: Seq<EndpointModel>,
    by_mdns: Seq<EndpointModel>,
    by_upnp: Seq<EndpointModel>,
)
    requires
        by_mdns == if config.use_mdns {
            seq![mdns_endpoint(by_mdns[0].discovered_at)]
        } else {
            Seq::empty()
        },
        by_upnp == if config.use_upnp {
            seq![upnp_endpoint(by_upnp[0].discovered_at)]
        } else {
            Seq::empty()
        },
        now == held + by_mdns.filter(not_excluded(config)) + by_upnp.filter(not_excluded(config)),
    ensures
        extended_by(held, now, admitted_backend_entries(config)),
{
    let keep = not_excluded(config);
    let first = if config.use_mdns {
        seq![mdns_endpoint(0)]
    } else {
        Seq::empty()
    };
    let second = if config.use_upnp {
        seq![upnp_endpoint(0)]
    } else {
        Seq::empty()
    };
    Seq::filter_distributes_over_add(first, second, keep);
    lemma_filter_one(mdns_endpoint(0), keep);
    lemma_filter_one(upnp_endpoint(0), keep);
    lemma_filter_one(mdns_endpoint(by_mdns[0].discovered_at), keep);
    lemma_filter_one(upnp_endpoint(by_upnp[0].discovered_at), keep);
    assert(now.take(held.len() as int) =~= held);
}

/// What a list of probes stands for.
pub open spec fn task_views(v: Seq<ProbeTask>) -> Seq<(Seq<char>, u16)> {
    Seq::new(v.len(), |i: int| v[i]@)
}

/// A run of a scan over the networks of a configuration.
pub struct ScanRun<'a> {
    config: &'a ScanConfig,
    phase: ScanPhase,
    targets: Vec<String>,
    next_host: usize,
    next_port: usize,
    in_flight: Vec<ProbeTask>,
    inventory: Vec<EndpointInfo>,
    warnings: Vec<NetworkWarning>,
    started: Ghost<Seq<(Seq<char>, u16)>>,
    reported: Ghost<Seq<((Seq<char>, u16), bool)>>,
}

impl<'a> View for ScanRun<'a> {
    type V = ScanModel;

    closed spec fn view(&self) -> ScanModel {
        ScanModel {
            phase: self.phase,
            targets: texts(self.targets@),
            host: self.next_host as nat,
            port: self.next_port as nat,
            in_flight: task_views(self.in_flight@),
            inventory: endpoint_views(self.inventory@),
            warnings: self.warnings@,
            started: self.started@,
            reported: self.reported@,
        }
    }
}

impl<'a> ScanRun<'a> {
    /// The configuration that the run works on.
    pub closed spec fn config(&self) -> &ScanConfig {
        self.config
    }

    /// Whether the run is in a state that a run can reach: a sound state
    /// that follows the plan of the run.
    pub open spec fn is_sound(&self) -> bool {
        sound(self.config(), self@) && follows_plan(self.config(), self@)
    }

    /// A run that has not started yet.
    pub fn new(config: &'a ScanConfig) -> (run: ScanRun<'a>)
        requires
            config.concurrency >= 1,
        ensures
            run.config() == config,
            run@ == initial_model(),
            run.is_sound(),
    {
        proof {
            lemma_start_follows_plan(config);
        }
        ScanRun {
            config,
            phase: ScanPhase::Idle,
            targets: Vec::new(),
            next_host: 0,
            next_port: 0,
            in_flight: Vec::new(),
            inventory: Vec::new(),
            warnings: Vec::new(),
            started: Ghost(Seq::empty()),
            reported: Ghost(Seq::empty()),
        }
    }

    /// A run that has not started yet; none where the configuration allows
    /// no probe at all, so that a scan could never end.
    pub fn start(config: &'a ScanConfig) -> (r: Option<ScanRun<'a>>)
        ensures
            r is Some <==> config.concurrency >= 1,
            r matches Some(run) ==> run.config() == config && run@ == initial_model()
                && run.is_sound(),
    {
        if config.concurrency >= 1 {
            Some(ScanRun::new(config))
        } else {
            None
        }
    }

    /// The phase that follows the network at position `i`.
    fn next_phase(&self, i: usize) -> (phase: ScanPhase)
        requires
            i < self.config.networks.len(),
        ensures
            phase == phase_after(self.config(), i as int),
    {
        if i + 1 < self.config.networks.len() {
            ScanPhase::Enumerating(i + 1)
        } else {
            ScanPhase::RunningBackends
        }
    }

    /// Takes one step: decides what the caller is to do next.
    pub fn step(&mut self) -> (action: ScanAction)
        requires
            old(self).is_sound(),
        ensures
            final(self).config() == old(self).config(),
            steps_to(old(self).config(), old(self)@, final(self)@, action@),
            final(self).is_sound(),
            action@ is Probe ==> old(self)@.in_flight.len() < old(self).config().concurrency,
    {
        let ghost before = self@;
        let config = self.config;
        let action = match self.phase {
            ScanPhase::Idle => {
                self.phase = if config.networks.len() > 0 {
                    ScanPhase::Enumerating(0)
                } else {
                    ScanPhase::RunningBackends
                };
                ScanAction::Proceed
            },
            ScanPhase::Enumerating(i) => {
                match enumerate_targets(config.networks[i].as_str(), &config.exclude_ips) {
                    Ok(targets) => {
                        self.targets = targets;
                        self.next_host = 0;
                        self.next_port = 0;
                        self.phase = ScanPhase::Probing(i);
                        ScanAction::Proceed
                    },
                    Err(reason) => {
                        let warning = NetworkWarning { network: i, reason };
                        self.warnings.push(warning);
                        self.phase = self.next_phase(i);
                        ScanAction::Warn(warning)
                    },
                }
            },
            ScanPhase::Probing(i) => {
                if self.in_flight.len() < config.concurrency && self.next_host < self.targets.len()
                    && self.next_port < config.ports.len() {
                    let task = ProbeTask {
                        address: self.targets[self.next_host].clone(),
                        port: config.ports[self.next_port],
                    };
                    self.in_flight.push(task.clone());
                    self.started = Ghost(self.started@.push(task@));
                    if self.next_port + 1 == config.ports.len() {
                        self.next_host = self.next_host + 1;
                        self.next_port = 0;
                    } else {
                        self.next_port = self.next_port + 1;
                    }
                    ScanAction::Probe(task)
                } else if self.in_flight.len() > 0 {
                    ScanAction::Await
                } else {
                    self.targets = Vec::new();
                    self.next_host = 0;
                    self.next_port = 0;
                    self.phase = self.next_phase(i);
                    ScanAction::Proceed
                }
            },
            ScanPhase::RunningBackends => {
                let ghost mut by_mdns = Seq::<EndpointModel>::empty();
                let ghost mut by_upnp = Seq::<EndpointModel>::empty();
                if config.use_mdns {
                    if let Some(found) = discover_mdns() {
                        proof {
                            by_mdns = endpoint_views(found@);
                            assert(by_mdns =~= seq![mdns_endpoint(by_mdns[0].discovered_at)]);
                        }
                        self.take_findings(&found);
                    }
                }
                if config.use_upnp {
                    if let Some(found) = discover_upnp() {
                        proof {
                            by_upnp = endpoint_views(found@);
                            assert(by_upnp =~= seq![upnp_endpoint(by_upnp[0].discovered_at)]);
                        }
                        self.take_findings(&found);
                    }
                }
                self.phase = ScanPhase::Complete;
                proof {
                    lemma_backend_findings(
                        config,
                        before.inventory,
                        self@.inventory,
                        by_mdns,
                        by_upnp,
                    );
                }
                ScanAction::Proceed
            },
            ScanPhase::Complete => ScanAction::Finish,
        };
        proof {
            lemma_step_keeps_sound(config, before, self@, action@);
            lemma_step_follows_plan(config, before, self@, action@);
        }
        action
    }

    /// Takes what a backend found into the inventory, but for what is at
    /// an excluded address.
    fn take_findings(&mut self, found: &Vec<EndpointInfo>)
        ensures
            final(self).config() == old(self).config(),
            final(self)@ == (ScanModel {
                inventory: old(self)@.inventory + endpoint_views(found@).filter(
                    not_excluded(old(self).config()),
                ),
                ..old(self)@
            }),
    {
        let ghost before = self@;
        let ghost keep = not_excluded(self.config);
        let ghost all = endpoint_views(found@);
        let mut i: usize = 0;
        while i < found.len()
            invariant
                i <= found@.len(),
                all == endpoint_views(found@),
                keep == not_excluded(self.config),
                self.config() == old(self).config(),
                self@ == (ScanModel {
                    inventory: before.inventory + all.take(i as int).filter(keep),
                    ..before
                }),
            decreases found@.len() - i,
        {
            proof {
                let done = all.take(i as int);
                assert(all.take(i + 1) =~= done.push(found@[i as int]@));
                done.lemma_filter_push(found@[i as int]@, keep);
            }
            if !lists_text(&self.config.exclude_ips, &found[i].address) {
                let ghost held = endpoint_views(self.inventory@);
                self.inventory.push(found[i].clone());
                assert(endpoint_views(self.inventory@) =~= held.push(found@[i as int]@));
            }
            i = i + 1;
        }
        assert(all.take(found@.len() as int) =~= all);
    }

    /// The position of the oldest probe of `task` under way.
    fn oldest(&self, task: &ProbeTask) -> (r: Option<usize>)
        ensures
            match r {
                Some(i) => is_oldest(self@.in_flight, task@, i as int),
                None => !self@.in_flight.contains(task@),
            },
    {
        let mut i: usize = 0;
        while i < self.in_flight.len()
            invariant
                i <= self.in_flight@.len(),
                forall|j: int| 0 <= j < i ==> self@.in_flight[j] != task@,
            decreases self.in_flight@.len() - i,
        {
            if self.in_flight[i].port == task.port && self.in_flight[i].address == task.address {
                return Some(i);
            }
            i = i + 1;
        }
        None
    }

    /// Takes the report of how a probe ended. A report for a probe that is
    /// not under way is refused. An endpoint that is found is stamped
    /// with the current time.
    pub fn probe_finished(&mut self, task: &ProbeTask, reachable: bool) -> (accepted: bool)
        requires
            old(self).is_sound(),
        ensures
            final(self).config() == old(self).config(),
            finishes(old(self)@, final(self)@, task@, reachable, accepted),
            final(self).is_sound(),
    {
        let ghost before = self@;
        let i = match self.oldest(task) {
            Some(i) => i,
            None => {
                return false;
            },
        };
        proof {
            lemma_probe_under_way_is_ipv4(self.config, before, i as int);
        }
        self.in_flight.remove(i);
        self.reported = Ghost(self.reported@.push((task@, reachable)));
        assert(task_views(self.in_flight@) =~= before.in_flight.remove(i as int));
        if let Some(found) = probe_endpoint(task.address.as_str(), task.port, reachable) {
            self.inventory.push(found);
            assert(endpoint_views(self.inventory@).take(before.inventory.len() as int)
                =~= before.inventory);
        }
        proof {
            lemma_finish_keeps_sound(self.config, before, self@, task@, reachable, true);
            lemma_finish_follows_plan(self.config, before, self@, task@, reachable, true);
        }
        true
    }

    /// Where the run stands.
    pub fn phase(&self) -> (phase: ScanPhase)
        ensures
            phase == self@.phase,
    {
        self.phase
    }

    /// Whether the run is complete.
    pub fn is_complete(&self) -> (done: bool)
        ensures
            done == (self@.phase == ScanPhase::Complete),
    {
        match self.phase {
            ScanPhase::Complete => true,
            _ => false,
        }
    }

    /// The number of probes under way.
    pub fn probes_in_flight(&self) -> (n: usize)
        ensures
            n == self@.in_flight.len(),
    {
        self.in_flight.len()
    }

    /// The networks that were skipped so far.
    pub fn warnings(&self) -> (warnings: &Vec<NetworkWarning>)
        ensures
            warnings@ == self@.warnings,
    {
        &self.warnings
    }

    /// The endpoints found so far.
    pub fn results(&self) -> (found: &Vec<EndpointInfo>)
        ensures
            endpoint_views(found@) == self@.inventory,
    {
        &self.inventory
    }

    /// Ends the run and hands over the inventory.
    pub fn into_results(self) -> (found: Vec<EndpointInfo>)
        ensures
            endpoint_views(found@) == self@.inventory,
    {
        self.inventory
    }
}

} // verus!
