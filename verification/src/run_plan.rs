//! What a whole run probes and finds: the plan of its probes, and the laws
//! that tie every state of a run to that plan.

use crate::config::ScanConfig;
use crate::network::{network_error, network_targets};
use crate::scan_run::{
    admitted_backend_entries, backend_entries, excluded, extended_by, finishes, has_pending,
    is_oldest, not_excluded, sound, steps_to, timeless, ActionModel, ScanModel, ScanPhase,
};
use crate::scanner::{port_scan_endpoint, EndpointModel};
use crate::text::texts;
use vstd::multiset::Multiset;
use vstd::prelude::*;
use vstd::seq_lib::{lemma_multiset_commutative, to_multiset_build, to_multiset_remove};

verus! {

/// The probes of one host: one for each port, in the order of the ports.
pub open spec fn host_plan(address: Seq<char>, ports: Seq<u16>) -> Seq<(Seq<char>, u16)> {
    Seq::new(ports.len(), |j: int| (address, ports[j]))
}

/// The probes of the hosts `targets`: host by host.
pub open spec fn network_plan(targets: Seq<Seq<char>>, ports: Seq<u16>) -> Seq<(Seq<char>, u16)>
    decreases targets.len(),
{
    if targets.len() == 0 {
        Seq::empty()
    } else {
        network_plan(targets.drop_last(), ports) + host_plan(targets.last(), ports)
    }
}

/// The probes of a run over `networks`: network by network, and none for
/// a network whose specification is refused.
pub open spec fn probe_plan(
    networks: Seq<Seq<char>>,
    ports: Seq<u16>,
    excluded: Seq<Seq<char>>,
) -> Seq<(Seq<char>, u16)>
    decreases networks.len(),
{
    if networks.len() == 0 {
        Seq::empty()
    } else {
        probe_plan(networks.drop_last(), ports, excluded) + network_plan(
            network_targets(networks.last(), excluded),
            ports,
        )
    }
}

/// The probes of a run under `config`.
pub open spec fn plan_of(config: &ScanConfig) -> Seq<(Seq<char>, u16)> {
    probe_plan(texts(config.networks@), config.ports@, excluded(config))
}

/// The probes of the networks before the one at position `i`.
pub open spec fn plan_before(config: &ScanConfig, i: int) -> Seq<(Seq<char>, u16)> {
    probe_plan(texts(config.networks@).take(i), config.ports@, excluded(config))
}

/// The probes of the network that is being probed that were started.
pub open spec fn plan_within(m: ScanModel, ports: Seq<u16>) -> Seq<(Seq<char>, u16)> {
    network_plan(m.targets.take(m.host as int), ports) + (if m.host < m.targets.len() {
        host_plan(m.targets[m.host as int], ports).take(m.port as int)
    } else {
        Seq::empty()
    })
}

/// The probes that have ended.
pub open spec fn tasks_of(reported: Seq<((Seq<char>, u16), bool)>) -> Seq<(Seq<char>, u16)> {
    Seq::new(reported.len(), |k: int| reported[k].0)
}

/// What the probes that have ended found, without the times of
/// observation: an endpoint for each probe that was answered at a port
/// other than 0, in the order of ending.
pub open spec fn findings(reported: Seq<((Seq<char>, u16), bool)>) -> Seq<EndpointModel>
    decreases reported.len(),
{
    if reported.len() == 0 {
        Seq::empty()
    } else {
        let rest = findings(reported.drop_last());
        let last = reported.last();
        if last.1 && last.0.1 != 0 {
            rest.push(port_scan_endpoint(last.0.0, last.0.1, 0))
        } else {
            rest
        }
    }
}

/// A list of endpoints without their times of observation.
pub open spec fn timeless_all(s: Seq<EndpointModel>) -> Seq<EndpointModel> {
    Seq::new(s.len(), |k: int| timeless(s[k]))
}

/// What ties a state of a run to the plan: the probes started so far are
/// the beginning of the plan up to where the run stands; each of them has
/// ended or is under way; and the inventory holds what the ended probes
/// found, followed in the end by what of the backends' reports is
/// admitted.
pub open spec fn follows_plan(config: &ScanConfig, m: ScanModel) -> bool {
    &&& m.started == match m.phase {
        ScanPhase::Idle => Seq::empty(),
        ScanPhase::Enumerating(i) => plan_before(config, i as int),
        ScanPhase::Probing(i) => plan_before(config, i as int) + plan_within(m, config.ports@),
        _ => plan_of(config),
    }
    &&& m.started.to_multiset() == tasks_of(m.reported).to_multiset().add(
        m.in_flight.to_multiset(),
    )
    &&& timeless_all(m.inventory) == findings(m.reported) + (if m.phase is Complete {
        admitted_backend_entries(config)
    } else {
        Seq::empty()
    })
}

/// Without ports there are no probes.
proof fn lemma_no_ports_no_probes(targets: Seq<Seq<char>>, ports: Seq<u16>)
    requires
        ports.len() == 0,
    ensures
        network_plan(targets, ports) == Seq::<(Seq<char>, u16)>::empty(),
    decreases targets.len(),
{
    if targets.len() > 0 {
        lemma_no_ports_no_probes(targets.drop_last(), ports);
    }
}

/// The plan of the first `i + 1` networks is that of the first `i`,
/// followed by the probes of the network at position `i`.
proof fn lemma_plan_of_next(config: &ScanConfig, i: int)
    requires
        0 <= i < config.networks@.len(),
    ensures
        plan_before(config, i + 1) == plan_before(config, i) + network_plan(
            network_targets(config.networks@[i]@, excluded(config)),
            config.ports@,
        ),
        plan_before(config, config.networks@.len() as int) == plan_of(config),
        plan_before(config, 0) == Seq::<(Seq<char>, u16)>::empty(),
{
    let all = texts(config.networks@);
    assert(all.take(i + 1).drop_last() =~= all.take(i));
    assert(all.take(all.len() as int) =~= all);
}

/// The plan up to the phase that follows the network at position `i` is
/// the plan of the networks up to that one.
proof fn lemma_next_phase_plan(config: &ScanConfig, i: int, next: ScanPhase)
    requires
        0 <= i < config.networks@.len(),
        next == crate::scan_run::phase_after(config, i),
    ensures
        plan_before(config, i + 1) == match next {
            ScanPhase::Enumerating(j) => plan_before(config, j as int),
            _ => plan_of(config),
        },
{
    lemma_plan_of_next(config, i);
    assert(config.networks@.len() <= usize::MAX) by {
        assert(config.networks.len() == config.networks@.len());
    }
}

/// The plan of two lists of networks, one after the other, is the plan of
/// the first followed by the plan of the second.
pub proof fn lemma_plan_of_joined(
    a: Seq<Seq<char>>,
    b: Seq<Seq<char>>,
    ports: Seq<u16>,
    excluded: Seq<Seq<char>>,
)
    ensures
        probe_plan(a + b, ports, excluded) == probe_plan(a, ports, excluded) + probe_plan(
            b,
            ports,
            excluded,
        ),
    decreases b.len(),
{
    if b.len() > 0 {
        lemma_plan_of_joined(a, b.drop_last(), ports, excluded);
        assert((a + b).drop_last() =~= a + b.drop_last());
    }
}

/// A network whose specification is refused, wherever it stands among
/// the networks, adds no probe and takes none away: the plan is that of
/// the other networks.
pub proof fn lemma_refused_network_plans_nothing(
    before: Seq<Seq<char>>,
    refused: Seq<char>,
    after: Seq<Seq<char>>,
    ports: Seq<u16>,
    excluded: Seq<Seq<char>>,
)
    requires
        network_error(refused) is Some,
    ensures
        probe_plan(before + seq![refused] + after, ports, excluded) == probe_plan(
            before + after,
            ports,
            excluded,
        ),
{
    reveal_with_fuel(probe_plan, 2);
    lemma_plan_of_joined(before, seq![refused], ports, excluded);
    lemma_plan_of_joined(before + seq![refused], after, ports, excluded);
    lemma_plan_of_joined(before, after, ports, excluded);
}

/// A run starts on its plan.
pub proof fn lemma_start_follows_plan(config: &ScanConfig)
    ensures
        follows_plan(config, crate::scan_run::initial_model()),
{
    let m = crate::scan_run::initial_model();
    assert(m.started.to_multiset() =~= tasks_of(m.reported).to_multiset().add(
        m.in_flight.to_multiset(),
    )) by {
        lemma_multiset_commutative(tasks_of(m.reported), m.in_flight);
    }
    assert(timeless_all(m.inventory) =~= findings(m.reported) + Seq::<EndpointModel>::empty());
}

/// What of the backends' reports is admitted carries no time of
/// observation.
proof fn lemma_admitted_entries_are_timeless(config: &ScanConfig)
    ensures
        timeless_all(admitted_backend_entries(config)) == admitted_backend_entries(config),
{
    let found = admitted_backend_entries(config);
    assert forall|k: int| 0 <= k < found.len() implies timeless(#[trigger] found[k])
        == found[k] by {
        backend_entries(config).lemma_filter_contains_rev(not_excluded(config), found[k]);
    }
}

/// Where `after` is `before` followed by `found`, so it is without the
/// times of observation.
proof fn lemma_extended_timeless(
    before: Seq<EndpointModel>,
    after: Seq<EndpointModel>,
    found: Seq<EndpointModel>,
)
    requires
        extended_by(before, after, found),
    ensures
        timeless_all(after) == timeless_all(before) + timeless_all(found),
{
    let n = before.len() as int;
    assert forall|k: int| 0 <= k < after.len() implies timeless_all(after)[k] == (timeless_all(
        before,
    ) + timeless_all(found))[k] by {
        if k >= n {
            assert(timeless(after[n + (k - n)]) == timeless(found[k - n]));
        }
    }
}

/// A step leads from a state on the plan to a state on the plan.
pub proof fn lemma_step_follows_plan(
    config: &ScanConfig,
    before: ScanModel,
    after: ScanModel,
    action: ActionModel,
)
    requires
        sound(config, before),
        follows_plan(config, before),
        steps_to(config, before, after, action),
    ensures
        follows_plan(config, after),
{
    let ports = config.ports@;
    match before.phase {
        ScanPhase::Enumerating(i) => {
            lemma_plan_of_next(config, i as int);
            if network_error(config.networks@[i as int]@) is Some {
                lemma_next_phase_plan(config, i as int, after.phase);
            }
        },
        ScanPhase::Probing(i) => {
            lemma_plan_of_next(config, i as int);
            if before.in_flight.len() < config.concurrency && has_pending(config, before) {
                let h = before.host as int;
                let task = (before.targets[h], ports[before.port as int]);
                if before.port + 1 == ports.len() {
                    assert(before.targets.take(h + 1).drop_last() =~= before.targets.take(h));
                }
                assert(after.started =~= plan_before(config, i as int) + plan_within(
                    after,
                    ports,
                ));
                to_multiset_build(before.started, task);
                to_multiset_build(before.in_flight, task);
                assert(after.started.to_multiset() =~= tasks_of(after.reported).to_multiset().add(
                    after.in_flight.to_multiset(),
                ));
            } else if before.in_flight.len() == 0 {
                if ports.len() == 0 {
                    lemma_no_ports_no_probes(before.targets, ports);
                    lemma_no_ports_no_probes(before.targets.take(before.host as int), ports);
                } else {
                    assert(before.targets.take(before.host as int) =~= before.targets);
                }
                lemma_next_phase_plan(config, i as int, after.phase);
            }
        },
        ScanPhase::RunningBackends => {
            lemma_extended_timeless(
                before.inventory,
                after.inventory,
                admitted_backend_entries(config),
            );
            lemma_admitted_entries_are_timeless(config);
        },
        _ => {},
    }
}

/// The end of a probe leads from a state on the plan to a state on the
/// plan.
pub proof fn lemma_finish_follows_plan(
    config: &ScanConfig,
    before: ScanModel,
    after: ScanModel,
    task: (Seq<char>, u16),
    reachable: bool,
    accepted: bool,
)
    requires
        sound(config, before),
        follows_plan(config, before),
        finishes(before, after, task, reachable, accepted),
    ensures
        follows_plan(config, after),
{
    if before.in_flight.contains(task) {
        let i = choose|i: int| #[trigger]
            is_oldest(before.in_flight, task, i) && after.in_flight == before.in_flight.remove(i);
        assert(tasks_of(after.reported) =~= tasks_of(before.reported).push(task));
        to_multiset_build(tasks_of(before.reported), task);
        to_multiset_remove(before.in_flight, i);
        assert(before.in_flight.to_multiset().count(task) > 0) by {
            before.in_flight.to_multiset_ensures();
        }
        assert(after.started.to_multiset() =~= tasks_of(after.reported).to_multiset().add(
            after.in_flight.to_multiset(),
        ));
        assert(after.reported.drop_last() =~= before.reported);
        if reachable && task.1 != 0 {
            assert(timeless_all(after.inventory) =~= findings(after.reported) + Seq::<
                EndpointModel,
            >::empty());
        }
    }
}

/// Whether every report says of its probe what `reach` says.
pub open spec fn agrees(
    reported: Seq<((Seq<char>, u16), bool)>,
    reach: spec_fn((Seq<char>, u16)) -> bool,
) -> bool {
    forall|k: int| 0 <= k < reported.len() ==> (#[trigger] reported[k]).1 == reach(reported[k].0)
}

/// How often `x` is found by the probes `tasks`, where `reach` says which
/// of them are answered: as often as its probe is made, if that is
/// answered at a port other than 0, and never else.
pub open spec fn times_found(
    tasks: Multiset<(Seq<char>, u16)>,
    reach: spec_fn((Seq<char>, u16)) -> bool,
    x: EndpointModel,
) -> nat {
    let task = (x.address, x.port);
    if x == port_scan_endpoint(task.0, task.1, 0) && reach(task) && task.1 != 0 {
        tasks.count(task)
    } else {
        0
    }
}

/// How often an endpoint is among the findings depends on how often its
/// probe has ended, not on the order in which the probes ended.
pub proof fn lemma_findings_count(
    reported: Seq<((Seq<char>, u16), bool)>,
    reach: spec_fn((Seq<char>, u16)) -> bool,
    x: EndpointModel,
)
    requires
        agrees(reported, reach),
    ensures
        findings(reported).to_multiset().count(x) == times_found(
            tasks_of(reported).to_multiset(),
            reach,
            x,
        ),
    decreases reported.len(),
{
    if reported.len() == 0 {
        findings(reported).to_multiset_ensures();
        tasks_of(reported).to_multiset_ensures();
        vstd::multiset::axiom_count_le_len(findings(reported).to_multiset(), x);
        vstd::multiset::axiom_count_le_len(
            tasks_of(reported).to_multiset(),
            (x.address, x.port),
        );
    } else {
        let rest = reported.drop_last();
        let last = reported.last();
        lemma_findings_count(rest, reach, x);
        assert(tasks_of(reported) =~= tasks_of(rest).push(last.0));
        to_multiset_build(tasks_of(rest), last.0);
        if last.1 && last.0.1 != 0 {
            to_multiset_build(findings(rest), port_scan_endpoint(last.0.0, last.0.1, 0));
        }
    }
}

/// Of a run that is complete: every probe of the plan was started, in
/// the order of the plan, and has ended; and the inventory holds what
/// the probes found, followed by what of the backends' reports is
/// admitted.
pub proof fn lemma_complete_run_followed_the_plan(config: &ScanConfig, m: ScanModel)
    requires
        sound(config, m),
        follows_plan(config, m),
        m.phase is Complete,
    ensures
        m.started == plan_of(config),
        m.in_flight.len() == 0,
        tasks_of(m.reported).to_multiset() == plan_of(config).to_multiset(),
        timeless_all(m.inventory) == findings(m.reported) + admitted_backend_entries(config),
{
    lemma_multiset_commutative(tasks_of(m.reported), m.in_flight);
}

/// Two complete runs with the same plan, the same backends and the same
/// exclusions, in which the same hosts answer at the same ports, find
/// the same endpoints equally often, whatever the order in which their
/// probes ended.
pub proof fn lemma_same_plan_same_findings(
    first_config: &ScanConfig,
    first: ScanModel,
    second_config: &ScanConfig,
    second: ScanModel,
    reach: spec_fn((Seq<char>, u16)) -> bool,
)
    requires
        sound(first_config, first) && follows_plan(first_config, first) && first.phase is Complete,
        sound(second_config, second) && follows_plan(second_config, second)
            && second.phase is Complete,
        plan_of(first_config) == plan_of(second_config),
        admitted_backend_entries(first_config) == admitted_backend_entries(second_config),
        agrees(first.reported, reach),
        agrees(second.reported, reach),
    ensures
        first.started == second.started,
        timeless_all(first.inventory).to_multiset() == timeless_all(
            second.inventory,
        ).to_multiset(),
{
    lemma_complete_run_followed_the_plan(first_config, first);
    lemma_complete_run_followed_the_plan(second_config, second);
    let by_backends = admitted_backend_entries(first_config);
    lemma_multiset_commutative(findings(first.reported), by_backends);
    lemma_multiset_commutative(findings(second.reported), by_backends);
    assert forall|x: EndpointModel|
        findings(first.reported).to_multiset().count(x) == findings(
            second.reported,
        ).to_multiset().count(x) by {
        lemma_findings_count(first.reported, reach, x);
        lemma_findings_count(second.reported, reach, x);
    }
}

/// A network whose specification is refused leaves the results of the
/// other networks as they are: a complete run over networks with the
/// refused one among them starts the same probes, in the same order, as
/// a complete run over the others alone, and where the same hosts answer
/// at the same ports, the two find the same endpoints equally often.
pub proof fn lemma_refused_network_changes_nothing(
    with_it: &ScanConfig,
    first: ScanModel,
    without_it: &ScanConfig,
    second: ScanModel,
    before: Seq<Seq<char>>,
    refused: Seq<char>,
    after: Seq<Seq<char>>,
    reach: spec_fn((Seq<char>, u16)) -> bool,
)
    requires
        network_error(refused) is Some,
        texts(with_it.networks@) == before + seq![refused] + after,
        texts(without_it.networks@) == before + after,
        with_it.ports@ == without_it.ports@,
        excluded(with_it) == excluded(without_it),
        with_it.use_mdns == without_it.use_mdns,
        with_it.use_upnp == without_it.use_upnp,
        sound(with_it, first) && follows_plan(with_it, first) && first.phase is Complete,
        sound(without_it, second) && follows_plan(without_it, second) && second.phase is Complete,
        agrees(first.reported, reach),
        agrees(second.reported, reach),
    ensures
        plan_of(with_it) == plan_of(without_it),
        first.started == second.started,
        timeless_all(first.inventory).to_multiset() == timeless_all(
            second.inventory,
        ).to_multiset(),
{
    lemma_refused_network_plans_nothing(before, refused, after, with_it.ports@, excluded(with_it));
    lemma_same_plan_same_findings(with_it, first, without_it, second, reach);
}

} // verus!
