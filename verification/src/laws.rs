//! The laws of the engine, proved once over the model's transition
//! functions: the invariant is preserved, registry entries arise only from
//! matching discoveries, the first discovery of a kind wins, a torn-down
//! graph silently absorbs discovery callbacks, and a stopped monitor
//! processes nothing further.

use vstd::prelude::*;
use crate::graph::GraphV;
use crate::graph::NodeKind;
use crate::graph::RunState;
use crate::graph::graph_with_state;
use crate::graph::has_node_of_kind;
use crate::graph::wf_graph;
use crate::media::Classification;
use crate::media::MediaKind;
use crate::media::spec_classify;
use crate::model::CtrlV;
use crate::model::DiscV;
use crate::model::DiscoveryOutcome;
use crate::model::attach_sink;
use crate::model::ctrl_inv;
use crate::model::discovery_outcome;
use crate::model::discovery_run;
use crate::model::discovery_step;
use crate::model::handle_ok;
use crate::model::lifecycle_run;
use crate::model::lifecycle_step;
use crate::model::upgrade_ok;
use crate::monitor::LifecycleEvent;
use crate::monitor::MonitorState;
use crate::registry::reg_entry;

verus! {

/// A well-formed graph never holds more than five nodes: node kinds are
/// pairwise distinct and only five kind tags exist (source, decoder, and
/// one sink per media kind).
pub proof fn lemma_wf_node_budget(g: GraphV)
    requires
        wf_graph(g),
    ensures
        g.nodes.len() <= 5,
{
    if g.nodes.len() > 5 {
        let k0 = g.nodes[0].kind;
        let k1 = g.nodes[1].kind;
        let k2 = g.nodes[2].kind;
        let k3 = g.nodes[3].kind;
        let k4 = g.nodes[4].kind;
        let k5 = g.nodes[5].kind;
        assert(k0 != k1 && k0 != k2 && k0 != k3 && k0 != k4 && k0 != k5);
        assert(k1 != k2 && k1 != k3 && k1 != k4 && k1 != k5);
        assert(k2 != k3 && k2 != k4 && k2 != k5);
        assert(k3 != k4 && k3 != k5);
        assert(k4 != k5);
        assert(false);
    }
}

/// One discovery transition keeps the controller invariant.
pub proof fn lemma_discovery_step_preserves_inv(s: CtrlV, e: DiscV)
    requires
        ctrl_inv(s),
    ensures
        ctrl_inv(discovery_step(s, e)),
{
    if upgrade_ok(s, e.node_id) {
        match spec_classify(e.label) {
            Classification::Indeterminate => {},
            Classification::Kind(k) => {
                if !(k is Unrecognized) && reg_entry(s.registry, k) is None && e.attach is Ok {
                    let g = s.graph.unwrap();
                    let s2 = attach_sink(s, k);
                    let g2 = s2.graph.unwrap();
                    lemma_wf_node_budget(g);
                    assert(g.nodes.len() as usize == g.nodes.len());
                    assert(!has_node_of_kind(g, NodeKind::Sink(k)));
                    assert forall|i: int, j: int| 0 <= i < j < g2.nodes.len() implies #[trigger] g2
                        .nodes[i].kind != #[trigger] g2.nodes[j].kind by {
                        if j < g.nodes.len() {
                        } else {
                            assert(g2.nodes[i] == g.nodes[i]);
                            assert(g2.nodes[j].kind == NodeKind::Sink(k));
                            assert(g.nodes[i].kind != NodeKind::Sink(k));
                        }
                    }
                    assert(wf_graph(g2));
                    assert(forall|i: int|
                        0 <= i < g.nodes.len() ==> #[trigger] g2.nodes[i] == g.nodes[i]);
                    assert(g2.nodes[g.nodes.len() as int].kind == NodeKind::Sink(k));
                    if has_node_of_kind(g2, NodeKind::Sink(MediaKind::Audio)) && k
                        != MediaKind::Audio {
                        let i = choose|i: int|
                            0 <= i < g2.nodes.len() && g2.nodes[i].kind == NodeKind::Sink(
                                MediaKind::Audio,
                            );
                        assert(i < g.nodes.len());
                        assert(has_node_of_kind(g, NodeKind::Sink(MediaKind::Audio)));
                    }
                    if has_node_of_kind(g2, NodeKind::Sink(MediaKind::Video)) && k
                        != MediaKind::Video {
                        let i = choose|i: int|
                            0 <= i < g2.nodes.len() && g2.nodes[i].kind == NodeKind::Sink(
                                MediaKind::Video,
                            );
                        assert(i < g.nodes.len());
                        assert(has_node_of_kind(g, NodeKind::Sink(MediaKind::Video)));
                    }
                    assert(handle_ok(s2.registry.audio, MediaKind::Audio, g2));
                    assert(handle_ok(s2.registry.video, MediaKind::Video, g2));
                    assert(s2.decoder_id < g2.nodes.len() && g2.nodes[s2.decoder_id as int].kind
                        is Decoder);
                    assert(ctrl_inv(s2));
                }
            },
        }
    }
}

/// One lifecycle transition keeps the controller invariant.
pub proof fn lemma_lifecycle_step_preserves_inv(s: CtrlV, ev: LifecycleEvent)
    requires
        ctrl_inv(s),
    ensures
        ctrl_inv(lifecycle_step(s, ev)),
{
    if !(s.monitor is Stopped) && ev is Error && s.graph is Some {
        let g = s.graph.unwrap();
        let g2 = graph_with_state(g, RunState::Halted);
        assert(forall|i: int|
            0 <= i < g.nodes.len() ==> (#[trigger] g2.nodes[i]).kind == g.nodes[i].kind);
        assert(wf_graph(g2));
        if has_node_of_kind(g2, NodeKind::Sink(MediaKind::Audio)) {
            let i = choose|i: int|
                0 <= i < g2.nodes.len() && g2.nodes[i].kind == NodeKind::Sink(MediaKind::Audio);
            assert(has_node_of_kind(g, NodeKind::Sink(MediaKind::Audio)));
        }
        if has_node_of_kind(g2, NodeKind::Sink(MediaKind::Video)) {
            let i = choose|i: int|
                0 <= i < g2.nodes.len() && g2.nodes[i].kind == NodeKind::Sink(MediaKind::Video);
            assert(has_node_of_kind(g, NodeKind::Sink(MediaKind::Video)));
        }
    }
}

/// The invariant holds after any sequence of discovery events.
pub proof fn lemma_discovery_run_preserves_inv(s: CtrlV, es: Seq<DiscV>)
    requires
        ctrl_inv(s),
    ensures
        ctrl_inv(discovery_run(s, es)),
    decreases es.len(),
{
    if es.len() > 0 {
        lemma_discovery_step_preserves_inv(s, es[0]);
        lemma_discovery_run_preserves_inv(discovery_step(s, es[0]), es.drop_first());
    }
}

/// The invariant holds after any sequence of lifecycle events.
pub proof fn lemma_lifecycle_run_preserves_inv(s: CtrlV, evs: Seq<LifecycleEvent>)
    requires
        ctrl_inv(s),
    ensures
        ctrl_inv(lifecycle_run(s, evs)),
    decreases evs.len(),
{
    if evs.len() > 0 {
        lemma_lifecycle_step_preserves_inv(s, evs[0]);
        lemma_lifecycle_run_preserves_inv(lifecycle_step(s, evs[0]), evs.drop_first());
    }
}

/// Over any sequence of discovery events, a kind's registry entry can only
/// appear if some event in the sequence classified to exactly that kind:
/// unrecognized and indeterminate discoveries never populate an entry (and
/// the registry holds at most one entry per kind by construction).
pub proof fn lemma_entry_only_from_matching_discovery(s: CtrlV, es: Seq<DiscV>, k: MediaKind)
    requires
        reg_entry(s.registry, k) is None,
    ensures
        reg_entry(discovery_run(s, es).registry, k) is Some ==> exists|i: int|
            0 <= i < es.len() && #[trigger] spec_classify(es[i].label) == Classification::Kind(k),
    decreases es.len(),
{
    if es.len() > 0 {
        let s1 = discovery_step(s, es[0]);
        if reg_entry(s1.registry, k) is Some {
            assert(spec_classify(es[0].label) == Classification::Kind(k));
        } else {
            lemma_entry_only_from_matching_discovery(s1, es.drop_first(), k);
            if reg_entry(discovery_run(s, es).registry, k) is Some {
                let i = choose|i: int|
                    0 <= i < es.drop_first().len() && #[trigger] spec_classify(
                        es.drop_first()[i].label,
                    ) == Classification::Kind(k);
                assert(es.drop_first()[i] == es[i + 1]);
                assert(spec_classify(es[i + 1].label) == Classification::Kind(k));
            }
        }
    }
}

/// First discovery wins: once a kind's entry is populated, no later
/// discovery event changes it.
pub proof fn lemma_first_discovery_wins(s: CtrlV, e: DiscV, k: MediaKind)
    requires
        reg_entry(s.registry, k) is Some,
    ensures
        reg_entry(discovery_step(s, e).registry, k) == reg_entry(s.registry, k),
{
}

/// The two-event reading of first-discovery-wins: after a discovery that
/// populated a kind, processing one more event of that kind leaves the
/// entry exactly as the first discovery left it.
pub proof fn lemma_duplicate_discovery_idempotent(s: CtrlV, e1: DiscV, e2: DiscV, k: MediaKind)
    requires
        reg_entry(discovery_step(s, e1).registry, k) is Some,
    ensures
        reg_entry(discovery_run(s, seq![e1, e2]).registry, k) == reg_entry(
            discovery_step(s, e1).registry,
            k,
        ),
{
    let s1 = discovery_step(s, e1);
    let es = seq![e1, e2];
    assert(es[0] == e1);
    assert(es.drop_first() =~= seq![e2]);
    assert(seq![e2].drop_first() =~= Seq::<DiscV>::empty());
    assert(discovery_run(s, es) == discovery_run(s1, es.drop_first()));
    assert(discovery_run(s1, seq![e2]) == discovery_run(
        discovery_step(s1, seq![e2][0]),
        seq![e2].drop_first(),
    ));
    assert(seq![e2][0] == e2);
    assert(discovery_run(discovery_step(s1, e2), Seq::<DiscV>::empty()) == discovery_step(s1, e2));
    assert(discovery_run(s, es) == discovery_step(s1, e2));
    lemma_first_discovery_wins(s1, e2, k);
}

/// Race on teardown: once the owning strong reference is gone, any
/// in-flight discovery callback aborts with no side effect at all.
pub proof fn lemma_torn_down_discovery_is_noop(s: CtrlV, e: DiscV)
    requires
        s.graph is None,
    ensures
        discovery_step(s, e) == s,
        discovery_outcome(s, e) == DiscoveryOutcome::TornDown,
{
}

/// A stopped monitor processes no further event.
pub proof fn lemma_stopped_monitor_ignores_event(s: CtrlV, ev: LifecycleEvent)
    requires
        s.monitor is Stopped,
    ensures
        lifecycle_step(s, ev) == s,
{
}

/// A stopped monitor processes no further sequence of events.
pub proof fn lemma_stopped_monitor_ignores_run(s: CtrlV, evs: Seq<LifecycleEvent>)
    requires
        s.monitor is Stopped,
    ensures
        lifecycle_run(s, evs) == s,
    decreases evs.len(),
{
    if evs.len() > 0 {
        lemma_stopped_monitor_ignores_event(s, evs[0]);
        lemma_stopped_monitor_ignores_run(s, evs.drop_first());
    }
}

/// While the graph is owned: once the event stream delivers a fatal
/// error or its end, the monitor finishes in the terminal `Stopped`
/// state, whatever else the sequence holds. (With the graph already gone
/// a fatal error is instead absorbed silently, below.)
pub proof fn lemma_terminal_event_stops_monitor(s: CtrlV, evs: Seq<LifecycleEvent>, i: int)
    requires
        s.graph is Some,
        0 <= i < evs.len(),
        evs[i] is Error || evs[i] is EndOfStream,
    ensures
        lifecycle_run(s, evs).monitor is Stopped,
    decreases evs.len(),
{
    let s1 = lifecycle_step(s, evs[0]);
    assert(s1.graph is Some);
    if i == 0 {
        assert(s1.monitor is Stopped);
        lemma_stopped_monitor_ignores_run(s1, evs.drop_first());
    } else {
        assert(evs.drop_first()[i - 1] == evs[i]);
        lemma_terminal_event_stops_monitor(s1, evs.drop_first(), i - 1);
    }
}

/// Only a fatal error ever touches the graph from the lifecycle side: a
/// run without any error event leaves the graph, and so its execution
/// state, exactly as it was.
pub proof fn lemma_without_error_graph_untouched(s: CtrlV, evs: Seq<LifecycleEvent>)
    requires
        forall|i: int| 0 <= i < evs.len() ==> !((#[trigger] evs[i]) is Error),
    ensures
        lifecycle_run(s, evs).graph == s.graph,
    decreases evs.len(),
{
    if evs.len() > 0 {
        let s1 = lifecycle_step(s, evs[0]);
        assert(s1.graph == s.graph);
        assert forall|i: int| 0 <= i < evs.drop_first().len() implies !((#[trigger] evs.drop_first()[i])
            is Error) by {
            assert(evs.drop_first()[i] == evs[i + 1]);
        }
        lemma_without_error_graph_untouched(s1, evs.drop_first());
    }
}

/// Race on teardown for the lifecycle watch: a fatal error that arrives
/// once the graph is gone is absorbed with no side effect at all —
/// nothing surfaced, nothing changed.
pub proof fn lemma_torn_down_error_is_noop(s: CtrlV, ev: LifecycleEvent)
    requires
        s.graph is None,
        ev is Error,
    ensures
        lifecycle_step(s, ev) == s,
{
}

/// A fatal error reaching a monitor that is not yet stopped halts the
/// still-owned graph and stops the monitor.
pub proof fn lemma_error_forces_halt(s: CtrlV, ev: LifecycleEvent)
    requires
        !(s.monitor is Stopped),
        ev is Error,
        s.graph is Some,
    ensures
        lifecycle_step(s, ev).graph == Some(graph_with_state(s.graph.unwrap(), RunState::Halted)),
        lifecycle_step(s, ev).graph.unwrap().state == RunState::Halted,
        lifecycle_step(s, ev).monitor == MonitorState::Stopped,
{
}

} // verus!
