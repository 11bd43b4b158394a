//! The mathematical model of the controller: its abstract state, the
//! transition taken for each discovery event and each lifecycle event, and
//! the invariant those transitions preserve. The executable controller's
//! contracts equate every call with one of these transitions.

use vstd::prelude::*;
use crate::errors::AttachmentError;
use crate::graph::GraphV;
use crate::graph::Link;
use crate::graph::Node;
use crate::graph::NodeKind;
use crate::graph::RunState;
use crate::graph::graph_with_state;
use crate::graph::has_node_of_kind;
use crate::graph::wf_graph;
use crate::media::Classification;
use crate::media::MediaKind;
use crate::media::spec_classify;
use crate::monitor::LifecycleEvent;
use crate::monitor::MonitorState;
use crate::monitor::Observation;
use crate::monitor::event_continues;
use crate::registry::RegistryV;
use crate::registry::StreamHandle;
use crate::registry::reg_entry;
use crate::registry::reg_insert;

verus! {

/// The abstract state of the whole controller. `graph` is `None` once the
/// owning strong reference has been released: from then on every discovery
/// callback must observe "gone" and abort.
#[verifier::ext_equal]
pub struct CtrlV {
    pub graph: Option<GraphV>,
    pub decoder_id: usize,
    pub registry: RegistryV,
    pub monitor: MonitorState,
    pub log: Seq<Observation>,
    pub uri: Seq<char>,
}

/// One discovery event as the model sees it: the weak decoder token the
/// callback holds, the descriptor's negotiated label, and what the external
/// collaborator reported when asked to create, link, and sync the sink.
pub struct DiscV {
    pub node_id: usize,
    pub label: Option<Seq<char>>,
    pub attach: Result<(), AttachmentError>,
}

/// How one discovery invocation ended.
#[derive(Clone, Copy, Debug, PartialEq, Eq, Structural)]
pub enum DiscoveryOutcome {
    /// A weak-handle upgrade failed: the graph is gone or the token no
    /// longer denotes the decoder. Expected race, silently aborted.
    TornDown,
    /// The descriptor carried no negotiated label; a recoverable warning
    /// was surfaced and the stream was not attached.
    IndeterminateLabel,
    /// The stream's kind is recognized by no marker; by policy it is not
    /// attached.
    Ignored,
    /// This kind already has a populated registry entry; first discovery
    /// wins and this one is a no-op.
    Duplicate,
    /// The external collaborator failed to attach the sink; the kind's
    /// registry slot stays empty.
    AttachFailed(AttachmentError),
    /// A sink was attached and its handle registered.
    Attached(StreamHandle),
}

/// Both weak handles a discovery callback holds can be upgraded: the graph
/// is still owned, and the token still denotes the decoder node.
pub open spec fn upgrade_ok(s: CtrlV, node_id: usize) -> bool {
    &&& s.graph is Some
    &&& node_id < s.graph.unwrap().nodes.len()
    &&& s.graph.unwrap().nodes[node_id as int].kind is Decoder
}

/// The state after a sink of kind `k` is attached: a sink node in the
/// graph's current execution state, a link from the decoder to it, and a
/// registry entry holding its handle.
pub open spec fn attach_sink(s: CtrlV, k: MediaKind) -> CtrlV
    recommends
        s.graph is Some,
{
    let g = s.graph.unwrap();
    let h = StreamHandle { kind: k, node_id: g.nodes.len() as usize };
    CtrlV {
        graph: Option::Some(
            GraphV {
                nodes: g.nodes.push(Node { kind: NodeKind::Sink(k), state: g.state }),
                links: g.links.push(Link { from: s.decoder_id, to: g.nodes.len() as usize }),
                state: g.state,
            },
        ),
        decoder_id: s.decoder_id,
        registry: reg_insert(s.registry, h),
        monitor: s.monitor,
        log: s.log,
        uri: s.uri,
    }
}

/// `s` with one more observation surfaced.
pub open spec fn with_logged(s: CtrlV, o: Observation) -> CtrlV {
    CtrlV {
        graph: s.graph,
        decoder_id: s.decoder_id,
        registry: s.registry,
        monitor: s.monitor,
        log: s.log.push(o),
        uri: s.uri,
    }
}

/// The transition for one discovery event: abort silently when an upgrade
/// fails, warn and abort on an indeterminate label, ignore unrecognized
/// kinds and duplicates, surface attachment failures, and otherwise attach.
pub open spec fn discovery_step(s: CtrlV, e: DiscV) -> CtrlV {
    if !upgrade_ok(s, e.node_id) {
        s
    } else {
        match spec_classify(e.label) {
            Classification::Indeterminate => with_logged(s, Observation::IndeterminateStream),
            Classification::Kind(k) => if k is Unrecognized {
                s
            } else if reg_entry(s.registry, k) is Some {
                s
            } else {
                match e.attach {
                    Result::Err(err) => with_logged(
                        s,
                        Observation::AttachFailure { kind: k, error: err },
                    ),
                    Result::Ok(_) => attach_sink(s, k),
                }
            },
        }
    }
}

/// The outcome reported for one discovery event, in step with
/// `discovery_step`.
pub open spec fn discovery_outcome(s: CtrlV, e: DiscV) -> DiscoveryOutcome {
    if !upgrade_ok(s, e.node_id) {
        DiscoveryOutcome::TornDown
    } else {
        match spec_classify(e.label) {
            Classification::Indeterminate => DiscoveryOutcome::IndeterminateLabel,
            Classification::Kind(k) => if k is Unrecognized {
                DiscoveryOutcome::Ignored
            } else if reg_entry(s.registry, k) is Some {
                DiscoveryOutcome::Duplicate
            } else {
                match e.attach {
                    Result::Err(err) => DiscoveryOutcome::AttachFailed(err),
                    Result::Ok(_) => DiscoveryOutcome::Attached(
                        (StreamHandle {
                            kind: k,
                            node_id: s.graph.unwrap().nodes.len() as usize,
                        }),
                    ),
                }
            },
        }
    }
}

/// The state after a whole sequence of discovery events, first to last.
pub open spec fn discovery_run(s: CtrlV, es: Seq<DiscV>) -> CtrlV
    decreases es.len(),
{
    if es.len() == 0 {
        s
    } else {
        discovery_run(discovery_step(s, es[0]), es.drop_first())
    }
}

/// The transition for one lifecycle event. A stopped monitor processes
/// nothing. Informational events are surfaced with their context, and the
/// end of the stream stops the monitor without forcing anything: neither
/// needs the graph. A fatal error is the one event that must mutate the
/// graph, so its weak graph-handle upgrade comes first: while the graph
/// is owned the error forces the halted state, is surfaced in full, and
/// stops the monitor; once the graph is gone the invocation aborts
/// silently, surfacing nothing and changing nothing.
pub open spec fn lifecycle_step(s: CtrlV, ev: LifecycleEvent) -> CtrlV {
    if s.monitor is Stopped {
        s
    } else {
        match ev {
            LifecycleEvent::StateChanged { prev, current, pending } => with_logged(
                s,
                Observation::StateChange { prev, current, pending },
            ),
            LifecycleEvent::Warning { message } => with_logged(
                s,
                Observation::WarningNote { message },
            ),
            LifecycleEvent::Error { source, message, detail } => match s.graph {
                Option::Some(g) => CtrlV {
                    graph: Option::Some(graph_with_state(g, RunState::Halted)),
                    decoder_id: s.decoder_id,
                    registry: s.registry,
                    monitor: MonitorState::Stopped,
                    log: s.log.push(Observation::FatalError { source, message, detail }),
                    uri: s.uri,
                },
                Option::None => s,
            },
            LifecycleEvent::EndOfStream => CtrlV {
                graph: s.graph,
                decoder_id: s.decoder_id,
                registry: s.registry,
                monitor: MonitorState::Stopped,
                log: s.log,
                uri: s.uri,
            },
        }
    }
}

/// Whether the lifecycle watch stays installed after one event: a stopped
/// monitor consumes nothing further; a fatal error whose graph upgrade
/// fails aborts its invocation without deciding anything, so the watch
/// stays; otherwise the monitor's own continuation policy applies.
pub open spec fn lifecycle_continues(s: CtrlV, ev: LifecycleEvent) -> bool {
    if s.monitor is Stopped {
        false
    } else if ev is Error && s.graph is None {
        true
    } else {
        event_continues(s.monitor, ev)
    }
}

/// The state after a whole sequence of lifecycle events, in the order the
/// external source emits them.
pub open spec fn lifecycle_run(s: CtrlV, evs: Seq<LifecycleEvent>) -> CtrlV
    decreases evs.len(),
{
    if evs.len() == 0 {
        s
    } else {
        lifecycle_run(lifecycle_step(s, evs[0]), evs.drop_first())
    }
}

/// A registry entry, when populated, really denotes a sink node of its
/// kind in the live graph.
pub open spec fn handle_ok(h: Option<StreamHandle>, k: MediaKind, g: GraphV) -> bool {
    match h {
        Option::Some(hh) => hh.kind == k && hh.node_id < g.nodes.len() && g.nodes[hh.node_id
            as int].kind == NodeKind::Sink(k),
        Option::None => true,
    }
}

/// The controller invariant while the graph is owned: the graph is
/// well-formed, the decoder token is honest, every populated registry
/// entry denotes its sink node, and every sink node present is already
/// registered (attachment and registration happen in one step).
pub open spec fn ctrl_inv(s: CtrlV) -> bool {
    match s.graph {
        Option::Some(g) => {
            &&& wf_graph(g)
            &&& s.decoder_id < g.nodes.len()
            &&& g.nodes[s.decoder_id as int].kind is Decoder
            &&& handle_ok(s.registry.audio, MediaKind::Audio, g)
            &&& handle_ok(s.registry.video, MediaKind::Video, g)
            &&& (has_node_of_kind(g, NodeKind::Sink(MediaKind::Audio)) ==> s.registry.audio
                is Some)
            &&& (has_node_of_kind(g, NodeKind::Sink(MediaKind::Video)) ==> s.registry.video
                is Some)
        },
        Option::None => true,
    }
}

} // verus!
