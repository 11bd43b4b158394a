//! The pipeline controller: sole owner of the graph. It builds the initial
//! source and decoder segment, serializes every discovery and lifecycle
//! event against the graph, and exposes discovered streams through the
//! registry. Every public call is equated with one transition of the model
//! in `model`.

use vstd::prelude::*;
use crate::errors::AttachmentError;
use crate::errors::ConstructionError;
use crate::graph::Graph;
use crate::graph::GraphV;
use crate::graph::Link;
use crate::graph::Node;
use crate::graph::NodeKind;
use crate::graph::RunState;
use crate::graph::WeakNodeRef;
use crate::graph::has_node_of_kind;
use crate::laws::lemma_discovery_step_preserves_inv;
use crate::laws::lemma_lifecycle_step_preserves_inv;
use crate::media::Classification;
use crate::media::MediaKind;
use crate::media::StreamDescriptor;
use crate::media::classify;
use crate::model::CtrlV;
use crate::model::DiscV;
use crate::model::DiscoveryOutcome;
use crate::model::attach_sink;
use crate::model::ctrl_inv;
use crate::model::discovery_outcome;
use crate::model::discovery_step;
use crate::model::lifecycle_continues;
use crate::model::lifecycle_step;
use crate::monitor::LifecycleEvent;
use crate::monitor::LifecycleMonitor;
use crate::monitor::MonitorState;
use crate::monitor::Observation;
use crate::registry::RegistryV;
use crate::registry::SinkRegistry;
use crate::registry::StreamHandle;
use crate::registry::reg_entry;

verus! {

/// What the external collaborator reported while the initial segment was
/// built: whether it could create each required node kind, and whether the
/// source-to-decoder link succeeded.
#[derive(Clone, Copy, Debug, PartialEq, Eq, Structural)]
pub struct BuildReport {
    pub source_available: bool,
    pub decoder_available: bool,
    pub link_ok: bool,
}

impl BuildReport {
    /// A collaborator that supports everything the initial segment needs.
    pub fn full() -> (r: BuildReport)
        ensures
            r == (BuildReport { source_available: true, decoder_available: true, link_ok: true }),
    {
        BuildReport { source_available: true, decoder_available: true, link_ok: true }
    }
}

/// The controller state right after a successful construction: a source
/// and a decoder node, linked, everything active, an empty registry, a
/// running monitor, and an empty observability log.
pub open spec fn initial_state(uri: Seq<char>) -> CtrlV {
    CtrlV {
        graph: Option::Some(
            GraphV {
                nodes: seq![
                    Node { kind: NodeKind::Source, state: RunState::Active },
                    Node { kind: NodeKind::Decoder, state: RunState::Active },
                ],
                links: seq![Link { from: 0, to: 1 }],
                state: RunState::Active,
            },
        ),
        decoder_id: 1,
        registry: RegistryV { audio: Option::None, video: Option::None },
        monitor: MonitorState::Running,
        log: Seq::empty(),
        uri: uri,
    }
}

/// The controller over a dynamically growing media graph fed from `uri`.
pub struct RTSPPipeline {
    graph: Option<Graph>,
    decoder_id: usize,
    registry: SinkRegistry,
    monitor: LifecycleMonitor,
    log: Vec<Observation>,
    uri: String,
}

impl View for RTSPPipeline {
    type V = CtrlV;

    closed spec fn view(&self) -> CtrlV {
        CtrlV {
            graph: match self.graph {
                Option::Some(g) => Option::Some(g@),
                Option::None => Option::None,
            },
            decoder_id: self.decoder_id,
            registry: self.registry@,
            monitor: self.monitor@,
            log: self.log@,
            uri: self.uri@,
        }
    }
}

impl RTSPPipeline {
    /// Build the initial segment against a collaborator described by
    /// `report`: missing capabilities and link failures surface as typed
    /// construction errors, in that order; otherwise the returned
    /// controller is exactly in `initial_state`.
    pub fn build(uri: &str, report: BuildReport) -> (r: Result<RTSPPipeline, ConstructionError>)
        ensures
            (r is Ok) == (report.source_available && report.decoder_available && report.link_ok),
            !report.source_available ==> r == Err::<RTSPPipeline, _>(
                ConstructionError::MissingCapability(NodeKind::Source),
            ),
            report.source_available && !report.decoder_available ==> r == Err::<RTSPPipeline, _>(
                ConstructionError::MissingCapability(NodeKind::Decoder),
            ),
            report.source_available && report.decoder_available && !report.link_ok ==> r == Err::<
                RTSPPipeline,
                _,
            >(ConstructionError::LinkFailure),
            r matches Ok(c) ==> c@ == initial_state(uri@) && ctrl_inv(c@),
    {
        if !report.source_available {
            return Err(ConstructionError::MissingCapability(NodeKind::Source));
        }
        if !report.decoder_available {
            return Err(ConstructionError::MissingCapability(NodeKind::Decoder));
        }
        if !report.link_ok {
            return Err(ConstructionError::LinkFailure);
        }
        let mut graph = Graph::new();
        let source_id = graph.add_node(NodeKind::Source);
        let decoder_id = graph.add_node(NodeKind::Decoder);
        graph.add_link(source_id, decoder_id);
        graph.set_state(RunState::Active);
        let controller = RTSPPipeline {
            graph: Some(graph),
            decoder_id,
            registry: SinkRegistry::empty(),
            monitor: LifecycleMonitor::new(),
            log: Vec::new(),
            uri: uri.to_owned(),
        };
        proof {
            assert(controller@.graph.unwrap().nodes =~= initial_state(uri@).graph.unwrap().nodes);
            assert(controller@.graph.unwrap().links =~= initial_state(uri@).graph.unwrap().links);
            assert(controller@ =~~= initial_state(uri@));
        }
        Ok(controller)
    }

    /// Construct the controller against a fully capable collaborator.
    pub fn new(uri: &str) -> (r: Result<RTSPPipeline, ConstructionError>)
        ensures
            r is Ok,
            r matches Ok(c) ==> c@ == initial_state(uri@) && ctrl_inv(c@),
    {
        Self::build(uri, BuildReport::full())
    }

    /// The non-owning token for the decoder node, as registered with the
    /// external decoder's discovery callback.
    pub fn decoder_handle(&self) -> (r: WeakNodeRef)
        ensures
            r.node_id == self@.decoder_id,
    {
        WeakNodeRef { node_id: self.decoder_id }
    }

    /// Whether the graph is still owned; after `teardown` this is false
    /// and every discovery callback aborts.
    pub fn is_live(&self) -> (r: bool)
        ensures
            r == (self@.graph is Some),
    {
        self.graph.is_some()
    }

    /// The graph's execution state, while the graph is owned.
    pub fn execution_state(&self) -> (r: Option<RunState>)
        ensures
            match self@.graph {
                Option::Some(g) => r == Some(g.state),
                Option::None => r is None,
            },
    {
        match &self.graph {
            Some(g) => Some(g.current_state()),
            None => None,
        }
    }

    /// Borrow the owned graph for inspection, while it is owned.
    pub fn graph_ref(&self) -> (r: Option<&Graph>)
        ensures
            match r {
                Option::Some(g) => self@.graph == Some(g@),
                Option::None => self@.graph is None,
            },
    {
        self.graph.as_ref()
    }

    /// The monitor's current state.
    pub fn monitor_state(&self) -> (r: MonitorState)
        ensures
            r == self@.monitor,
    {
        self.monitor.current()
    }

    /// Everything surfaced to the observability log so far, oldest first.
    pub fn observations(&self) -> (r: &Vec<Observation>)
        ensures
            r@ == self@.log,
    {
        &self.log
    }

    /// The source location the controller was built against.
    pub fn source_uri(&self) -> (r: &str)
        ensures
            r@ == self@.uri,
    {
        self.uri.as_str()
    }

    /// Query the registry for a discovered stream of `kind`. Absence now
    /// does not imply absence forever: discovery is asynchronous and
    /// callers re-query. Idempotent for an already-discovered kind.
    pub fn stream(&self, kind: MediaKind) -> (r: Option<StreamHandle>)
        ensures
            r == reg_entry(self@.registry, kind),
    {
        self.registry.get(kind)
    }

    /// The discovered audio stream, if any yet.
    pub fn get_audio_stream(&self) -> (r: Option<StreamHandle>)
        ensures
            r == reg_entry(self@.registry, MediaKind::Audio),
    {
        self.stream(MediaKind::Audio)
    }

    /// The discovered video stream, if any yet.
    pub fn get_video_stream(&self) -> (r: Option<StreamHandle>)
        ensures
            r == reg_entry(self@.registry, MediaKind::Video),
    {
        self.stream(MediaKind::Video)
    }

    /// The sink node currently backing `kind`, located in the graph
    /// itself (sink nodes are independently locatable once attached).
    pub fn sink_node(&self, kind: MediaKind) -> (r: Option<usize>)
        ensures
            self@.graph is None ==> r is None,
            self@.graph matches Some(g) ==> (match r {
                Option::Some(i) => i < g.nodes.len() && g.nodes[i as int].kind == NodeKind::Sink(
                    kind,
                ),
                Option::None => !has_node_of_kind(g, NodeKind::Sink(kind)),
            }),
    {
        match &self.graph {
            Some(g) => g.find_sink(kind),
            None => None,
        }
    }

    /// One discovery callback invocation, serialized against the graph:
    /// upgrade the weak decoder token, classify the descriptor, reject
    /// indeterminate, unrecognized, and duplicate streams, and otherwise
    /// attach a sink according to what the external collaborator
    /// reported in `attach`.
    pub fn process_discovery(
        &mut self,
        decoder: &WeakNodeRef,
        desc: &StreamDescriptor,
        attach: Result<(), AttachmentError>,
    ) -> (r: DiscoveryOutcome)
        requires
            ctrl_inv(old(self)@),
        ensures
            final(self)@ == discovery_step(
                old(self)@,
                (DiscV { node_id: decoder.node_id, label: desc@, attach }),
            ),
            r == discovery_outcome(
                old(self)@,
                (DiscV { node_id: decoder.node_id, label: desc@, attach }),
            ),
            ctrl_inv(final(self)@),
    {
        let ghost e = DiscV { node_id: decoder.node_id, label: desc@, attach };
        proof {
            lemma_discovery_step_preserves_inv(old(self)@, e);
        }
        let upgraded = match &self.graph {
            Some(g) => g.is_decoder(decoder.node_id),
            None => false,
        };
        if !upgraded {
            return DiscoveryOutcome::TornDown;
        }
        match classify(desc) {
            Classification::Indeterminate => {
                self.log.push(Observation::IndeterminateStream);
                proof {
                    assert(self@ =~~= discovery_step(old(self)@, e));
                }
                DiscoveryOutcome::IndeterminateLabel
            },
            Classification::Kind(kind) => {
                if kind == MediaKind::Unrecognized {
                    return DiscoveryOutcome::Ignored;
                }
                if self.registry.get(kind).is_some() {
                    return DiscoveryOutcome::Duplicate;
                }
                match attach {
                    Err(err) => {
                        self.log.push(Observation::AttachFailure { kind, error: err });
                        proof {
                            assert(self@ =~~= discovery_step(old(self)@, e));
                        }
                        DiscoveryOutcome::AttachFailed(err)
                    },
                    Ok(_) => {
                        let mut g = self.graph.take().unwrap();
                        let id = g.add_node(NodeKind::Sink(kind));
                        g.add_link(self.decoder_id, id);
                        g.sync_node(id);
                        self.graph = Some(g);
                        let handle = StreamHandle { kind, node_id: id };
                        let _ = self.registry.try_insert(handle);
                        proof {
                            let s0 = old(self)@;
                            assert(self@.graph.unwrap().nodes =~= attach_sink(
                                s0,
                                kind,
                            ).graph.unwrap().nodes);
                            assert(self@.graph.unwrap() =~~= attach_sink(s0, kind).graph.unwrap());
                            assert(self@ =~~= discovery_step(s0, e));
                        }
                        DiscoveryOutcome::Attached(handle)
                    },
                }
            },
        }
    }

    /// One lifecycle event, consumed in emission order: informational
    /// events are surfaced, a fatal error halts the graph, is surfaced in
    /// full, and stops the monitor, the end of the stream stops the
    /// monitor gracefully, and a stopped monitor processes nothing. A
    /// fatal error is the one event that must mutate the graph, so its
    /// weak graph-handle upgrade comes first: once the graph is gone the
    /// invocation aborts silently, surfacing nothing and changing
    /// nothing. Returns whether watching continues.
    pub fn process_lifecycle_event(&mut self, ev: LifecycleEvent) -> (keep_watching: bool)
        requires
            ctrl_inv(old(self)@),
        ensures
            final(self)@ == lifecycle_step(old(self)@, ev),
            keep_watching == lifecycle_continues(old(self)@, ev),
            ctrl_inv(final(self)@),
    {
        let ghost ev0 = ev;
        proof {
            lemma_lifecycle_step_preserves_inv(old(self)@, ev0);
        }
        if self.monitor.current() != MonitorState::Stopped && self.graph.is_none() && matches!(
            ev,
            LifecycleEvent::Error { .. },
        ) {
            return true;
        }
        let d = self.monitor.observe(&ev);
        if d.force_halt {
            match &mut self.graph {
                Some(g) => g.set_state(RunState::Halted),
                None => {},
            }
        }
        if d.force_halt || d.keep_watching {
            match ev {
                LifecycleEvent::StateChanged { prev, current, pending } => {
                    self.log.push(Observation::StateChange { prev, current, pending });
                },
                LifecycleEvent::Warning { message } => {
                    self.log.push(Observation::WarningNote { message });
                },
                LifecycleEvent::Error { source, message, detail } => {
                    self.log.push(Observation::FatalError { source, message, detail });
                },
                LifecycleEvent::EndOfStream => {},
            }
        }
        proof {
            assert(self@ =~~= lifecycle_step(old(self)@, ev0));
        }
        d.keep_watching
    }

    /// Release the strong reference to the graph. Safe at any time, even
    /// with discovery callbacks in flight: from here on every weak-handle
    /// upgrade observes "gone" and the callback aborts with no effect.
    pub fn teardown(&mut self)
        ensures
            final(self)@ == (CtrlV {
                graph: Option::None,
                decoder_id: old(self)@.decoder_id,
                registry: old(self)@.registry,
                monitor: old(self)@.monitor,
                log: old(self)@.log,
                uri: old(self)@.uri,
            }),
            ctrl_inv(final(self)@),
    {
        self.graph = None;
    }
}

} // verus!
