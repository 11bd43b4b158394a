use rtsp_pipeline::AttachmentError;
use rtsp_pipeline::BuildReport;
use rtsp_pipeline::ConstructionError;
use rtsp_pipeline::DiscoveryOutcome;
use rtsp_pipeline::LifecycleEvent;
use rtsp_pipeline::MediaKind;
use rtsp_pipeline::MonitorState;
use rtsp_pipeline::NodeKind;
use rtsp_pipeline::Observation;
use rtsp_pipeline::RTSPPipeline;
use rtsp_pipeline::RunState;
use rtsp_pipeline::StreamDescriptor;
use rtsp_pipeline::graph::WeakNodeRef;

const URI: &str = "rtsp://camera.local/stream";

fn audio_desc() -> StreamDescriptor {
    StreamDescriptor::new(Some("audio/x-raw-int".to_string()))
}

fn video_desc() -> StreamDescriptor {
    StreamDescriptor::new(Some("video/x-raw, format=I420".to_string()))
}

fn fatal_error() -> LifecycleEvent {
    LifecycleEvent::Error {
        source: "/graph/source".to_string(),
        message: "connection refused".to_string(),
        detail: Some("network unreachable".to_string()),
    }
}

fn state_changed() -> LifecycleEvent {
    LifecycleEvent::StateChanged {
        prev: RunState::Ready,
        current: RunState::Active,
        pending: None,
    }
}

#[test]
fn construction_succeeds_with_full_support() {
    let c = RTSPPipeline::new(URI).unwrap();
    assert!(c.is_live());
    assert_eq!(c.monitor_state(), MonitorState::Running);
    assert_eq!(c.execution_state(), Some(RunState::Active));
    assert_eq!(c.source_uri(), URI);
    assert_eq!(c.get_audio_stream(), None);
    assert_eq!(c.get_video_stream(), None);
    assert!(c.observations().is_empty());
}

#[test]
fn missing_source_capability_fails() {
    let r = RTSPPipeline::build(
        URI,
        BuildReport { source_available: false, decoder_available: true, link_ok: true },
    );
    assert_eq!(r.err(), Some(ConstructionError::MissingCapability(NodeKind::Source)));
}

#[test]
fn missing_decoder_capability_fails() {
    let r = RTSPPipeline::build(
        URI,
        BuildReport { source_available: true, decoder_available: false, link_ok: true },
    );
    assert_eq!(r.err(), Some(ConstructionError::MissingCapability(NodeKind::Decoder)));
}

#[test]
fn link_failure_fails() {
    let r = RTSPPipeline::build(
        URI,
        BuildReport { source_available: true, decoder_available: true, link_ok: false },
    );
    assert_eq!(r.err(), Some(ConstructionError::LinkFailure));
}

#[test]
fn discovery_attaches_audio_then_video() {
    let mut c = RTSPPipeline::new(URI).unwrap();
    let dref = c.decoder_handle();
    let ra = c.process_discovery(&dref, &audio_desc(), Ok(()));
    let rv = c.process_discovery(&dref, &video_desc(), Ok(()));
    assert!(matches!(ra, DiscoveryOutcome::Attached(h) if h.kind == MediaKind::Audio));
    assert!(matches!(rv, DiscoveryOutcome::Attached(h) if h.kind == MediaKind::Video));
    assert!(c.get_audio_stream().is_some());
    assert!(c.get_video_stream().is_some());
}

#[test]
fn discovery_order_is_irrelevant() {
    let mut c = RTSPPipeline::new(URI).unwrap();
    let dref = c.decoder_handle();
    c.process_discovery(&dref, &video_desc(), Ok(()));
    c.process_discovery(&dref, &audio_desc(), Ok(()));
    assert!(c.get_audio_stream().is_some());
    assert!(c.get_video_stream().is_some());
}

#[test]
fn duplicate_discovery_is_idempotent() {
    let mut c = RTSPPipeline::new(URI).unwrap();
    let dref = c.decoder_handle();
    c.process_discovery(&dref, &audio_desc(), Ok(()));
    let first = c.get_audio_stream();
    assert!(first.is_some());
    let again = StreamDescriptor::new(Some("audio/x-raw-float".to_string()));
    let r = c.process_discovery(&dref, &again, Ok(()));
    assert_eq!(r, DiscoveryOutcome::Duplicate);
    assert_eq!(c.get_audio_stream(), first);
}

#[test]
fn unrecognized_and_indeterminate_never_populate() {
    let mut c = RTSPPipeline::new(URI).unwrap();
    let dref = c.decoder_handle();
    let other = StreamDescriptor::new(Some("application/x-rtp".to_string()));
    assert_eq!(c.process_discovery(&dref, &other, Ok(())), DiscoveryOutcome::Ignored);
    let unlabeled = StreamDescriptor::new(None);
    assert_eq!(
        c.process_discovery(&dref, &unlabeled, Ok(())),
        DiscoveryOutcome::IndeterminateLabel
    );
    assert_eq!(c.get_audio_stream(), None);
    assert_eq!(c.get_video_stream(), None);
    assert_eq!(c.stream(MediaKind::Unrecognized), None);
    assert!(matches!(c.observations().last(), Some(Observation::IndeterminateStream)));
}

#[test]
fn attach_failure_leaves_slot_empty() {
    let mut c = RTSPPipeline::new(URI).unwrap();
    let dref = c.decoder_handle();
    let r = c.process_discovery(&dref, &audio_desc(), Err(AttachmentError::LinkFailed));
    assert_eq!(r, DiscoveryOutcome::AttachFailed(AttachmentError::LinkFailed));
    assert_eq!(c.get_audio_stream(), None);
    assert!(matches!(
        c.observations().last(),
        Some(Observation::AttachFailure { kind: MediaKind::Audio, error: AttachmentError::LinkFailed })
    ));
    let retry = c.process_discovery(&dref, &audio_desc(), Ok(()));
    assert!(matches!(retry, DiscoveryOutcome::Attached(_)));
    assert!(c.get_audio_stream().is_some());
}

#[test]
fn fatal_error_before_discovery_halts_graph() {
    let mut c = RTSPPipeline::new(URI).unwrap();
    let keep = c.process_lifecycle_event(fatal_error());
    assert!(!keep);
    assert_eq!(c.execution_state(), Some(RunState::Halted));
    assert_eq!(c.monitor_state(), MonitorState::Stopped);
    assert_eq!(c.get_audio_stream(), None);
    assert_eq!(c.get_video_stream(), None);
}

#[test]
fn graceful_lifecycle_sequence_never_halts() {
    let mut c = RTSPPipeline::new(URI).unwrap();
    assert!(c.process_lifecycle_event(state_changed()));
    assert!(c.process_lifecycle_event(LifecycleEvent::Warning {
        message: "late stream".to_string(),
    }));
    assert!(!c.process_lifecycle_event(LifecycleEvent::EndOfStream));
    assert_eq!(c.monitor_state(), MonitorState::Stopped);
    assert_eq!(c.execution_state(), Some(RunState::Active));
}

#[test]
fn fatal_lifecycle_sequence_halts() {
    let mut c = RTSPPipeline::new(URI).unwrap();
    assert!(c.process_lifecycle_event(state_changed()));
    assert!(!c.process_lifecycle_event(fatal_error()));
    assert_eq!(c.monitor_state(), MonitorState::Stopped);
    assert_eq!(c.execution_state(), Some(RunState::Halted));
}

#[test]
fn no_events_processed_after_stopped() {
    let mut c = RTSPPipeline::new(URI).unwrap();
    assert!(!c.process_lifecycle_event(LifecycleEvent::EndOfStream));
    let logged = c.observations().len();
    assert!(!c.process_lifecycle_event(fatal_error()));
    assert_eq!(c.monitor_state(), MonitorState::Stopped);
    assert_eq!(c.execution_state(), Some(RunState::Active));
    assert_eq!(c.observations().len(), logged);
}

#[test]
fn fatal_error_is_surfaced_with_full_context() {
    let mut c = RTSPPipeline::new(URI).unwrap();
    c.process_lifecycle_event(fatal_error());
    assert!(matches!(
        c.observations().last(),
        Some(Observation::FatalError { source, message, detail })
            if source == "/graph/source" && message == "connection refused"
                && detail.as_deref() == Some("network unreachable")
    ));
}

#[test]
fn teardown_aborts_inflight_discovery() {
    let mut c = RTSPPipeline::new(URI).unwrap();
    let dref = c.decoder_handle();
    c.teardown();
    assert!(!c.is_live());
    let r = c.process_discovery(&dref, &audio_desc(), Ok(()));
    assert_eq!(r, DiscoveryOutcome::TornDown);
    assert_eq!(c.get_audio_stream(), None);
    assert!(c.observations().is_empty());
}

#[test]
fn teardown_between_discoveries_keeps_earlier_streams() {
    let mut c = RTSPPipeline::new(URI).unwrap();
    let dref = c.decoder_handle();
    c.process_discovery(&dref, &audio_desc(), Ok(()));
    c.teardown();
    let r = c.process_discovery(&dref, &video_desc(), Ok(()));
    assert_eq!(r, DiscoveryOutcome::TornDown);
    assert!(c.get_audio_stream().is_some());
    assert_eq!(c.get_video_stream(), None);
}

#[test]
fn teardown_silences_lifecycle_error() {
    let mut c = RTSPPipeline::new(URI).unwrap();
    c.teardown();
    let keep = c.process_lifecycle_event(fatal_error());
    assert!(keep);
    assert_eq!(c.monitor_state(), MonitorState::Running);
    assert!(c.observations().is_empty());
    assert_eq!(c.execution_state(), None);
}

#[test]
fn graceful_end_still_stops_after_teardown() {
    let mut c = RTSPPipeline::new(URI).unwrap();
    c.teardown();
    assert!(!c.process_lifecycle_event(LifecycleEvent::EndOfStream));
    assert_eq!(c.monitor_state(), MonitorState::Stopped);
    assert!(c.observations().is_empty());
}

#[test]
fn stale_node_token_aborts() {
    let mut c = RTSPPipeline::new(URI).unwrap();
    let source_ref = WeakNodeRef { node_id: 0 };
    assert_eq!(c.process_discovery(&source_ref, &audio_desc(), Ok(())), DiscoveryOutcome::TornDown);
    let dangling = WeakNodeRef { node_id: 99 };
    assert_eq!(c.process_discovery(&dangling, &audio_desc(), Ok(())), DiscoveryOutcome::TornDown);
    assert_eq!(c.get_audio_stream(), None);
}

#[test]
fn initial_segment_links_source_to_decoder() {
    let c = RTSPPipeline::new(URI).unwrap();
    let g = c.graph_ref().unwrap();
    assert_eq!(g.node_count(), 2);
    assert_eq!(g.node(0).kind, NodeKind::Source);
    assert_eq!(g.node(1).kind, NodeKind::Decoder);
    assert_eq!(g.link_count(), 1);
    let l = g.link_at(0);
    assert_eq!((l.from, l.to), (0, 1));
}

#[test]
fn attachment_wires_decoder_to_new_sink() {
    let mut c = RTSPPipeline::new(URI).unwrap();
    let dref = c.decoder_handle();
    let r = c.process_discovery(&dref, &audio_desc(), Ok(()));
    let handle = match r {
        DiscoveryOutcome::Attached(h) => h,
        _ => panic!("expected an attached sink"),
    };
    let g = c.graph_ref().unwrap();
    assert_eq!(g.node_count(), 3);
    assert_eq!(g.node(handle.node_id).kind, NodeKind::Sink(MediaKind::Audio));
    assert_eq!(g.node(handle.node_id).state, RunState::Active);
    assert_eq!(g.link_count(), 2);
    let l = g.link_at(1);
    assert_eq!((l.from, l.to), (dref.node_id, handle.node_id));
}

#[test]
fn attached_sink_is_locatable_in_graph() {
    let mut c = RTSPPipeline::new(URI).unwrap();
    let dref = c.decoder_handle();
    let r = c.process_discovery(&dref, &audio_desc(), Ok(()));
    let handle = match r {
        DiscoveryOutcome::Attached(h) => h,
        _ => panic!("expected an attached sink"),
    };
    assert_eq!(c.sink_node(MediaKind::Audio), Some(handle.node_id));
    assert_eq!(c.sink_node(MediaKind::Video), None);
}
