//! A verified model of a dynamically growing media-processing graph: a
//! source feeds a decoder whose elementary streams appear only at runtime.
//! Each discovered stream is classified, attached to a sink node, and
//! published through a registry, while a lifecycle monitor watches the
//! graph's event stream and drives shutdown decisions.

pub mod controller;
pub mod errors;
pub mod graph;
pub mod laws;
pub mod media;
pub mod model;
pub mod monitor;
pub mod registry;

pub use controller::BuildReport;
pub use controller::RTSPPipeline;
pub use errors::AttachmentError;
pub use errors::ConstructionError;
pub use model::DiscoveryOutcome;
pub use graph::Graph;
pub use graph::Link;
pub use graph::Node;
pub use graph::NodeKind;
pub use graph::RunState;
pub use graph::WeakNodeRef;
pub use media::Classification;
pub use media::MediaKind;
pub use media::StreamDescriptor;
pub use media::classify;
pub use monitor::LifecycleEvent;
pub use monitor::LifecycleMonitor;
pub use monitor::MonitorDirective;
pub use monitor::MonitorState;
pub use monitor::Observation;
pub use registry::SinkRegistry;
pub use registry::StreamHandle;
