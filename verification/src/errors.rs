//! The closed error taxonomy. Construction failures are fatal and returned
//! synchronously; attachment failures are recoverable per stream and only
//! surfaced to the observability log.

use vstd::prelude::*;
use crate::graph::NodeKind;

verus! {

/// A fatal failure while building the initial source and decoder segment.
/// The caller must not proceed with a partially built controller.
#[derive(Clone, Copy, Debug, PartialEq, Eq, Structural)]
pub enum ConstructionError {
    /// The external collaborator cannot create a node of this kind.
    MissingCapability(NodeKind),
    /// Linking the source's output to the decoder's input failed.
    LinkFailure,
}

/// A recoverable per-stream failure while attaching a sink during
/// discovery. The kind's registry slot stays empty; the rest of the graph
/// continues unaffected.
#[derive(Clone, Copy, Debug, PartialEq, Eq, Structural)]
pub enum AttachmentError {
    /// The external collaborator could not create the sink node.
    CreationFailed,
    /// Linking the decoder's new output to the sink's input failed.
    LinkFailed,
    /// Bringing the sink's execution state in sync with its parent failed.
    SyncFailed,
}

} // verus!
