//! The sink registry: a mapping from media kind to at most one discovered
//! consumable stream handle. Population is first-discovery-wins per kind;
//! later discoveries of an already-populated kind never overwrite.

use vstd::prelude::*;
use crate::media::MediaKind;

verus! {

/// A consumable stream handle: the media kind it delivers and the id of the
/// sink node that backs it. Handed out to callers exactly once per kind.
#[derive(Clone, Copy, Debug, PartialEq, Eq, Structural)]
pub struct StreamHandle {
    pub kind: MediaKind,
    pub node_id: usize,
}

/// The mathematical image of the registry: the populated entry per kind.
/// Unrecognized streams never have an entry, by policy.
#[verifier::ext_equal]
pub struct RegistryV {
    pub audio: Option<StreamHandle>,
    pub video: Option<StreamHandle>,
}

/// The registry entry for a kind; `Unrecognized` has none by construction.
pub open spec fn reg_entry(r: RegistryV, k: MediaKind) -> Option<StreamHandle> {
    match k {
        MediaKind::Audio => r.audio,
        MediaKind::Video => r.video,
        MediaKind::Unrecognized => Option::None,
    }
}

/// The registry after `h` is stored under its kind, leaving the other
/// entry untouched.
pub open spec fn reg_insert(r: RegistryV, h: StreamHandle) -> RegistryV {
    match h.kind {
        MediaKind::Audio => RegistryV { audio: Option::Some(h), video: r.video },
        MediaKind::Video => RegistryV { audio: r.audio, video: Option::Some(h) },
        MediaKind::Unrecognized => r,
    }
}

/// The executable registry.
pub struct SinkRegistry {
    audio: Option<StreamHandle>,
    video: Option<StreamHandle>,
}

impl View for SinkRegistry {
    type V = RegistryV;

    closed spec fn view(&self) -> RegistryV {
        RegistryV { audio: self.audio, video: self.video }
    }
}

impl SinkRegistry {
    /// A registry with no discovered stream yet.
    pub fn empty() -> (r: SinkRegistry)
        ensures
            r@ == (RegistryV { audio: Option::None, video: Option::None }),
    {
        SinkRegistry { audio: None, video: None }
    }

    /// Query the entry for a kind. Idempotent: repeated calls for an
    /// already-discovered kind return the same handle.
    pub fn get(&self, kind: MediaKind) -> (r: Option<StreamHandle>)
        ensures
            r == reg_entry(self@, kind),
    {
        match kind {
            MediaKind::Audio => self.audio,
            MediaKind::Video => self.video,
            MediaKind::Unrecognized => None,
        }
    }

    /// Store a handle under its kind unless that kind is already populated
    /// or is `Unrecognized`: the first discovery wins and later ones are
    /// rejected without touching the existing entry.
    pub fn try_insert(&mut self, h: StreamHandle) -> (inserted: bool)
        ensures
            inserted == (h.kind != MediaKind::Unrecognized && reg_entry(old(self)@, h.kind)
                is None),
            inserted ==> final(self)@ == reg_insert(old(self)@, h),
            !inserted ==> final(self)@ == old(self)@,
    {
        match h.kind {
            MediaKind::Audio => {
                if self.audio.is_none() {
                    self.audio = Some(h);
                    true
                } else {
                    false
                }
            },
            MediaKind::Video => {
                if self.video.is_none() {
                    self.video = Some(h);
                    true
                } else {
                    false
                }
            },
            MediaKind::Unrecognized => false,
        }
    }
}

} // verus!
