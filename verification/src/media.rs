//! Stream classification: deciding the media kind of a newly discovered
//! elementary stream from its negotiated type label.

use vstd::prelude::*;
use vstd::string::StrSliceExecFns;

verus! {

/// The media kinds a discovered stream can be classified as. Streams whose
/// label matches no recognized marker are `Unrecognized` and, by policy, are
/// never attached to a sink.
#[derive(Clone, Copy, Debug, PartialEq, Eq, Structural)]
pub enum MediaKind {
    Audio,
    Video,
    Unrecognized,
}

/// The outcome of classifying a descriptor. A descriptor that carries no
/// negotiated type label at all cannot be classified and is `Indeterminate`,
/// which callers treat as a recoverable warning.
#[derive(Clone, Copy, Debug, PartialEq, Eq, Structural)]
pub enum Classification {
    Kind(MediaKind),
    Indeterminate,
}

/// An immutable snapshot of a newly discovered stream's negotiated
/// properties: its type label, or `None` when negotiation left no type
/// information behind.
#[derive(Clone, Debug)]
pub struct StreamDescriptor {
    label: Option<String>,
}

impl View for StreamDescriptor {
    type V = Option<Seq<char>>;

    closed spec fn view(&self) -> Option<Seq<char>> {
        match self.label {
            Option::Some(s) => Option::Some(s@),
            Option::None => Option::None,
        }
    }
}

impl StreamDescriptor {
    /// Snapshot a negotiated type label (or its absence) into a descriptor.
    pub fn new(label: Option<String>) -> (r: StreamDescriptor)
        ensures
            r@ == (match label {
                Option::Some(s) => Option::Some(s@),
                Option::None => Option::<Seq<char>>::None,
            }),
    {
        StreamDescriptor { label }
    }

    /// Whether the descriptor carries a negotiated type label.
    pub fn has_label(&self) -> (r: bool)
        ensures
            r == self@ is Some,
    {
        self.label.is_some()
    }
}

/// `p` is an initial segment of `s`.
pub open spec fn is_prefix(p: Seq<char>, s: Seq<char>) -> bool {
    p.len() <= s.len() && s.subrange(0, p.len() as int) == p
}

/// The recognized marker for raw audio streams.
pub open spec fn audio_marker() -> Seq<char> {
    "audio/x-raw"@
}

/// The recognized marker for raw video streams.
pub open spec fn video_marker() -> Seq<char> {
    "video/x-raw"@
}

/// The classification policy: no label is indeterminate; otherwise the label
/// is matched by prefix against the raw-audio marker first, the raw-video
/// marker second, and anything else is unrecognized.
pub open spec fn spec_classify(label: Option<Seq<char>>) -> Classification {
    match label {
        Option::None => Classification::Indeterminate,
        Option::Some(s) => if is_prefix(audio_marker(), s) {
            Classification::Kind(MediaKind::Audio)
        } else if is_prefix(video_marker(), s) {
            Classification::Kind(MediaKind::Video)
        } else {
            Classification::Kind(MediaKind::Unrecognized)
        },
    }
}

/// Character-by-character prefix test between two string slices.
fn str_has_prefix(s: &str, p: &str) -> (r: bool)
    ensures
        r == is_prefix(p@, s@),
{
    let sl = s.unicode_len();
    let pl = p.unicode_len();
    if pl > sl {
        return false;
    }
    let mut i: usize = 0;
    while i < pl
        invariant
            i <= pl,
            pl <= sl,
            pl == p@.len(),
            sl == s@.len(),
            forall|j: int| 0 <= j < i ==> s@[j] == p@[j],
        decreases pl - i,
    {
        if s.get_char(i) != p.get_char(i) {
            assert(s@.subrange(0, pl as int)[i as int] == s@[i as int]);
            return false;
        }
        i += 1;
    }
    assert(s@.subrange(0, pl as int) =~= p@);
    true
}

/// Decide the media kind of a discovered stream from its descriptor:
/// deterministic, side-effect free, first matching marker wins.
pub fn classify(desc: &StreamDescriptor) -> (r: Classification)
    ensures
        r == spec_classify(desc@),
{
    match &desc.label {
        Option::None => Classification::Indeterminate,
        Option::Some(s) => {
            if str_has_prefix(s.as_str(), "audio/x-raw") {
                Classification::Kind(MediaKind::Audio)
            } else if str_has_prefix(s.as_str(), "video/x-raw") {
                Classification::Kind(MediaKind::Video)
            } else {
                Classification::Kind(MediaKind::Unrecognized)
            }
        },
    }
}

} // verus!
