use rtsp_pipeline::MediaKind;
use rtsp_pipeline::SinkRegistry;
use rtsp_pipeline::StreamHandle;

#[test]
fn empty_registry_has_no_entries() {
    let r = SinkRegistry::empty();
    assert_eq!(r.get(MediaKind::Audio), None);
    assert_eq!(r.get(MediaKind::Video), None);
    assert_eq!(r.get(MediaKind::Unrecognized), None);
}

#[test]
fn first_insert_wins_per_kind() {
    let mut r = SinkRegistry::empty();
    let h1 = StreamHandle { kind: MediaKind::Audio, node_id: 2 };
    let h2 = StreamHandle { kind: MediaKind::Audio, node_id: 3 };
    assert!(r.try_insert(h1));
    assert_eq!(r.get(MediaKind::Audio), Some(h1));
    assert!(!r.try_insert(h2));
    assert_eq!(r.get(MediaKind::Audio), Some(h1));
}

#[test]
fn kinds_are_independent() {
    let mut r = SinkRegistry::empty();
    let ha = StreamHandle { kind: MediaKind::Audio, node_id: 2 };
    let hv = StreamHandle { kind: MediaKind::Video, node_id: 3 };
    assert!(r.try_insert(ha));
    assert_eq!(r.get(MediaKind::Video), None);
    assert!(r.try_insert(hv));
    assert_eq!(r.get(MediaKind::Audio), Some(ha));
    assert_eq!(r.get(MediaKind::Video), Some(hv));
}

#[test]
fn unrecognized_is_never_stored() {
    let mut r = SinkRegistry::empty();
    let h = StreamHandle { kind: MediaKind::Unrecognized, node_id: 5 };
    assert!(!r.try_insert(h));
    assert_eq!(r.get(MediaKind::Unrecognized), None);
}
