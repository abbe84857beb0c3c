use cosmic_launcher::capture::{
    CaptureOutcome, CapturePhase, CaptureSession, NegotiatedFormats, SessionShared,
    SUPPORTED_SHM_FORMAT, THUMBNAIL_BOUND,
};
use cosmic_launcher::events::{ToplevelHandle, WaylandUpdate};
use cosmic_launcher::registry::ToplevelRegistry;
use cosmic_launcher::worker::on_new_toplevel;
use cosmic_launcher::events::ToplevelInfo;

fn reversed_buffer(width: u32, height: u32, pixel: [u8; 4]) -> Vec<u8> {
    let mut data = Vec::new();
    for _ in 0..(width * height) {
        data.extend_from_slice(&pixel);
    }
    data
}

fn session_through_negotiation(id: u64, formats: &NegotiatedFormats) -> (CaptureSession, Option<u32>) {
    let mut session = CaptureSession::new(ToplevelHandle { id });
    assert_eq!(session.phase, CapturePhase::Requested);
    session.session_created();
    assert_eq!(session.phase, CapturePhase::AwaitingFormats);
    let buf_len = session.formats_received(formats);
    (session, buf_len)
}

#[test]
fn unsupported_format_aborts_and_emits_no_image() {
    let formats = NegotiatedFormats { width: 64, height: 64, shm_formats: vec![0, 1, 0x34325241] };
    let (session, buf_len) = session_through_negotiation(1, &formats);
    assert!(buf_len.is_none());
    assert_eq!(session.phase, CapturePhase::Failed);
}

#[test]
fn failed_capture_leaves_the_registry_alone() {
    let mut reg = ToplevelRegistry::new();
    on_new_toplevel(
        &mut reg,
        ToplevelInfo {
            handle: ToplevelHandle { id: 1 },
            title: "Editor".to_string(),
            app_id: "org.editor".to_string(),
            flags: 0,
        },
    );
    let formats = NegotiatedFormats { width: 64, height: 64, shm_formats: vec![0, 1] };
    let (session, buf_len) = session_through_negotiation(1, &formats);
    assert!(buf_len.is_none());
    assert_eq!(session.phase, CapturePhase::Failed);
    assert_eq!(reg.len(), 1);
    assert!(reg.contains(ToplevelHandle { id: 1 }));
}

#[test]
fn zero_dimension_aborts() {
    let formats =
        NegotiatedFormats { width: 0, height: 64, shm_formats: vec![SUPPORTED_SHM_FORMAT] };
    let (session, buf_len) = session_through_negotiation(1, &formats);
    assert!(buf_len.is_none());
    assert_eq!(session.phase, CapturePhase::Failed);
}

#[test]
fn buffer_over_the_32_bit_limit_aborts() {
    let formats = NegotiatedFormats {
        width: u32::MAX,
        height: 2,
        shm_formats: vec![SUPPORTED_SHM_FORMAT],
    };
    let (session, buf_len) = session_through_negotiation(1, &formats);
    assert!(buf_len.is_none());
    assert_eq!(session.phase, CapturePhase::Failed);
}

#[test]
fn acceptable_negotiation_sizes_the_buffer_exactly() {
    let formats =
        NegotiatedFormats { width: 64, height: 48, shm_formats: vec![0, SUPPORTED_SHM_FORMAT] };
    let (session, buf_len) = session_through_negotiation(1, &formats);
    assert_eq!(buf_len, Some(64 * 48 * 4));
    assert_eq!(session.phase, CapturePhase::BufferReady);
    assert_eq!(session.width, 64);
    assert_eq!(session.height, 48);
}

#[test]
fn small_native_buffer_arrives_unresized() {
    let formats =
        NegotiatedFormats { width: 64, height: 64, shm_formats: vec![SUPPORTED_SHM_FORMAT] };
    let (mut session, buf_len) = session_through_negotiation(1, &formats);
    assert_eq!(buf_len, Some(64 * 64 * 4));
    session.capture_requested();
    assert_eq!(session.phase, CapturePhase::AwaitingResult);
    session.outcome_received(CaptureOutcome::Ready);
    assert_eq!(session.phase, CapturePhase::Completed);
    let raw = reversed_buffer(64, 64, [10, 20, 30, 255]);
    let update = session.produce_update(&raw);
    match update {
        WaylandUpdate::Image(handle, img) => {
            assert_eq!(handle, ToplevelHandle { id: 1 });
            assert_eq!(img.width, 64);
            assert_eq!(img.height, 64);
            // 64 <= THUMBNAIL_BOUND: the image is only channel-reordered.
            assert!(64 <= THUMBNAIL_BOUND);
            assert_eq!(img.img.len(), 64 * 64 * 4);
            assert_eq!(&img.img[0..4], &[30, 20, 10, 255]);
        }
        other => panic!("expected an Image event, got {:?}", other),
    }
}

#[test]
fn oversized_native_buffer_is_thumbnailed() {
    let formats =
        NegotiatedFormats { width: 1024, height: 512, shm_formats: vec![SUPPORTED_SHM_FORMAT] };
    let (mut session, buf_len) = session_through_negotiation(2, &formats);
    assert_eq!(buf_len, Some(1024 * 512 * 4));
    session.capture_requested();
    session.outcome_received(CaptureOutcome::Ready);
    let raw = reversed_buffer(1024, 512, [1, 2, 3, 4]);
    let update = session.produce_update(&raw);
    match update {
        WaylandUpdate::Image(handle, img) => {
            assert_eq!(handle, ToplevelHandle { id: 2 });
            assert_eq!(img.width, 128);
            assert_eq!(img.height, 64);
            assert_eq!(img.img.len(), 128 * 64 * 4);
        }
        other => panic!("expected an Image event, got {:?}", other),
    }
}

#[test]
fn compositor_reported_failure_aborts() {
    let formats =
        NegotiatedFormats { width: 32, height: 32, shm_formats: vec![SUPPORTED_SHM_FORMAT] };
    let (mut session, _) = session_through_negotiation(3, &formats);
    session.capture_requested();
    session.outcome_received(CaptureOutcome::Failed(2));
    assert_eq!(session.phase, CapturePhase::Failed);
}

#[test]
fn shared_session_state_records_each_write() {
    let mut shared = SessionShared::new();
    assert!(shared.formats.is_none());
    assert!(shared.outcome.is_none());
    shared.set_formats(NegotiatedFormats {
        width: 16,
        height: 16,
        shm_formats: vec![SUPPORTED_SHM_FORMAT],
    });
    let formats = shared.formats.as_ref().expect("formats recorded");
    assert_eq!(formats.width, 16);
    assert!(shared.outcome.is_none());
    shared.set_outcome(CaptureOutcome::Ready);
    assert_eq!(shared.outcome, Some(CaptureOutcome::Ready));
}
