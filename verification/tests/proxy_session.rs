use webcam_proxy::camera::VideoNode;
use webcam_proxy::camera::describe_camera_with_fingerprint;
use webcam_proxy::formats::{capture_candidate, capture_parameters, fourcc_code, FrameFormat};
use webcam_proxy::proxy::{ProxyAction, ProxyEvent, ProxySession};
use webcam_proxy::Camera;

fn s(text: &str) -> String {
    text.to_string()
}

fn camera(path: &str, usb: bool) -> Camera {
    let node = VideoNode {
        file_name: s(&path[5..]),
        path: s(path),
        is_usb: usb,
        ..VideoNode::default()
    };
    describe_camera_with_fingerprint(&node, 1)
}

fn step(m: &mut ProxySession, e: ProxyEvent) -> ProxyAction {
    assert!(m.accepts(&e), "event {:?} not expected", e);
    m.step(e)
}

fn failed(detail: &str) -> ProxyEvent {
    ProxyEvent::Failed { detail: s(detail) }
}

fn fail_with(text: &str) -> ProxyAction {
    ProxyAction::Finish { result: Err(s(text)) }
}

fn new_session() -> ProxySession {
    let (m, first) = ProxySession::new(&camera("/dev/video0", true), &camera("/dev/video62", false));
    assert_eq!(first, ProxyAction::OpenInput { path: s("/dev/video0") });
    m
}

/// Brings a session to the point where it asks whether to keep running.
fn started_session() -> ProxySession {
    let mut m = new_session();
    step(&mut m, ProxyEvent::Done);
    step(&mut m, ProxyEvent::Capabilities { device_caps: 0x8420_0001 });
    step(&mut m, ProxyEvent::FormatSet { format: capture_candidate(0) });
    step(&mut m, ProxyEvent::Done);
    step(&mut m, ProxyEvent::Done);
    step(&mut m, ProxyEvent::Done);
    step(&mut m, ProxyEvent::Done);
    step(&mut m, ProxyEvent::FormatSet { format: capture_candidate(0) });
    step(&mut m, ProxyEvent::Done);
    for _ in 0..4 {
        step(&mut m, ProxyEvent::BufferQueried { length: 614_400 });
        step(&mut m, ProxyEvent::Done);
    }
    for _ in 0..4 {
        step(&mut m, ProxyEvent::Done);
    }
    step(&mut m, ProxyEvent::Done);
    assert_eq!(step(&mut m, ProxyEvent::Done), ProxyAction::CheckRunning);
    m
}

#[test]
fn full_session_set_up() {
    let mut m = new_session();
    assert_eq!(step(&mut m, ProxyEvent::Done), ProxyAction::QueryCapabilities);
    assert_eq!(
        step(&mut m, ProxyEvent::Capabilities { device_caps: 0x8420_0001 }),
        ProxyAction::SetInputFormat { format: capture_candidate(0) }
    );
    let yuyv = capture_candidate(0);
    assert_eq!(
        step(&mut m, ProxyEvent::FormatSet { format: yuyv }),
        ProxyAction::Print { line: s("Formato input: 640x480 0x56595559 (YUYV)") }
    );
    assert_eq!(
        step(&mut m, ProxyEvent::Done),
        ProxyAction::SetFrameRate { parameters: capture_parameters(30) }
    );
    assert_eq!(
        step(&mut m, ProxyEvent::Done),
        ProxyAction::Print { line: s("Frame rate fijado a 30 fps") }
    );
    assert_eq!(step(&mut m, ProxyEvent::Done), ProxyAction::OpenOutput { path: s("/dev/video62") });
    assert_eq!(step(&mut m, ProxyEvent::Done), ProxyAction::SetOutputFormat { format: yuyv });
    assert_eq!(
        step(&mut m, ProxyEvent::FormatSet { format: yuyv }),
        ProxyAction::RequestBuffers { count: 4 }
    );
    assert_eq!(step(&mut m, ProxyEvent::Done), ProxyAction::QueryBuffer { index: 0 });
    for i in 0..4u32 {
        assert_eq!(
            step(&mut m, ProxyEvent::BufferQueried { length: 614_400 }),
            ProxyAction::MapBuffer { index: i }
        );
        let next = step(&mut m, ProxyEvent::Done);
        if i < 3 {
            assert_eq!(next, ProxyAction::QueryBuffer { index: i + 1 });
        } else {
            assert_eq!(next, ProxyAction::QueueBuffer { index: 0 });
        }
    }
    for i in 0..4u32 {
        let next = step(&mut m, ProxyEvent::Done);
        if i < 3 {
            assert_eq!(next, ProxyAction::QueueBuffer { index: i + 1 });
        } else {
            assert_eq!(next, ProxyAction::StreamOn);
        }
    }
    assert_eq!(
        step(&mut m, ProxyEvent::Done),
        ProxyAction::Print { line: s("Proxy activo. Presiona Ctrl+C para detener.") }
    );
    assert_eq!(step(&mut m, ProxyEvent::Done), ProxyAction::CheckRunning);
}

#[test]
fn format_negotiation_takes_first_exact_match() {
    let mut m = new_session();
    step(&mut m, ProxyEvent::Done);
    step(&mut m, ProxyEvent::Capabilities { device_caps: 0x0000_1000 });
    // The device refuses YUYV 640x480 outright.
    assert_eq!(
        step(&mut m, failed("Invalid argument")),
        ProxyAction::SetInputFormat { format: capture_candidate(1) }
    );
    // It answers MJPG 1280x720 with another size: not taken.
    let other = FrameFormat { width: 1024, ..capture_candidate(1) };
    assert_eq!(
        step(&mut m, ProxyEvent::FormatSet { format: other }),
        ProxyAction::SetInputFormat { format: capture_candidate(2) }
    );
    assert_eq!(
        step(&mut m, ProxyEvent::FormatSet { format: capture_candidate(2) }),
        ProxyAction::Print { line: s("Formato input: 640x480 0x47504a4d (MJPG)") }
    );
    step(&mut m, ProxyEvent::Done);
    step(&mut m, ProxyEvent::Done);
    step(&mut m, ProxyEvent::Done);
    assert_eq!(
        step(&mut m, ProxyEvent::Done),
        ProxyAction::SetOutputFormat { format: capture_candidate(2) }
    );
}

#[test]
fn no_supported_format() {
    let mut m = new_session();
    step(&mut m, ProxyEvent::Done);
    step(&mut m, ProxyEvent::Capabilities { device_caps: 1 });
    step(&mut m, failed("x"));
    step(&mut m, failed("x"));
    step(&mut m, failed("x"));
    assert_eq!(
        step(&mut m, ProxyEvent::FormatSet { format: capture_candidate(0) }),
        fail_with("No se pudo configurar ningún formato soportado en la cámara de entrada")
    );
    assert!(m.is_finished());
}

#[test]
fn input_errors() {
    let mut m = new_session();
    assert_eq!(
        step(&mut m, failed("No such file or directory (os error 2)")),
        fail_with("Error abriendo input /dev/video0: No such file or directory (os error 2)")
    );
    let mut m = new_session();
    step(&mut m, ProxyEvent::Done);
    assert_eq!(
        step(&mut m, failed("ioctl failed")),
        fail_with("Error querycap input: ioctl failed")
    );
    let mut m = new_session();
    step(&mut m, ProxyEvent::Done);
    assert_eq!(
        step(&mut m, ProxyEvent::Capabilities { device_caps: 0x0000_0002 }),
        fail_with("El dispositivo input /dev/video0 no soporta VIDEO_CAPTURE")
    );
}

#[test]
fn frame_rate_failure_only_warns() {
    let mut m = new_session();
    step(&mut m, ProxyEvent::Done);
    step(&mut m, ProxyEvent::Capabilities { device_caps: 1 });
    step(&mut m, ProxyEvent::FormatSet { format: capture_candidate(0) });
    step(&mut m, ProxyEvent::Done);
    assert_eq!(
        step(&mut m, failed("Inappropriate ioctl for device")),
        ProxyAction::PrintError {
            line: s("Advertencia: No se pudo fijar frame rate: Inappropriate ioctl for device"),
        }
    );
    assert_eq!(step(&mut m, ProxyEvent::Done), ProxyAction::OpenOutput { path: s("/dev/video62") });
}

#[test]
fn output_errors() {
    let prepare = || {
        let mut m = new_session();
        step(&mut m, ProxyEvent::Done);
        step(&mut m, ProxyEvent::Capabilities { device_caps: 1 });
        step(&mut m, ProxyEvent::FormatSet { format: capture_candidate(0) });
        step(&mut m, ProxyEvent::Done);
        step(&mut m, ProxyEvent::Done);
        step(&mut m, ProxyEvent::Done);
        m
    };
    let mut m = prepare();
    assert_eq!(
        step(&mut m, failed("Permission denied (os error 13)")),
        fail_with("Error abriendo output /dev/video62: Permission denied (os error 13)")
    );
    let mut m = prepare();
    step(&mut m, ProxyEvent::Done);
    assert_eq!(
        step(&mut m, failed("busy")),
        fail_with("Error configurando formato en output: busy")
    );
    let mut m = prepare();
    step(&mut m, ProxyEvent::Done);
    let changed = FrameFormat { pixelformat: fourcc_code(b"NV12"), ..capture_candidate(0) };
    assert_eq!(
        step(&mut m, ProxyEvent::FormatSet { format: changed }),
        fail_with("No se pudo forzar el formato YUYV/640x480 en la salida")
    );
}

#[test]
fn buffer_errors() {
    let prepare = || {
        let mut m = new_session();
        step(&mut m, ProxyEvent::Done);
        step(&mut m, ProxyEvent::Capabilities { device_caps: 1 });
        step(&mut m, ProxyEvent::FormatSet { format: capture_candidate(0) });
        for _ in 0..4 {
            step(&mut m, ProxyEvent::Done);
        }
        step(&mut m, ProxyEvent::FormatSet { format: capture_candidate(0) });
        m
    };
    let mut m = prepare();
    assert_eq!(step(&mut m, failed("no mem")), fail_with("Error reqbufs input: no mem"));
    let mut m = prepare();
    step(&mut m, ProxyEvent::Done);
    step(&mut m, ProxyEvent::BufferQueried { length: 10 });
    step(&mut m, ProxyEvent::Done);
    assert_eq!(step(&mut m, failed("bad")), fail_with("Error querybuf 1: bad"));
    let mut m = prepare();
    step(&mut m, ProxyEvent::Done);
    step(&mut m, ProxyEvent::BufferQueried { length: 10 });
    assert_eq!(step(&mut m, failed("bad")), fail_with("Error mmap 0: bad"));
    let mut m = prepare();
    step(&mut m, ProxyEvent::Done);
    for _ in 0..4 {
        step(&mut m, ProxyEvent::BufferQueried { length: 10 });
        step(&mut m, ProxyEvent::Done);
    }
    step(&mut m, ProxyEvent::Done);
    step(&mut m, ProxyEvent::Done);
    assert_eq!(step(&mut m, failed("bad")), fail_with("Error qbuf inicial 2: bad"));
    let mut m = prepare();
    step(&mut m, ProxyEvent::Done);
    for _ in 0..4 {
        step(&mut m, ProxyEvent::BufferQueried { length: 10 });
        step(&mut m, ProxyEvent::Done);
    }
    for _ in 0..4 {
        step(&mut m, ProxyEvent::Done);
    }
    assert_eq!(step(&mut m, failed("bad")), fail_with("Error streamon: bad"));
}

#[test]
fn frames_are_forwarded_and_buffers_requeued() {
    let mut m = started_session();
    assert_eq!(
        step(&mut m, ProxyEvent::Running { running: true }),
        ProxyAction::Poll { timeout_millis: 50 }
    );
    assert_eq!(step(&mut m, ProxyEvent::PollReady), ProxyAction::Dequeue);
    assert_eq!(
        step(&mut m, ProxyEvent::Dequeued { index: 2, bytes_used: 614_400 }),
        ProxyAction::WriteFrame { index: 2, length: 614_400 }
    );
    assert_eq!(step(&mut m, ProxyEvent::Done), ProxyAction::QueueBuffer { index: 2 });
    assert_eq!(step(&mut m, ProxyEvent::Done), ProxyAction::CheckRunning);
    step(&mut m, ProxyEvent::Running { running: true });
    step(&mut m, ProxyEvent::PollReady);
    assert_eq!(
        step(&mut m, ProxyEvent::Dequeued { index: 1, bytes_used: 0 }),
        ProxyAction::QueueBuffer { index: 1 }
    );
    assert_eq!(step(&mut m, ProxyEvent::Done), ProxyAction::CheckRunning);
}

#[test]
fn poll_timeouts_and_interrupts_keep_going() {
    let mut m = started_session();
    step(&mut m, ProxyEvent::Running { running: true });
    assert_eq!(step(&mut m, ProxyEvent::PollTimedOut), ProxyAction::CheckRunning);
    step(&mut m, ProxyEvent::Running { running: true });
    assert_eq!(step(&mut m, ProxyEvent::PollInterrupted), ProxyAction::CheckRunning);
    step(&mut m, ProxyEvent::Running { running: true });
    assert_eq!(step(&mut m, failed("EBADF: Bad file number")), fail_with("Error poll: EBADF: Bad file number"));
}

#[test]
fn loop_errors() {
    let mut m = started_session();
    step(&mut m, ProxyEvent::Running { running: true });
    step(&mut m, ProxyEvent::PollReady);
    assert_eq!(step(&mut m, failed("EIO")), fail_with("Error dqbuf: EIO"));
    let mut m = started_session();
    step(&mut m, ProxyEvent::Running { running: true });
    step(&mut m, ProxyEvent::PollReady);
    step(&mut m, ProxyEvent::Dequeued { index: 0, bytes_used: 5 });
    assert_eq!(step(&mut m, failed("Broken pipe")), fail_with("Error escribiendo frame: Broken pipe"));
    let mut m = started_session();
    step(&mut m, ProxyEvent::Running { running: true });
    step(&mut m, ProxyEvent::PollReady);
    step(&mut m, ProxyEvent::Dequeued { index: 0, bytes_used: 0 });
    assert_eq!(step(&mut m, failed("EINVAL")), fail_with("Error re-queue buffer: EINVAL"));
}

#[test]
fn stop_turns_streaming_off_and_succeeds() {
    let mut m = started_session();
    assert_eq!(step(&mut m, ProxyEvent::Running { running: false }), ProxyAction::StreamOff);
    assert_eq!(step(&mut m, failed("ignored")), ProxyAction::Finish { result: Ok(()) });
    assert!(m.is_finished());
}

#[test]
fn out_of_range_buffers_are_refused() {
    let mut m = started_session();
    step(&mut m, ProxyEvent::Running { running: true });
    step(&mut m, ProxyEvent::PollReady);
    assert!(!m.accepts(&ProxyEvent::Dequeued { index: 4, bytes_used: 1 }));
    assert!(!m.accepts(&ProxyEvent::Dequeued { index: 0, bytes_used: 614_401 }));
    assert!(m.accepts(&ProxyEvent::Dequeued { index: 3, bytes_used: 614_400 }));
}

#[test]
fn empty_buffer_with_unknown_index_is_queued_again() {
    let mut m = started_session();
    step(&mut m, ProxyEvent::Running { running: true });
    step(&mut m, ProxyEvent::PollReady);
    assert_eq!(
        step(&mut m, ProxyEvent::Dequeued { index: 7, bytes_used: 0 }),
        ProxyAction::QueueBuffer { index: 7 }
    );
    assert_eq!(
        step(&mut m, failed("Invalid argument")),
        fail_with("Error re-queue buffer: Invalid argument")
    );
}
