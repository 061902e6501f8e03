//! The proxy session, written as a state machine: it opens the physical
//! camera, negotiates its capture format, opens the virtual output with the
//! same format, sets up memory-mapped capture buffers, and then forwards
//! every captured frame to the output until it is told to stop. The caller
//! performs each action (an ioctl, a write, a poll, a print) and hands back
//! what happened.

use vstd::prelude::*;

use crate::formats::{
    candidate, candidate_count, capture_candidate, capture_parameters, captures_video,
    format_text, fourcc_chars, frame_rate_parameters, push_format, push_fourcc, same_format,
    supports_capture, CaptureParameters, FrameFormat,
};
use crate::text::{decimal, push_decimal};

verus! {

// ---------------------------------------------------------------------------
// Fixed values and texts
// ---------------------------------------------------------------------------

/// How many capture buffers are mapped.
pub open spec fn buffer_count() -> nat {
    4
}

/// The frame rate asked of the physical camera.
pub open spec fn requested_fps() -> u32 {
    30
}

/// How long one poll for a captured frame waits, in milliseconds.
pub open spec fn poll_timeout_millis() -> u16 {
    50
}

/// `prefix` followed by `detail`.
pub open spec fn with_detail(prefix: Seq<char>, detail: Seq<char>) -> Seq<char> {
    prefix + detail
}

/// The error when the input device could not be opened.
pub open spec fn open_input_error_text(path: Seq<char>, detail: Seq<char>) -> Seq<char> {
    "Error abriendo input "@ + path + ": "@ + detail
}

/// The error when the input device cannot capture video.
pub open spec fn no_capture_error_text(path: Seq<char>) -> Seq<char> {
    "El dispositivo input "@ + path + " no soporta VIDEO_CAPTURE"@
}

/// The error when no capture format was accepted.
pub open spec fn no_format_error_text() -> Seq<char> {
    "No se pudo configurar ningún formato soportado en la cámara de entrada"@
}

/// The line that reports the negotiated input format.
pub open spec fn input_format_line(f: FrameFormat) -> Seq<char> {
    "Formato input: "@ + format_text(f)
}

/// The line that reports the frame rate that was set.
pub open spec fn frame_rate_line(fps: u32) -> Seq<char> {
    "Frame rate fijado a "@ + decimal(fps as nat) + " fps"@
}

/// The warning when the frame rate could not be set.
pub open spec fn frame_rate_warning(detail: Seq<char>) -> Seq<char> {
    "Advertencia: No se pudo fijar frame rate: "@ + detail
}

/// The error when the output device could not be opened.
pub open spec fn open_output_error_text(path: Seq<char>, detail: Seq<char>) -> Seq<char> {
    "Error abriendo output "@ + path + ": "@ + detail
}

/// The error when the output refused to take the input's format.
pub open spec fn output_mismatch_error_text(f: FrameFormat) -> Seq<char> {
    "No se pudo forzar el formato "@ + fourcc_chars(f.pixelformat) + "/"@ + decimal(
        f.width as nat,
    ) + "x"@ + decimal(f.height as nat) + " en la salida"@
}

/// An error about buffer `index`.
pub open spec fn buffer_error_text(prefix: Seq<char>, index: nat, detail: Seq<char>) -> Seq<
    char,
> {
    prefix + decimal(index) + ": "@ + detail
}

/// The line printed once frames flow.
pub open spec fn started_line() -> Seq<char> {
    "Proxy activo. Presiona Ctrl+C para detener."@
}

// ---------------------------------------------------------------------------
// Actions, events and the model
// ---------------------------------------------------------------------------

/// What the caller is asked to do next.
#[derive(Debug, PartialEq, Eq)]
pub enum ProxyAction {
    /// Open the input device at `path` for reading and writing.
    OpenInput { path: String },
    /// Query the input device's capabilities.
    QueryCapabilities,
    /// Set `format` on the input's capture queue, with no plane layout.
    SetInputFormat { format: FrameFormat },
    /// Print `line` on the standard output.
    Print { line: String },
    /// Print `line` on the error output.
    PrintError { line: String },
    /// Set the input's streaming parameters.
    SetFrameRate { parameters: CaptureParameters },
    /// Open the output device at `path` for reading and writing.
    OpenOutput { path: String },
    /// Set `format` on the output's queue, with the plane layout that the
    /// input reported.
    SetOutputFormat { format: FrameFormat },
    /// Request `count` memory-mapped buffers on the input's capture queue.
    RequestBuffers { count: u32 },
    /// Query capture buffer `index`.
    QueryBuffer { index: u32 },
    /// Map the first plane of capture buffer `index`.
    MapBuffer { index: u32 },
    /// Queue capture buffer `index` with one plane.
    QueueBuffer { index: u32 },
    /// Start streaming on the capture queue.
    StreamOn,
    /// Report whether the proxy should keep running.
    CheckRunning,
    /// Wait up to `timeout_millis` milliseconds for the input to be readable.
    Poll { timeout_millis: u16 },
    /// Dequeue a filled capture buffer.
    Dequeue,
    /// Write the first `length` bytes of buffer `index` to the output.
    WriteFrame { index: u32, length: u32 },
    /// Stop streaming on the capture queue; its outcome does not matter.
    StreamOff,
    /// Stop with `result`.
    Finish { result: Result<(), String> },
}

/// What happened when the caller performed the last action.
#[derive(Debug, PartialEq, Eq)]
pub enum ProxyEvent {
    /// The action succeeded and returned nothing of interest.
    Done,
    /// The action failed; `detail` describes why.
    Failed { detail: String },
    /// The input's device capability bits.
    Capabilities { device_caps: u32 },
    /// The format that the device took.
    FormatSet { format: FrameFormat },
    /// The first plane of the queried buffer is `length` bytes long.
    BufferQueried { length: u32 },
    /// Whether the proxy should keep running.
    Running { running: bool },
    /// The poll timed out.
    PollTimedOut,
    /// The poll was interrupted by a signal.
    PollInterrupted,
    /// The input is readable.
    PollReady,
    /// Buffer `index` was dequeued with `bytes_used` bytes of frame data.
    Dequeued { index: u32, bytes_used: u32 },
}

/// An action in terms of text.
pub ghost enum ProxyActionView {
    OpenInput { path: Seq<char> },
    QueryCapabilities,
    SetInputFormat { format: FrameFormat },
    Print { line: Seq<char> },
    PrintError { line: Seq<char> },
    SetFrameRate { parameters: CaptureParameters },
    OpenOutput { path: Seq<char> },
    SetOutputFormat { format: FrameFormat },
    RequestBuffers { count: u32 },
    QueryBuffer { index: u32 },
    MapBuffer { index: u32 },
    QueueBuffer { index: u32 },
    StreamOn,
    CheckRunning,
    Poll { timeout_millis: u16 },
    Dequeue,
    WriteFrame { index: u32, length: u32 },
    StreamOff,
    Finish { result: Result<(), Seq<char>> },
}

/// An event in terms of text.
pub ghost enum ProxyEventView {
    Done,
    Failed { detail: Seq<char> },
    Capabilities { device_caps: u32 },
    FormatSet { format: FrameFormat },
    BufferQueried { length: u32 },
    Running { running: bool },
    PollTimedOut,
    PollInterrupted,
    PollReady,
    Dequeued { index: u32, bytes_used: u32 },
}

impl ProxyAction {
    /// This action in terms of text.
    pub open spec fn view(&self) -> ProxyActionView {
        match self {
            ProxyAction::OpenInput { path } => ProxyActionView::OpenInput { path: path@ },
            ProxyAction::QueryCapabilities => ProxyActionView::QueryCapabilities,
            ProxyAction::SetInputFormat { format } => ProxyActionView::SetInputFormat {
                format: *format,
            },
            ProxyAction::Print { line } => ProxyActionView::Print { line: line@ },
            ProxyAction::PrintError { line } => ProxyActionView::PrintError { line: line@ },
            ProxyAction::SetFrameRate { parameters } => ProxyActionView::SetFrameRate {
                parameters: *parameters,
            },
            ProxyAction::OpenOutput { path } => ProxyActionView::OpenOutput { path: path@ },
            ProxyAction::SetOutputFormat { format } => ProxyActionView::SetOutputFormat {
                format: *format,
            },
            ProxyAction::RequestBuffers { count } => ProxyActionView::RequestBuffers {
                count: *count,
            },
            ProxyAction::QueryBuffer { index } => ProxyActionView::QueryBuffer { index: *index },
            ProxyAction::MapBuffer { index } => ProxyActionView::MapBuffer { index: *index },
            ProxyAction::QueueBuffer { index } => ProxyActionView::QueueBuffer { index: *index },
            ProxyAction::StreamOn => ProxyActionView::StreamOn,
            ProxyAction::CheckRunning => ProxyActionView::CheckRunning,
            ProxyAction::Poll { timeout_millis } => ProxyActionView::Poll {
                timeout_millis: *timeout_millis,
            },
            ProxyAction::Dequeue => ProxyActionView::Dequeue,
            ProxyAction::WriteFrame { index, length } => ProxyActionView::WriteFrame {
                index: *index,
                length: *length,
            },
            ProxyAction::StreamOff => ProxyActionView::StreamOff,
            ProxyAction::Finish { result } => ProxyActionView::Finish {
                result: match result {
                    Ok(()) => Ok(()),
                    Err(e) => Err(e@),
                },
            },
        }
    }
}

impl ProxyEvent {
    /// This event in terms of text.
    pub open spec fn view(&self) -> ProxyEventView {
        match self {
            ProxyEvent::Done => ProxyEventView::Done,
            ProxyEvent::Failed { detail } => ProxyEventView::Failed { detail: detail@ },
            ProxyEvent::Capabilities { device_caps } => ProxyEventView::Capabilities {
                device_caps: *device_caps,
            },
            ProxyEvent::FormatSet { format } => ProxyEventView::FormatSet { format: *format },
            ProxyEvent::BufferQueried { length } => ProxyEventView::BufferQueried {
                length: *length,
            },
            ProxyEvent::Running { running } => ProxyEventView::Running { running: *running },
            ProxyEvent::PollTimedOut => ProxyEventView::PollTimedOut,
            ProxyEvent::PollInterrupted => ProxyEventView::PollInterrupted,
            ProxyEvent::PollReady => ProxyEventView::PollReady,
            ProxyEvent::Dequeued { index, bytes_used } => ProxyEventView::Dequeued {
                index: *index,
                bytes_used: *bytes_used,
            },
        }
    }
}

/// Where the session stands: which action it waits on.
#[derive(Clone, Copy, Debug, PartialEq, Eq, Structural)]
pub enum ProxyPhase {
    OpeningInput,
    QueryingCapabilities,
    SettingInputFormat { candidate: usize },
    ReportingFormat,
    SettingFrameRate,
    ReportingFrameRate,
    OpeningOutput,
    SettingOutputFormat,
    RequestingBuffers,
    QueryingBuffer { index: u32 },
    MappingBuffer { index: u32 },
    QueueingBuffer { index: u32 },
    StartingStream,
    AnnouncingStart,
    CheckingRunning,
    Polling,
    Dequeuing,
    WritingFrame { index: u32 },
    Requeueing { index: u32 },
    StoppingStream,
    Finished,
}

/// The state of the session in terms of text.
pub ghost struct ProxyModel {
    /// The physical camera's device node.
    pub input_path: Seq<char>,
    /// The virtual camera's device node.
    pub output_path: Seq<char>,
    pub phase: ProxyPhase,
    /// The negotiated input format (meaningful once one was accepted).
    pub source: FrameFormat,
    /// The lengths of the buffers mapped so far.
    pub lengths: Seq<u32>,
}

/// The states that the session can be in.
pub open spec fn proxy_wf(s: ProxyModel) -> bool {
    match s.phase {
        ProxyPhase::OpeningInput | ProxyPhase::QueryingCapabilities
        | ProxyPhase::ReportingFormat | ProxyPhase::SettingFrameRate
        | ProxyPhase::ReportingFrameRate | ProxyPhase::OpeningOutput
        | ProxyPhase::SettingOutputFormat | ProxyPhase::RequestingBuffers => s.lengths.len() == 0,
        ProxyPhase::SettingInputFormat { candidate } => candidate < candidate_count()
            && s.lengths.len() == 0,
        ProxyPhase::QueryingBuffer { index } => index < buffer_count() && s.lengths.len()
            == index,
        ProxyPhase::MappingBuffer { index } => index < buffer_count() && s.lengths.len() == index
            + 1,
        ProxyPhase::QueueingBuffer { index } => index < buffer_count() && s.lengths.len()
            == buffer_count(),
        ProxyPhase::WritingFrame { index } => index < buffer_count() && s.lengths.len()
            == buffer_count(),
        ProxyPhase::Requeueing { .. } => s.lengths.len() == buffer_count(),
        ProxyPhase::Finished => true,
        _ => s.lengths.len() == buffer_count(),
    }
}

/// The session before anything was done, between the physical camera at
/// `input_path` and the virtual one at `output_path`.
pub open spec fn proxy_start(input_path: Seq<char>, output_path: Seq<char>) -> ProxyModel {
    ProxyModel {
        input_path,
        output_path,
        phase: ProxyPhase::OpeningInput,
        source: FrameFormat { pixelformat: 0, width: 0, height: 0 },
        lengths: seq![],
    }
}

/// Whether the session, in state `s`, takes `e` as the answer to its last
/// action. A dequeued buffer that holds data must be one of the mapped
/// ones, and its data must fit in it; an empty one is only queued again, so
/// any index will do.
pub open spec fn proxy_accepts(s: ProxyModel, e: ProxyEventView) -> bool {
    match s.phase {
        ProxyPhase::QueryingCapabilities => e is Capabilities || e is Failed,
        ProxyPhase::SettingInputFormat { .. } => e is FormatSet || e is Failed,
        ProxyPhase::SettingOutputFormat => e is FormatSet || e is Failed,
        ProxyPhase::QueryingBuffer { .. } => e is BufferQueried || e is Failed,
        ProxyPhase::CheckingRunning => e is Running,
        ProxyPhase::Polling => e is PollTimedOut || e is PollInterrupted || e is PollReady
            || e is Failed,
        ProxyPhase::Dequeuing => match e {
            ProxyEventView::Dequeued { index, bytes_used } => bytes_used == 0 || (index
                < s.lengths.len() && bytes_used <= s.lengths[index as int]),
            ProxyEventView::Failed { .. } => true,
            _ => false,
        },
        ProxyPhase::ReportingFormat | ProxyPhase::ReportingFrameRate
        | ProxyPhase::AnnouncingStart => e is Done,
        ProxyPhase::StoppingStream => e is Done || e is Failed,
        ProxyPhase::Finished => false,
        _ => e is Done || e is Failed,
    }
}

/// `s` in phase `phase`.
pub open spec fn in_phase(s: ProxyModel, phase: ProxyPhase) -> ProxyModel {
    ProxyModel { phase, ..s }
}

/// Stop with the error `message`.
pub open spec fn fail(s: ProxyModel, message: Seq<char>) -> (ProxyModel, ProxyActionView) {
    (in_phase(s, ProxyPhase::Finished), ProxyActionView::Finish { result: Err(message) })
}

/// Try the `candidate`-th capture format.
pub open spec fn try_candidate(s: ProxyModel, i: usize) -> (ProxyModel, ProxyActionView) {
    (
        in_phase(s, ProxyPhase::SettingInputFormat { candidate: i }),
        ProxyActionView::SetInputFormat { format: candidate(i as int) },
    )
}

/// After the `i`-th capture format was not taken as asked: the next one, or
/// the error after the last.
pub open spec fn next_candidate(s: ProxyModel, i: usize) -> (ProxyModel, ProxyActionView) {
    if i + 1 < candidate_count() {
        try_candidate(s, (i + 1) as usize)
    } else {
        fail(s, no_format_error_text())
    }
}

/// Ask whether to keep running.
pub open spec fn check_running(s: ProxyModel) -> (ProxyModel, ProxyActionView) {
    (in_phase(s, ProxyPhase::CheckingRunning), ProxyActionView::CheckRunning)
}

/// Hand buffer `index` back to the capture queue.
pub open spec fn requeue(s: ProxyModel, index: u32) -> (ProxyModel, ProxyActionView) {
    (in_phase(s, ProxyPhase::Requeueing { index }), ProxyActionView::QueueBuffer { index })
}

/// One step of the session: the next state and the next action, given the
/// answer `e` to the last action.
pub open spec fn proxy_step(s: ProxyModel, e: ProxyEventView) -> (ProxyModel, ProxyActionView) {
    match s.phase {
        ProxyPhase::OpeningInput => match e {
            ProxyEventView::Failed { detail } => fail(
                s,
                open_input_error_text(s.input_path, detail),
            ),
            _ => (in_phase(s, ProxyPhase::QueryingCapabilities), ProxyActionView::QueryCapabilities),
        },
        ProxyPhase::QueryingCapabilities => match e {
            ProxyEventView::Capabilities { device_caps } => if captures_video(device_caps) {
                try_candidate(s, 0)
            } else {
                fail(s, no_capture_error_text(s.input_path))
            },
            ProxyEventView::Failed { detail } => fail(
                s,
                with_detail("Error querycap input: "@, detail),
            ),
            _ => (s, ProxyActionView::StreamOff),
        },
        ProxyPhase::SettingInputFormat { candidate: i } => match e {
            ProxyEventView::FormatSet { format } => if format == candidate(i as int) {
                (
                    ProxyModel { phase: ProxyPhase::ReportingFormat, source: format, ..s },
                    ProxyActionView::Print { line: input_format_line(format) },
                )
            } else {
                next_candidate(s, i)
            },
            _ => next_candidate(s, i),
        },
        ProxyPhase::ReportingFormat => (
            in_phase(s, ProxyPhase::SettingFrameRate),
            ProxyActionView::SetFrameRate { parameters: frame_rate_parameters(requested_fps()) },
        ),
        ProxyPhase::SettingFrameRate => match e {
            ProxyEventView::Failed { detail } => (
                in_phase(s, ProxyPhase::ReportingFrameRate),
                ProxyActionView::PrintError { line: frame_rate_warning(detail) },
            ),
            _ => (
                in_phase(s, ProxyPhase::ReportingFrameRate),
                ProxyActionView::Print { line: frame_rate_line(requested_fps()) },
            ),
        },
        ProxyPhase::ReportingFrameRate => (
            in_phase(s, ProxyPhase::OpeningOutput),
            ProxyActionView::OpenOutput { path: s.output_path },
        ),
        ProxyPhase::OpeningOutput => match e {
            ProxyEventView::Failed { detail } => fail(
                s,
                open_output_error_text(s.output_path, detail),
            ),
            _ => (
                in_phase(s, ProxyPhase::SettingOutputFormat),
                ProxyActionView::SetOutputFormat { format: s.source },
            ),
        },
        ProxyPhase::SettingOutputFormat => match e {
            ProxyEventView::FormatSet { format } => if format == s.source {
                (
                    in_phase(s, ProxyPhase::RequestingBuffers),
                    ProxyActionView::RequestBuffers { count: buffer_count() as u32 },
                )
            } else {
                fail(s, output_mismatch_error_text(s.source))
            },
            ProxyEventView::Failed { detail } => fail(
                s,
                with_detail("Error configurando formato en output: "@, detail),
            ),
            _ => (s, ProxyActionView::StreamOff),
        },
        ProxyPhase::RequestingBuffers => match e {
            ProxyEventView::Failed { detail } => fail(
                s,
                with_detail("Error reqbufs input: "@, detail),
            ),
            _ => (
                in_phase(s, ProxyPhase::QueryingBuffer { index: 0 }),
                ProxyActionView::QueryBuffer { index: 0 },
            ),
        },
        ProxyPhase::QueryingBuffer { index } => match e {
            ProxyEventView::BufferQueried { length } => (
                ProxyModel {
                    phase: ProxyPhase::MappingBuffer { index },
                    lengths: s.lengths.push(length),
                    ..s
                },
                ProxyActionView::MapBuffer { index },
            ),
            ProxyEventView::Failed { detail } => fail(
                s,
                buffer_error_text("Error querybuf "@, index as nat, detail),
            ),
            _ => (s, ProxyActionView::StreamOff),
        },
        ProxyPhase::MappingBuffer { index } => match e {
            ProxyEventView::Failed { detail } => fail(
                s,
                buffer_error_text("Error mmap "@, index as nat, detail),
            ),
            _ => if index + 1 < buffer_count() {
                (
                    in_phase(s, ProxyPhase::QueryingBuffer { index: (index + 1) as u32 }),
                    ProxyActionView::QueryBuffer { index: (index + 1) as u32 },
                )
            } else {
                (
                    in_phase(s, ProxyPhase::QueueingBuffer { index: 0 }),
                    ProxyActionView::QueueBuffer { index: 0 },
                )
            },
        },
        ProxyPhase::QueueingBuffer { index } => match e {
            ProxyEventView::Failed { detail } => fail(
                s,
                buffer_error_text("Error qbuf inicial "@, index as nat, detail),
            ),
            _ => if index + 1 < buffer_count() {
                (
                    in_phase(s, ProxyPhase::QueueingBuffer { index: (index + 1) as u32 }),
                    ProxyActionView::QueueBuffer { index: (index + 1) as u32 },
                )
            } else {
                (in_phase(s, ProxyPhase::StartingStream), ProxyActionView::StreamOn)
            },
        },
        ProxyPhase::StartingStream => match e {
            ProxyEventView::Failed { detail } => fail(
                s,
                with_detail("Error streamon: "@, detail),
            ),
            _ => (
                in_phase(s, ProxyPhase::AnnouncingStart),
                ProxyActionView::Print { line: started_line() },
            ),
        },
        ProxyPhase::AnnouncingStart => check_running(s),
        ProxyPhase::CheckingRunning => match e {
            ProxyEventView::Running { running: true } => (
                in_phase(s, ProxyPhase::Polling),
                ProxyActionView::Poll { timeout_millis: poll_timeout_millis() },
            ),
            _ => (in_phase(s, ProxyPhase::StoppingStream), ProxyActionView::StreamOff),
        },
        ProxyPhase::Polling => match e {
            ProxyEventView::PollReady => (
                in_phase(s, ProxyPhase::Dequeuing),
                ProxyActionView::Dequeue,
            ),
            ProxyEventView::Failed { detail } => fail(s, with_detail("Error poll: "@, detail)),
            _ => check_running(s),
        },
        ProxyPhase::Dequeuing => match e {
            ProxyEventView::Dequeued { index, bytes_used } => if bytes_used > 0 {
                (
                    in_phase(s, ProxyPhase::WritingFrame { index }),
                    ProxyActionView::WriteFrame { index, length: bytes_used },
                )
            } else {
                requeue(s, index)
            },
            ProxyEventView::Failed { detail } => fail(s, with_detail("Error dqbuf: "@, detail)),
            _ => (s, ProxyActionView::StreamOff),
        },
        ProxyPhase::WritingFrame { index } => match e {
            ProxyEventView::Failed { detail } => fail(
                s,
                with_detail("Error escribiendo frame: "@, detail),
            ),
            _ => requeue(s, index),
        },
        ProxyPhase::Requeueing { .. } => match e {
            ProxyEventView::Failed { detail } => fail(
                s,
                with_detail("Error re-queue buffer: "@, detail),
            ),
            _ => check_running(s),
        },
        ProxyPhase::StoppingStream => (
            in_phase(s, ProxyPhase::Finished),
            ProxyActionView::Finish { result: Ok(()) },
        ),
        ProxyPhase::Finished => (s, ProxyActionView::StreamOff),
    }
}


// ---------------------------------------------------------------------------
// Texts, built
// ---------------------------------------------------------------------------

/// `prefix` followed by `detail`.
fn detail_message(prefix: &str, detail: &str) -> (r: String)
    ensures
        r@ == with_detail(prefix@, detail@),
{
    let mut s = String::from_str(prefix);
    s.append(detail);
    s
}

/// `prefix`, `path`, `": "` and `detail`.
fn path_message(prefix: &str, path: &str, detail: &str) -> (r: String)
    ensures
        r@ == prefix@ + path@ + ": "@ + detail@,
{
    let mut s = String::from_str(prefix);
    s.append(path);
    s.append(": ");
    s.append(detail);
    s
}

/// An error about buffer `index`.
fn buffer_message(prefix: &str, index: u32, detail: &str) -> (r: String)
    ensures
        r@ == buffer_error_text(prefix@, index as nat, detail@),
{
    let mut s = String::from_str(prefix);
    push_decimal(&mut s, index);
    s.append(": ");
    s.append(detail);
    s
}

/// The error when the input device cannot capture video.
fn no_capture_error(path: &str) -> (r: String)
    ensures
        r@ == no_capture_error_text(path@),
{
    let mut s = String::from_str("El dispositivo input ");
    s.append(path);
    s.append(" no soporta VIDEO_CAPTURE");
    s
}

/// The line that reports the negotiated input format.
fn input_format_message(f: FrameFormat) -> (r: String)
    ensures
        r@ == input_format_line(f),
{
    let mut s = String::from_str("Formato input: ");
    push_format(&mut s, f);
    s
}

/// The line that reports the frame rate that was set.
fn frame_rate_message(fps: u32) -> (r: String)
    ensures
        r@ == frame_rate_line(fps),
{
    let mut s = String::from_str("Frame rate fijado a ");
    push_decimal(&mut s, fps);
    s.append(" fps");
    s
}

/// The error when the output refused to take the input's format.
fn output_mismatch_error(f: FrameFormat) -> (r: String)
    ensures
        r@ == output_mismatch_error_text(f),
{
    let mut s = String::from_str("No se pudo forzar el formato ");
    push_fourcc(&mut s, f.pixelformat);
    s.append("/");
    push_decimal(&mut s, f.width);
    s.append("x");
    push_decimal(&mut s, f.height);
    s.append(" en la salida");
    s
}

// ---------------------------------------------------------------------------
// The machine
// ---------------------------------------------------------------------------

/// A proxy session in progress.
pub struct ProxySession {
    input_path: String,
    output_path: String,
    phase: ProxyPhase,
    source: FrameFormat,
    lengths: Vec<u32>,
}

impl ProxySession {
    /// The state in terms of text.
    pub closed spec fn view(&self) -> ProxyModel {
        ProxyModel {
            input_path: self.input_path@,
            output_path: self.output_path@,
            phase: self.phase,
            source: self.source,
            lengths: self.lengths@,
        }
    }

    #[verifier::type_invariant]
    closed spec fn inv(&self) -> bool {
        proxy_wf(self@)
    }

    /// Starts a session from the physical camera `input` to the virtual
    /// camera `output`; the first action opens the input.
    pub fn new(input: &crate::camera::Camera, output: &crate::camera::Camera) -> (r: (
        ProxySession,
        ProxyAction,
    ))
        ensures
            r.0@ == proxy_start(input.path@, output.path@),
            r.1@ == (ProxyActionView::OpenInput { path: input.path@ }),
    {
        let session = ProxySession {
            input_path: input.path.clone(),
            output_path: output.path.clone(),
            phase: ProxyPhase::OpeningInput,
            source: FrameFormat { pixelformat: 0, width: 0, height: 0 },
            lengths: Vec::new(),
        };
        (session, ProxyAction::OpenInput { path: input.path.clone() })
    }

    /// Whether the session is over.
    pub fn is_finished(&self) -> (r: bool)
        ensures
            r == (self@.phase == ProxyPhase::Finished),
    {
        self.phase == ProxyPhase::Finished
    }

    /// Whether `event` answers the last action.
    pub fn accepts(&self, event: &ProxyEvent) -> (r: bool)
        ensures
            r == proxy_accepts(self@, event@),
    {
        match self.phase {
            ProxyPhase::QueryingCapabilities => matches!(
                event,
                ProxyEvent::Capabilities { .. } | ProxyEvent::Failed { .. }
            ),
            ProxyPhase::SettingInputFormat { .. } | ProxyPhase::SettingOutputFormat => matches!(
                event,
                ProxyEvent::FormatSet { .. } | ProxyEvent::Failed { .. }
            ),
            ProxyPhase::QueryingBuffer { .. } => matches!(
                event,
                ProxyEvent::BufferQueried { .. } | ProxyEvent::Failed { .. }
            ),
            ProxyPhase::CheckingRunning => matches!(event, ProxyEvent::Running { .. }),
            ProxyPhase::Polling => matches!(
                event,
                ProxyEvent::PollTimedOut | ProxyEvent::PollInterrupted | ProxyEvent::PollReady
                    | ProxyEvent::Failed { .. }
            ),
            ProxyPhase::Dequeuing => match event {
                ProxyEvent::Dequeued { index, bytes_used } => {
                    *bytes_used == 0 || ((*index as usize) < self.lengths.len() && *bytes_used
                        <= self.lengths[*index as usize])
                },
                ProxyEvent::Failed { .. } => true,
                _ => false,
            },
            ProxyPhase::ReportingFormat | ProxyPhase::ReportingFrameRate
            | ProxyPhase::AnnouncingStart => matches!(event, ProxyEvent::Done),
            ProxyPhase::StoppingStream => matches!(
                event,
                ProxyEvent::Done | ProxyEvent::Failed { .. }
            ),
            ProxyPhase::Finished => false,
            _ => matches!(event, ProxyEvent::Done | ProxyEvent::Failed { .. }),
        }
    }

    /// Stops with the error `message`.
    fn fail(&mut self, message: String) -> (a: ProxyAction)
        ensures
            (final(self)@, a@) == fail(old(self)@, message@),
    {
        proof {
            use_type_invariant(&*self);
        }
        self.phase = ProxyPhase::Finished;
        ProxyAction::Finish { result: Err(message) }
    }

    /// Tries the `i`-th capture format.
    fn try_candidate(&mut self, i: usize) -> (a: ProxyAction)
        requires
            i < candidate_count(),
            old(self)@.lengths.len() == 0,
        ensures
            (final(self)@, a@) == try_candidate(old(self)@, i),
    {
        proof {
            use_type_invariant(&*self);
        }
        self.phase = ProxyPhase::SettingInputFormat { candidate: i };
        ProxyAction::SetInputFormat { format: capture_candidate(i) }
    }

    /// After the `i`-th capture format was not taken as asked.
    fn next_candidate(&mut self, i: usize) -> (a: ProxyAction)
        requires
            i < candidate_count(),
            old(self)@.lengths.len() == 0,
        ensures
            (final(self)@, a@) == next_candidate(old(self)@, i),
    {
        if i + 1 < 4 {
            self.try_candidate(i + 1)
        } else {
            self.fail(
                String::from_str(
                    "No se pudo configurar ningún formato soportado en la cámara de entrada",
                ),
            )
        }
    }

    /// Asks whether to keep running.
    fn check_running(&mut self) -> (a: ProxyAction)
        requires
            old(self)@.lengths.len() == buffer_count(),
        ensures
            (final(self)@, a@) == check_running(old(self)@),
    {
        proof {
            use_type_invariant(&*self);
        }
        self.phase = ProxyPhase::CheckingRunning;
        ProxyAction::CheckRunning
    }

    /// Hands buffer `index` back to the capture queue.
    fn requeue(&mut self, index: u32) -> (a: ProxyAction)
        requires
            old(self)@.lengths.len() == buffer_count(),
        ensures
            (final(self)@, a@) == requeue(old(self)@, index),
    {
        proof {
            use_type_invariant(&*self);
        }
        self.phase = ProxyPhase::Requeueing { index };
        ProxyAction::QueueBuffer { index }
    }

    /// Takes the answer to the last action and gives the next action.
    pub fn step(&mut self, event: ProxyEvent) -> (a: ProxyAction)
        requires
            proxy_accepts(old(self)@, event@),
        ensures
            (final(self)@, a@) == proxy_step(old(self)@, event@),
    {
        proof {
            use_type_invariant(&*self);
        }
        match self.phase {
            ProxyPhase::OpeningInput => match event {
                ProxyEvent::Failed { detail } => {
                    let m = path_message(
                        "Error abriendo input ",
                        self.input_path.as_str(),
                        detail.as_str(),
                    );
                    self.fail(m)
                },
                _ => {
                    self.phase = ProxyPhase::QueryingCapabilities;
                    ProxyAction::QueryCapabilities
                },
            },
            ProxyPhase::QueryingCapabilities => match event {
                ProxyEvent::Capabilities { device_caps } => {
                    if supports_capture(device_caps) {
                        self.try_candidate(0)
                    } else {
                        let m = no_capture_error(self.input_path.as_str());
                        self.fail(m)
                    }
                },
                ProxyEvent::Failed { detail } => {
                    let m = detail_message("Error querycap input: ", detail.as_str());
                    self.fail(m)
                },
                _ => ProxyAction::StreamOff,
            },
            ProxyPhase::SettingInputFormat { candidate: i } => match event {
                ProxyEvent::FormatSet { format } => {
                    let wanted = capture_candidate(i);
                    if same_format(&format, &wanted) {
                        self.phase = ProxyPhase::ReportingFormat;
                        self.source = format;
                        ProxyAction::Print { line: input_format_message(format) }
                    } else {
                        self.next_candidate(i)
                    }
                },
                _ => self.next_candidate(i),
            },
            ProxyPhase::ReportingFormat => {
                self.phase = ProxyPhase::SettingFrameRate;
                ProxyAction::SetFrameRate { parameters: capture_parameters(30) }
            },
            ProxyPhase::SettingFrameRate => match event {
                ProxyEvent::Failed { detail } => {
                    self.phase = ProxyPhase::ReportingFrameRate;
                    ProxyAction::PrintError {
                        line: detail_message(
                            "Advertencia: No se pudo fijar frame rate: ",
                            detail.as_str(),
                        ),
                    }
                },
                _ => {
                    self.phase = ProxyPhase::ReportingFrameRate;
                    ProxyAction::Print { line: frame_rate_message(30) }
                },
            },
            ProxyPhase::ReportingFrameRate => {
                self.phase = ProxyPhase::OpeningOutput;
                ProxyAction::OpenOutput { path: self.output_path.clone() }
            },
            ProxyPhase::OpeningOutput => match event {
                ProxyEvent::Failed { detail } => {
                    let m = path_message(
                        "Error abriendo output ",
                        self.output_path.as_str(),
                        detail.as_str(),
                    );
                    self.fail(m)
                },
                _ => {
                    self.phase = ProxyPhase::SettingOutputFormat;
                    ProxyAction::SetOutputFormat { format: self.source }
                },
            },
            ProxyPhase::SettingOutputFormat => match event {
                ProxyEvent::FormatSet { format } => {
                    if same_format(&format, &self.source) {
                        self.phase = ProxyPhase::RequestingBuffers;
                        ProxyAction::RequestBuffers { count: 4 }
                    } else {
                        let m = output_mismatch_error(self.source);
                        self.fail(m)
                    }
                },
                ProxyEvent::Failed { detail } => {
                    let m = detail_message(
                        "Error configurando formato en output: ",
                        detail.as_str(),
                    );
                    self.fail(m)
                },
                _ => ProxyAction::StreamOff,
            },
            ProxyPhase::RequestingBuffers => match event {
                ProxyEvent::Failed { detail } => {
                    let m = detail_message("Error reqbufs input: ", detail.as_str());
                    self.fail(m)
                },
                _ => {
                    self.phase = ProxyPhase::QueryingBuffer { index: 0 };
                    ProxyAction::QueryBuffer { index: 0 }
                },
            },
            ProxyPhase::QueryingBuffer { index } => match event {
                ProxyEvent::BufferQueried { length } => {
                    // The session counts as finished while its buffer list
                    // is out of its hands.
                    self.phase = ProxyPhase::Finished;
                    let mut lengths: Vec<u32> = Vec::new();
                    std::mem::swap(&mut lengths, &mut self.lengths);
                    lengths.push(length);
                    self.lengths = lengths;
                    self.phase = ProxyPhase::MappingBuffer { index };
                    ProxyAction::MapBuffer { index }
                },
                ProxyEvent::Failed { detail } => {
                    let m = buffer_message("Error querybuf ", index, detail.as_str());
                    self.fail(m)
                },
                _ => ProxyAction::StreamOff,
            },
            ProxyPhase::MappingBuffer { index } => match event {
                ProxyEvent::Failed { detail } => {
                    let m = buffer_message("Error mmap ", index, detail.as_str());
                    self.fail(m)
                },
                _ => {
                    if index + 1 < 4 {
                        self.phase = ProxyPhase::QueryingBuffer { index: index + 1 };
                        ProxyAction::QueryBuffer { index: index + 1 }
                    } else {
                        self.phase = ProxyPhase::QueueingBuffer { index: 0 };
                        ProxyAction::QueueBuffer { index: 0 }
                    }
                },
            },
            ProxyPhase::QueueingBuffer { index } => match event {
                ProxyEvent::Failed { detail } => {
                    let m = buffer_message("Error qbuf inicial ", index, detail.as_str());
                    self.fail(m)
                },
                _ => {
                    if index + 1 < 4 {
                        self.phase = ProxyPhase::QueueingBuffer { index: index + 1 };
                        ProxyAction::QueueBuffer { index: index + 1 }
                    } else {
                        self.phase = ProxyPhase::StartingStream;
                        ProxyAction::StreamOn
                    }
                },
            },
            ProxyPhase::StartingStream => match event {
                ProxyEvent::Failed { detail } => {
                    let m = detail_message("Error streamon: ", detail.as_str());
                    self.fail(m)
                },
                _ => {
                    self.phase = ProxyPhase::AnnouncingStart;
                    ProxyAction::Print {
                        line: String::from_str("Proxy activo. Presiona Ctrl+C para detener."),
                    }
                },
            },
            ProxyPhase::AnnouncingStart => self.check_running(),
            ProxyPhase::CheckingRunning => {
                if matches!(event, ProxyEvent::Running { running: true }) {
                    self.phase = ProxyPhase::Polling;
                    ProxyAction::Poll { timeout_millis: 50 }
                } else {
                    self.phase = ProxyPhase::StoppingStream;
                    ProxyAction::StreamOff
                }
            },
            ProxyPhase::Polling => match event {
                ProxyEvent::PollReady => {
                    self.phase = ProxyPhase::Dequeuing;
                    ProxyAction::Dequeue
                },
                ProxyEvent::Failed { detail } => {
                    let m = detail_message("Error poll: ", detail.as_str());
                    self.fail(m)
                },
                _ => self.check_running(),
            },
            ProxyPhase::Dequeuing => match event {
                ProxyEvent::Dequeued { index, bytes_used } => {
                    if bytes_used > 0 {
                        self.phase = ProxyPhase::WritingFrame { index };
                        ProxyAction::WriteFrame { index, length: bytes_used }
                    } else {
                        self.requeue(index)
                    }
                },
                ProxyEvent::Failed { detail } => {
                    let m = detail_message("Error dqbuf: ", detail.as_str());
                    self.fail(m)
                },
                _ => ProxyAction::StreamOff,
            },
            ProxyPhase::WritingFrame { index } => match event {
                ProxyEvent::Failed { detail } => {
                    let m = detail_message("Error escribiendo frame: ", detail.as_str());
                    self.fail(m)
                },
                _ => self.requeue(index),
            },
            ProxyPhase::Requeueing { .. } => match event {
                ProxyEvent::Failed { detail } => {
                    let m = detail_message("Error re-queue buffer: ", detail.as_str());
                    self.fail(m)
                },
                _ => self.check_running(),
            },
            ProxyPhase::StoppingStream => {
                self.phase = ProxyPhase::Finished;
                ProxyAction::Finish { result: Ok(()) }
            },
            ProxyPhase::Finished => ProxyAction::StreamOff,
        }
    }
}


// ---------------------------------------------------------------------------
// Laws
// ---------------------------------------------------------------------------

/// The state and the actions after feeding `events` to the session, one
/// after the other, from state `s`.
pub open spec fn proxy_trace(s: ProxyModel, events: Seq<ProxyEventView>) -> (
    ProxyModel,
    Seq<ProxyActionView>,
)
    decreases events.len(),
{
    if events.len() == 0 {
        (s, seq![])
    } else {
        let (before, actions) = proxy_trace(s, events.drop_last());
        let (after, action) = proxy_step(before, events.last());
        (after, actions.push(action))
    }
}

/// Whether `e` confirms the `i`-th capture format: the device took exactly
/// that format.
pub open spec fn confirms(e: ProxyEventView, i: int) -> bool {
    e == (ProxyEventView::FormatSet { format: candidate(i) })
}

/// Whether `e` is an answer to an attempt to set a format.
pub open spec fn is_format_reply(e: ProxyEventView) -> bool {
    e is FormatSet || e is Failed
}

/// The capture formats are tried in order: after `k` answers, none of which
/// confirmed its format, the session tries format `k`; when the device
/// confirms format `k`, the session settles on it and reports it. So the
/// session uses the first format, in the order of preference, that the
/// device takes exactly.
pub proof fn lemma_first_confirmed_format_wins(
    s: ProxyModel,
    replies: Seq<ProxyEventView>,
    k: nat,
)
    requires
        s.phase == (ProxyPhase::SettingInputFormat { candidate: 0 }),
        s.lengths.len() == 0,
        k < candidate_count(),
        replies.len() == k + 1,
        forall|j: int| 0 <= j < k ==> is_format_reply(#[trigger] replies[j]) && !confirms(
            replies[j],
            j,
        ),
    ensures
        proxy_trace(s, replies.take(k as int)).0 == in_phase(
            s,
            ProxyPhase::SettingInputFormat { candidate: k as usize },
        ),
        confirms(replies[k as int], k as int) ==> {
            let (t, actions) = proxy_trace(s, replies);
            &&& t.phase == ProxyPhase::ReportingFormat
            &&& t.source == candidate(k as int)
            &&& actions.last() == (ProxyActionView::Print {
                line: input_format_line(candidate(k as int)),
            })
        },
    decreases k,
{
    if k > 0 {
        let prev = replies.take(k as int);
        lemma_first_confirmed_format_wins(s, prev, (k - 1) as nat);
        assert(prev.take(k - 1) =~= replies.take(k - 1));
        assert(replies.take(k as int).drop_last() =~= replies.take(k - 1));
        assert(replies.take(k as int).last() == replies[k - 1]);
        assert(is_format_reply(replies[k - 1]));
    } else {
        assert(replies.take(0) =~= Seq::<ProxyEventView>::empty());
    }
    assert(replies.drop_last() =~= replies.take(k as int));
}

/// When no capture format is confirmed, the session stops with the error
/// that no supported format could be set.
pub proof fn lemma_no_confirmed_format_fails(s: ProxyModel, replies: Seq<ProxyEventView>)
    requires
        s.phase == (ProxyPhase::SettingInputFormat { candidate: 0 }),
        s.lengths.len() == 0,
        replies.len() == candidate_count(),
        forall|j: int| 0 <= j < candidate_count() ==> is_format_reply(#[trigger] replies[j])
            && !confirms(replies[j], j),
    ensures
        proxy_trace(s, replies).0.phase == ProxyPhase::Finished,
        proxy_trace(s, replies).1.last() == (ProxyActionView::Finish {
            result: Err(no_format_error_text()),
        }),
{
    lemma_first_confirmed_format_wins(s, replies, 3);
    assert(replies.drop_last() =~= replies.take(3));
}

/// Every captured frame that holds data is written whole to the output,
/// and its buffer is queued again before the proxy looks at whether to go
/// on; a frame without data is not written, and its buffer, whatever its
/// index, is queued again at once.
pub proof fn lemma_frames_forwarded(s: ProxyModel, index: u32, bytes_used: u32)
    requires
        proxy_wf(s),
        s.phase == ProxyPhase::Dequeuing,
        bytes_used > 0 ==> (index < s.lengths.len() && bytes_used <= s.lengths[index as int]),
    ensures
        bytes_used > 0 ==> proxy_trace(
            s,
            seq![
                ProxyEventView::Dequeued { index, bytes_used },
                ProxyEventView::Done,
                ProxyEventView::Done,
            ],
        ) == (
            in_phase(s, ProxyPhase::CheckingRunning),
            seq![
                ProxyActionView::WriteFrame { index, length: bytes_used },
                ProxyActionView::QueueBuffer { index },
                ProxyActionView::CheckRunning,
            ],
        ),
        bytes_used == 0 ==> proxy_trace(
            s,
            seq![ProxyEventView::Dequeued { index, bytes_used }, ProxyEventView::Done],
        ) == (
            in_phase(s, ProxyPhase::CheckingRunning),
            seq![ProxyActionView::QueueBuffer { index }, ProxyActionView::CheckRunning],
        ),
{
    let e1 = ProxyEventView::Dequeued { index, bytes_used };
    let e2 = ProxyEventView::Done;
    let three = seq![e1, e2, e2];
    let two = seq![e1, e2];
    let one = seq![e1];
    assert(three.drop_last() =~= two);
    assert(two.drop_last() =~= one);
    assert(one.drop_last() =~= Seq::<ProxyEventView>::empty());
    reveal_with_fuel(proxy_trace, 4);
    assert(proxy_trace(s, one).1 =~= seq![proxy_step(s, e1).1]);
    if bytes_used > 0 {
        assert(proxy_trace(s, three).1 =~= seq![
            ProxyActionView::WriteFrame { index, length: bytes_used },
            ProxyActionView::QueueBuffer { index },
            ProxyActionView::CheckRunning,
        ]);
    } else {
        assert(proxy_trace(s, two).1 =~= seq![
            ProxyActionView::QueueBuffer { index },
            ProxyActionView::CheckRunning,
        ]);
    }
}

/// The session ends well only by being told to stop: success comes only
/// after streaming was stopped, which happens only when the answer to
/// "keep running?" was no.
pub proof fn lemma_success_only_on_stop(s: ProxyModel, e: ProxyEventView)
    requires
        proxy_wf(s),
        proxy_accepts(s, e),
    ensures
        proxy_step(s, e).1 == (ProxyActionView::Finish { result: Ok(()) }) ==> s.phase
            == ProxyPhase::StoppingStream,
        proxy_step(s, e).0.phase == ProxyPhase::StoppingStream ==> (s.phase
            == ProxyPhase::CheckingRunning && e == (ProxyEventView::Running { running: false })),
        proxy_step(s, e).1 is Poll ==> (s.phase == ProxyPhase::CheckingRunning && e == (
        ProxyEventView::Running { running: true })),
{
}

/// A poll that timed out or was interrupted only leads back to asking
/// whether to go on; a failed poll ends the session with its error.
pub proof fn lemma_poll_outcomes(s: ProxyModel, detail: Seq<char>)
    requires
        proxy_wf(s),
        s.phase == ProxyPhase::Polling,
    ensures
        proxy_step(s, ProxyEventView::PollTimedOut) == check_running(s),
        proxy_step(s, ProxyEventView::PollInterrupted) == check_running(s),
        proxy_step(s, ProxyEventView::PollReady).1 == ProxyActionView::Dequeue,
        proxy_step(s, ProxyEventView::Failed { detail }) == fail(s, "Error poll: "@ + detail),
{
}

/// The output gets exactly the format of the input, and frames are set up
/// only when the output took it unchanged; a frame rate that could not be
/// set is only a warning; streaming starts only once every buffer was mapped
/// and queued.
pub proof fn lemma_setup_guards(s: ProxyModel, e: ProxyEventView)
    requires
        proxy_wf(s),
        proxy_accepts(s, e),
    ensures
        proxy_step(s, e).1 matches ProxyActionView::SetOutputFormat { format } ==> format
            == s.source,
        proxy_step(s, e).1 is RequestBuffers ==> e == (ProxyEventView::FormatSet {
            format: s.source,
        }),
        s.phase == ProxyPhase::SettingFrameRate ==> proxy_step(s, e).0.phase
            == ProxyPhase::ReportingFrameRate,
        proxy_step(s, e).1 is StreamOn ==> (s.phase == (ProxyPhase::QueueingBuffer {
            index: (buffer_count() - 1) as u32,
        }) && s.lengths.len() == buffer_count()),
        proxy_wf(proxy_step(s, e).0),
{
}

/// A stop ends well: once told not to keep running, the session turns
/// streaming off, and whatever the stream-off answers, it ends with success.
pub proof fn lemma_stop_ends_well(s: ProxyModel, e: ProxyEventView)
    requires
        proxy_wf(s),
        s.phase == ProxyPhase::CheckingRunning,
        e is Done || e is Failed,
    ensures
        proxy_trace(s, seq![ProxyEventView::Running { running: false }, e]) == (
            in_phase(s, ProxyPhase::Finished),
            seq![ProxyActionView::StreamOff, ProxyActionView::Finish { result: Ok(()) }],
        ),
{
    let one = seq![ProxyEventView::Running { running: false }];
    let two = seq![ProxyEventView::Running { running: false }, e];
    assert(two.drop_last() =~= one);
    assert(one.drop_last() =~= Seq::<ProxyEventView>::empty());
    reveal_with_fuel(proxy_trace, 3);
    assert(proxy_trace(s, two).1 =~= seq![
        ProxyActionView::StreamOff,
        ProxyActionView::Finish { result: Ok(()) },
    ]);
}

/// Every answer to the stream-off, done or failed, ends the session with
/// success.
pub proof fn lemma_stream_off_answer_is_success(s: ProxyModel, e: ProxyEventView)
    requires
        proxy_wf(s),
        s.phase == ProxyPhase::StoppingStream,
        proxy_accepts(s, e),
    ensures
        proxy_step(s, e).1 == (ProxyActionView::Finish { result: Ok(()) }),
        proxy_step(s, e).0.phase == ProxyPhase::Finished,
{
}

/// Whatever format was negotiated, an output that takes exactly that format
/// leads on to requesting the four capture buffers.
pub proof fn lemma_output_taking_source_proceeds(s: ProxyModel)
    requires
        proxy_wf(s),
        s.phase == ProxyPhase::SettingOutputFormat,
    ensures
        proxy_step(s, ProxyEventView::FormatSet { format: s.source }) == (
            in_phase(s, ProxyPhase::RequestingBuffers),
            ProxyActionView::RequestBuffers { count: 4 },
        ),
{
}

/// Whichever capture format the device confirmed, the output is then asked
/// for that same format, and when it takes it, the buffers are requested.
pub proof fn lemma_confirmed_format_reaches_buffers(s: ProxyModel, k: nat)
    requires
        proxy_wf(s),
        s.phase == (ProxyPhase::SettingInputFormat { candidate: k as usize }),
        k < candidate_count(),
    ensures
        ({
            let f = candidate(k as int);
            proxy_trace(
                s,
                seq![
                    ProxyEventView::FormatSet { format: f },
                    ProxyEventView::Done,
                    ProxyEventView::Done,
                    ProxyEventView::Done,
                    ProxyEventView::Done,
                    ProxyEventView::FormatSet { format: f },
                ],
            ).1 == seq![
                ProxyActionView::Print { line: input_format_line(f) },
                ProxyActionView::SetFrameRate { parameters: frame_rate_parameters(30) },
                ProxyActionView::Print { line: frame_rate_line(30) },
                ProxyActionView::OpenOutput { path: s.output_path },
                ProxyActionView::SetOutputFormat { format: f },
                ProxyActionView::RequestBuffers { count: 4 },
            ]
        }),
{
    let f = candidate(k as int);
    let e1 = ProxyEventView::FormatSet { format: f };
    let d = ProxyEventView::Done;
    let evs = seq![e1, d, d, d, d, e1];
    assert(evs.drop_last() =~= seq![e1, d, d, d, d]);
    assert(seq![e1, d, d, d, d].drop_last() =~= seq![e1, d, d, d]);
    assert(seq![e1, d, d, d].drop_last() =~= seq![e1, d, d]);
    assert(seq![e1, d, d].drop_last() =~= seq![e1, d]);
    assert(seq![e1, d].drop_last() =~= seq![e1]);
    assert(seq![e1].drop_last() =~= Seq::<ProxyEventView>::empty());
    reveal_with_fuel(proxy_trace, 7);
    assert(proxy_trace(s, evs).1 =~= seq![
        ProxyActionView::Print { line: input_format_line(f) },
        ProxyActionView::SetFrameRate { parameters: frame_rate_parameters(30) },
        ProxyActionView::Print { line: frame_rate_line(30) },
        ProxyActionView::OpenOutput { path: s.output_path },
        ProxyActionView::SetOutputFormat { format: f },
        ProxyActionView::RequestBuffers { count: 4 },
    ]);
}

} // verus!
