//! Creation of the virtual output camera, a `v4l2loopback` device with a
//! fixed number, written as a state machine: the caller performs each action
//! (a file check, a write, a command, a sleep) and hands back what happened.

use vstd::prelude::*;

use crate::text::{
    contains, contains_text, decimal, push_char, push_decimal, trim, trimmed, video_device_number,
    video_device_path, video_node_path,
};

verus! {

// ---------------------------------------------------------------------------
// Fixed texts
// ---------------------------------------------------------------------------

/// The number of the virtual device: it is always `/dev/video62`, so its
/// uuid stays the same across restarts.
pub open spec fn default_video_nr() -> u32 {
    62
}

/// The directory that exists while the `v4l2loopback` module is loaded.
pub open spec fn module_dir_text() -> Seq<char> {
    "/sys/module/v4l2loopback"@
}

/// The control file through which a loaded `v4l2loopback` adds a device.
pub open spec fn sysfs_add_text() -> Seq<char> {
    "/sys/devices/virtual/video4linux/v4l2loopback/add"@
}

/// What a failed module load prints in its error output when it lacks
/// privileges.
pub open spec fn not_permitted_text() -> Seq<char> {
    "Operation not permitted"@
}

/// The number of `modprobe` programs tried, in order.
pub open spec fn modprobe_candidate_count() -> nat {
    3
}

/// The `i`-th `modprobe` program tried.
pub open spec fn modprobe_program_text(i: int) -> Seq<char> {
    if i == 0 {
        "modprobe"@
    } else if i == 1 {
        "/sbin/modprobe"@
    } else {
        "/usr/sbin/modprobe"@
    }
}

/// The arguments that load `v4l2loopback` with device number `nr`.
pub open spec fn modprobe_args_text(nr: u32) -> Seq<Seq<char>> {
    seq![
        "v4l2loopback"@,
        "video_nr="@ + decimal(nr as nat),
        "card_label=webcam_proxy"@,
        "exclusive_caps=1"@,
    ]
}

/// The command a user can run by hand to load the module.
pub open spec fn manual_command_text(nr: u32) -> Seq<char> {
    "sudo modprobe v4l2loopback video_nr="@ + decimal(nr as nat)
        + " card_label=webcam_proxy exclusive_caps=1"@
}

/// The commands a user can run by hand to reload the module.
pub open spec fn reload_command_text(nr: u32) -> Seq<char> {
    "sudo modprobe -r v4l2loopback && "@ + manual_command_text(nr)
}

/// The notice printed before `sudo` is tried.
pub open spec fn sudo_notice_text() -> Seq<char> {
    "se necesita sudo para cargar el módulo v4l2loopback."@
}

/// The error when `modprobe` ran but the device never appeared.
pub open spec fn modprobe_no_device_text(nr: u32) -> Seq<char> {
    "modprobe se ejecutó pero "@ + video_node_path(nr as nat)
        + " no apareció. Verifica que el módulo v4l2loopback esté instalado:\n  "@
        + manual_command_text(nr)
}

/// The error when the loaded module offers no sysfs control file.
pub open spec fn no_sysfs_add_text(nr: u32) -> Seq<char> {
    "v4l2loopback cargado pero no expone sysfs add. Recarga el módulo:\n  "@
        + reload_command_text(nr)
}

/// The error when writing the sysfs control file failed with `detail`.
pub open spec fn sysfs_write_error_text(detail: Seq<char>) -> Seq<char> {
    "Error escribiendo "@ + sysfs_add_text() + ": "@ + detail
}

/// The error when the sysfs write worked but the device never appeared.
pub open spec fn sysfs_no_device_text(nr: u32) -> Seq<char> {
    "sysfs add ok pero "@ + video_node_path(nr as nat) + " no apareció. Prueba recargar el módulo:\n  "@
        + reload_command_text(nr)
}

/// The error when `sudo` could not be started.
pub open spec fn sudo_spawn_error_text(detail: Seq<char>) -> Seq<char> {
    "Error ejecutando sudo: "@ + detail
}

/// The error when every `sudo modprobe` failed.
pub open spec fn sudo_failed_text() -> Seq<char> {
    "sudo no pudo cargar v4l2loopback."@
}

/// The error when every `modprobe` failed; `last_error` is what the last one
/// reported.
pub open spec fn modprobe_failed_text(nr: u32, last_error: Seq<char>) -> Seq<char> {
    "No se pudo cargar v4l2loopback ("@ + trimmed(last_error) + "). Prueba manualmente:\n  "@
        + manual_command_text(nr)
}

/// What is recorded of a `modprobe` program that could not be started.
pub open spec fn spawn_error_text(program: Seq<char>, detail: Seq<char>) -> Seq<char> {
    program + ": "@ + detail
}

/// How many times the device node is looked for after it was asked for.
pub open spec fn device_checks() -> u32 {
    10
}

/// The pause between two looks for the device node, in milliseconds.
pub open spec fn device_poll_millis() -> u64 {
    100
}

// ---------------------------------------------------------------------------
// Actions, events and the model
// ---------------------------------------------------------------------------

/// What the caller is asked to do next.
#[derive(Debug, PartialEq, Eq)]
pub enum SetupAction {
    /// Report whether `path` exists.
    CheckPath { path: String },
    /// Write `contents` to the sysfs control file `path`.
    WriteFile { path: String, contents: String },
    /// Run `program` with `args`, capturing its output.
    RunModprobe { program: String, args: Vec<String> },
    /// Print `message` on the error output.
    Warn { message: String },
    /// Run `sudo program args`, letting it use the terminal.
    RunSudoModprobe { program: String, args: Vec<String> },
    /// Wait `millis` milliseconds.
    Sleep { millis: u64 },
    /// Stop: the device is there, or it could not be created.
    Finish { result: Result<(), String> },
}

/// What happened when the caller performed the last action.
#[derive(Debug, PartialEq, Eq)]
pub enum SetupEvent {
    /// The answer to `CheckPath`.
    PathChecked { exists: bool },
    /// The outcome of `WriteFile`; an error carries its description.
    Written { result: Result<(), String> },
    /// A command ran; `stderr` is its error output.
    CommandRan { success: bool, stderr: String },
    /// A command could not be started; `error` describes why.
    CommandFailed { error: String },
    /// The warning was printed.
    Warned,
    /// The sleep is over.
    Slept,
}

/// An action in terms of text.
pub ghost enum SetupActionView {
    CheckPath { path: Seq<char> },
    WriteFile { path: Seq<char>, contents: Seq<char> },
    RunModprobe { program: Seq<char>, args: Seq<Seq<char>> },
    Warn { message: Seq<char> },
    RunSudoModprobe { program: Seq<char>, args: Seq<Seq<char>> },
    Sleep { millis: u64 },
    Finish { result: Result<(), Seq<char>> },
}

/// An event in terms of text.
pub ghost enum SetupEventView {
    PathChecked { exists: bool },
    Written { result: Result<(), Seq<char>> },
    CommandRan { success: bool, stderr: Seq<char> },
    CommandFailed { error: Seq<char> },
    Warned,
    Slept,
}

/// The texts of a list of strings.
pub open spec fn texts(v: Seq<String>) -> Seq<Seq<char>> {
    v.map_values(|s: String| s@)
}

impl SetupAction {
    /// This action in terms of text.
    pub open spec fn view(&self) -> SetupActionView {
        match self {
            SetupAction::CheckPath { path } => SetupActionView::CheckPath { path: path@ },
            SetupAction::WriteFile { path, contents } => SetupActionView::WriteFile {
                path: path@,
                contents: contents@,
            },
            SetupAction::RunModprobe { program, args } => SetupActionView::RunModprobe {
                program: program@,
                args: texts(args@),
            },
            SetupAction::Warn { message } => SetupActionView::Warn { message: message@ },
            SetupAction::RunSudoModprobe { program, args } => SetupActionView::RunSudoModprobe {
                program: program@,
                args: texts(args@),
            },
            SetupAction::Sleep { millis } => SetupActionView::Sleep { millis: *millis },
            SetupAction::Finish { result } => SetupActionView::Finish {
                result: match result {
                    Ok(()) => Ok(()),
                    Err(e) => Err(e@),
                },
            },
        }
    }
}

impl SetupEvent {
    /// This event in terms of text.
    pub open spec fn view(&self) -> SetupEventView {
        match self {
            SetupEvent::PathChecked { exists } => SetupEventView::PathChecked { exists: *exists },
            SetupEvent::Written { result } => SetupEventView::Written {
                result: match result {
                    Ok(()) => Ok(()),
                    Err(e) => Err(e@),
                },
            },
            SetupEvent::CommandRan { success, stderr } => SetupEventView::CommandRan {
                success: *success,
                stderr: stderr@,
            },
            SetupEvent::CommandFailed { error } => SetupEventView::CommandFailed { error: error@ },
            SetupEvent::Warned => SetupEventView::Warned,
            SetupEvent::Slept => SetupEventView::Slept,
        }
    }
}

/// Where the set-up stands.
#[derive(Clone, Copy, Debug, PartialEq, Eq, Structural)]
pub enum SetupPhase {
    /// Waiting to learn whether the device node already exists.
    CheckingDevice,
    /// Waiting to learn whether the module is loaded.
    CheckingModule,
    /// Waiting to learn whether the sysfs control file exists.
    CheckingSysfsAdd,
    /// Waiting for a write to the control file; `retry` for the second one.
    WritingSysfsAdd { retry: bool },
    /// Waiting for the `candidate`-th `modprobe` program.
    Modprobe { candidate: usize },
    /// Waiting for the notice about `sudo` to be printed.
    WarningSudo,
    /// Waiting for the `candidate`-th `sudo modprobe`.
    SudoModprobe { candidate: usize },
    /// Waiting to learn whether the device node appeared; `checks` looks
    /// came before this one; `after_sysfs` tells which way it was asked for.
    WaitingForDevice { after_sysfs: bool, checks: u32 },
    /// Pausing after `checks` looks.
    Sleeping { after_sysfs: bool, checks: u32 },
    /// Done.
    Finished,
}

/// The state of the set-up in terms of text.
pub ghost struct SetupModel {
    pub video_nr: u32,
    pub phase: SetupPhase,
    pub permission_denied: bool,
    pub last_error: Seq<char>,
}

/// The states that the machine can be in.
pub open spec fn setup_wf(s: SetupModel) -> bool {
    &&& (s.phase is WarningSudo || s.phase is SudoModprobe) ==> s.permission_denied
    &&& match s.phase {
        SetupPhase::Modprobe { candidate } => candidate < modprobe_candidate_count(),
        SetupPhase::SudoModprobe { candidate } => candidate < modprobe_candidate_count(),
        SetupPhase::WaitingForDevice { checks, .. } => checks < device_checks(),
        SetupPhase::Sleeping { checks, .. } => 1 <= checks <= device_checks(),
        _ => true,
    }
}

/// The state before anything was done.
pub open spec fn setup_start(video_nr: u32) -> SetupModel {
    SetupModel {
        video_nr,
        phase: SetupPhase::CheckingDevice,
        permission_denied: false,
        last_error: seq![],
    }
}

/// Whether the machine, in phase `phase`, takes `e` as the answer to its
/// last action.
pub open spec fn setup_accepts(phase: SetupPhase, e: SetupEventView) -> bool {
    match phase {
        SetupPhase::CheckingDevice => e is PathChecked,
        SetupPhase::CheckingModule => e is PathChecked,
        SetupPhase::CheckingSysfsAdd => e is PathChecked,
        SetupPhase::WaitingForDevice { .. } => e is PathChecked,
        SetupPhase::WritingSysfsAdd { .. } => e is Written,
        SetupPhase::Modprobe { .. } => e is CommandRan || e is CommandFailed,
        SetupPhase::SudoModprobe { .. } => e is CommandRan || e is CommandFailed,
        SetupPhase::WarningSudo => e is Warned,
        SetupPhase::Sleeping { .. } => e is Slept,
        SetupPhase::Finished => false,
    }
}

/// `s` in phase `phase`.
pub open spec fn with_phase(s: SetupModel, phase: SetupPhase) -> SetupModel {
    SetupModel { phase, ..s }
}

/// Look at the device node again, after `checks` earlier looks.
pub open spec fn look_for_device(s: SetupModel, after_sysfs: bool, checks: u32) -> (
    SetupModel,
    SetupActionView,
) {
    (
        with_phase(s, SetupPhase::WaitingForDevice { after_sysfs, checks }),
        SetupActionView::CheckPath { path: video_node_path(s.video_nr as nat) },
    )
}

/// Stop with `result`.
pub open spec fn finish(s: SetupModel, result: Result<(), Seq<char>>) -> (
    SetupModel,
    SetupActionView,
) {
    (with_phase(s, SetupPhase::Finished), SetupActionView::Finish { result })
}

/// Run the `candidate`-th `modprobe` program.
pub open spec fn run_modprobe(s: SetupModel, candidate: usize) -> (SetupModel, SetupActionView) {
    (
        with_phase(s, SetupPhase::Modprobe { candidate }),
        SetupActionView::RunModprobe {
            program: modprobe_program_text(candidate as int),
            args: modprobe_args_text(s.video_nr),
        },
    )
}

/// Run the `candidate`-th `modprobe` program through `sudo`.
pub open spec fn run_sudo(s: SetupModel, candidate: usize) -> (SetupModel, SetupActionView) {
    (
        with_phase(s, SetupPhase::SudoModprobe { candidate }),
        SetupActionView::RunSudoModprobe {
            program: modprobe_program_text(candidate as int),
            args: modprobe_args_text(s.video_nr),
        },
    )
}

/// After the `candidate`-th `modprobe` failed: the next program; after the
/// last one, `sudo` where some attempt lacked privileges, else the error.
pub open spec fn after_modprobe_failure(s: SetupModel, candidate: usize) -> (
    SetupModel,
    SetupActionView,
) {
    if candidate + 1 < modprobe_candidate_count() {
        run_modprobe(s, (candidate + 1) as usize)
    } else if s.permission_denied {
        (
            with_phase(s, SetupPhase::WarningSudo),
            SetupActionView::Warn { message: sudo_notice_text() },
        )
    } else {
        finish(s, Err(modprobe_failed_text(s.video_nr, s.last_error)))
    }
}

/// One step of the set-up: the next state and the next action, given the
/// answer `e` to the last action.
pub open spec fn setup_step(s: SetupModel, e: SetupEventView) -> (SetupModel, SetupActionView) {
    match s.phase {
        SetupPhase::CheckingDevice => if e == (SetupEventView::PathChecked { exists: true }) {
            finish(s, Ok(()))
        } else {
            (
                with_phase(s, SetupPhase::CheckingModule),
                SetupActionView::CheckPath { path: module_dir_text() },
            )
        },
        SetupPhase::CheckingModule => if e == (SetupEventView::PathChecked { exists: true }) {
            (
                with_phase(s, SetupPhase::CheckingSysfsAdd),
                SetupActionView::CheckPath { path: sysfs_add_text() },
            )
        } else {
            run_modprobe(s, 0)
        },
        SetupPhase::CheckingSysfsAdd => if e == (SetupEventView::PathChecked { exists: true }) {
            (
                with_phase(s, SetupPhase::WritingSysfsAdd { retry: false }),
                SetupActionView::WriteFile {
                    path: sysfs_add_text(),
                    contents: decimal(s.video_nr as nat),
                },
            )
        } else {
            finish(s, Err(no_sysfs_add_text(s.video_nr)))
        },
        SetupPhase::WritingSysfsAdd { retry } => match e {
            SetupEventView::Written { result: Ok(()) } => look_for_device(s, true, 0),
            SetupEventView::Written { result: Err(detail) } => if !retry {
                (
                    with_phase(s, SetupPhase::WritingSysfsAdd { retry: true }),
                    SetupActionView::WriteFile {
                        path: sysfs_add_text(),
                        contents: decimal(s.video_nr as nat).push('\n'),
                    },
                )
            } else {
                finish(s, Err(sysfs_write_error_text(detail)))
            },
            _ => (s, SetupActionView::Sleep { millis: 0 }),
        },
        SetupPhase::Modprobe { candidate } => match e {
            SetupEventView::CommandRan { success, stderr } => if success {
                look_for_device(s, false, 0)
            } else {
                let s2 = SetupModel {
                    permission_denied: s.permission_denied || contains_text(
                        stderr,
                        not_permitted_text(),
                    ),
                    last_error: stderr,
                    ..s
                };
                after_modprobe_failure(s2, candidate)
            },
            SetupEventView::CommandFailed { error } => {
                let s2 = SetupModel {
                    last_error: spawn_error_text(modprobe_program_text(candidate as int), error),
                    ..s
                };
                after_modprobe_failure(s2, candidate)
            },
            _ => (s, SetupActionView::Sleep { millis: 0 }),
        },
        SetupPhase::WarningSudo => run_sudo(s, 0),
        SetupPhase::SudoModprobe { candidate } => match e {
            SetupEventView::CommandRan { success, .. } => if success {
                look_for_device(s, false, 0)
            } else if candidate + 1 < modprobe_candidate_count() {
                run_sudo(s, (candidate + 1) as usize)
            } else {
                finish(s, Err(sudo_failed_text()))
            },
            SetupEventView::CommandFailed { error } => finish(
                s,
                Err(sudo_spawn_error_text(error)),
            ),
            _ => (s, SetupActionView::Sleep { millis: 0 }),
        },
        SetupPhase::WaitingForDevice { after_sysfs, checks } => if e == (
        SetupEventView::PathChecked { exists: true }) {
            finish(s, Ok(()))
        } else {
            (
                with_phase(s, SetupPhase::Sleeping { after_sysfs, checks: (checks + 1) as u32 }),
                SetupActionView::Sleep { millis: device_poll_millis() },
            )
        },
        SetupPhase::Sleeping { after_sysfs, checks } => if checks < device_checks() {
            look_for_device(s, after_sysfs, checks)
        } else if after_sysfs {
            finish(s, Err(sysfs_no_device_text(s.video_nr)))
        } else {
            finish(s, Err(modprobe_no_device_text(s.video_nr)))
        },
        SetupPhase::Finished => (s, SetupActionView::Sleep { millis: 0 }),
    }
}


// ---------------------------------------------------------------------------
// Texts, built
// ---------------------------------------------------------------------------

/// The `i`-th `modprobe` program tried.
fn modprobe_program(i: usize) -> (r: String)
    ensures
        r@ == modprobe_program_text(i as int),
{
    if i == 0 {
        String::from_str("modprobe")
    } else if i == 1 {
        String::from_str("/sbin/modprobe")
    } else {
        String::from_str("/usr/sbin/modprobe")
    }
}

/// The arguments that load `v4l2loopback` with device number `nr`.
pub fn modprobe_args(nr: u32) -> (r: Vec<String>)
    ensures
        texts(r@) == modprobe_args_text(nr),
{
    let mut nr_arg = String::from_str("video_nr=");
    push_decimal(&mut nr_arg, nr);
    let mut v: Vec<String> = Vec::new();
    v.push(String::from_str("v4l2loopback"));
    v.push(nr_arg);
    v.push(String::from_str("card_label=webcam_proxy"));
    v.push(String::from_str("exclusive_caps=1"));
    assert(texts(v@) =~= modprobe_args_text(nr));
    v
}

/// The command a user can run by hand to load the module.
fn manual_command(nr: u32) -> (r: String)
    ensures
        r@ == manual_command_text(nr),
{
    let mut s = String::from_str("sudo modprobe v4l2loopback video_nr=");
    push_decimal(&mut s, nr);
    s.append(" card_label=webcam_proxy exclusive_caps=1");
    s
}

/// The commands a user can run by hand to reload the module.
fn reload_command(nr: u32) -> (r: String)
    ensures
        r@ == reload_command_text(nr),
{
    let mut s = String::from_str("sudo modprobe -r v4l2loopback && ");
    s.append(manual_command(nr).as_str());
    s
}

/// The error when `modprobe` ran but the device never appeared.
fn modprobe_no_device(nr: u32) -> (r: String)
    ensures
        r@ == modprobe_no_device_text(nr),
{
    let mut s = String::from_str("modprobe se ejecutó pero ");
    s.append(video_device_path(nr).as_str());
    s.append(" no apareció. Verifica que el módulo v4l2loopback esté instalado:\n  ");
    s.append(manual_command(nr).as_str());
    s
}

/// The error when the loaded module offers no sysfs control file.
fn no_sysfs_add(nr: u32) -> (r: String)
    ensures
        r@ == no_sysfs_add_text(nr),
{
    let mut s = String::from_str(
        "v4l2loopback cargado pero no expone sysfs add. Recarga el módulo:\n  ",
    );
    s.append(reload_command(nr).as_str());
    s
}

/// The error when writing the sysfs control file failed with `detail`.
fn sysfs_write_error(detail: &str) -> (r: String)
    ensures
        r@ == sysfs_write_error_text(detail@),
{
    let mut s = String::from_str("Error escribiendo ");
    s.append("/sys/devices/virtual/video4linux/v4l2loopback/add");
    s.append(": ");
    s.append(detail);
    s
}

/// The error when the sysfs write worked but the device never appeared.
fn sysfs_no_device(nr: u32) -> (r: String)
    ensures
        r@ == sysfs_no_device_text(nr),
{
    let mut s = String::from_str("sysfs add ok pero ");
    s.append(video_device_path(nr).as_str());
    s.append(" no apareció. Prueba recargar el módulo:\n  ");
    s.append(reload_command(nr).as_str());
    s
}

/// The error when `sudo` could not be started.
fn sudo_spawn_error(detail: &str) -> (r: String)
    ensures
        r@ == sudo_spawn_error_text(detail@),
{
    let mut s = String::from_str("Error ejecutando sudo: ");
    s.append(detail);
    s
}

/// The error when every `modprobe` failed.
fn modprobe_failed(nr: u32, last_error: &str) -> (r: String)
    ensures
        r@ == modprobe_failed_text(nr, last_error@),
{
    let mut s = String::from_str("No se pudo cargar v4l2loopback (");
    s.append(trim(last_error));
    s.append("). Prueba manualmente:\n  ");
    s.append(manual_command(nr).as_str());
    s
}

/// What is recorded of a `modprobe` program that could not be started.
fn spawn_error(candidate: usize, detail: &str) -> (r: String)
    ensures
        r@ == spawn_error_text(modprobe_program_text(candidate as int), detail@),
{
    let mut s = modprobe_program(candidate);
    s.append(": ");
    s.append(detail);
    s
}

// ---------------------------------------------------------------------------
// The machine
// ---------------------------------------------------------------------------

/// The set-up of the virtual output camera, in progress.
pub struct VirtualCameraSetup {
    video_nr: u32,
    phase: SetupPhase,
    permission_denied: bool,
    last_error: String,
}

impl VirtualCameraSetup {
    /// The state in terms of text.
    pub closed spec fn view(&self) -> SetupModel {
        SetupModel {
            video_nr: self.video_nr,
            phase: self.phase,
            permission_denied: self.permission_denied,
            last_error: self.last_error@,
        }
    }

    #[verifier::type_invariant]
    closed spec fn inv(&self) -> bool {
        setup_wf(self@)
    }

    /// Starts the set-up of `/dev/videoN` for device number `video_nr`; the
    /// first action looks for the device node.
    pub fn for_number(video_nr: u32) -> (r: (VirtualCameraSetup, SetupAction))
        ensures
            r.0@ == setup_start(video_nr),
            r.1@ == (SetupActionView::CheckPath { path: video_node_path(video_nr as nat) }),
    {
        let m = VirtualCameraSetup {
            video_nr,
            phase: SetupPhase::CheckingDevice,
            permission_denied: false,
            last_error: String::new(),
        };
        (m, SetupAction::CheckPath { path: video_device_path(video_nr) })
    }

    /// Starts the set-up of the fixed virtual camera, `/dev/video62`.
    pub fn new() -> (r: (VirtualCameraSetup, SetupAction))
        ensures
            r.0@ == setup_start(default_video_nr()),
            r.1@ == (SetupActionView::CheckPath {
                path: video_node_path(default_video_nr() as nat),
            }),
    {
        Self::for_number(62)
    }

    /// Starts the set-up of the device at `path`, which must be `/dev/videoN`;
    /// `None` for any other path.
    pub fn for_device(path: &str) -> (r: Option<(VirtualCameraSetup, SetupAction)>)
        ensures
            match r {
                Some((m, a)) => {
                    &&& path@ == video_node_path(m@.video_nr as nat)
                    &&& m@ == setup_start(m@.video_nr)
                    &&& a@ == (SetupActionView::CheckPath { path: path@ })
                },
                None => forall|n: u32| path@ != video_node_path(n as nat),
            },
    {
        match video_device_number(path) {
            Some(n) => Some(Self::for_number(n)),
            None => None,
        }
    }

    /// Whether the set-up is over.
    pub fn is_finished(&self) -> (r: bool)
        ensures
            r == (self@.phase == SetupPhase::Finished),
    {
        self.phase == SetupPhase::Finished
    }

    /// Whether `event` answers the last action.
    pub fn accepts(&self, event: &SetupEvent) -> (r: bool)
        ensures
            r == setup_accepts(self@.phase, event@),
    {
        match self.phase {
            SetupPhase::CheckingDevice | SetupPhase::CheckingModule
            | SetupPhase::CheckingSysfsAdd | SetupPhase::WaitingForDevice { .. } => {
                matches!(event, SetupEvent::PathChecked { .. })
            },
            SetupPhase::WritingSysfsAdd { .. } => matches!(event, SetupEvent::Written { .. }),
            SetupPhase::Modprobe { .. } | SetupPhase::SudoModprobe { .. } => {
                matches!(event, SetupEvent::CommandRan { .. } | SetupEvent::CommandFailed { .. })
            },
            SetupPhase::WarningSudo => matches!(event, SetupEvent::Warned),
            SetupPhase::Sleeping { .. } => matches!(event, SetupEvent::Slept),
            SetupPhase::Finished => false,
        }
    }

    /// Waits for the device node, after `checks` earlier looks.
    fn look_for_device(&mut self, after_sysfs: bool, checks: u32) -> (a: SetupAction)
        requires
            checks < device_checks(),
        ensures
            (final(self)@, a@) == look_for_device(old(self)@, after_sysfs, checks),
    {
        proof {
            use_type_invariant(&*self);
        }
        self.phase = SetupPhase::WaitingForDevice { after_sysfs, checks };
        SetupAction::CheckPath { path: video_device_path(self.video_nr) }
    }

    /// Stops with `result`.
    fn finish(&mut self, result: Result<(), String>) -> (a: SetupAction)
        ensures
            (final(self)@, a@) == finish(
                old(self)@,
                match result {
                    Ok(()) => Ok(()),
                    Err(e) => Err(e@),
                },
            ),
    {
        proof {
            use_type_invariant(&*self);
        }
        self.phase = SetupPhase::Finished;
        SetupAction::Finish { result }
    }

    /// Runs the `candidate`-th `modprobe` program.
    fn run_modprobe(&mut self, candidate: usize) -> (a: SetupAction)
        requires
            candidate < modprobe_candidate_count(),
        ensures
            (final(self)@, a@) == run_modprobe(old(self)@, candidate),
    {
        proof {
            use_type_invariant(&*self);
        }
        self.phase = SetupPhase::Modprobe { candidate };
        SetupAction::RunModprobe {
            program: modprobe_program(candidate),
            args: modprobe_args(self.video_nr),
        }
    }

    /// Runs the `candidate`-th `modprobe` program through `sudo`.
    fn run_sudo(&mut self, candidate: usize) -> (a: SetupAction)
        requires
            candidate < modprobe_candidate_count(),
            old(self)@.permission_denied,
        ensures
            (final(self)@, a@) == run_sudo(old(self)@, candidate),
    {
        proof {
            use_type_invariant(&*self);
        }
        self.phase = SetupPhase::SudoModprobe { candidate };
        SetupAction::RunSudoModprobe {
            program: modprobe_program(candidate),
            args: modprobe_args(self.video_nr),
        }
    }

    /// After the `candidate`-th `modprobe` failed.
    fn after_modprobe_failure(&mut self, candidate: usize) -> (a: SetupAction)
        requires
            candidate < modprobe_candidate_count(),
        ensures
            (final(self)@, a@) == after_modprobe_failure(old(self)@, candidate),
    {
        proof {
            use_type_invariant(&*self);
        }
        if candidate + 1 < 3 {
            self.run_modprobe(candidate + 1)
        } else if self.permission_denied {
            self.phase = SetupPhase::WarningSudo;
            SetupAction::Warn {
                message: String::from_str("se necesita sudo para cargar el módulo v4l2loopback."),
            }
        } else {
            let message = modprobe_failed(self.video_nr, self.last_error.as_str());
            self.finish(Err(message))
        }
    }

    /// Takes the answer to the last action and gives the next action.
    pub fn step(&mut self, event: SetupEvent) -> (a: SetupAction)
        requires
            setup_accepts(old(self)@.phase, event@),
        ensures
            (final(self)@, a@) == setup_step(old(self)@, event@),
    {
        proof {
            use_type_invariant(&*self);
        }
        match self.phase {
            SetupPhase::CheckingDevice => {
                if matches!(event, SetupEvent::PathChecked { exists: true }) {
                    self.finish(Ok(()))
                } else {
                    self.phase = SetupPhase::CheckingModule;
                    SetupAction::CheckPath { path: String::from_str("/sys/module/v4l2loopback") }
                }
            },
            SetupPhase::CheckingModule => {
                if matches!(event, SetupEvent::PathChecked { exists: true }) {
                    self.phase = SetupPhase::CheckingSysfsAdd;
                    SetupAction::CheckPath {
                        path: String::from_str("/sys/devices/virtual/video4linux/v4l2loopback/add"),
                    }
                } else {
                    self.run_modprobe(0)
                }
            },
            SetupPhase::CheckingSysfsAdd => {
                if matches!(event, SetupEvent::PathChecked { exists: true }) {
                    self.phase = SetupPhase::WritingSysfsAdd { retry: false };
                    let mut contents = String::new();
                    push_decimal(&mut contents, self.video_nr);
                    assert(contents@ =~= decimal(self.video_nr as nat));
                    SetupAction::WriteFile {
                        path: String::from_str("/sys/devices/virtual/video4linux/v4l2loopback/add"),
                        contents,
                    }
                } else {
                    let message = no_sysfs_add(self.video_nr);
                    self.finish(Err(message))
                }
            },
            SetupPhase::WritingSysfsAdd { retry } => match event {
                SetupEvent::Written { result: Ok(()) } => self.look_for_device(true, 0),
                SetupEvent::Written { result: Err(detail) } => {
                    if !retry {
                        self.phase = SetupPhase::WritingSysfsAdd { retry: true };
                        let mut contents = String::new();
                        push_decimal(&mut contents, self.video_nr);
                        push_char(&mut contents, '\n');
                        assert(contents@ =~= decimal(self.video_nr as nat).push('\n'));
                        SetupAction::WriteFile {
                            path: String::from_str(
                                "/sys/devices/virtual/video4linux/v4l2loopback/add",
                            ),
                            contents,
                        }
                    } else {
                        let message = sysfs_write_error(detail.as_str());
                        self.finish(Err(message))
                    }
                },
                _ => SetupAction::Sleep { millis: 0 },
            },
            SetupPhase::Modprobe { candidate } => match event {
                SetupEvent::CommandRan { success, stderr } => {
                    if success {
                        self.look_for_device(false, 0)
                    } else {
                        if contains(stderr.as_str(), "Operation not permitted") {
                            self.permission_denied = true;
                        }
                        self.last_error = stderr;
                        self.after_modprobe_failure(candidate)
                    }
                },
                SetupEvent::CommandFailed { error } => {
                    self.last_error = spawn_error(candidate, error.as_str());
                    self.after_modprobe_failure(candidate)
                },
                _ => SetupAction::Sleep { millis: 0 },
            },
            SetupPhase::WarningSudo => self.run_sudo(0),
            SetupPhase::SudoModprobe { candidate } => match event {
                SetupEvent::CommandRan { success, .. } => {
                    if success {
                        self.look_for_device(false, 0)
                    } else if candidate + 1 < 3 {
                        self.run_sudo(candidate + 1)
                    } else {
                        self.finish(Err(String::from_str("sudo no pudo cargar v4l2loopback.")))
                    }
                },
                SetupEvent::CommandFailed { error } => {
                    let message = sudo_spawn_error(error.as_str());
                    self.finish(Err(message))
                },
                _ => SetupAction::Sleep { millis: 0 },
            },
            SetupPhase::WaitingForDevice { after_sysfs, checks } => {
                if matches!(event, SetupEvent::PathChecked { exists: true }) {
                    self.finish(Ok(()))
                } else {
                    self.phase = SetupPhase::Sleeping { after_sysfs, checks: checks + 1 };
                    SetupAction::Sleep { millis: 100 }
                }
            },
            SetupPhase::Sleeping { after_sysfs, checks } => {
                if checks < 10 {
                    self.look_for_device(after_sysfs, checks)
                } else if after_sysfs {
                    let message = sysfs_no_device(self.video_nr);
                    self.finish(Err(message))
                } else {
                    let message = modprobe_no_device(self.video_nr);
                    self.finish(Err(message))
                }
            },
            SetupPhase::Finished => SetupAction::Sleep { millis: 0 },
        }
    }
}



// ---------------------------------------------------------------------------
// Laws
// ---------------------------------------------------------------------------

/// A measure of the work left; every step lowers it.
pub open spec fn setup_rank(s: SetupModel) -> nat {
    match s.phase {
        SetupPhase::CheckingDevice => 51,
        SetupPhase::CheckingModule => 50,
        SetupPhase::Modprobe { candidate } => (40 - candidate) as nat,
        SetupPhase::WarningSudo => 31,
        SetupPhase::SudoModprobe { candidate } => (30 - candidate) as nat,
        SetupPhase::CheckingSysfsAdd => 24,
        SetupPhase::WritingSysfsAdd { retry } => if retry {
            22
        } else {
            23
        },
        SetupPhase::WaitingForDevice { checks, .. } => (2 * (10 - checks) + 1) as nat,
        SetupPhase::Sleeping { checks, .. } => (2 * (10 - checks) + 2) as nat,
        SetupPhase::Finished => 0,
    }
}

/// If the device node already exists, the set-up stops at once with
/// success: nothing is created.
pub proof fn lemma_existing_device_is_kept(video_nr: u32)
    ensures
        setup_step(setup_start(video_nr), SetupEventView::PathChecked { exists: true }).1
            == (SetupActionView::Finish { result: Ok(()) }),
        setup_step(setup_start(video_nr), SetupEventView::PathChecked { exists: false }).1
            == (SetupActionView::CheckPath { path: module_dir_text() }),
{
}

/// The set-up reports success only right after the device node was seen to
/// exist.
pub proof fn lemma_success_means_device_seen(s: SetupModel, e: SetupEventView)
    requires
        setup_wf(s),
        setup_accepts(s.phase, e),
        setup_step(s, e).1 == (SetupActionView::Finish { result: Ok(()) }),
    ensures
        e == (SetupEventView::PathChecked { exists: true }),
        s.phase is CheckingDevice || s.phase is WaitingForDevice,
{
}

/// `sudo` is used only after a `modprobe` reported that it lacked
/// privileges: the flag that leads to it rises only on an error output that
/// holds "Operation not permitted", and the notice and the `sudo` commands
/// come only once it is up.
pub proof fn lemma_sudo_only_after_refusal(s: SetupModel, e: SetupEventView)
    requires
        setup_wf(s),
        setup_accepts(s.phase, e),
    ensures
        setup_step(s, e).0.permission_denied && !s.permission_denied ==> (e is CommandRan
            && contains_text(e->stderr, not_permitted_text())),
        s.permission_denied ==> setup_step(s, e).0.permission_denied,
        setup_step(s, e).1 is Warn ==> setup_step(s, e).0.permission_denied,
        setup_step(s, e).1 is RunSudoModprobe ==> s.permission_denied,
{
}

/// Every step keeps the machine in a valid state and lowers the work left,
/// so the set-up always ends; a finished set-up takes no more answers.
pub proof fn lemma_setup_ends(s: SetupModel, e: SetupEventView)
    requires
        setup_wf(s),
        setup_accepts(s.phase, e),
    ensures
        setup_wf(setup_step(s, e).0),
        setup_rank(setup_step(s, e).0) < setup_rank(s),
        !setup_accepts(SetupPhase::Finished, e),
{
}

/// Every step works on the same device: the number never changes, the only
/// paths looked at are the device node, the module directory and the sysfs
/// control file, every `modprobe` loads that number, and every pause is the
/// same short one.
pub proof fn lemma_same_device(s: SetupModel, e: SetupEventView)
    requires
        setup_wf(s),
        setup_accepts(s.phase, e),
    ensures
        setup_step(s, e).0.video_nr == s.video_nr,
        setup_step(s, e).1 matches SetupActionView::CheckPath { path } ==> (path
            == video_node_path(s.video_nr as nat) || path == module_dir_text() || path
            == sysfs_add_text()),
        setup_step(s, e).1 matches SetupActionView::RunModprobe { args, .. } ==> args
            == modprobe_args_text(s.video_nr),
        setup_step(s, e).1 matches SetupActionView::RunSudoModprobe { args, .. } ==> args
            == modprobe_args_text(s.video_nr),
        setup_step(s, e).1 matches SetupActionView::WriteFile { path, contents } ==> (path
            == sysfs_add_text() && (contents == decimal(s.video_nr as nat) || contents == decimal(
            s.video_nr as nat,
        ).push('\n'))),
        setup_step(s, e).1 matches SetupActionView::Sleep { millis } ==> millis
            == device_poll_millis(),
{
}

/// A write to the sysfs control file that succeeds, first time or on the
/// retry, leads to looking for the device node `/dev/videoN`.
pub proof fn lemma_sysfs_write_success_waits(s: SetupModel, retry: bool)
    requires
        setup_wf(s),
        s.phase == (SetupPhase::WritingSysfsAdd { retry }),
    ensures
        setup_step(s, SetupEventView::Written { result: Ok(()) }).1
            == (SetupActionView::CheckPath { path: "/dev/video"@ + decimal(s.video_nr as nat) }),
        setup_step(s, SetupEventView::Written { result: Ok(()) }).0.phase
            == (SetupPhase::WaitingForDevice { after_sysfs: true, checks: 0 }),
{
}

/// A `modprobe` that failed with "Operation not permitted" in its error
/// output, whichever program it was, marks the set-up as lacking privileges.
pub proof fn lemma_refusal_raises_flag(s: SetupModel, stderr: Seq<char>)
    requires
        setup_wf(s),
        s.phase is Modprobe,
        contains_text(stderr, "Operation not permitted"@),
    ensures
        setup_step(s, SetupEventView::CommandRan { success: false, stderr }).0.permission_denied,
{
}

/// When the last `modprobe` program fails and some attempt lacked
/// privileges, the user is told that `sudo` is needed and `sudo modprobe`
/// is run next, starting with the first program.
pub proof fn lemma_refusal_leads_to_sudo(s: SetupModel, e: SetupEventView)
    requires
        setup_wf(s),
        s.phase == (SetupPhase::Modprobe { candidate: 2 }),
        s.permission_denied || (e matches SetupEventView::CommandRan { success: false, stderr }
            && contains_text(stderr, "Operation not permitted"@)),
        e matches SetupEventView::CommandRan { success: false, .. } || e is CommandFailed,
    ensures
        setup_step(s, e).1 == (SetupActionView::Warn {
            message: "se necesita sudo para cargar el módulo v4l2loopback."@,
        }),
        setup_step(setup_step(s, e).0, SetupEventView::Warned).1
            == (SetupActionView::RunSudoModprobe {
            program: "modprobe"@,
            args: modprobe_args_text(s.video_nr),
        }),
{
}

} // verus!
