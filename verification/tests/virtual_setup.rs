use webcam_proxy::virtual_camera::{modprobe_args, SetupAction, SetupEvent, VirtualCameraSetup};

fn s(text: &str) -> String {
    text.to_string()
}

fn check(path: &str) -> SetupAction {
    SetupAction::CheckPath { path: s(path) }
}

fn present(yes: bool) -> SetupEvent {
    SetupEvent::PathChecked { exists: yes }
}

fn args() -> Vec<String> {
    vec![
        s("v4l2loopback"),
        s("video_nr=62"),
        s("card_label=webcam_proxy"),
        s("exclusive_caps=1"),
    ]
}

fn modprobe(program: &str) -> SetupAction {
    SetupAction::RunModprobe { program: s(program), args: args() }
}

fn sudo(program: &str) -> SetupAction {
    SetupAction::RunSudoModprobe { program: s(program), args: args() }
}

fn ran(success: bool, stderr: &str) -> SetupEvent {
    SetupEvent::CommandRan { success, stderr: s(stderr) }
}

fn step(m: &mut VirtualCameraSetup, e: SetupEvent) -> SetupAction {
    assert!(m.accepts(&e), "event {:?} not expected", e);
    m.step(e)
}

const ADD: &str = "/sys/devices/virtual/video4linux/v4l2loopback/add";

#[test]
fn modprobe_arguments() {
    assert_eq!(modprobe_args(62), args());
    assert_eq!(modprobe_args(10)[1], "video_nr=10");
}

#[test]
fn existing_device_is_used_as_is() {
    let (mut m, first) = VirtualCameraSetup::new();
    assert_eq!(first, check("/dev/video62"));
    assert_eq!(step(&mut m, present(true)), SetupAction::Finish { result: Ok(()) });
    assert!(m.is_finished());
    assert!(!m.accepts(&present(true)));
}

#[test]
fn device_from_output_path() {
    let (mut m, first) = VirtualCameraSetup::for_device("/dev/video10").unwrap();
    assert_eq!(first, check("/dev/video10"));
    assert_eq!(step(&mut m, present(false)), check("/sys/module/v4l2loopback"));
    assert_eq!(
        step(&mut m, present(false)),
        SetupAction::RunModprobe {
            program: s("modprobe"),
            args: vec![
                s("v4l2loopback"),
                s("video_nr=10"),
                s("card_label=webcam_proxy"),
                s("exclusive_caps=1"),
            ],
        }
    );
    assert!(VirtualCameraSetup::for_device("/dev/videoX").is_none());
    assert!(VirtualCameraSetup::for_device("/dev/video").is_none());
}

#[test]
fn loaded_module_adds_through_sysfs() {
    let (mut m, _) = VirtualCameraSetup::new();
    assert_eq!(step(&mut m, present(false)), check("/sys/module/v4l2loopback"));
    assert_eq!(step(&mut m, present(true)), check(ADD));
    assert_eq!(
        step(&mut m, present(true)),
        SetupAction::WriteFile { path: s(ADD), contents: s("62") }
    );
    assert_eq!(step(&mut m, SetupEvent::Written { result: Ok(()) }), check("/dev/video62"));
    assert_eq!(step(&mut m, present(false)), SetupAction::Sleep { millis: 100 });
    assert_eq!(step(&mut m, SetupEvent::Slept), check("/dev/video62"));
    assert_eq!(step(&mut m, present(true)), SetupAction::Finish { result: Ok(()) });
}

#[test]
fn sysfs_write_is_retried_with_a_newline() {
    let (mut m, _) = VirtualCameraSetup::new();
    step(&mut m, present(false));
    step(&mut m, present(true));
    step(&mut m, present(true));
    assert_eq!(
        step(&mut m, SetupEvent::Written { result: Err(s("Invalid argument (os error 22)")) }),
        SetupAction::WriteFile { path: s(ADD), contents: s("62\n") }
    );
    assert_eq!(
        step(&mut m, SetupEvent::Written { result: Err(s("Permission denied (os error 13)")) }),
        SetupAction::Finish {
            result: Err(s(
                "Error escribiendo /sys/devices/virtual/video4linux/v4l2loopback/add: Permission denied (os error 13)"
            )),
        }
    );
}

#[test]
fn missing_sysfs_control_file() {
    let (mut m, _) = VirtualCameraSetup::new();
    step(&mut m, present(false));
    step(&mut m, present(true));
    assert_eq!(
        step(&mut m, present(false)),
        SetupAction::Finish {
            result: Err(s(
                "v4l2loopback cargado pero no expone sysfs add. Recarga el módulo:\n  sudo modprobe -r v4l2loopback && sudo modprobe v4l2loopback video_nr=62 card_label=webcam_proxy exclusive_caps=1"
            )),
        }
    );
}

#[test]
fn device_that_never_appears_after_sysfs() {
    let (mut m, _) = VirtualCameraSetup::new();
    step(&mut m, present(false));
    step(&mut m, present(true));
    step(&mut m, present(true));
    assert_eq!(step(&mut m, SetupEvent::Written { result: Ok(()) }), check("/dev/video62"));
    for i in 0..10 {
        assert_eq!(step(&mut m, present(false)), SetupAction::Sleep { millis: 100 });
        let next = step(&mut m, SetupEvent::Slept);
        if i < 9 {
            assert_eq!(next, check("/dev/video62"));
        } else {
            assert_eq!(
                next,
                SetupAction::Finish {
                    result: Err(s(
                        "sysfs add ok pero /dev/video62 no apareció. Prueba recargar el módulo:\n  sudo modprobe -r v4l2loopback && sudo modprobe v4l2loopback video_nr=62 card_label=webcam_proxy exclusive_caps=1"
                    )),
                }
            );
        }
    }
    assert!(m.is_finished());
}

#[test]
fn modprobe_success_then_device_appears() {
    let (mut m, _) = VirtualCameraSetup::new();
    step(&mut m, present(false));
    assert_eq!(step(&mut m, present(false)), modprobe("modprobe"));
    assert_eq!(step(&mut m, ran(true, "")), check("/dev/video62"));
    assert_eq!(step(&mut m, present(true)), SetupAction::Finish { result: Ok(()) });
}

#[test]
fn modprobe_device_never_appears() {
    let (mut m, _) = VirtualCameraSetup::new();
    step(&mut m, present(false));
    step(&mut m, present(false));
    step(&mut m, ran(true, ""));
    let mut last = None;
    for _ in 0..10 {
        step(&mut m, present(false));
        last = Some(step(&mut m, SetupEvent::Slept));
    }
    assert_eq!(
        last.unwrap(),
        SetupAction::Finish {
            result: Err(s(
                "modprobe se ejecutó pero /dev/video62 no apareció. Verifica que el módulo v4l2loopback esté instalado:\n  sudo modprobe v4l2loopback video_nr=62 card_label=webcam_proxy exclusive_caps=1"
            )),
        }
    );
}

#[test]
fn every_modprobe_fails_without_permission_problem() {
    let (mut m, _) = VirtualCameraSetup::new();
    step(&mut m, present(false));
    step(&mut m, present(false));
    assert_eq!(
        step(&mut m, SetupEvent::CommandFailed { error: s("No such file or directory (os error 2)") }),
        modprobe("/sbin/modprobe")
    );
    assert_eq!(step(&mut m, ran(false, "modprobe: FATAL: Module x not found\n")), modprobe("/usr/sbin/modprobe"));
    assert_eq!(
        step(&mut m, SetupEvent::CommandFailed { error: s("No such file or directory (os error 2)") }),
        SetupAction::Finish {
            result: Err(s(
                "No se pudo cargar v4l2loopback (/usr/sbin/modprobe: No such file or directory (os error 2)). Prueba manualmente:\n  sudo modprobe v4l2loopback video_nr=62 card_label=webcam_proxy exclusive_caps=1"
            )),
        }
    );
}

#[test]
fn last_error_output_is_trimmed() {
    let (mut m, _) = VirtualCameraSetup::new();
    step(&mut m, present(false));
    step(&mut m, present(false));
    step(&mut m, ran(false, "a"));
    step(&mut m, ran(false, "b"));
    assert_eq!(
        step(&mut m, ran(false, "  modprobe: FATAL: Module v4l2loopback not found.\n")),
        SetupAction::Finish {
            result: Err(s(
                "No se pudo cargar v4l2loopback (modprobe: FATAL: Module v4l2loopback not found.). Prueba manualmente:\n  sudo modprobe v4l2loopback video_nr=62 card_label=webcam_proxy exclusive_caps=1"
            )),
        }
    );
}

#[test]
fn permission_problem_leads_to_sudo() {
    let (mut m, _) = VirtualCameraSetup::new();
    step(&mut m, present(false));
    step(&mut m, present(false));
    let denied = "modprobe: ERROR: could not insert 'v4l2loopback': Operation not permitted\n";
    assert_eq!(step(&mut m, ran(false, denied)), modprobe("/sbin/modprobe"));
    assert_eq!(step(&mut m, ran(false, "other")), modprobe("/usr/sbin/modprobe"));
    assert_eq!(
        step(&mut m, SetupEvent::CommandFailed { error: s("gone") }),
        SetupAction::Warn { message: s("se necesita sudo para cargar el módulo v4l2loopback.") }
    );
    assert_eq!(step(&mut m, SetupEvent::Warned), sudo("modprobe"));
    assert_eq!(step(&mut m, ran(false, "")), sudo("/sbin/modprobe"));
    assert_eq!(step(&mut m, ran(true, "")), check("/dev/video62"));
    assert_eq!(step(&mut m, present(true)), SetupAction::Finish { result: Ok(()) });
}

#[test]
fn sudo_failures() {
    let start = |m: &mut VirtualCameraSetup| {
        step(m, present(false));
        step(m, present(false));
        step(m, ran(false, "Operation not permitted"));
        step(m, ran(false, ""));
        step(m, ran(false, ""));
        step(m, SetupEvent::Warned);
    };
    let (mut m, _) = VirtualCameraSetup::new();
    start(&mut m);
    step(&mut m, ran(false, ""));
    step(&mut m, ran(false, ""));
    assert_eq!(
        step(&mut m, ran(false, "")),
        SetupAction::Finish { result: Err(s("sudo no pudo cargar v4l2loopback.")) }
    );
    let (mut m, _) = VirtualCameraSetup::new();
    start(&mut m);
    assert_eq!(
        step(&mut m, SetupEvent::CommandFailed { error: s("No such file or directory (os error 2)") }),
        SetupAction::Finish {
            result: Err(s("Error ejecutando sudo: No such file or directory (os error 2)")),
        }
    );
}

#[test]
fn unexpected_answers_are_refused() {
    let (m, _) = VirtualCameraSetup::new();
    assert!(!m.accepts(&SetupEvent::Slept));
    assert!(!m.accepts(&ran(true, "")));
    assert!(m.accepts(&present(false)));
}
