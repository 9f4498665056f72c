use neon::bridge::looking_glass::{
    plan_launch, render_command_args, LaunchStep, LookingGlassHandle, LookingGlassSpec,
    DEFAULT_DEVICE_PATH,
};
use neon::error::ErrorCategory;

#[test]
fn defaults_match_apple_ux_choices() {
    let s = LookingGlassSpec::defaults();
    assert_eq!(s.device_path, DEFAULT_DEVICE_PATH.to_string());
    assert!(s.fullscreen);
    assert!(s.cursor_grab);
    assert!(s.audio);
    assert!(!s.hdr_passthrough, "HDR off-by-default per V3 plan");
}

#[test]
fn render_args_includes_shm_file_path() {
    let spec = LookingGlassSpec {
        device_path: String::from("/dev/kvmfr0"),
        ..LookingGlassSpec::defaults()
    };
    let args = render_command_args(&spec);
    assert!(args.iter().any(|a| a.contains("shmFile=/dev/kvmfr0")));
}

#[test]
fn render_args_emits_fullscreen_yes_no() {
    let on = render_command_args(&LookingGlassSpec {
        fullscreen: true,
        ..LookingGlassSpec::defaults()
    });
    let off = render_command_args(&LookingGlassSpec {
        fullscreen: false,
        ..LookingGlassSpec::defaults()
    });
    assert!(on.iter().any(|a| a.contains("fullScreen=yes")));
    assert!(off.iter().any(|a| a.contains("fullScreen=no")));
}

#[test]
fn render_args_omits_hdr_flag_when_off() {
    let off = render_command_args(&LookingGlassSpec {
        hdr_passthrough: false,
        ..LookingGlassSpec::defaults()
    });
    assert!(!off.iter().any(|a| a.contains("hdr=")));
}

#[test]
fn render_args_includes_hdr_flag_when_on() {
    let on = render_command_args(&LookingGlassSpec {
        hdr_passthrough: true,
        ..LookingGlassSpec::defaults()
    });
    assert!(on.iter().any(|a| a.contains("hdr=yes")));
}

#[test]
fn render_args_audio_default_allow_when_on() {
    let on = render_command_args(&LookingGlassSpec {
        audio: true,
        ..LookingGlassSpec::defaults()
    });
    assert!(on.iter().any(|a| a.contains("micDefault=allow")));
    let off = render_command_args(&LookingGlassSpec {
        audio: false,
        ..LookingGlassSpec::defaults()
    });
    assert!(off.iter().any(|a| a.contains("micDefault=deny")));
}

#[test]
fn render_args_grab_keyboard_only_when_cursor_grab_on() {
    let on = render_command_args(&LookingGlassSpec {
        cursor_grab: true,
        ..LookingGlassSpec::defaults()
    });
    assert!(on.iter().any(|a| a.contains("grabKeyboard=yes")));
    let off = render_command_args(&LookingGlassSpec {
        cursor_grab: false,
        ..LookingGlassSpec::defaults()
    });
    assert!(!off.iter().any(|a| a.contains("grabKeyboard=")));
}

#[test]
fn handle_mock_drop_does_not_panic() {
    let h = LookingGlassHandle::mock();
    assert!(h.is_mock());
    assert!(h.log_path().is_none());
    drop(h);
}

#[test]
fn handle_pid_and_log_path_accessors_round_trip() {
    let h = LookingGlassHandle::started(1234, Some("/var/log/x".to_string()));
    assert_eq!(h.pid(), Some(1234));
    assert_eq!(h.log_path(), Some("/var/log/x"));
    std::mem::forget(h);
}

#[test]
fn default_args_are_the_full_vector_in_order() {
    assert_eq!(
        render_command_args(&LookingGlassSpec::default()),
        vec![
            "app:shmFile=/dev/kvmfr0",
            "win:fullScreen=yes",
            "input:grabKeyboard=yes",
            "input:grabKeyboardOnFocus=yes",
            "audio:micDefault=allow",
        ]
    );
    let minimal = LookingGlassSpec {
        device_path: "/dev/kvmfr1".to_string(),
        fullscreen: false,
        cursor_grab: false,
        audio: false,
        hdr_passthrough: true,
    };
    assert_eq!(
        render_command_args(&minimal),
        vec!["app:shmFile=/dev/kvmfr1", "win:fullScreen=no", "audio:micDefault=deny", "win:hdr=yes"]
    );
}

#[test]
fn only_real_handles_are_terminated() {
    assert_eq!(LookingGlassHandle::mock().termination_target(), None);
    assert_eq!(LookingGlassHandle::started(77, None).termination_target(), Some(77));
    assert_eq!(LookingGlassHandle::started(77, None).pid(), Some(77));
    assert!(!LookingGlassHandle::started(77, None).is_mock());
}

#[test]
fn launch_plan_in_noop_mode_is_a_mock() {
    let spec = LookingGlassSpec::defaults();
    assert!(matches!(plan_launch(&spec, true, false, false, "modprobe kvmfr"), LaunchStep::Mock));
}

#[test]
fn launch_plan_reports_missing_device_first() {
    let spec = LookingGlassSpec { device_path: "/tmp/no-such-kvmfr".into(), ..LookingGlassSpec::defaults() };
    match plan_launch(&spec, false, false, true, "modprobe kvmfr") {
        LaunchStep::Fail(e) => {
            assert_eq!(e.category, ErrorCategory::Other);
            assert_eq!(
                e.text(),
                "Looking Glass device path /tmp/no-such-kvmfr does not exist. Run `modprobe kvmfr` (sudo) and retry."
            );
            assert!(e.text().to_lowercase().contains("device"));
        }
        other => panic!("expected failure, got {other:?}"),
    }
}

#[test]
fn launch_plan_reports_missing_client() {
    let spec = LookingGlassSpec::defaults();
    match plan_launch(&spec, false, true, false, "modprobe kvmfr") {
        LaunchStep::Fail(e) => assert!(e.text().starts_with("looking-glass-client not found on PATH.")),
        other => panic!("expected failure, got {other:?}"),
    }
}

#[test]
fn launch_plan_spawns_found_client_with_rendered_args() {
    let spec = LookingGlassSpec::defaults();
    match plan_launch(&spec, false, true, true, "x") {
        LaunchStep::Spawn { args } => {
            assert_eq!(args, render_command_args(&spec));
        }
        other => panic!("expected spawn, got {other:?}"),
    }
}
