use flip_companion::commands::{parse_direction, select_app};
use flip_companion::compositor::{
    after_dispatch, apply_buffer_assignment, BufferAssignment, LoopStep,
    command_effect, content_position, key_event_from_evdev, shm_format_to_fourcc, BufferFourcc,
    CommandEffect, CompositorCommand, KeyEvent, RenderWaker, ShmFormat,
};
use flip_companion::config::{app_config_candidates, dirs_fallback, AppEntry};
use flip_companion::launcher::{launch_command, process_group_target, AppLauncher};
use flip_companion::lease::{
    check_connector_modes, check_lease_fd, check_lease_reply, check_lease_resources,
    drm_ioctl_version_nr, landscape_size, lease_socket_path, ControlHeader, LeaseError,
    LeaseLayoutError, DEFAULT_SOCKET_PATH,
};
use flip_companion::sysstats::{cpu_temp_sensor, is_charging_status, is_cpu_temp_label};
use flip_companion::text::str_contains;
use flip_companion::types::ShuttleDirection;

#[test]
fn directions_parse() {
    assert_eq!(parse_direction("up"), Some(ShuttleDirection::Up));
    assert_eq!(parse_direction("down"), Some(ShuttleDirection::Down));
    assert_eq!(parse_direction("Up"), None);
    assert_eq!(parse_direction(""), None);
}

fn entry(name: &str) -> AppEntry {
    AppEntry { name: name.into(), icon: String::new(), command: "true".into(), url: None }
}

#[test]
fn app_index_selection() {
    let apps = vec![entry("a"), entry("b")];
    assert_eq!(select_app(&apps, 0).unwrap().name, "a");
    assert_eq!(select_app(&apps, 1).unwrap().name, "b");
    assert!(select_app(&apps, 2).is_none());
    assert!(select_app(&apps, -1).is_none());
    assert!(select_app(&apps, i32::MIN).is_none());
}

#[test]
fn launcher_state_follows_spawn_close_and_exit() {
    let mut l = AppLauncher::new();
    assert!(!l.is_running());
    assert_eq!(l.running_name(), None);
    assert_eq!(l.take_running(), None);
    l.record_spawn("Browser", Some(42));
    assert!(l.is_running());
    assert_eq!(l.running_name(), Some("Browser"));
    assert_eq!(l.take_running(), Some((42, "Browser".to_string())));
    assert!(!l.is_running());
    assert_eq!(l.running_name(), None);
    l.record_spawn("Other", None);
    assert!(!l.is_running());
    l.record_spawn("Game", Some(7));
    l.on_exited();
    assert!(!l.is_running());
    assert_eq!(l.running_name(), None);
}

#[test]
fn launch_command_appends_nonempty_url() {
    assert_eq!(launch_command("firefox", Some("https://x.org")), "firefox https://x.org");
    assert_eq!(launch_command("firefox", Some("")), "firefox");
    assert_eq!(launch_command("firefox --kiosk", None), "firefox --kiosk");
}

#[test]
fn process_group_target_negates_pid() {
    assert_eq!(process_group_target(1234), -1234);
    assert_eq!(process_group_target(i32::MAX as u32), -i32::MAX);
    assert_eq!(process_group_target(0), 0);
    assert_eq!(process_group_target(u32::MAX), 1);
}

#[test]
fn lease_reply_checks() {
    let ok = ControlHeader { level: 1, kind: 1 };
    assert_eq!(check_lease_reply(1, Some(ok), 1, 1), Ok(()));
    assert_eq!(check_lease_reply(-1, Some(ok), 1, 1), Err(LeaseError::Recv));
    assert_eq!(check_lease_reply(0, Some(ok), 1, 1), Err(LeaseError::Closed));
    assert_eq!(check_lease_reply(1, None, 1, 1), Err(LeaseError::NoControlMessage));
    assert_eq!(
        check_lease_reply(1, Some(ControlHeader { level: 1, kind: 2 }), 1, 1),
        Err(LeaseError::UnexpectedControlMessage { level: 1, kind: 2 })
    );
    assert_eq!(check_lease_fd(9), Ok(9));
    assert_eq!(check_lease_fd(0), Ok(0));
    assert_eq!(check_lease_fd(-3), Err(LeaseError::InvalidFd { fd: -3 }));
}

#[test]
fn lease_socket_default() {
    assert_eq!(lease_socket_path(""), DEFAULT_SOCKET_PATH);
    assert_eq!(lease_socket_path("/run/x.sock"), "/run/x.sock");
}

#[test]
fn drm_version_ioctl_number() {
    assert_eq!(drm_ioctl_version_nr(64), 0xC040_6400);
    assert_eq!(drm_ioctl_version_nr(36), 0xC024_6400);
    // Size bits above the 64-bit word are lost, as in the shifted expression.
    assert_eq!(drm_ioctl_version_nr(1 << 50), 0xC000_6400);
    assert_eq!(drm_ioctl_version_nr(0x1_0000), 0x1_C000_6400);
}

#[test]
fn compositor_commands_and_keys() {
    assert_eq!(command_effect(&CompositorCommand::FrameDone), CommandEffect::MarkFramePresented);
    assert_eq!(command_effect(&CompositorCommand::CloseApp), CommandEffect::DropToplevel);
    assert_eq!(
        command_effect(&CompositorCommand::LaunchApp { command: "x".into(), url: None }),
        CommandEffect::Nothing
    );
    assert_eq!(key_event_from_evdev(1, 30, 1), Some(KeyEvent { keycode: 38, pressed: true }));
    assert_eq!(key_event_from_evdev(1, 30, 0), Some(KeyEvent { keycode: 38, pressed: false }));
    assert_eq!(key_event_from_evdev(1, 30, 2), None);
    assert_eq!(key_event_from_evdev(0, 30, 1), None);
    assert_eq!(content_position(10, 50, 0, 40), (10, 10));
    assert_eq!(shm_format_to_fourcc(ShmFormat::Argb8888), BufferFourcc::Argb8888);
    assert_eq!(shm_format_to_fourcc(ShmFormat::Xrgb8888), BufferFourcc::Xrgb8888);
    assert_eq!(shm_format_to_fourcc(ShmFormat::Other), BufferFourcc::Xrgb8888);
}

#[test]
fn render_waker_wakes_and_times_out() {
    let w = RenderWaker::new();
    w.wake();
    w.wait_timeout(std::time::Duration::from_millis(1));
    w.wake();
    w.wait_timeout(std::time::Duration::from_millis(1));
}

#[test]
fn config_search_order() {
    let explicit = app_config_candidates(&Some("/etc/apps.toml".into()), &Some("/home/u/.config/flip-companion".into()));
    assert_eq!(explicit, vec!["/etc/apps.toml".to_string()]);
    let both = app_config_candidates(&None, &Some("/home/u/.config/flip-companion".into()));
    assert_eq!(both, vec!["apps.toml".to_string(), "/home/u/.config/flip-companion/apps.toml".to_string()]);
    assert_eq!(app_config_candidates(&None, &None), vec!["apps.toml".to_string()]);
    assert_eq!(dirs_fallback(Some("/xdg"), Some("/home/u")).as_deref(), Some("/xdg/flip-companion"));
    assert_eq!(dirs_fallback(None, Some("/home/u")).as_deref(), Some("/home/u/.config/flip-companion"));
    assert_eq!(dirs_fallback(None, None), None);
    assert_eq!(dirs_fallback(Some("/xdg/"), None).as_deref(), Some("/xdg/flip-companion"));
    assert_eq!(dirs_fallback(Some(""), None).as_deref(), Some("flip-companion"));
    assert_eq!(dirs_fallback(None, Some("/")).as_deref(), Some("/.config/flip-companion"));
}

#[test]
fn sensor_and_battery_labels() {
    assert!(is_cpu_temp_label("Tctl"));
    assert!(is_cpu_temp_label("k10temp Tccd1"));
    assert!(!is_cpu_temp_label("amdgpu edge"));
    let labels = vec!["acpitz".to_string(), "k10temp Tctl".to_string(), "Tctl".to_string()];
    assert_eq!(cpu_temp_sensor(&labels), Some(1));
    assert_eq!(cpu_temp_sensor(&vec!["nvme".to_string()]), None);
    assert!(is_charging_status("Charging"));
    assert!(!is_charging_status("Discharging"));
    assert!(!is_charging_status("charging"));
    assert!(str_contains("abc", ""));
    assert!(!str_contains("", "a"));
}

#[test]
fn compositor_loop_step() {
    let mut presented = true;
    assert_eq!(
        after_dispatch(Some(false), &mut presented),
        LoopStep { drop_toplevel: true, fire_frame_callbacks: true }
    );
    assert!(!presented);
    assert_eq!(
        after_dispatch(Some(true), &mut presented),
        LoopStep { drop_toplevel: false, fire_frame_callbacks: false }
    );
    assert_eq!(
        after_dispatch(None, &mut presented),
        LoopStep { drop_toplevel: false, fire_frame_callbacks: false }
    );
}

#[test]
fn buffer_cache_releases_previous_buffer() {
    let mut cached: Option<u32> = None;
    assert_eq!(apply_buffer_assignment(&mut cached, BufferAssignment::NewBuffer(1)), None);
    assert_eq!(cached, Some(1));
    assert_eq!(apply_buffer_assignment(&mut cached, BufferAssignment::NewBuffer(2)), Some(1));
    assert_eq!(cached, Some(2));
    assert_eq!(apply_buffer_assignment(&mut cached, BufferAssignment::Removed), Some(2));
    assert_eq!(cached, None);
    assert_eq!(apply_buffer_assignment(&mut cached, BufferAssignment::Removed), None);
}

#[test]
fn lease_layout_checks() {
    assert_eq!(check_lease_resources(1, 1), Ok(()));
    assert_eq!(check_lease_resources(0, 1), Err(LeaseLayoutError::NoConnectorOrCrtc));
    assert_eq!(check_lease_resources(2, 0), Err(LeaseLayoutError::NoConnectorOrCrtc));
    assert_eq!(check_connector_modes(3), Ok(()));
    assert_eq!(check_connector_modes(0), Err(LeaseLayoutError::NoModes));
    assert_eq!(landscape_size(1080, 1620), (1620, 1080));
}
