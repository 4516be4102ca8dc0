use papermind::config::{needs_setup, read_launcher_config, LauncherConfig, StoredConfig};
use papermind::handshake::{port_from_field, read_stderr_line, read_stdout_line};
use papermind::locator::{resolve_sidecar_path, ExeDir, LocateError, DEV_SIDECAR_PATH, SIDECAR_FILE_NAME};
use papermind::runtime::{save_config_and_start, update_config, RuntimeState};
use papermind::supervisor::{Action, Phase, Supervisor, DATA_DIR_VAR, ENV_FILE_VAR};

#[test]
fn never_written_store_needs_setup() {
    assert!(read_launcher_config(StoredConfig::Missing).is_none());
    assert!(needs_setup(&StoredConfig::Missing));
}

#[test]
fn malformed_or_unreadable_store_reads_absent() {
    assert!(read_launcher_config(StoredConfig::Malformed).is_none());
    assert!(read_launcher_config(StoredConfig::Unreadable).is_none());
    assert!(needs_setup(&StoredConfig::Malformed));
}

#[test]
fn present_store_reads_settings() {
    let stored = StoredConfig::Present(LauncherConfig::new("/d".to_string(), "/e".to_string()));
    assert!(!needs_setup(&stored));
    let c = read_launcher_config(stored).unwrap();
    assert_eq!(c.data_dir, "/d");
    assert_eq!(c.env_file, "/e");
}

#[test]
fn sidecar_beside_executable_wins() {
    let r = resolve_sidecar_path(
        ExeDir::Found { sidecar: "/app/papermind-server".to_string(), exists: true },
        DEV_SIDECAR_PATH.to_string(),
        true,
    );
    assert_eq!(r.ok(), Some("/app/papermind-server".to_string()));
}

#[test]
fn dev_sidecar_is_fallback() {
    let r = resolve_sidecar_path(
        ExeDir::Found { sidecar: "/app/papermind-server".to_string(), exists: false },
        DEV_SIDECAR_PATH.to_string(),
        true,
    );
    assert_eq!(r.ok(), Some("dist/papermind-server".to_string()));
}

#[test]
fn sidecar_not_found_names_both() {
    match resolve_sidecar_path(
        ExeDir::Found { sidecar: "/app/papermind-server".to_string(), exists: false },
        DEV_SIDECAR_PATH.to_string(),
        false,
    ) {
        Err(LocateError::NotFound { bundled, dev }) => {
            assert_eq!(bundled, "/app/papermind-server");
            assert_eq!(dev, "dist/papermind-server");
        }
        _ => panic!("expected not found"),
    }
}

#[test]
fn exe_dir_errors_stop_lookup() {
    match resolve_sidecar_path(ExeDir::CurrentExeFailed("gone".to_string()), DEV_SIDECAR_PATH.to_string(), true) {
        Err(LocateError::CurrentExe(m)) => assert_eq!(m, "gone"),
        _ => panic!("expected current exe failure"),
    }
    assert!(matches!(
        resolve_sidecar_path(ExeDir::NoParent, DEV_SIDECAR_PATH.to_string(), true),
        Err(LocateError::NoExecutableDir)
    ));
}

#[test]
fn names_of_worker_and_environment() {
    assert_eq!(SIDECAR_FILE_NAME, "papermind-server");
    assert_eq!(DEV_SIDECAR_PATH, "dist/papermind-server");
    assert_eq!(DATA_DIR_VAR, "PAPERMIND_DATA_DIR");
    assert_eq!(ENV_FILE_VAR, "PAPERMIND_ENV_FILE");
}

#[test]
fn lines_are_trimmed() {
    let r = read_stdout_line("  \tserver starting  \n");
    assert_eq!(r.text, "server starting");
    assert_eq!(r.port, None);
    assert_eq!(read_stderr_line("  warn: slow disk \r\n"), "warn: slow disk");
}

#[test]
fn port_line_is_read() {
    let r = read_stdout_line(" {\"port\": 5173} ");
    assert_eq!(r.text, "{\"port\": 5173}");
    assert_eq!(r.port, Some(5173));
    assert_eq!(read_stdout_line("{\"host\": \"x\"}").port, None);
    assert_eq!(read_stdout_line("not json").port, None);
    assert_eq!(read_stdout_line("{\"port\": 1.5}").port, None);
}

#[test]
fn port_field_low_bits() {
    assert_eq!(port_from_field(Some(8080)), Some(8080));
    assert_eq!(port_from_field(Some(65536)), Some(0));
    assert_eq!(port_from_field(Some(65535)), Some(65535));
    assert_eq!(port_from_field(None), None);
}

#[test]
fn update_config_keeps_written_settings() {
    let mut state = RuntimeState::new(None);
    let c = LauncherConfig::new("/d".to_string(), "/e".to_string());
    assert_eq!(update_config(&mut state, c, Ok(())), Ok(()));
    let got = state.get_launcher_config().unwrap();
    assert_eq!(got.data_dir, "/d");
    assert_eq!(got.env_file, "/e");
    let c2 = LauncherConfig::new("/d2".to_string(), "/e2".to_string());
    assert_eq!(update_config(&mut state, c2, Err("disk full".to_string())), Err("disk full".to_string()));
    assert_eq!(state.get_launcher_config().unwrap().data_dir, "/d");
}

#[test]
fn save_and_start_starts_after_write() {
    let mut state = RuntimeState::new(None);
    let mut sup = Supervisor::new();
    let c = LauncherConfig::new("/d".to_string(), "/e".to_string());
    let r = save_config_and_start(&mut state, &mut sup, c, Ok(()));
    assert!(matches!(r, Ok(Action::Locate)));
    assert_eq!(sup.phase, Phase::Spawning);
    assert_eq!(state.get_launcher_config().unwrap().env_file, "/e");
}

#[test]
fn save_and_start_stops_on_write_error() {
    let mut state = RuntimeState::new(None);
    let mut sup = Supervisor::new();
    let c = LauncherConfig::new("/d".to_string(), "/e".to_string());
    let r = save_config_and_start(&mut state, &mut sup, c, Err("read-only".to_string()));
    assert!(matches!(r, Err(ref m) if m == "read-only"));
    assert_eq!(sup.phase, Phase::Idle);
    assert!(state.get_launcher_config().is_none());
}
