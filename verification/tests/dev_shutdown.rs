use qol_cli::dev_shutdown::{
    daemon_group_is_owned, format_daemon_pids, is_host_executable, is_managed_executable,
    merge_current_daemons, sort_dedup_daemons, stop_existing_tray, tracked_pids_from_dir,
    DaemonObservation, ShutdownMethod, TrackedDaemonPid,
};

fn daemon(plugin_id: &str, pid: u32, executable: Option<&str>) -> TrackedDaemonPid {
    TrackedDaemonPid {
        plugin_id: plugin_id.to_string(),
        pid,
        executable: executable.map(str::to_string),
    }
}

fn daemons() -> Vec<TrackedDaemonPid> {
    vec![daemon("plugin-a", 111, None), daemon("plugin-z", 222, None)]
}

#[test]
fn dev_shutdown_format_daemon_pids_matches_shutdown_logs() {
    assert_eq!(format_daemon_pids(&daemons()), "plugin-a=111, plugin-z=222");
    assert_eq!(format_daemon_pids(&[]), "none");
}

#[test]
fn mod_format_daemon_pids_matches_shutdown_logs() {
    let daemons = daemons();
    assert_eq!(format_daemon_pids(&daemons), "plugin-a=111, plugin-z=222");
    assert_eq!(format_daemon_pids(&[]), "none");
}

fn keys(daemons: &[TrackedDaemonPid]) -> Vec<(String, u32, Option<String>)> {
    daemons
        .iter()
        .map(|d| (d.plugin_id.clone(), d.pid, d.executable.clone()))
        .collect()
}

#[test]
fn tracked_pids_from_dir_reads_valid_pid_files() {
    let entries = vec![
        ("plugin-z.pid".to_string(), "222".to_string()),
        ("plugin-a.pid".to_string(), "111\n".to_string()),
        ("plugin-b.pid".to_string(), "not a pid".to_string()),
        ("plugin-c.txt".to_string(), "333".to_string()),
        (".pid".to_string(), "444".to_string()),
    ];
    let daemons = tracked_pids_from_dir(&entries);
    assert_eq!(
        keys(&daemons),
        vec![
            ("plugin-a".to_string(), 111, None),
            ("plugin-z".to_string(), 222, None)
        ]
    );
}

#[test]
fn merging_sorts_by_plugin_and_pid_and_drops_repeats() {
    let mut known = vec![daemon("b", 2, None), daemon("a", 9, None)];
    merge_current_daemons(
        &mut known,
        vec![daemon("a", 3, None), daemon("b", 2, None), daemon("a", 9, Some("/x"))],
    );
    assert_eq!(
        keys(&known),
        vec![
            ("a".to_string(), 3, None),
            ("a".to_string(), 9, None),
            ("a".to_string(), 9, Some("/x".to_string())),
            ("b".to_string(), 2, None),
        ]
    );
    let again = sort_dedup_daemons(&known);
    assert_eq!(keys(&again), keys(&known), "merging is idempotent");
}

#[test]
fn host_executables_are_never_managed() {
    assert!(is_host_executable(Some("qol-tray")));
    assert!(is_host_executable(Some("qol-tray-doctor (deleted)")));
    assert!(!is_host_executable(Some("plugin-test")));
    assert!(!is_host_executable(None));
    assert!(!is_managed_executable(Some("qol"), true));
    assert!(is_managed_executable(Some("plugin-test"), true));
    assert!(!is_managed_executable(Some("sleep"), false));
}

#[test]
fn owned_groups_still_run_their_recorded_executable() {
    let seen = |running: Option<&str>, pid_alive, zombie| DaemonObservation {
        group_alive: true,
        recorded_managed: true,
        running: running.map(str::to_string),
        pid_alive,
        zombie,
    };
    let d = daemon("a", 1, Some("/ws/target/debug/plugin-a"));
    assert!(daemon_group_is_owned(&d, &seen(Some("/ws/target/debug/plugin-a"), true, false)));
    assert!(!daemon_group_is_owned(&d, &seen(Some("/usr/bin/sleep"), true, false)));
    assert!(daemon_group_is_owned(&d, &seen(None, false, false)));
    assert!(daemon_group_is_owned(&d, &seen(None, true, true)));
    assert!(!daemon_group_is_owned(&d, &seen(None, true, false)));
    assert!(!daemon_group_is_owned(&daemon("a", 1, None), &seen(None, false, false)));
}

#[test]
fn stopping_the_tray_reports_what_is_left() {
    assert_eq!(stop_existing_tray(true, true, true, &daemons()), Ok(ShutdownMethod::Graceful));
    assert_eq!(stop_existing_tray(false, false, false, &[]), Ok(ShutdownMethod::Forced));
    assert_eq!(
        stop_existing_tray(false, true, false, &daemons()),
        Err("previous qol-tray did not stop cleanly; tray alive: true; remaining daemons: plugin-a=111, plugin-z=222".to_string())
    );
}
