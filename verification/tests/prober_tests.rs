use oculus_symlink_cleaner::prober::is_running;

fn process_system() -> sysinfo::System {
    sysinfo::System::new_with_specifics(
        sysinfo::RefreshKind::new().with_processes(sysinfo::ProcessRefreshKind::everything()),
    )
}

#[test]
fn own_process_is_reported_running() {
    let mut sys = process_system();
    let pid = sysinfo::get_current_pid().expect("current pid").as_u32();
    assert!(is_running(&mut sys, pid));
}

#[test]
fn impossible_pid_is_reported_not_running() {
    // Far above any identifier the kernel hands out, so it cannot name a
    // live process; the prober must report it as not running rather than
    // err or wait.
    let mut sys = process_system();
    assert!(!is_running(&mut sys, u32::MAX - 1));
}
