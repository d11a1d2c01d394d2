use oculus_symlink_cleaner::machine::Action;
use oculus_symlink_cleaner::machine::Event;
use oculus_symlink_cleaner::machine::LinkStatus;
use oculus_symlink_cleaner::machine::Machine;
use oculus_symlink_cleaner::machine::RestoreError;
use oculus_symlink_cleaner::machine::State;
use oculus_symlink_cleaner::machine::TeardownError;

const TARGET: &str = "/opt/games/hyperbolic-magnetism-beat-saber";

#[test]
fn wrong_name_fails_before_any_poll() {
    let (mut m, a) = Machine::start("/opt/games/foo");
    assert_eq!(a, Action::Finish);
    assert_eq!(m.state, State::Done);
    assert!(!m.validated);
    assert!(m.teardown.is_none());
    assert!(m.restore.is_none());
    // Whatever arrives later, the terminal machine never asks for a probe.
    let a = m.step(Event::ProbeResult { running: false });
    assert_eq!(a, Action::Finish);
    let a = m.step(Event::ProbeResult { running: true });
    assert_eq!(a, Action::Finish);
    assert_eq!(m.state, State::Done);
    assert!(m.teardown.is_none());
    assert!(m.restore.is_none());
}

#[test]
fn polls_until_process_stops_then_inspects_link_once() {
    let (mut m, a) = Machine::start(TARGET);
    assert_eq!(a, Action::Probe);
    assert!(m.validated);
    for _ in 0..3 {
        let a = m.step(Event::ProbeResult { running: true });
        assert_eq!(a, Action::Probe);
        assert_eq!(m.state, State::Polling);
        assert!(m.teardown.is_none());
    }
    let a = m.step(Event::ProbeResult { running: false });
    assert_eq!(a, Action::InspectLink);
    assert_eq!(m.state, State::TearingDown { link_verified: false });
}

#[test]
fn not_a_symlink_refuses_removal() {
    let (mut m, _) = Machine::start(TARGET);
    m.step(Event::ProbeResult { running: false });
    let a = m.step(Event::LinkObserved { status: LinkStatus::NotSymlink });
    assert_eq!(a, Action::Finish);
    assert_eq!(m.state, State::Done);
    assert_eq!(m.teardown, Some(Err(TeardownError::NotASymlink)));
    assert!(m.restore.is_none());
    // No later event can still make it destructive.
    let a = m.step(Event::RemovalDone { ok: true });
    assert_eq!(a, Action::Finish);
    assert_eq!(m.teardown, Some(Err(TeardownError::NotASymlink)));
}

#[test]
fn missing_path_reports_path_missing() {
    let (mut m, _) = Machine::start(TARGET);
    m.step(Event::ProbeResult { running: false });
    let a = m.step(Event::LinkObserved { status: LinkStatus::Missing });
    assert_eq!(a, Action::Finish);
    assert_eq!(m.teardown, Some(Err(TeardownError::PathMissing)));
    assert!(m.restore.is_none());
}

#[test]
fn symlink_is_removed_and_success_recorded() {
    let (mut m, _) = Machine::start(TARGET);
    m.step(Event::ProbeResult { running: false });
    let a = m.step(Event::LinkObserved { status: LinkStatus::Symlink });
    assert_eq!(a, Action::RemoveTree);
    assert_eq!(m.state, State::TearingDown { link_verified: true });
    assert!(m.teardown.is_none());
    let a = m.step(Event::RemovalDone { ok: true });
    assert_eq!(a, Action::InspectBackup);
    assert_eq!(m.teardown, Some(Ok(())));
}

#[test]
fn failed_removal_skips_restore() {
    let (mut m, _) = Machine::start(TARGET);
    m.step(Event::ProbeResult { running: false });
    m.step(Event::LinkObserved { status: LinkStatus::Symlink });
    let a = m.step(Event::RemovalDone { ok: false });
    assert_eq!(a, Action::Finish);
    assert_eq!(m.state, State::Done);
    assert_eq!(m.teardown, Some(Err(TeardownError::RemovalFailed)));
    assert!(m.restore.is_none());
}

#[test]
fn failed_rename_is_reported() {
    let (mut m, _) = Machine::start(TARGET);
    m.step(Event::ProbeResult { running: false });
    m.step(Event::LinkObserved { status: LinkStatus::Symlink });
    m.step(Event::RemovalDone { ok: true });
    let a = m.step(Event::BackupObserved { present: true });
    assert_eq!(a, Action::RenameBackup);
    let a = m.step(Event::RenameDone { ok: false });
    assert_eq!(a, Action::Finish);
    assert_eq!(m.teardown, Some(Ok(())));
    assert_eq!(m.restore, Some(Err(RestoreError::RenameFailed)));
}

#[test]
fn scenario_stopped_pid_no_backup() {
    // The watched process is already gone, the link is real, no backup
    // sibling exists: the tree is deleted, the restore fails non-fatally.
    let (mut m, a) = Machine::start(TARGET);
    assert_eq!(a, Action::Probe);
    let a = m.step(Event::ProbeResult { running: false });
    assert_eq!(a, Action::InspectLink);
    let a = m.step(Event::LinkObserved { status: LinkStatus::Symlink });
    assert_eq!(a, Action::RemoveTree);
    let a = m.step(Event::RemovalDone { ok: true });
    assert_eq!(a, Action::InspectBackup);
    let a = m.step(Event::BackupObserved { present: false });
    assert_eq!(a, Action::Finish);
    assert_eq!(m.state, State::Done);
    assert!(m.validated);
    assert_eq!(m.teardown, Some(Ok(())));
    assert_eq!(m.restore, Some(Err(RestoreError::BackupNotFound)));
}

#[test]
fn scenario_stopped_pid_with_backup() {
    // Same run, but the backup sibling directory exists: it is renamed into
    // the vacated slot and the run succeeds end to end.
    let (mut m, a) = Machine::start(TARGET);
    assert_eq!(a, Action::Probe);
    let a = m.step(Event::ProbeResult { running: false });
    assert_eq!(a, Action::InspectLink);
    let a = m.step(Event::LinkObserved { status: LinkStatus::Symlink });
    assert_eq!(a, Action::RemoveTree);
    let a = m.step(Event::RemovalDone { ok: true });
    assert_eq!(a, Action::InspectBackup);
    let a = m.step(Event::BackupObserved { present: true });
    assert_eq!(a, Action::RenameBackup);
    let a = m.step(Event::RenameDone { ok: true });
    assert_eq!(a, Action::Finish);
    assert_eq!(m.state, State::Done);
    assert_eq!(m.teardown, Some(Ok(())));
    assert_eq!(m.restore, Some(Ok(())));
}

#[test]
fn scenario_wrong_name_never_mutates() {
    // Final component `foo`: immediate failure, no polling, no filesystem
    // action is ever requested.
    let (mut m, a) = Machine::start("/opt/games/foo");
    assert_eq!(a, Action::Finish);
    let destructive = [
        Event::ProbeResult { running: false },
        Event::LinkObserved { status: LinkStatus::Symlink },
        Event::RemovalDone { ok: true },
        Event::BackupObserved { present: true },
        Event::RenameDone { ok: true },
    ];
    for e in destructive {
        let a = m.step(e);
        assert_eq!(a, Action::Finish);
    }
    assert!(m.teardown.is_none());
    assert!(m.restore.is_none());
}
