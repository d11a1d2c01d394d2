//! The watch-then-teardown state machine.
//!
//! The machine holds the decision logic of the whole run: validate the
//! target path, poll until the watched process is gone, tear the symlink
//! down only after the link check passed, then attempt the backup restore
//! exactly once. It never touches the process table or the filesystem
//! itself; instead each step returns the [`Action`] the surrounding program
//! must perform next, and the program feeds the observation back in as an
//! [`Event`]. The transition relation is given in full by [`spec_step`], and
//! the executable [`Machine::step`] is proved to follow it exactly.

use vstd::prelude::*;
use crate::pathname;

verus! {

/// Why a teardown did not happen or did not complete.
#[derive(Clone, Copy, Debug, PartialEq, Eq, Structural)]
pub enum TeardownError {
    /// The path does not exist, or its link metadata could not be read.
    PathMissing,
    /// The path exists but is not a symbolic link; nothing was removed.
    NotASymlink,
    /// The link check passed but removing the tree failed.
    RemovalFailed,
}

/// Why the restore step did not complete.
#[derive(Clone, Copy, Debug, PartialEq, Eq, Structural)]
pub enum RestoreError {
    /// No sibling backup directory was found (or it was not a directory).
    BackupNotFound,
    /// The backup directory was found but renaming it failed.
    RenameFailed,
}

/// What an inspection of the target path's own link metadata reported.
#[derive(Clone, Copy, Debug, PartialEq, Eq, Structural)]
pub enum LinkStatus {
    /// The path is absent or its metadata could not be read.
    Missing,
    /// The path itself is a symbolic link.
    Symlink,
    /// The path exists but is not a symbolic link.
    NotSymlink,
}

/// An observation the surrounding program feeds back to the machine, in
/// answer to the action it was asked to perform.
#[derive(Clone, Copy, Debug, PartialEq, Eq, Structural)]
pub enum Event {
    /// Answer to [`Action::Probe`]: whether the watched process is running.
    ProbeResult { running: bool },
    /// Answer to [`Action::InspectLink`]: what the link metadata showed.
    LinkObserved { status: LinkStatus },
    /// Answer to [`Action::RemoveTree`]: whether the removal succeeded.
    RemovalDone { ok: bool },
    /// Answer to [`Action::InspectBackup`]: whether the backup path exists
    /// and is a directory.
    BackupObserved { present: bool },
    /// Answer to [`Action::RenameBackup`]: whether the rename succeeded.
    RenameDone { ok: bool },
}

/// What the surrounding program must do next.
#[derive(Clone, Copy, Debug, PartialEq, Eq, Structural)]
pub enum Action {
    /// Query the process table for the watched process (afresh, no caching),
    /// then report back; the program sleeps its poll interval between a
    /// "running" answer and the next query.
    Probe,
    /// Read the target path's own link metadata (without following it) and
    /// report what it is.
    InspectLink,
    /// Remove the directory tree at the target path and report success.
    RemoveTree,
    /// Check whether the sibling backup path is an existing directory.
    InspectBackup,
    /// Rename the backup directory into the vacated slot and report success.
    RenameBackup,
    /// The run is over; report the recorded outcomes and stop.
    Finish,
}

/// The machine's control state.
#[derive(Clone, Copy, Debug, PartialEq, Eq, Structural)]
pub enum State {
    /// Waiting for the watched process to go away.
    Polling,
    /// Tearing the link down: first verifying that the path is a symlink
    /// (`link_verified` false), then removing the tree (`link_verified`
    /// true).
    TearingDown { link_verified: bool },
    /// Restoring the backup: first looking for it (`backup_found` false),
    /// then renaming it into place (`backup_found` true).
    Restoring { backup_found: bool },
    /// Terminal.
    Done,
}

/// The whole machine: control state plus the recorded outcomes of the run.
pub struct Machine {
    /// Control state.
    pub state: State,
    /// Whether the target path passed validation at the start.
    pub validated: bool,
    /// Outcome of the teardown, once it has been decided.
    pub teardown: Option<Result<(), TeardownError>>,
    /// Outcome of the restore, once it has been decided.
    pub restore: Option<Result<(), RestoreError>>,
}

/// The action a state is waiting on; re-issued when an event does not
/// answer it.
pub open spec fn pending_action(s: State) -> Action {
    match s {
        State::Polling => Action::Probe,
        State::TearingDown { link_verified } => if link_verified {
            Action::RemoveTree
        } else {
            Action::InspectLink
        },
        State::Restoring { backup_found } => if backup_found {
            Action::RenameBackup
        } else {
            Action::InspectBackup
        },
        State::Done => Action::Finish,
    }
}

/// The transition relation: from a machine and an event to the next machine
/// and the next action. An event that does not answer the pending action
/// leaves the machine unchanged and re-issues that action.
pub open spec fn spec_step(m: Machine, e: Event) -> (Machine, Action) {
    match (m.state, e) {
        (State::Polling, Event::ProbeResult { running }) => {
            if running {
                (m, Action::Probe)
            } else {
                (
                    Machine { state: State::TearingDown { link_verified: false }, ..m },
                    Action::InspectLink,
                )
            }
        },
        (State::TearingDown { link_verified: false }, Event::LinkObserved { status }) => {
            match status {
                LinkStatus::Missing => (
                    Machine {
                        state: State::Done,
                        teardown: Some(Err(TeardownError::PathMissing)),
                        ..m
                    },
                    Action::Finish,
                ),
                LinkStatus::NotSymlink => (
                    Machine {
                        state: State::Done,
                        teardown: Some(Err(TeardownError::NotASymlink)),
                        ..m
                    },
                    Action::Finish,
                ),
                LinkStatus::Symlink => (
                    Machine { state: State::TearingDown { link_verified: true }, ..m },
                    Action::RemoveTree,
                ),
            }
        },
        (State::TearingDown { link_verified: true }, Event::RemovalDone { ok }) => {
            if ok {
                (
                    Machine {
                        state: State::Restoring { backup_found: false },
                        teardown: Some(Ok(())),
                        ..m
                    },
                    Action::InspectBackup,
                )
            } else {
                (
                    Machine {
                        state: State::Done,
                        teardown: Some(Err(TeardownError::RemovalFailed)),
                        ..m
                    },
                    Action::Finish,
                )
            }
        },
        (State::Restoring { backup_found: false }, Event::BackupObserved { present }) => {
            if present {
                (
                    Machine { state: State::Restoring { backup_found: true }, ..m },
                    Action::RenameBackup,
                )
            } else {
                (
                    Machine {
                        state: State::Done,
                        restore: Some(Err(RestoreError::BackupNotFound)),
                        ..m
                    },
                    Action::Finish,
                )
            }
        },
        (State::Restoring { backup_found: true }, Event::RenameDone { ok }) => {
            if ok {
                (Machine { state: State::Done, restore: Some(Ok(())), ..m }, Action::Finish)
            } else {
                (
                    Machine {
                        state: State::Done,
                        restore: Some(Err(RestoreError::RenameFailed)),
                        ..m
                    },
                    Action::Finish,
                )
            }
        },
        _ => (m, pending_action(m.state)),
    }
}

/// The machine a run starts in, for a given target path: polling when the
/// path names the expected directory, terminal with `validated` false when
/// it does not.
pub open spec fn spec_start(p: Seq<char>) -> (Machine, Action) {
    if pathname::path_names_expected(p) {
        (
            Machine { state: State::Polling, validated: true, teardown: None, restore: None },
            Action::Probe,
        )
    } else {
        (
            Machine { state: State::Done, validated: false, teardown: None, restore: None },
            Action::Finish,
        )
    }
}

/// Well-formedness of a machine: the recorded outcomes agree with the
/// control state. In particular a restore outcome can only exist over a
/// successful teardown, and an unvalidated machine is terminal with no
/// outcomes at all.
pub open spec fn wf(m: Machine) -> bool {
    &&& (m.state is Polling || m.state is TearingDown) ==> m.teardown is None
    &&& m.state is Restoring ==> m.teardown == Some(Result::<(), TeardownError>::Ok(()))
    &&& m.state is Done || m.restore is None
    &&& m.restore is Some ==> m.teardown == Some(Result::<(), TeardownError>::Ok(()))
    &&& !m.validated ==> m.state is Done && m.teardown is None && m.restore is None
}

impl Machine {
    /// Begins a run for the given target path: validates the path's final
    /// component against the expected directory name and returns the
    /// machine together with the first action. On a name mismatch no
    /// polling ever begins: the machine is already terminal.
    pub fn start(path: &str) -> (r: (Machine, Action))
        ensures
            r == spec_start(path@),
            wf(r.0),
    {
        if pathname::validate_target_path(path) {
            (
                Machine { state: State::Polling, validated: true, teardown: None, restore: None },
                Action::Probe,
            )
        } else {
            (
                Machine { state: State::Done, validated: false, teardown: None, restore: None },
                Action::Finish,
            )
        }
    }

    /// Consumes one observation and moves the machine along its transition
    /// relation, returning the next action for the surrounding program.
    pub fn step(&mut self, e: Event) -> (a: Action)
        ensures
            (*(final(self)), a) == spec_step(*(old(self)), e),
            wf(*(old(self))) ==> wf(*(final(self))),
    {
        let next: Action;
        match (self.state, e) {
            (State::Polling, Event::ProbeResult { running }) => {
                if running {
                    next = Action::Probe;
                } else {
                    self.state = State::TearingDown { link_verified: false };
                    next = Action::InspectLink;
                }
            },
            (State::TearingDown { link_verified: false }, Event::LinkObserved { status }) => {
                match status {
                    LinkStatus::Missing => {
                        self.state = State::Done;
                        self.teardown = Some(Err(TeardownError::PathMissing));
                        next = Action::Finish;
                    },
                    LinkStatus::NotSymlink => {
                        self.state = State::Done;
                        self.teardown = Some(Err(TeardownError::NotASymlink));
                        next = Action::Finish;
                    },
                    LinkStatus::Symlink => {
                        self.state = State::TearingDown { link_verified: true };
                        next = Action::RemoveTree;
                    },
                }
            },
            (State::TearingDown { link_verified: true }, Event::RemovalDone { ok }) => {
                if ok {
                    self.state = State::Restoring { backup_found: false };
                    self.teardown = Some(Ok(()));
                    next = Action::InspectBackup;
                } else {
                    self.state = State::Done;
                    self.teardown = Some(Err(TeardownError::RemovalFailed));
                    next = Action::Finish;
                }
            },
            (State::Restoring { backup_found: false }, Event::BackupObserved { present }) => {
                if present {
                    self.state = State::Restoring { backup_found: true };
                    next = Action::RenameBackup;
                } else {
                    self.state = State::Done;
                    self.restore = Some(Err(RestoreError::BackupNotFound));
                    next = Action::Finish;
                }
            },
            (State::Restoring { backup_found: true }, Event::RenameDone { ok }) => {
                self.state = State::Done;
                if ok {
                    self.restore = Some(Ok(()));
                } else {
                    self.restore = Some(Err(RestoreError::RenameFailed));
                }
                next = Action::Finish;
            },
            _ => {
                next = match self.state {
                    State::Polling => Action::Probe,
                    State::TearingDown { link_verified } => if link_verified {
                        Action::RemoveTree
                    } else {
                        Action::InspectLink
                    },
                    State::Restoring { backup_found } => if backup_found {
                        Action::RenameBackup
                    } else {
                        Action::InspectBackup
                    },
                    State::Done => Action::Finish,
                };
            },
        }
        next
    }
}

/// The machine after consuming a whole sequence of events.
pub open spec fn run_machine(m: Machine, events: Seq<Event>) -> Machine
    decreases events.len(),
{
    if events.len() == 0 {
        m
    } else {
        run_machine(spec_step(m, events[0]).0, events.drop_first())
    }
}

/// The actions issued while consuming a sequence of events, one per event.
pub open spec fn run_actions(m: Machine, events: Seq<Event>) -> Seq<Action>
    decreases events.len(),
{
    if events.len() == 0 {
        Seq::empty()
    } else {
        seq![spec_step(m, events[0]).1] + run_actions(spec_step(m, events[0]).0, events.drop_first())
    }
}

/// A run issues exactly one action per event.
pub proof fn lemma_run_actions_len(m: Machine, events: Seq<Event>)
    ensures
        run_actions(m, events).len() == events.len(),
    decreases events.len(),
{
    if events.len() > 0 {
        lemma_run_actions_len(spec_step(m, events[0]).0, events.drop_first());
    }
}

/// Every step preserves well-formedness.
pub proof fn lemma_step_preserves_wf(m: Machine, e: Event)
    requires
        wf(m),
    ensures
        wf(spec_step(m, e).0),
{
}

/// A terminal machine stays terminal: whatever events arrive, the machine
/// never changes again and every further action is `Finish` — in particular
/// nothing destructive is ever asked for after the run is done.
pub proof fn lemma_done_is_absorbing(m: Machine, events: Seq<Event>)
    requires
        m.state is Done,
    ensures
        run_machine(m, events) == m,
        run_actions(m, events).len() == events.len(),
        forall|i: int| 0 <= i < events.len() ==> run_actions(m, events)[i] == Action::Finish,
    decreases events.len(),
{
    if events.len() > 0 {
        assert(spec_step(m, events[0]) == (m, Action::Finish));
        lemma_done_is_absorbing(m, events.drop_first());
    }
}

/// A path whose final component is not the expected name fails validation
/// before any poll tick occurs: the starting machine is already terminal,
/// and no sequence of events can ever make it issue a `Probe` (or any other
/// action than `Finish`).
pub proof fn lemma_invalid_path_never_polls(p: Seq<char>, events: Seq<Event>)
    requires
        !pathname::path_names_expected(p),
    ensures
        spec_start(p).0.state is Done,
        !spec_start(p).0.validated,
        spec_start(p).1 == Action::Finish,
        forall|i: int| 0 <= i < events.len()
            ==> run_actions(spec_start(p).0, events)[i] == Action::Finish,
{
    lemma_done_is_absorbing(spec_start(p).0, events);
}

/// While every probe reports the process running, the machine stays in
/// `Polling` and the only action it ever issues is another `Probe`: the
/// teardown guard is never invoked while still polling.
pub proof fn lemma_polls_while_running(m: Machine, ticks: Seq<Event>)
    requires
        m.state is Polling,
        forall|i: int| 0 <= i < ticks.len()
            ==> ticks[i] == (Event::ProbeResult { running: true }),
    ensures
        run_machine(m, ticks) == m,
        run_actions(m, ticks).len() == ticks.len(),
        forall|i: int| 0 <= i < ticks.len() ==> run_actions(m, ticks)[i] == Action::Probe,
    decreases ticks.len(),
{
    if ticks.len() > 0 {
        assert(ticks[0] == (Event::ProbeResult { running: true }));
        assert(spec_step(m, ticks[0]) == (m, Action::Probe));
        lemma_polls_while_running(m, ticks.drop_first());
    }
}

/// The first probe that reports the process gone moves the machine out of
/// `Polling` at once: the very next action is the teardown guard's link
/// inspection, issued exactly once at this transition.
pub proof fn lemma_stop_starts_teardown(m: Machine)
    requires
        m.state is Polling,
    ensures
        spec_step(m, Event::ProbeResult { running: false }).0 == (Machine {
            state: State::TearingDown { link_verified: false },
            ..m
        }),
        spec_step(m, Event::ProbeResult { running: false }).1 == Action::InspectLink,
{
}

/// When the link inspection reports anything but a symlink, the guard
/// refuses: the outcome is recorded as `NotASymlink` (or `PathMissing` for
/// an unreadable path) and no removal — indeed nothing destructive — is ever
/// asked for afterwards, so the directory is left intact.
pub proof fn lemma_not_symlink_never_removes(m: Machine, events: Seq<Event>)
    requires
        m.state == (State::TearingDown { link_verified: false }),
    ensures
        spec_step(m, Event::LinkObserved { status: LinkStatus::NotSymlink }).0.teardown
            == Some(Result::<(), TeardownError>::Err(TeardownError::NotASymlink)),
        spec_step(m, Event::LinkObserved { status: LinkStatus::NotSymlink }).1 == Action::Finish,
        forall|i: int| 0 <= i < events.len()
            ==> run_actions(
                spec_step(m, Event::LinkObserved { status: LinkStatus::NotSymlink }).0,
                events,
            )[i] == Action::Finish,
{
    lemma_done_is_absorbing(
        spec_step(m, Event::LinkObserved { status: LinkStatus::NotSymlink }).0,
        events,
    );
}

/// When the link inspection confirms a symlink, and only then, the guard
/// asks for the removal of the tree; a successful removal is recorded as a
/// successful teardown.
pub proof fn lemma_symlink_is_removed(m: Machine)
    requires
        m.state == (State::TearingDown { link_verified: false }),
    ensures
        spec_step(m, Event::LinkObserved { status: LinkStatus::Symlink }).0 == (Machine {
            state: State::TearingDown { link_verified: true },
            ..m
        }),
        spec_step(m, Event::LinkObserved { status: LinkStatus::Symlink }).1 == Action::RemoveTree,
        spec_step(
            spec_step(m, Event::LinkObserved { status: LinkStatus::Symlink }).0,
            Event::RemovalDone { ok: true },
        ).0.teardown == Some(Result::<(), TeardownError>::Ok(())),
{
}

/// A restore action is only ever issued over a successful teardown: after
/// any step of a well-formed machine that asks for the backup inspection or
/// the rename, the recorded teardown outcome is success.
pub proof fn lemma_restore_needs_teardown_success(m: Machine, e: Event)
    requires
        wf(m),
    ensures
        spec_step(m, e).1 == Action::InspectBackup || spec_step(m, e).1 == Action::RenameBackup
            ==> spec_step(m, e).0.teardown == Some(Result::<(), TeardownError>::Ok(())),
{
}

/// Run-level form of the same law: in any run of a well-formed machine, at
/// every point where a restore action is issued, the machine right after
/// that step records the teardown as having succeeded.
pub proof fn lemma_run_restore_needs_teardown_success(m: Machine, events: Seq<Event>, i: int)
    requires
        wf(m),
        0 <= i < events.len(),
        run_actions(m, events)[i] == Action::InspectBackup || run_actions(m, events)[i]
            == Action::RenameBackup,
    ensures
        run_machine(m, events.take(i + 1)).teardown
            == Some(Result::<(), TeardownError>::Ok(())),
    decreases events.len(),
{
    let a0 = spec_step(m, events[0]).1;
    let next = spec_step(m, events[0]).0;
    let rest = events.drop_first();
    assert(run_actions(m, events) == seq![a0] + run_actions(next, rest));
    if i == 0 {
        assert(run_actions(m, events)[0] == a0);
        lemma_restore_needs_teardown_success(m, events[0]);
        let t = events.take(1);
        assert(t[0] == events[0]);
        assert(t.drop_first() =~= Seq::<Event>::empty());
        assert(run_machine(m, t) == run_machine(next, t.drop_first()));
        assert(run_machine(next, Seq::<Event>::empty()) == next);
    } else {
        assert(seq![a0].len() == 1);
        lemma_run_actions_len(next, rest);
        assert((seq![a0] + run_actions(next, rest))[i] == run_actions(next, rest)[i - 1]);
        lemma_step_preserves_wf(m, events[0]);
        lemma_run_restore_needs_teardown_success(next, rest, i - 1);
        let t = events.take(i + 1);
        assert(t[0] == events[0]);
        assert(t.drop_first() =~= rest.take(i));
        assert(run_machine(m, t) == run_machine(next, t.drop_first()));
    }
}

/// The step that records a successful teardown is the very step that asks
/// for the restore: the restore is invoked whenever — and only when — the
/// teardown has just succeeded.
pub proof fn lemma_teardown_success_starts_restore(m: Machine, e: Event)
    requires
        wf(m),
    ensures
        spec_step(m, e).0.teardown == Some(Result::<(), TeardownError>::Ok(()))
            && m.teardown != Some(Result::<(), TeardownError>::Ok(()))
            ==> spec_step(m, e).1 == Action::InspectBackup,
        m.state == (State::TearingDown { link_verified: true })
            && e == (Event::RemovalDone { ok: true })
            ==> spec_step(m, e).1 == Action::InspectBackup,
{
}

/// Run-level form of the same law: in any run of a well-formed machine
/// whose teardown comes to succeed, the backup inspection — the restore
/// step — is invoked at some point of the run.
pub proof fn lemma_run_teardown_success_starts_restore(m: Machine, events: Seq<Event>)
    requires
        wf(m),
        m.teardown != Some(Result::<(), TeardownError>::Ok(())),
        run_machine(m, events).teardown == Some(Result::<(), TeardownError>::Ok(())),
    ensures
        exists|i: int|
            0 <= i < events.len() && run_actions(m, events)[i] == Action::InspectBackup,
    decreases events.len(),
{
    assert(events.len() > 0) by {
        if events.len() == 0 {
            assert(run_machine(m, events) == m);
        }
    }
    let a0 = spec_step(m, events[0]).1;
    let next = spec_step(m, events[0]).0;
    let rest = events.drop_first();
    assert(run_actions(m, events) == seq![a0] + run_actions(next, rest));
    assert(run_machine(m, events) == run_machine(next, rest));
    if next.teardown == Some(Result::<(), TeardownError>::Ok(())) {
        lemma_teardown_success_starts_restore(m, events[0]);
        assert(run_actions(m, events)[0] == a0);
    } else {
        lemma_step_preserves_wf(m, events[0]);
        lemma_run_teardown_success_starts_restore(next, rest);
        let j = choose|j: int|
            0 <= j < rest.len() && run_actions(next, rest)[j] == Action::InspectBackup;
        lemma_run_actions_len(next, rest);
        assert(run_actions(m, events)[j + 1] == run_actions(next, rest)[j]);
    }
}

/// A missing backup ends the run harmlessly: the outcome is recorded as
/// `BackupNotFound`, the teardown outcome is untouched, and the only action
/// issued is `Finish` — nothing is altered or removed on this account.
pub proof fn lemma_missing_backup_is_harmless(m: Machine)
    requires
        m.state == (State::Restoring { backup_found: false }),
    ensures
        spec_step(m, Event::BackupObserved { present: false }).0 == (Machine {
            state: State::Done,
            restore: Some(Err(RestoreError::BackupNotFound)),
            ..m
        }),
        spec_step(m, Event::BackupObserved { present: false }).1 == Action::Finish,
{
}

} // verus!
