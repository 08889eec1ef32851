//! What holds of the lifecycle of one service, whatever inputs arrive.

use vstd::prelude::*;
use crate::lifecycle::{CommandModel, EffectModel, ErrorModel, Lifecycle, Pending};
use crate::service::ScriptModel;
use crate::service_worker::ServiceStatus;

verus! {

/// Whether a status may follow another in one transition. A service goes
/// from `Stopped` through `Starting`, `Running` and `Stopping` back to
/// `Stopped`; a start that fails, a service with nothing left to stop and
/// the fail-safe lead to `Stopped` directly.
pub open spec fn may_follow(before: ServiceStatus, after: ServiceStatus) -> bool {
    ||| after == before
    ||| before is Stopped && after is Starting
    ||| before is Starting && after is Running
    ||| before is Running && after is Stopping
    ||| after is Stopped
}

/// Every service begins in a state that can occur.
pub proof fn lemma_initial_wf(now: u64)
    ensures
        Lifecycle::initial(now).wf(),
        Lifecycle::initial(now).status is Stopped,
{
}

/// No input leads out of the states that can occur, and the status changes
/// only along the lifecycle.
pub proof fn lemma_apply_preserves_wf(
    s: Lifecycle,
    start_script: Option<ScriptModel>,
    stop_script: Option<ScriptModel>,
    command: CommandModel,
    now: u64,
)
    requires
        s.wf(),
    ensures
        s.apply(start_script, stop_script, command, now).next.wf(),
        may_follow(s.status, s.apply(start_script, stop_script, command, now).next.status),
{
}

/// A start is accepted exactly on a stopped service with no operation in
/// flight and a start action configured.
pub proof fn lemma_start_accepted_iff(s: Lifecycle, script: Option<ScriptModel>)
    ensures
        s.start(script).outcome is Ok <==> s.status is Stopped && s.pending is Idle
            && script is Some,
        s.start(script).outcome is Ok ==> s.start(script).outcome == Ok::<
            EffectModel,
            ErrorModel,
        >(EffectModel::Spawn(script->0)),
        s.start(script).outcome is Err ==> s.start(script).next == s,
{
}

/// Of two starts of one service, exactly one is accepted: after an accepted
/// start the next one is refused as `Busy`, before the spawn is reported
/// and after it, and the one start process that is tracked is the one that
/// was reported.
pub proof fn lemma_second_start_refused(
    s: Lifecycle,
    script: Option<ScriptModel>,
    process: u64,
    now: u64,
)
    requires
        s.wf(),
        s.start(script).outcome is Ok,
    ensures
        s.start(script).next.start(script).outcome == Err::<EffectModel, ErrorModel>(
            ErrorModel::Busy,
        ),
        s.start(script).next.start(script).next == s.start(script).next,
        s.start(script).next.spawned(process, now).next.start(script).outcome == Err::<
            EffectModel,
            ErrorModel,
        >(ErrorModel::Busy),
        s.start(script).next.spawned(process, now).next.start_process == Some(process),
{
}

/// While a service is not stopped and idle, every start is refused with
/// `Busy` or `AlreadyRunning` and changes nothing.
pub proof fn lemma_start_refused_while_active(s: Lifecycle, script: Option<ScriptModel>)
    requires
        !(s.status is Stopped && s.pending is Idle),
    ensures
        s.start(script).next == s,
        s.start(script).outcome == Err::<EffectModel, ErrorModel>(ErrorModel::Busy)
            || s.start(script).outcome == Err::<EffectModel, ErrorModel>(
            ErrorModel::AlreadyRunning,
        ),
{
}

/// A reported spawn never replaces a tracked process: each direction has at
/// most one live process.
pub proof fn lemma_spawn_never_replaces(s: Lifecycle, process: u64, now: u64)
    requires
        s.wf(),
    ensures
        s.start_process is Some ==> s.spawned(process, now).next.start_process
            == s.start_process,
        s.stop_process is Some ==> s.spawned(process, now).next.stop_process == s.stop_process,
{
}

/// A failed spawn leaves no trace: the state is what it was before the
/// operation was accepted.
pub proof fn lemma_failed_spawn_restores(
    s: Lifecycle,
    script: ScriptModel,
    timeout: u64,
    force: bool,
    cause: Seq<char>,
    now: u64,
)
    requires
        s.wf(),
    ensures
        s.start(Some(script)).outcome is Ok ==> s.start(Some(script)).next.spawn_failed(
            cause,
        ).next == s,
        s.status is Running && s.pending is Idle ==> s.stop(
            Some(script),
            timeout,
            force,
            now,
        ).next.spawn_failed(cause).next == s,
        s.start(Some(script)).outcome is Ok ==> s.start(Some(script)).next.spawn_failed(
            cause,
        ).outcome == Err::<EffectModel, ErrorModel>(ErrorModel::ProcessSpawnFailed(cause)),
{
}

/// A stop of a stopped service fails with `NotRunning`, changes nothing and
/// asks for nothing to be spawned.
pub proof fn lemma_stop_of_stopped(
    s: Lifecycle,
    script: Option<ScriptModel>,
    timeout: u64,
    force: bool,
    now: u64,
)
    requires
        s.status is Stopped,
    ensures
        s.stop(script, timeout, force, now).outcome == Err::<EffectModel, ErrorModel>(
            ErrorModel::NotRunning,
        ),
        s.stop(script, timeout, force, now).next == s,
{
}

/// A stop is accepted exactly on a running service, or on one that is still
/// stopping, in both cases with no operation in flight.
pub proof fn lemma_stop_accepted_iff(
    s: Lifecycle,
    script: Option<ScriptModel>,
    timeout: u64,
    force: bool,
    now: u64,
)
    ensures
        s.stop(script, timeout, force, now).outcome is Ok <==> (s.status is Running
            || s.status is Stopping) && s.pending is Idle,
        s.stop(script, timeout, force, now).outcome is Err ==> s.stop(
            script,
            timeout,
            force,
            now,
        ).next == s,
        s.status is Starting ==> s.stop(script, timeout, force, now).outcome == Err::<
            EffectModel,
            ErrorModel,
        >(ErrorModel::Busy),
{
}

/// A stopped service tracks no process, and a stop that completes leaves the
/// service stopped: once the exit of the last tracked process of a stopping
/// service is reported, the status is `Stopped`, no handle remains and no
/// operation is in flight.
pub proof fn lemma_stop_completes(s: Lifecycle, process: u64, code: i32, now: u64)
    requires
        s.wf(),
    ensures
        s.status is Stopped ==> s.start_process is None && s.stop_process is None,
        s.status is Stopping && s.tracks(process) && s.without(process).start_process is None
            && s.without(process).stop_process is None ==> s.exited(process, code, now).outcome
            == Ok::<EffectModel, ErrorModel>(EffectModel::Done),
        s.exited(process, code, now).outcome == Ok::<EffectModel, ErrorModel>(EffectModel::Done)
            ==> {
            let after = s.exited(process, code, now).next;
            &&& s.status is Stopping
            &&& after.status is Stopped
            &&& after.since == now
            &&& after.start_process is None
            &&& after.stop_process is None
            &&& after.pending is Idle
        },
{
}

/// Once both tracked processes of a stopping service have been reported as
/// ended, in either order, the service is stopped.
pub proof fn lemma_stop_completes_after_both(
    s: Lifecycle,
    first: u64,
    second: u64,
    code1: i32,
    code2: i32,
    now1: u64,
    now2: u64,
)
    requires
        s.wf(),
        s.status is Stopping,
        s.tracks(first),
        s.tracks(second),
        s.start_process == Some(first) || s.start_process == Some(second)
            || s.start_process is None,
        s.stop_process == Some(first) || s.stop_process == Some(second)
            || s.stop_process is None,
    ensures
        s.exited(first, code1, now1).next.exited(second, code2, now2).next.status is Stopped,
{
}

/// A start action that ends with a nonzero code leaves the service
/// `Stopped`, not `Running`, and the failure is reported.
pub proof fn lemma_failed_start_stops(s: Lifecycle, process: u64, code: i32, now: u64)
    requires
        s.wf(),
        s.start_process == Some(process),
        code != 0,
        s.status is Starting || (s.status is Running && s.pending is Idle),
    ensures
        s.exited(process, code, now).next.status is Stopped,
        s.exited(process, code, now).next.start_process is None,
        s.exited(process, code, now).outcome == Err::<EffectModel, ErrorModel>(
            ErrorModel::StartFailed(code),
        ),
{
}

/// A start action that is confirmed while its process lives on makes a
/// starting service `Running`, and the process stays tracked; a
/// confirmation for any other process, or in any other status, changes
/// nothing.
pub proof fn lemma_confirmed_start_runs(s: Lifecycle, process: u64, now: u64)
    requires
        s.wf(),
    ensures
        s.status is Starting && s.start_process == Some(process) ==> {
            &&& s.confirmed(process, now).next.status is Running
            &&& s.confirmed(process, now).next.start_process == Some(process)
            &&& s.confirmed(process, now).next.since == now
        },
        !(s.status is Starting && s.start_process == Some(process)) ==> s.confirmed(process, now)
            == s.ignore(),
{
}

/// A start action that ends with code 0 makes a starting service `Running`.
pub proof fn lemma_successful_start_runs(s: Lifecycle, process: u64, now: u64)
    requires
        s.wf(),
        s.status is Starting,
        s.start_process == Some(process),
    ensures
        s.exited(process, 0, now).next.status is Running,
        s.exited(process, 0, now).next.start_process is None,
        s.exited(process, 0, now).next.since == now,
{
}

/// When the deadline of a forced stop passes, the tracked processes are
/// handed out to be killed and the service stays `Stopping`, with the same
/// handles, until their exits are reported.
pub proof fn lemma_forced_stop_kills(s: Lifecycle, deadline: u64, now: u64)
    requires
        s.wf(),
        s.pending == (Pending::Wait { deadline, force: true }),
        now >= deadline,
    ensures
        s.expired(now).outcome == Ok::<EffectModel, ErrorModel>(
            EffectModel::Kill { start: s.start_process, stop: s.stop_process },
        ),
        s.expired(now).next.status is Stopping,
        s.expired(now).next.pending is Kill,
        s.expired(now).next.start_process == s.start_process,
        s.expired(now).next.stop_process == s.stop_process,
        s.start_process is Some || s.stop_process is Some,
{
}

/// While the kill is under way the service becomes `Stopped` only through a
/// report on a tracked process, and then no handle remains: the processes
/// are confirmed gone before the stop is complete.
pub proof fn lemma_forced_stop_ends_on_report(
    s: Lifecycle,
    start_script: Option<ScriptModel>,
    stop_script: Option<ScriptModel>,
    command: CommandModel,
    now: u64,
)
    requires
        s.wf(),
        s.pending is Kill,
    ensures
        s.status is Stopping,
        s.apply(start_script, stop_script, command, now).next.status is Stopped ==> {
            &&& s.apply(start_script, stop_script, command, now).next.start_process is None
            &&& s.apply(start_script, stop_script, command, now).next.stop_process is None
            &&& match command {
                CommandModel::Exited { process, .. } => s.tracks(process),
                CommandModel::WaitFailed { process } => s.tracks(process),
                CommandModel::KillFailed { process } => s.tracks(process),
                _ => false,
            }
        },
        !(s.apply(start_script, stop_script, command, now).next.status is Stopped)
            ==> s.apply(start_script, stop_script, command, now).next.status is Stopping,
{
}

/// When the deadline of an unforced stop passes, the stop ends with `Busy`,
/// nothing is killed, the handles stay and the service is still `Stopping`;
/// a later stop is accepted and waits again.
pub proof fn lemma_unforced_stop_times_out(
    s: Lifecycle,
    script: Option<ScriptModel>,
    deadline: u64,
    now: u64,
    timeout: u64,
    force: bool,
    later: u64,
)
    requires
        s.wf(),
        s.pending == (Pending::Wait { deadline, force: false }),
        now >= deadline,
    ensures
        s.expired(now).outcome == Err::<EffectModel, ErrorModel>(ErrorModel::Busy),
        s.expired(now).next.status is Stopping,
        s.expired(now).next.pending is Idle,
        s.expired(now).next.start_process == s.start_process,
        s.expired(now).next.stop_process == s.stop_process,
        s.expired(now).next.since == s.since,
        s.expired(now).next.stop(script, timeout, force, later).outcome == Ok::<
            EffectModel,
            ErrorModel,
        >(EffectModel::Wait { deadline: crate::lifecycle::deadline_after(later, timeout) }),
{
}

/// Before its deadline a waiting stop keeps waiting, whatever `force` is.
pub proof fn lemma_wait_holds_before_deadline(s: Lifecycle, deadline: u64, force: bool, now: u64)
    requires
        s.pending == (Pending::Wait { deadline, force }),
        now < deadline,
    ensures
        s.expired(now).next == s,
        s.expired(now).outcome == Ok::<EffectModel, ErrorModel>(EffectModel::Wait { deadline }),
{
}

/// A handle is cleared exactly once: after the exit of a process has been
/// reported the process is no longer tracked, and a second report of it
/// changes nothing.
pub proof fn lemma_exit_clears_once(
    s: Lifecycle,
    process: u64,
    code: i32,
    now: u64,
    code_again: i32,
    later: u64,
)
    requires
        s.wf(),
    ensures
        !s.exited(process, code, now).next.tracks(process),
        s.exited(process, code, now).next.exited(process, code_again, later)
            == s.exited(process, code, now).next.ignore(),
        !s.tracks(process) ==> s.exited(process, code, now) == s.ignore(),
{
}

/// A failure to observe or to terminate a tracked process forces the
/// service to `Stopped` with nothing tracked and nothing in flight.
pub proof fn lemma_failure_forces_stopped(s: Lifecycle, process: u64, error: ErrorModel, now: u64)
    requires
        s.tracks(process),
    ensures
        s.failed(process, error, now).next == Lifecycle::initial(now),
        s.failed(process, error, now).outcome == Err::<EffectModel, ErrorModel>(error),
{
}

/// The whole of a stop without a stop action, for a running service whose
/// start process lives: the process is signalled and the service is
/// `Stopping`. If the process ends, at whatever time, the service is
/// `Stopped` with nothing tracked. If the deadline comes first, an unforced
/// stop ends as `Busy` and leaves the service `Stopping` with its process;
/// a forced one hands the process out to be killed, and the service is
/// `Stopped` once the exit is reported.
pub proof fn lemma_stop_by_signal(
    s: Lifecycle,
    process: u64,
    timeout: u64,
    force: bool,
    now: u64,
    later: u64,
    code: i32,
    end: u64,
)
    requires
        s.wf(),
        s.status is Running,
        s.pending is Idle,
        s.start_process == Some(process),
        later >= crate::lifecycle::deadline_after(now, timeout),
    ensures
        s.stop(None, timeout, force, now).outcome == Ok::<EffectModel, ErrorModel>(
            EffectModel::Terminate {
                process,
                deadline: crate::lifecycle::deadline_after(now, timeout),
            },
        ),
        s.stop(None, timeout, force, now).next.status is Stopping,
        s.stop(None, timeout, force, now).next.exited(process, code, end).outcome == Ok::<
            EffectModel,
            ErrorModel,
        >(EffectModel::Done),
        s.stop(None, timeout, force, now).next.exited(process, code, end).next
            == Lifecycle::initial(end),
        !force ==> s.stop(None, timeout, force, now).next.expired(later).outcome == Err::<
            EffectModel,
            ErrorModel,
        >(ErrorModel::Busy) && s.stop(None, timeout, force, now).next.expired(later).next.status
            is Stopping && s.stop(None, timeout, force, now).next.expired(
            later,
        ).next.start_process == Some(process),
        force ==> s.stop(None, timeout, force, now).next.expired(later).outcome == Ok::<
            EffectModel,
            ErrorModel,
        >(EffectModel::Kill { start: Some(process), stop: None }) && s.stop(
            None,
            timeout,
            force,
            now,
        ).next.expired(later).next.status is Stopping && s.stop(
            None,
            timeout,
            force,
            now,
        ).next.expired(later).next.exited(process, code, end).next == Lifecycle::initial(end),
{
}

/// Reading the status changes nothing, and the time in a status is counted
/// from its last change.
pub proof fn lemma_time_in_state(s: Lifecycle, now: u64)
    ensures
        now >= s.since ==> s.time_in_state(now) + s.since == now,
        now < s.since ==> s.time_in_state(now) == 0,
{
}

} // verus!
