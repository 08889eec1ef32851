//! The supervisor of one service: its definition, its lifecycle state and
//! the transitions between them.
//!
//! The worker never touches the operating system. Where a process has to be
//! spawned, signalled or killed, the transition returns the action, the
//! caller performs it and reports what happened with the next call. Time is
//! a count of milliseconds that the caller reads from its clock.

use vstd::prelude::*;
use vstd::string::StringExecFns;
use crate::lifecycle::{CommandModel, EffectModel, ErrorModel, Lifecycle, Pending};
use crate::service::{Service, ServiceModel, ServiceScript};

verus! {

/// Where a service stands in its lifecycle.
#[derive(Debug, Clone, Copy, PartialEq, Eq, Structural)]
pub enum ServiceStatus {
    /// Idle; no process is tracked.
    Stopped,
    /// The start action was launched and its completion is not yet observed.
    Starting,
    /// The start action is confirmed successful.
    Running,
    /// The stop path is in progress.
    Stopping,
}

/// Why an operation on a service was refused or failed.
#[derive(Debug)]
pub enum ServiceWorkerError {
    /// `start` on a running service.
    AlreadyRunning,
    /// `stop` on a stopped service.
    NotRunning,
    /// An operation on a service in transition or with an operation in
    /// flight, or a stop whose deadline passed without `force`.
    Busy,
    /// The requested action is not configured.
    ScriptNotSpecified(String),
    /// The operating system refused to create the process.
    ProcessSpawnFailed(String),
    /// Observing a process failed; the service was forced to `Stopped`.
    ProcessWaitFailed,
    /// Terminating a process failed; the service was forced to `Stopped`.
    KillFailed,
    /// The start action exited with this nonzero code.
    StartFailed(i32),
    /// No service of this name is registered.
    UnknownService(String),
}

impl View for ServiceWorkerError {
    type V = ErrorModel;

    open spec fn view(&self) -> ErrorModel {
        match self {
            ServiceWorkerError::AlreadyRunning => ErrorModel::AlreadyRunning,
            ServiceWorkerError::NotRunning => ErrorModel::NotRunning,
            ServiceWorkerError::Busy => ErrorModel::Busy,
            ServiceWorkerError::ScriptNotSpecified(s) => ErrorModel::ScriptNotSpecified(s@),
            ServiceWorkerError::ProcessSpawnFailed(s) => ErrorModel::ProcessSpawnFailed(s@),
            ServiceWorkerError::ProcessWaitFailed => ErrorModel::ProcessWaitFailed,
            ServiceWorkerError::KillFailed => ErrorModel::KillFailed,
            ServiceWorkerError::StartFailed(code) => ErrorModel::StartFailed(*code),
            ServiceWorkerError::UnknownService(s) => ErrorModel::UnknownService(s@),
        }
    }
}

/// The text that describes an error to a person.
pub open spec fn error_message(error: ErrorModel) -> Seq<char> {
    match error {
        ErrorModel::AlreadyRunning => "Service is already running"@,
        ErrorModel::NotRunning => "Service is not running"@,
        ErrorModel::Busy => "Service is busy"@,
        ErrorModel::ScriptNotSpecified(which) => "Script "@ + which + " not specified"@,
        ErrorModel::ProcessSpawnFailed(cause) => "IO error "@ + cause,
        ErrorModel::ProcessWaitFailed => "Waiting for the process failed"@,
        ErrorModel::KillFailed => "Killing the process failed"@,
        ErrorModel::StartFailed(_) => "Start script failed"@,
        ErrorModel::UnknownService(name) => "Service "@ + name + " not found"@,
    }
}

impl ServiceWorkerError {
    /// The text that describes the error to a person.
    pub fn message(&self) -> (text: String)
        ensures
            text@ == error_message(self@),
    {
        match self {
            ServiceWorkerError::AlreadyRunning => String::from_str("Service is already running"),
            ServiceWorkerError::NotRunning => String::from_str("Service is not running"),
            ServiceWorkerError::Busy => String::from_str("Service is busy"),
            ServiceWorkerError::ScriptNotSpecified(which) => {
                let mut text = String::from_str("Script ");
                text.append(which.as_str());
                text.append(" not specified");
                text
            },
            ServiceWorkerError::ProcessSpawnFailed(cause) => {
                let mut text = String::from_str("IO error ");
                text.append(cause.as_str());
                text
            },
            ServiceWorkerError::ProcessWaitFailed => String::from_str(
                "Waiting for the process failed",
            ),
            ServiceWorkerError::KillFailed => String::from_str("Killing the process failed"),
            ServiceWorkerError::StartFailed(_) => String::from_str("Start script failed"),
            ServiceWorkerError::UnknownService(name) => {
                let mut text = String::from_str("Service ");
                text.append(name.as_str());
                text.append(" not found");
                text
            },
        }
    }
}

/// What a transition asks of the caller, or reports to it.
#[derive(Debug)]
pub enum Effect {
    /// The input matched nothing; the state is unchanged.
    Ignored,
    /// The state advanced; nothing to do.
    Noted,
    /// The operation is complete.
    Done,
    /// Spawn this script and report `Spawned` or `SpawnFailed`.
    Spawn(ServiceScript),
    /// Send the graceful termination signal to the process, then wait for
    /// exits until the deadline.
    Terminate { process: u64, deadline: u64 },
    /// Wait for exits until the deadline, then report `Expired`.
    Wait { deadline: u64 },
    /// Kill these processes and report their exits.
    Kill { start: Option<u64>, stop: Option<u64> },
}

impl View for Effect {
    type V = EffectModel;

    open spec fn view(&self) -> EffectModel {
        match self {
            Effect::Ignored => EffectModel::Ignored,
            Effect::Noted => EffectModel::Noted,
            Effect::Done => EffectModel::Done,
            Effect::Spawn(script) => EffectModel::Spawn(script@),
            Effect::Terminate { process, deadline } => EffectModel::Terminate {
                process: *process,
                deadline: *deadline,
            },
            Effect::Wait { deadline } => EffectModel::Wait { deadline: *deadline },
            Effect::Kill { start, stop } => EffectModel::Kill { start: *start, stop: *stop },
        }
    }
}

/// The model of what a transition returns.
pub open spec fn outcome_model(outcome: Result<Effect, ServiceWorkerError>) -> Result<
    EffectModel,
    ErrorModel,
> {
    match outcome {
        Ok(effect) => Ok(effect@),
        Err(error) => Err(error@),
    }
}

/// An input to the lifecycle of one service.
#[derive(Debug)]
pub enum Command {
    /// A client asks to start the service.
    Start,
    /// A client asks to stop the service within `timeout` milliseconds.
    Stop { timeout: u64, force: bool },
    /// The action handed out by `Start` or `Stop` runs as `process`.
    Spawned { process: u64 },
    /// The action handed out by `Start` or `Stop` could not be spawned.
    SpawnFailed { cause: String },
    /// The start action, running as `process`, is confirmed successful
    /// while the process lives on.
    Confirmed { process: u64 },
    /// The exit watcher saw `process` end with `code`.
    Exited { process: u64, code: i32 },
    /// The waiting stop looks at the clock.
    Expired,
    /// Waiting on `process` failed.
    WaitFailed { process: u64 },
    /// Killing `process` failed.
    KillFailed { process: u64 },
}

impl View for Command {
    type V = CommandModel;

    open spec fn view(&self) -> CommandModel {
        match self {
            Command::Start => CommandModel::Start,
            Command::Stop { timeout, force } => CommandModel::Stop {
                timeout: *timeout,
                force: *force,
            },
            Command::Spawned { process } => CommandModel::Spawned { process: *process },
            Command::SpawnFailed { cause } => CommandModel::SpawnFailed { cause: cause@ },
            Command::Confirmed { process } => CommandModel::Confirmed { process: *process },
            Command::Exited { process, code } => CommandModel::Exited {
                process: *process,
                code: *code,
            },
            Command::Expired => CommandModel::Expired,
            Command::WaitFailed { process } => CommandModel::WaitFailed { process: *process },
            Command::KillFailed { process } => CommandModel::KillFailed { process: *process },
        }
    }
}

/// How long a start action has to live, in milliseconds, before whoever
/// watches it reports the start as confirmed.
pub const START_GRACE_MS: u64 = 500;

/// A snapshot of one service: its status and how long it has had it.
#[derive(Debug, Clone, Copy, PartialEq, Eq, Structural)]
pub struct StatusReport {
    pub status: ServiceStatus,
    /// Milliseconds since the last status change.
    pub time_in_state: u64,
}

/// What a worker is, as a mathematical value.
pub struct WorkerModel {
    pub service: ServiceModel,
    pub state: Lifecycle,
}

impl WorkerModel {
    /// The worker after `command` at `now`, and what the call returns.
    pub open spec fn apply(self, command: CommandModel, now: u64) -> crate::lifecycle::Step {
        self.state.apply(self.service.start, self.service.stop, command, now)
    }

    /// The snapshot that `status` reports at `now`.
    pub open spec fn report(self, now: u64) -> StatusReport {
        StatusReport { status: self.state.status, time_in_state: self.state.time_in_state(now) }
    }
}

/// Whether the tracked handle is the given process.
fn handle_is(handle: Option<u64>, process: u64) -> (hit: bool)
    ensures
        hit == (handle == Some(process)),
{
    match handle {
        Some(p) => p == process,
        None => false,
    }
}

/// The moment `timeout` milliseconds after `now`, capped at the largest
/// representable time.
pub fn deadline(now: u64, timeout: u64) -> (at: u64)
    ensures
        at == crate::lifecycle::deadline_after(now, timeout),
{
    if timeout > u64::MAX - now {
        u64::MAX
    } else {
        now + timeout
    }
}

/// The supervisor of one service. It holds the definition, which never
/// changes, and the lifecycle state, which changes through the transitions
/// below and through nothing else. Its state is always one that can occur:
/// a stopped service tracks no process, and a service in transition tracks
/// one until the transition resolves.
#[derive(Debug)]
pub struct ServiceWorker {
    service: Service,
    state: Lifecycle,
}

impl View for ServiceWorker {
    type V = WorkerModel;

    closed spec fn view(&self) -> WorkerModel {
        WorkerModel { service: self.service@, state: self.state }
    }
}

impl ServiceWorker {
    #[verifier::type_invariant]
    spec fn well_formed(self) -> bool {
        self.state.wf()
    }

    /// A worker for `service`, stopped since `now`.
    pub fn new(service: Service, now: u64) -> (worker: Self)
        ensures
            worker@.service == service@,
            worker@.state == Lifecycle::initial(now),
    {
        ServiceWorker {
            service,
            state: Lifecycle {
                status: ServiceStatus::Stopped,
                since: now,
                start_process: None,
                stop_process: None,
                pending: Pending::Idle,
            },
        }
    }

    /// The status of the service and the time it has spent in it at `now`.
    pub fn status(&self, now: u64) -> (report: StatusReport)
        ensures
            report == self@.report(now),
            self@.state.wf(),
    {
        proof {
            use_type_invariant(self);
        }
        let time_in_state = if now >= self.state.since {
            now - self.state.since
        } else {
            0
        };
        StatusReport { status: self.state.status, time_in_state }
    }

    /// The lifecycle state of the service.
    pub fn lifecycle(&self) -> (state: Lifecycle)
        ensures
            state == self@.state,
            state.wf(),
    {
        proof {
            use_type_invariant(self);
        }
        self.state
    }

    /// The definition that the worker was made for.
    pub fn service(&self) -> (service: &Service)
        ensures
            service@ == self@.service,
    {
        &self.service
    }

    /// Asks to start the service. On success the start action is returned
    /// for the caller to spawn, and the worker awaits `spawned` or
    /// `spawn_failed`; the status changes only once the spawn is reported.
    pub fn start(&mut self) -> (outcome: Result<Effect, ServiceWorkerError>)
        ensures
            final(self)@.service == old(self)@.service,
            final(self)@.state == old(self)@.state.start(old(self)@.service.start).next,
            outcome_model(outcome) == old(self)@.state.start(old(self)@.service.start).outcome,
            final(self)@.state.wf(),
    {
        proof {
            use_type_invariant(&*self);
        }
        match self.state.status {
            ServiceStatus::Running => Err(ServiceWorkerError::AlreadyRunning),
            ServiceStatus::Starting => Err(ServiceWorkerError::Busy),
            ServiceStatus::Stopping => Err(ServiceWorkerError::Busy),
            ServiceStatus::Stopped => {
                match self.state.pending {
                    Pending::Idle => {},
                    _ => {
                        return Err(ServiceWorkerError::Busy);
                    },
                }
                match &self.service.scripts.start {
                    None => Err(ServiceWorkerError::ScriptNotSpecified(String::from_str("start"))),
                    Some(script) => {
                        let script = script.clone();
                        self.state = Lifecycle { pending: Pending::SpawnStart, ..self.state };
                        Ok(Effect::Spawn(script))
                    },
                }
            },
        }
    }

    /// Asks to stop the service within `timeout` milliseconds from `now`.
    ///
    /// With a stop action configured, the action is returned for the caller
    /// to spawn. Without one, the start process is to be signalled, and a
    /// service that tracks no process is stopped at once. On a service that
    /// is still `Stopping` after an earlier stop timed out, the wait is
    /// taken up again with the new deadline.
    pub fn stop(&mut self, timeout: u64, force: bool, now: u64) -> (outcome: Result<
        Effect,
        ServiceWorkerError,
    >)
        ensures
            final(self)@.service == old(self)@.service,
            final(self)@.state == old(self)@.state.stop(
                old(self)@.service.stop,
                timeout,
                force,
                now,
            ).next,
            outcome_model(outcome) == old(self)@.state.stop(
                old(self)@.service.stop,
                timeout,
                force,
                now,
            ).outcome,
            final(self)@.state.wf(),
    {
        proof {
            use_type_invariant(&*self);
        }
        let deadline = deadline(now, timeout);
        match self.state.status {
            ServiceStatus::Stopped => Err(ServiceWorkerError::NotRunning),
            ServiceStatus::Starting => Err(ServiceWorkerError::Busy),
            ServiceStatus::Running => {
                match self.state.pending {
                    Pending::Idle => {},
                    _ => {
                        return Err(ServiceWorkerError::Busy);
                    },
                }
                match &self.service.scripts.stop {
                    Some(script) => {
                        let script = script.clone();
                        self.state = Lifecycle {
                            pending: Pending::SpawnStop { deadline, force },
                            ..self.state
                        };
                        Ok(Effect::Spawn(script))
                    },
                    None => match self.state.start_process {
                        Some(process) => {
                            self.state = Lifecycle {
                                status: ServiceStatus::Stopping,
                                since: now,
                                pending: Pending::Wait { deadline, force },
                                ..self.state
                            };
                            Ok(Effect::Terminate { process, deadline })
                        },
                        None => {
                            self.state = Lifecycle {
                                status: ServiceStatus::Stopped,
                                since: now,
                                ..self.state
                            };
                            Ok(Effect::Done)
                        },
                    },
                }
            },
            ServiceStatus::Stopping => {
                match self.state.pending {
                    Pending::Idle => {},
                    _ => {
                        return Err(ServiceWorkerError::Busy);
                    },
                }
                self.state = Lifecycle { pending: Pending::Wait { deadline, force }, ..self.state };
                Ok(Effect::Wait { deadline })
            },
        }
    }

    /// Reports that the action handed out by `start` or `stop` runs as
    /// `process`. A start becomes `Starting` and is complete; a stop becomes
    /// `Stopping` and waits.
    pub fn spawned(&mut self, process: u64, now: u64) -> (outcome: Result<
        Effect,
        ServiceWorkerError,
    >)
        ensures
            final(self)@.service == old(self)@.service,
            final(self)@.state == old(self)@.state.spawned(process, now).next,
            outcome_model(outcome) == old(self)@.state.spawned(process, now).outcome,
            final(self)@.state.wf(),
    {
        proof {
            use_type_invariant(&*self);
        }
        match self.state.pending {
            Pending::SpawnStart => {
                self.state = Lifecycle {
                    status: ServiceStatus::Starting,
                    since: now,
                    start_process: Some(process),
                    pending: Pending::Idle,
                    ..self.state
                };
                Ok(Effect::Done)
            },
            Pending::SpawnStop { deadline, force } => {
                self.state = Lifecycle {
                    status: ServiceStatus::Stopping,
                    since: now,
                    stop_process: Some(process),
                    pending: Pending::Wait { deadline, force },
                    ..self.state
                };
                Ok(Effect::Wait { deadline })
            },
            _ => Ok(Effect::Ignored),
        }
    }

    /// Reports that the action handed out by `start` or `stop` could not be
    /// spawned. The operation ends with `ProcessSpawnFailed` and the status
    /// is what it was before the operation.
    pub fn spawn_failed(&mut self, cause: String) -> (outcome: Result<Effect, ServiceWorkerError>)
        ensures
            final(self)@.service == old(self)@.service,
            final(self)@.state == old(self)@.state.spawn_failed(cause@).next,
            outcome_model(outcome) == old(self)@.state.spawn_failed(cause@).outcome,
            final(self)@.state.wf(),
    {
        proof {
            use_type_invariant(&*self);
        }
        match self.state.pending {
            Pending::SpawnStart | Pending::SpawnStop { .. } => {
                self.state = Lifecycle { pending: Pending::Idle, ..self.state };
                Err(ServiceWorkerError::ProcessSpawnFailed(cause))
            },
            _ => Ok(Effect::Ignored),
        }
    }

    /// Reports that the start action, running as `process`, is confirmed
    /// successful while the process lives on: a `Starting` service that
    /// tracks the process becomes `Running` and keeps tracking it.
    pub fn confirmed(&mut self, process: u64, now: u64) -> (outcome: Result<
        Effect,
        ServiceWorkerError,
    >)
        ensures
            final(self)@.service == old(self)@.service,
            final(self)@.state == old(self)@.state.confirmed(process, now).next,
            outcome_model(outcome) == old(self)@.state.confirmed(process, now).outcome,
            final(self)@.state.wf(),
    {
        proof {
            use_type_invariant(&*self);
        }
        let known = handle_is(self.state.start_process, process);
        match self.state.status {
            ServiceStatus::Starting => {
                if known {
                    self.state = Lifecycle {
                        status: ServiceStatus::Running,
                        since: now,
                        ..self.state
                    };
                    Ok(Effect::Noted)
                } else {
                    Ok(Effect::Ignored)
                }
            },
            _ => Ok(Effect::Ignored),
        }
    }

    /// Reports that `process` ended with `code`. Every handle on the process
    /// is cleared. The start action ending with code 0 makes a `Starting`
    /// service `Running`; a nonzero code makes it `Stopped` and is returned
    /// as `StartFailed`. A `Stopping` service whose last tracked process
    /// ended is `Stopped`, which completes the stop.
    pub fn exited(&mut self, process: u64, code: i32, now: u64) -> (outcome: Result<
        Effect,
        ServiceWorkerError,
    >)
        ensures
            final(self)@.service == old(self)@.service,
            final(self)@.state == old(self)@.state.exited(process, code, now).next,
            outcome_model(outcome) == old(self)@.state.exited(process, code, now).outcome,
            final(self)@.state.wf(),
    {
        proof {
            use_type_invariant(&*self);
        }
        let hit_start = handle_is(self.state.start_process, process);
        let hit_stop = handle_is(self.state.stop_process, process);
        if !hit_start && !hit_stop {
            return Ok(Effect::Ignored);
        }
        let cleared = Lifecycle {
            start_process: if hit_start {
                None
            } else {
                self.state.start_process
            },
            stop_process: if hit_stop {
                None
            } else {
                self.state.stop_process
            },
            ..self.state
        };
        assert(cleared == self.state.without(process));
        match self.state.status {
            ServiceStatus::Starting => {
                if code == 0 {
                    self.state = Lifecycle {
                        status: ServiceStatus::Running,
                        since: now,
                        ..cleared
                    };
                    Ok(Effect::Noted)
                } else {
                    self.state = Lifecycle {
                        status: ServiceStatus::Stopped,
                        since: now,
                        ..cleared
                    };
                    Err(ServiceWorkerError::StartFailed(code))
                }
            },
            ServiceStatus::Running => {
                let idle = match self.state.pending {
                    Pending::Idle => true,
                    _ => false,
                };
                if idle && code != 0 {
                    self.state = Lifecycle {
                        status: ServiceStatus::Stopped,
                        since: now,
                        ..cleared
                    };
                    Err(ServiceWorkerError::StartFailed(code))
                } else {
                    self.state = cleared;
                    Ok(Effect::Noted)
                }
            },
            ServiceStatus::Stopping => {
                if cleared.start_process.is_none() && cleared.stop_process.is_none() {
                    self.state = Lifecycle {
                        status: ServiceStatus::Stopped,
                        since: now,
                        pending: Pending::Idle,
                        ..cleared
                    };
                    Ok(Effect::Done)
                } else {
                    self.state = cleared;
                    Ok(Effect::Noted)
                }
            },
            ServiceStatus::Stopped => {
                self.state = cleared;
                Ok(Effect::Noted)
            },
        }
    }

    /// The waiting stop looks at the clock. Before the deadline nothing
    /// changes. From the deadline on, a forced stop returns the processes to
    /// kill and stays `Stopping` until their exits are reported; an unforced
    /// stop ends with `Busy`, kills nothing and leaves the service
    /// `Stopping`.
    pub fn expired(&mut self, now: u64) -> (outcome: Result<Effect, ServiceWorkerError>)
        ensures
            final(self)@.service == old(self)@.service,
            final(self)@.state == old(self)@.state.expired(now).next,
            outcome_model(outcome) == old(self)@.state.expired(now).outcome,
            final(self)@.state.wf(),
    {
        proof {
            use_type_invariant(&*self);
        }
        match self.state.pending {
            Pending::Wait { deadline, force } => {
                if now < deadline {
                    Ok(Effect::Wait { deadline })
                } else if force {
                    let start = self.state.start_process;
                    let stop = self.state.stop_process;
                    self.state = Lifecycle { pending: Pending::Kill, ..self.state };
                    Ok(Effect::Kill { start, stop })
                } else {
                    self.state = Lifecycle { pending: Pending::Idle, ..self.state };
                    Err(ServiceWorkerError::Busy)
                }
            },
            _ => Ok(Effect::Ignored),
        }
    }

    /// Reports that waiting on `process` failed. Where the process is
    /// tracked, the service is forced to `Stopped` and the error is
    /// `ProcessWaitFailed`.
    pub fn wait_failed(&mut self, process: u64, now: u64) -> (outcome: Result<
        Effect,
        ServiceWorkerError,
    >)
        ensures
            final(self)@.service == old(self)@.service,
            final(self)@.state == old(self)@.state.failed(
                process,
                ErrorModel::ProcessWaitFailed,
                now,
            ).next,
            outcome_model(outcome) == old(self)@.state.failed(
                process,
                ErrorModel::ProcessWaitFailed,
                now,
            ).outcome,
            final(self)@.state.wf(),
    {
        if self.force_stopped(process, now) {
            Err(ServiceWorkerError::ProcessWaitFailed)
        } else {
            Ok(Effect::Ignored)
        }
    }

    /// Reports that killing `process` failed. Where the process is tracked,
    /// the service is forced to `Stopped` and the error is `KillFailed`.
    pub fn kill_failed(&mut self, process: u64, now: u64) -> (outcome: Result<
        Effect,
        ServiceWorkerError,
    >)
        ensures
            final(self)@.service == old(self)@.service,
            final(self)@.state == old(self)@.state.failed(process, ErrorModel::KillFailed, now).next,
            outcome_model(outcome) == old(self)@.state.failed(
                process,
                ErrorModel::KillFailed,
                now,
            ).outcome,
            final(self)@.state.wf(),
    {
        if self.force_stopped(process, now) {
            Err(ServiceWorkerError::KillFailed)
        } else {
            Ok(Effect::Ignored)
        }
    }

    /// Forces the service to `Stopped` if it tracks `process`.
    fn force_stopped(&mut self, process: u64, now: u64) -> (forced: bool)
        ensures
            final(self)@.service == old(self)@.service,
            forced == old(self)@.state.tracks(process),
            final(self)@.state == if forced {
                Lifecycle::initial(now)
            } else {
                old(self)@.state
            },
            final(self)@.state.wf(),
    {
        proof {
            use_type_invariant(&*self);
        }
        let hit_start = handle_is(self.state.start_process, process);
        let hit_stop = handle_is(self.state.stop_process, process);
        if hit_start || hit_stop {
            self.state = Lifecycle {
                status: ServiceStatus::Stopped,
                since: now,
                start_process: None,
                stop_process: None,
                pending: Pending::Idle,
            };
            true
        } else {
            false
        }
    }

    /// Takes one input: the transition that `command` selects.
    pub fn apply(&mut self, command: Command, now: u64) -> (outcome: Result<
        Effect,
        ServiceWorkerError,
    >)
        ensures
            final(self)@.service == old(self)@.service,
            final(self)@.state == old(self)@.apply(command@, now).next,
            outcome_model(outcome) == old(self)@.apply(command@, now).outcome,
            final(self)@.state.wf(),
    {
        match command {
            Command::Start => self.start(),
            Command::Stop { timeout, force } => self.stop(timeout, force, now),
            Command::Spawned { process } => self.spawned(process, now),
            Command::SpawnFailed { cause } => self.spawn_failed(cause),
            Command::Confirmed { process } => self.confirmed(process, now),
            Command::Exited { process, code } => self.exited(process, code, now),
            Command::Expired => self.expired(now),
            Command::WaitFailed { process } => self.wait_failed(process, now),
            Command::KillFailed { process } => self.kill_failed(process, now),
        }
    }
}

} // verus!
