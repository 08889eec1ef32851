//! The lifecycle of one service as a transition system over plain values.
//!
//! A service is `Stopped`, `Starting`, `Running` or `Stopping`. It tracks at
//! most one process for the start direction and at most one for the stop
//! direction, and at most one operation is in flight at any instant. Every
//! transition is a total function from the state and an input to the next
//! state and an outcome: where the supervisor has to act on the operating
//! system, the outcome names the action and the caller performs it.

use vstd::prelude::*;
use crate::service::ScriptModel;
use crate::service_worker::ServiceStatus;

verus! {

/// The operation in flight on one service.
#[derive(Debug, Clone, Copy, PartialEq, Eq, Structural)]
pub enum Pending {
    /// No operation is in flight.
    Idle,
    /// `start` handed out the start action; the result of the spawn is awaited.
    SpawnStart,
    /// `stop` handed out the stop action; the result of the spawn is awaited.
    SpawnStop { deadline: u64, force: bool },
    /// `stop` waits for the tracked processes to exit.
    Wait { deadline: u64, force: bool },
    /// The deadline passed with `force`; the kill was handed out and the
    /// exits of the tracked processes are awaited.
    Kill,
}

/// The mutable state of one service.
#[derive(Debug, Clone, Copy)]
pub struct Lifecycle {
    pub status: ServiceStatus,
    /// Time of the last status change, in milliseconds.
    pub since: u64,
    pub start_process: Option<u64>,
    pub stop_process: Option<u64>,
    pub pending: Pending,
}

/// What a transition asks of the caller, or reports to it.
pub enum EffectModel {
    /// The input matched nothing; the state is unchanged.
    Ignored,
    /// The state advanced; nothing to do.
    Noted,
    /// The operation is complete.
    Done,
    /// Spawn this script and report `Spawned` or `SpawnFailed`.
    Spawn(ScriptModel),
    /// Send the graceful termination signal to the process, then wait for
    /// exits until the deadline.
    Terminate { process: u64, deadline: u64 },
    /// Wait for exits until the deadline, then report `Expired`.
    Wait { deadline: u64 },
    /// Kill these processes and report their exits.
    Kill { start: Option<u64>, stop: Option<u64> },
}

/// Why an operation was refused or failed.
pub enum ErrorModel {
    AlreadyRunning,
    NotRunning,
    Busy,
    ScriptNotSpecified(Seq<char>),
    ProcessSpawnFailed(Seq<char>),
    ProcessWaitFailed,
    KillFailed,
    StartFailed(i32),
    UnknownService(Seq<char>),
}

/// The result of one transition.
pub struct Step {
    pub next: Lifecycle,
    pub outcome: Result<EffectModel, ErrorModel>,
}

/// An input to the lifecycle of one service.
pub enum CommandModel {
    Start,
    Stop { timeout: u64, force: bool },
    Spawned { process: u64 },
    SpawnFailed { cause: Seq<char> },
    Confirmed { process: u64 },
    Exited { process: u64, code: i32 },
    Expired,
    WaitFailed { process: u64 },
    KillFailed { process: u64 },
}

/// The moment `timeout` milliseconds after `now`, capped at the largest
/// representable time.
pub open spec fn deadline_after(now: u64, timeout: u64) -> u64 {
    if now + timeout > u64::MAX {
        u64::MAX
    } else {
        (now + timeout) as u64
    }
}

impl Lifecycle {
    /// The state in which every service begins.
    pub open spec fn initial(now: u64) -> Lifecycle {
        Lifecycle {
            status: ServiceStatus::Stopped,
            since: now,
            start_process: None,
            stop_process: None,
            pending: Pending::Idle,
        }
    }

    /// Which states can occur: an idle service tracks nothing, a service in
    /// transition tracks a process until the state resolves, and each
    /// operation is in flight only in the status it belongs to.
    pub open spec fn wf(self) -> bool {
        match self.status {
            ServiceStatus::Stopped => {
                &&& self.start_process is None
                &&& self.stop_process is None
                &&& (self.pending is Idle || self.pending is SpawnStart)
            },
            ServiceStatus::Starting => {
                &&& self.start_process is Some
                &&& self.stop_process is None
                &&& self.pending is Idle
            },
            ServiceStatus::Running => {
                &&& self.stop_process is None
                &&& (self.pending is Idle || self.pending is SpawnStop)
            },
            ServiceStatus::Stopping => {
                &&& (self.start_process is Some || self.stop_process is Some)
                &&& (self.pending is Idle || self.pending is Wait || self.pending is Kill)
            },
        }
    }

    /// Whether the process is one of the tracked ones.
    pub open spec fn tracks(self, process: u64) -> bool {
        self.start_process == Some(process) || self.stop_process == Some(process)
    }

    /// The state with every handle on the process cleared.
    pub open spec fn without(self, process: u64) -> Lifecycle {
        Lifecycle {
            start_process: if self.start_process == Some(process) {
                None
            } else {
                self.start_process
            },
            stop_process: if self.stop_process == Some(process) {
                None
            } else {
                self.stop_process
            },
            ..self
        }
    }

    /// How long the service has been in its status at `now`.
    pub open spec fn time_in_state(self, now: u64) -> u64 {
        if now >= self.since {
            (now - self.since) as u64
        } else {
            0
        }
    }

    /// The input is refused: the state stays as it is.
    pub open spec fn refuse(self, error: ErrorModel) -> Step {
        Step { next: self, outcome: Err(error) }
    }

    /// The input matches nothing: the state stays as it is.
    pub open spec fn ignore(self) -> Step {
        Step { next: self, outcome: Ok(EffectModel::Ignored) }
    }

    /// `start`: legal only from `Stopped` with no operation in flight and a
    /// start action configured. The status stays `Stopped` until the spawn
    /// is reported.
    pub open spec fn start(self, script: Option<ScriptModel>) -> Step {
        match self.status {
            ServiceStatus::Running => self.refuse(ErrorModel::AlreadyRunning),
            ServiceStatus::Starting => self.refuse(ErrorModel::Busy),
            ServiceStatus::Stopping => self.refuse(ErrorModel::Busy),
            ServiceStatus::Stopped => {
                if !(self.pending is Idle) {
                    self.refuse(ErrorModel::Busy)
                } else {
                    match script {
                        None => self.refuse(ErrorModel::ScriptNotSpecified("start"@)),
                        Some(s) => Step {
                            next: Lifecycle { pending: Pending::SpawnStart, ..self },
                            outcome: Ok(EffectModel::Spawn(s)),
                        },
                    }
                }
            },
        }
    }

    /// `stop`: legal from `Running`, and from `Stopping` once an earlier
    /// stop has timed out, in both cases with no operation in flight.
    pub open spec fn stop(self, script: Option<ScriptModel>, timeout: u64, force: bool, now: u64) -> Step {
        let deadline = deadline_after(now, timeout);
        match self.status {
            ServiceStatus::Stopped => self.refuse(ErrorModel::NotRunning),
            ServiceStatus::Starting => self.refuse(ErrorModel::Busy),
            ServiceStatus::Running => {
                if !(self.pending is Idle) {
                    self.refuse(ErrorModel::Busy)
                } else {
                    match script {
                        Some(s) => Step {
                            next: Lifecycle {
                                pending: Pending::SpawnStop { deadline, force },
                                ..self
                            },
                            outcome: Ok(EffectModel::Spawn(s)),
                        },
                        None => match self.start_process {
                            Some(process) => Step {
                                next: Lifecycle {
                                    status: ServiceStatus::Stopping,
                                    since: now,
                                    pending: Pending::Wait { deadline, force },
                                    ..self
                                },
                                outcome: Ok(EffectModel::Terminate { process, deadline }),
                            },
                            None => Step {
                                next: Lifecycle {
                                    status: ServiceStatus::Stopped,
                                    since: now,
                                    ..self
                                },
                                outcome: Ok(EffectModel::Done),
                            },
                        },
                    }
                }
            },
            ServiceStatus::Stopping => {
                if !(self.pending is Idle) {
                    self.refuse(ErrorModel::Busy)
                } else {
                    Step {
                        next: Lifecycle { pending: Pending::Wait { deadline, force }, ..self },
                        outcome: Ok(EffectModel::Wait { deadline }),
                    }
                }
            },
        }
    }

    /// The action handed out by `start` or `stop` was spawned as `process`.
    pub open spec fn spawned(self, process: u64, now: u64) -> Step {
        match self.pending {
            Pending::SpawnStart => Step {
                next: Lifecycle {
                    status: ServiceStatus::Starting,
                    since: now,
                    start_process: Some(process),
                    pending: Pending::Idle,
                    ..self
                },
                outcome: Ok(EffectModel::Done),
            },
            Pending::SpawnStop { deadline, force } => Step {
                next: Lifecycle {
                    status: ServiceStatus::Stopping,
                    since: now,
                    stop_process: Some(process),
                    pending: Pending::Wait { deadline, force },
                    ..self
                },
                outcome: Ok(EffectModel::Wait { deadline }),
            },
            _ => self.ignore(),
        }
    }

    /// The action handed out by `start` or `stop` could not be spawned: the
    /// operation ends and nothing else changes.
    pub open spec fn spawn_failed(self, cause: Seq<char>) -> Step {
        if self.pending is SpawnStart || self.pending is SpawnStop {
            Step {
                next: Lifecycle { pending: Pending::Idle, ..self },
                outcome: Err(ErrorModel::ProcessSpawnFailed(cause)),
            }
        } else {
            self.ignore()
        }
    }

    /// The start action, running as `process`, is confirmed successful while
    /// the process lives on.
    pub open spec fn confirmed(self, process: u64, now: u64) -> Step {
        if self.status is Starting && self.start_process == Some(process) {
            Step {
                next: Lifecycle { status: ServiceStatus::Running, since: now, ..self },
                outcome: Ok(EffectModel::Noted),
            }
        } else {
            self.ignore()
        }
    }

    /// The exit watcher saw `process` end with `code`. A process that is not
    /// tracked changes nothing, so a second notice of one exit is harmless.
    pub open spec fn exited(self, process: u64, code: i32, now: u64) -> Step {
        if !self.tracks(process) {
            self.ignore()
        } else {
            let cleared = self.without(process);
            match self.status {
                ServiceStatus::Starting => {
                    if code == 0 {
                        Step {
                            next: Lifecycle {
                                status: ServiceStatus::Running,
                                since: now,
                                ..cleared
                            },
                            outcome: Ok(EffectModel::Noted),
                        }
                    } else {
                        Step {
                            next: Lifecycle {
                                status: ServiceStatus::Stopped,
                                since: now,
                                ..cleared
                            },
                            outcome: Err(ErrorModel::StartFailed(code)),
                        }
                    }
                },
                ServiceStatus::Running => {
                    if self.pending is Idle && code != 0 {
                        Step {
                            next: Lifecycle {
                                status: ServiceStatus::Stopped,
                                since: now,
                                ..cleared
                            },
                            outcome: Err(ErrorModel::StartFailed(code)),
                        }
                    } else {
                        Step { next: cleared, outcome: Ok(EffectModel::Noted) }
                    }
                },
                ServiceStatus::Stopping => {
                    if cleared.start_process is None && cleared.stop_process is None {
                        Step {
                            next: Lifecycle {
                                status: ServiceStatus::Stopped,
                                since: now,
                                pending: Pending::Idle,
                                ..cleared
                            },
                            outcome: Ok(EffectModel::Done),
                        }
                    } else {
                        Step { next: cleared, outcome: Ok(EffectModel::Noted) }
                    }
                },
                ServiceStatus::Stopped => Step { next: cleared, outcome: Ok(EffectModel::Noted) },
            }
        }
    }

    /// The waiting `stop` looks at the clock. Before the deadline it keeps
    /// waiting. At the deadline a forced stop hands out the kill, and an
    /// unforced one ends in `Busy` with everything left running.
    pub open spec fn expired(self, now: u64) -> Step {
        match self.pending {
            Pending::Wait { deadline, force } => {
                if now < deadline {
                    Step { next: self, outcome: Ok(EffectModel::Wait { deadline }) }
                } else if force {
                    Step {
                        next: Lifecycle { pending: Pending::Kill, ..self },
                        outcome: Ok(
                            EffectModel::Kill {
                                start: self.start_process,
                                stop: self.stop_process,
                            },
                        ),
                    }
                } else {
                    Step {
                        next: Lifecycle { pending: Pending::Idle, ..self },
                        outcome: Err(ErrorModel::Busy),
                    }
                }
            },
            _ => self.ignore(),
        }
    }

    /// Observing or terminating `process` failed at the level of the
    /// operating system: the service is forced to `Stopped`.
    pub open spec fn failed(self, process: u64, error: ErrorModel, now: u64) -> Step {
        if !self.tracks(process) {
            self.ignore()
        } else {
            Step { next: Lifecycle::initial(now), outcome: Err(error) }
        }
    }

    /// The transition that a command selects.
    pub open spec fn apply(
        self,
        start_script: Option<ScriptModel>,
        stop_script: Option<ScriptModel>,
        command: CommandModel,
        now: u64,
    ) -> Step {
        match command {
            CommandModel::Start => self.start(start_script),
            CommandModel::Stop { timeout, force } => self.stop(stop_script, timeout, force, now),
            CommandModel::Spawned { process } => self.spawned(process, now),
            CommandModel::SpawnFailed { cause } => self.spawn_failed(cause),
            CommandModel::Confirmed { process } => self.confirmed(process, now),
            CommandModel::Exited { process, code } => self.exited(process, code, now),
            CommandModel::Expired => self.expired(now),
            CommandModel::WaitFailed { process } => self.failed(
                process,
                ErrorModel::ProcessWaitFailed,
                now,
            ),
            CommandModel::KillFailed { process } => self.failed(
                process,
                ErrorModel::KillFailed,
                now,
            ),
        }
    }
}

} // verus!
