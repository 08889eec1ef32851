//! The control server's part between the transport and the registry.
//!
//! A payload is decoded into a request, the request is resolved to one
//! registry call, and what the registry returns becomes either the response
//! or the action that the caller has to perform before the request can be
//! answered. Nothing here decides what a service may do: that is the
//! registry's and the worker's business.

use vstd::prelude::*;
use vstd::string::StringExecFns;
use crate::lifecycle::{CommandModel, EffectModel, ErrorModel};
use crate::protocol::{
    decode_request,
    ErrorKind,
    Operation,
    ProtocolError,
    Request,
    RequestModel,
    Response,
    ResponseModel,
};
use crate::registry::{Registry, RegistryModel};
use crate::service_worker::{
    error_message,
    outcome_model,
    Command,
    Effect,
    ServiceWorkerError,
};

verus! {

/// The time a stop may take where the request names none, in milliseconds.
pub const DEFAULT_STOP_TIMEOUT_MS: u64 = 10000;

/// What the control server does next for a request.
#[derive(Debug)]
pub enum Reply {
    /// Send the response; the request is answered.
    Respond(Response),
    /// Send the response and close the connection: the payload was no
    /// request.
    Reject(Response),
    /// Perform the action and hand what happened to `advance`; where the
    /// effect is `Noted`, go on waiting.
    Perform(Effect),
}

/// What a reply is, as a mathematical value.
pub enum ReplyModel {
    Respond(ResponseModel),
    Reject(ResponseModel),
    Perform(EffectModel),
}

impl View for Reply {
    type V = ReplyModel;

    open spec fn view(&self) -> ReplyModel {
        match self {
            Reply::Respond(response) => ReplyModel::Respond(response@),
            Reply::Reject(response) => ReplyModel::Reject(response@),
            Reply::Perform(effect) => ReplyModel::Perform(effect@),
        }
    }
}

/// What a request leaves behind: the registry after it, and the reply.
pub struct Handled {
    pub registry: RegistryModel,
    pub reply: ReplyModel,
}

/// The kind under which an error is reported.
pub open spec fn error_kind(error: ErrorModel) -> ErrorKind {
    match error {
        ErrorModel::AlreadyRunning => ErrorKind::AlreadyRunning,
        ErrorModel::NotRunning => ErrorKind::NotRunning,
        ErrorModel::Busy => ErrorKind::Busy,
        ErrorModel::ScriptNotSpecified(_) => ErrorKind::ScriptNotSpecified,
        ErrorModel::ProcessSpawnFailed(_) => ErrorKind::ProcessSpawnFailed,
        ErrorModel::ProcessWaitFailed => ErrorKind::ProcessWaitFailed,
        ErrorModel::KillFailed => ErrorKind::KillFailed,
        ErrorModel::StartFailed(_) => ErrorKind::StartFailed,
        ErrorModel::UnknownService(_) => ErrorKind::UnknownService,
    }
}

/// The response that reports an error of a service.
pub open spec fn error_response(error: ErrorModel) -> ResponseModel {
    ResponseModel::Error { kind: error_kind(error), message: error_message(error) }
}

/// The text that says why a payload is no request.
pub open spec fn protocol_message(error: ProtocolError) -> Seq<char> {
    match error {
        ProtocolError::Truncated => "Request is truncated"@,
        ProtocolError::UnknownOperation => "Unknown operation"@,
        ProtocolError::UnknownFlag => "Unknown flag"@,
        ProtocolError::InvalidText => "Service name is not valid UTF-8"@,
        ProtocolError::Oversized => "Request is too long"@,
    }
}

/// The response that reports a payload that is no request.
pub open spec fn protocol_response(error: ProtocolError) -> ResponseModel {
    ResponseModel::Error { kind: ErrorKind::ProtocolError, message: protocol_message(error) }
}

/// The input that a request stands for; a request that only reads has none.
/// A stop without a timeout gets the default, and without a force flag it
/// is not forced.
pub open spec fn request_command(request: RequestModel) -> Option<CommandModel> {
    match request.op {
        Operation::Start => Some(CommandModel::Start),
        Operation::Stop => Some(
            CommandModel::Stop {
                timeout: match request.stop_timeout_ms {
                    Some(t) => t,
                    None => DEFAULT_STOP_TIMEOUT_MS,
                },
                force: match request.force {
                    Some(f) => f,
                    None => false,
                },
            },
        ),
        Operation::Status => None,
        Operation::List => None,
    }
}

/// The response that shows the service `name` at `now`.
pub open spec fn status_response(registry: RegistryModel, name: Seq<char>, now: u64) -> ResponseModel {
    match registry.report(name, now) {
        Some(report) => ResponseModel::Status(report),
        None => error_response(ErrorModel::UnknownService(name)),
    }
}

/// What follows from the outcome of a registry call made for a request on
/// `name`: an error is the response; an operation that is complete, or that
/// is no longer there to take the input, is answered with the status of the
/// service; anything else is for the caller to perform.
pub open spec fn reply_to(
    registry: RegistryModel,
    name: Seq<char>,
    outcome: Result<EffectModel, ErrorModel>,
    now: u64,
) -> ReplyModel {
    match outcome {
        Err(error) => ReplyModel::Respond(error_response(error)),
        Ok(EffectModel::Done) => ReplyModel::Respond(status_response(registry, name, now)),
        Ok(EffectModel::Ignored) => ReplyModel::Respond(status_response(registry, name, now)),
        Ok(effect) => ReplyModel::Perform(effect),
    }
}

/// One input for the service `name` on behalf of a request, and the reply
/// that follows from it.
pub open spec fn advanced(
    registry: RegistryModel,
    name: Seq<char>,
    command: CommandModel,
    now: u64,
) -> Handled {
    let routed = registry.operate(name, command, now);
    Handled { registry: routed.next, reply: reply_to(routed.next, name, routed.outcome, now) }
}

/// What a request does: `status` and `list` read the registry and are
/// answered at once; `start` and `stop` are one input for the service.
pub open spec fn handled(registry: RegistryModel, request: RequestModel, now: u64) -> Handled {
    match request_command(request) {
        Some(command) => advanced(registry, request.service, command, now),
        None => Handled {
            registry,
            reply: ReplyModel::Respond(
                if request.op is List {
                    ResponseModel::List(registry.list(now))
                } else {
                    status_response(registry, request.service, now)
                },
            ),
        },
    }
}

/// What a payload does: one that is no request is rejected and changes
/// nothing; a request is handled.
pub open spec fn received(registry: RegistryModel, payload: Seq<u8>, now: u64) -> Handled {
    match decode_request(payload) {
        Err(error) => Handled { registry, reply: ReplyModel::Reject(protocol_response(error)) },
        Ok(request) => handled(registry, request, now),
    }
}

/// The request that a payload carries, if it carries one.
pub open spec fn carried(payload: Seq<u8>) -> Option<RequestModel> {
    match decode_request(payload) {
        Err(_) => None,
        Ok(request) => Some(request),
    }
}

/// What `receive` returns: the reply, and the request where the payload
/// carried one.
#[derive(Debug)]
pub struct Received {
    pub reply: Reply,
    pub request: Option<Request>,
}

/// The model of an optional request.
pub open spec fn request_option_model(request: Option<Request>) -> Option<RequestModel> {
    match request {
        Some(r) => Some(r@),
        None => None,
    }
}

/// The kind under which an error is reported.
pub fn kind_of_error(error: &ServiceWorkerError) -> (kind: ErrorKind)
    ensures
        kind == error_kind(error@),
{
    match error {
        ServiceWorkerError::AlreadyRunning => ErrorKind::AlreadyRunning,
        ServiceWorkerError::NotRunning => ErrorKind::NotRunning,
        ServiceWorkerError::Busy => ErrorKind::Busy,
        ServiceWorkerError::ScriptNotSpecified(_) => ErrorKind::ScriptNotSpecified,
        ServiceWorkerError::ProcessSpawnFailed(_) => ErrorKind::ProcessSpawnFailed,
        ServiceWorkerError::ProcessWaitFailed => ErrorKind::ProcessWaitFailed,
        ServiceWorkerError::KillFailed => ErrorKind::KillFailed,
        ServiceWorkerError::StartFailed(_) => ErrorKind::StartFailed,
        ServiceWorkerError::UnknownService(_) => ErrorKind::UnknownService,
    }
}

/// The response that reports an error of a service.
pub fn respond_error(error: &ServiceWorkerError) -> (response: Response)
    ensures
        response@ == error_response(error@),
{
    Response::Error { kind: kind_of_error(error), message: error.message() }
}

/// The response that reports a payload that is no request.
pub fn respond_malformed(error: ProtocolError) -> (response: Response)
    ensures
        response@ == protocol_response(error),
{
    let message = match error {
        ProtocolError::Truncated => String::from_str("Request is truncated"),
        ProtocolError::UnknownOperation => String::from_str("Unknown operation"),
        ProtocolError::UnknownFlag => String::from_str("Unknown flag"),
        ProtocolError::InvalidText => String::from_str("Service name is not valid UTF-8"),
        ProtocolError::Oversized => String::from_str("Request is too long"),
    };
    Response::Error { kind: ErrorKind::ProtocolError, message }
}

/// The input that a request stands for, if it stands for one.
pub fn command_of(request: &Request) -> (command: Option<Command>)
    ensures
        match command {
            Some(c) => request_command(request@) == Some(c@),
            None => request_command(request@) is None,
        },
{
    match request.op {
        Operation::Start => Some(Command::Start),
        Operation::Stop => {
            let timeout = match request.stop_timeout_ms {
                Some(t) => t,
                None => DEFAULT_STOP_TIMEOUT_MS,
            };
            let force = match request.force {
                Some(f) => f,
                None => false,
            };
            Some(Command::Stop { timeout, force })
        },
        Operation::Status => None,
        Operation::List => None,
    }
}

/// The response that shows the service `name` at `now`.
pub fn respond_status(registry: &Registry, name: &str, now: u64) -> (response: Response)
    ensures
        response@ == status_response(registry@, name@, now),
{
    match registry.status(name, now) {
        Some(report) => Response::Status(report),
        None => respond_error(&ServiceWorkerError::UnknownService(name.to_owned())),
    }
}

/// Turns the outcome of a registry call made for a request on `name` into
/// the reply: the response, or the action to perform.
pub fn reply(
    registry: &Registry,
    name: &str,
    outcome: Result<Effect, ServiceWorkerError>,
    now: u64,
) -> (reply: Reply)
    ensures
        reply@ == reply_to(registry@, name@, outcome_model(outcome), now),
{
    match outcome {
        Err(error) => Reply::Respond(respond_error(&error)),
        Ok(Effect::Done) => Reply::Respond(respond_status(registry, name, now)),
        Ok(Effect::Ignored) => Reply::Respond(respond_status(registry, name, now)),
        Ok(effect) => Reply::Perform(effect),
    }
}

/// Hands one input to the service `name` on behalf of a request and says
/// what follows.
pub fn advance(registry: &mut Registry, name: &str, command: Command, now: u64) -> (reply: Reply)
    ensures
        final(registry)@ == advanced(old(registry)@, name@, command@, now).registry,
        reply@ == advanced(old(registry)@, name@, command@, now).reply,
        final(registry)@.wf(),
{
    let outcome = registry.operate(name, command, now);
    self::reply(registry, name, outcome, now)
}

/// Handles one request: exactly one registry call, and its result as the
/// reply. `status` and `list` are answered at once and change nothing.
pub fn handle(registry: &mut Registry, request: &Request, now: u64) -> (reply: Reply)
    ensures
        final(registry)@ == handled(old(registry)@, request@, now).registry,
        reply@ == handled(old(registry)@, request@, now).reply,
{
    match command_of(request) {
        Some(command) => advance(registry, request.service.as_str(), command, now),
        None => match request.op {
            Operation::List => Reply::Respond(Response::List(registry.list(now))),
            _ => Reply::Respond(respond_status(registry, request.service.as_str(), now)),
        },
    }
}

/// Takes one payload from a connection: a payload that is no request is
/// answered with a protocol error, after which the connection is to be
/// closed; a request is handled.
pub fn receive(registry: &mut Registry, payload: &[u8], now: u64) -> (taken: Received)
    ensures
        final(registry)@ == received(old(registry)@, payload@, now).registry,
        taken.reply@ == received(old(registry)@, payload@, now).reply,
        request_option_model(taken.request) == carried(payload@),
{
    match Request::decode(payload) {
        Err(error) => Received { reply: Reply::Reject(respond_malformed(error)), request: None },
        Ok(request) => {
            let reply = handle(registry, &request, now);
            Received { reply, request: Some(request) }
        },
    }
}

} // verus!
