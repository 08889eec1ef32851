//! What holds of the control server, whatever arrives on a connection.

use vstd::prelude::*;
use crate::control::{
    error_response,
    handled,
    protocol_response,
    received,
    request_command,
    status_response,
    ReplyModel,
};
use crate::lifecycle::{EffectModel, ErrorModel};
use crate::protocol::{decode_request, encode_request, ErrorKind, RequestModel, ResponseModel};
use crate::protocol_laws::lemma_request_round_trip;
use crate::registry::RegistryModel;

verus! {

/// A payload that is no request is rejected with a protocol error and
/// changes nothing; a payload that is a request is never rejected.
pub proof fn lemma_malformed_is_rejected(registry: RegistryModel, payload: Seq<u8>, now: u64)
    ensures
        decode_request(payload) is Err ==> received(registry, payload, now).registry == registry
            && received(registry, payload, now).reply == ReplyModel::Reject(
            protocol_response(decode_request(payload)->Err_0),
        ),
        decode_request(payload) is Err ==> protocol_response(
            decode_request(payload)->Err_0,
        )->Error_kind == ErrorKind::ProtocolError,
        decode_request(payload) is Ok ==> !(received(registry, payload, now).reply is Reject),
{
}

/// A request that a client encodes is handled as that request.
pub proof fn lemma_encoded_request_is_handled(
    registry: RegistryModel,
    request: RequestModel,
    now: u64,
)
    ensures
        received(registry, encode_request(request), now) == handled(registry, request, now),
{
    lemma_request_round_trip(request);
}

/// `status` and `list` are answered at once and change nothing; `status`
/// of a name that is not registered is answered with `UnknownService`.
pub proof fn lemma_reads_answer_at_once(registry: RegistryModel, request: RequestModel, now: u64)
    requires
        request.op is Status || request.op is List,
    ensures
        handled(registry, request, now).registry == registry,
        request.op is List ==> handled(registry, request, now).reply == ReplyModel::Respond(
            ResponseModel::List(registry.list(now)),
        ),
        request.op is Status ==> handled(registry, request, now).reply == ReplyModel::Respond(
            status_response(registry, request.service, now),
        ),
        request.op is Status && !registry.contains(request.service) ==> handled(
            registry,
            request,
            now,
        ).reply == ReplyModel::Respond(
            error_response(ErrorModel::UnknownService(request.service)),
        ),
{
}

/// A `start` or `stop` is one input for the named service. It is answered
/// at once where it is refused or already complete; otherwise the caller is
/// handed one action to perform: a script to spawn, a process to signal, or
/// a wait. A refused request changes nothing.
pub proof fn lemma_operation_is_answered_or_performed(
    registry: RegistryModel,
    request: RequestModel,
    now: u64,
)
    requires
        registry.wf(),
        request.op is Start || request.op is Stop,
    ensures
        request_command(request) is Some,
        handled(registry, request, now).registry == registry.operate(
            request.service,
            request_command(request)->0,
            now,
        ).next,
        handled(registry, request, now).registry.wf(),
        match handled(registry, request, now).reply {
            ReplyModel::Respond(ResponseModel::Error { .. }) => handled(
                registry,
                request,
                now,
            ).registry == registry,
            ReplyModel::Respond(ResponseModel::Status(report)) => request.op is Stop
                && report.status is Stopped,
            ReplyModel::Perform(EffectModel::Spawn(_)) => true,
            ReplyModel::Perform(EffectModel::Terminate { .. }) => request.op is Stop,
            ReplyModel::Perform(EffectModel::Wait { .. }) => request.op is Stop,
            _ => false,
        },
{
    let command = request_command(request)->0;
    let routed = registry.operate(request.service, command, now);
    crate::registry_laws::lemma_operate_preserves_wf(registry, request.service, command, now);
    if registry.contains(request.service) {
        let i = registry.index_of(request.service);
        crate::registry_laws::lemma_index_of_unique(routed.next, request.service, i);
        if routed.outcome is Err {
            assert(routed.next.workers =~= registry.workers);
        }
    }
}

} // verus!
