//! What holds of the registry, whatever inputs arrive for whichever service.

use vstd::prelude::*;
use crate::lifecycle::{CommandModel, EffectModel, ErrorModel, Lifecycle};
use crate::lifecycle_laws::{lemma_apply_preserves_wf, lemma_second_start_refused};
use crate::registry::RegistryModel;
use crate::service::ServiceModel;
use crate::service_worker::ServiceStatus;

verus! {

/// In a registry without repeated names, a name is found at one place only.
pub proof fn lemma_index_of_unique(r: RegistryModel, name: Seq<char>, i: int)
    requires
        r.wf(),
        0 <= i < r.names.len(),
        r.names[i] == name,
    ensures
        r.contains(name),
        r.index_of(name) == i,
{
    let j = r.index_of(name);
    assert(0 <= j < r.names.len() && r.names[j] == name);
    if j < i {
        assert(r.names[j] != r.names[i]);
    } else if i < j {
        assert(r.names[i] != r.names[j]);
    }
}

/// No input leads out of the registries that can occur: the names stay, in
/// their order, each with one worker in a state that can occur, and the
/// definition of every service stays what it was.
pub proof fn lemma_operate_preserves_wf(
    r: RegistryModel,
    name: Seq<char>,
    command: CommandModel,
    now: u64,
)
    requires
        r.wf(),
    ensures
        r.operate(name, command, now).next.wf(),
        r.operate(name, command, now).next.names == r.names,
        forall|i: int|
            0 <= i < r.workers.len() ==> (#[trigger] r.operate(
                name,
                command,
                now,
            ).next.workers[i]).service == r.workers[i].service,
{
    if r.contains(name) {
        let i = r.index_of(name);
        let w = r.workers[i];
        lemma_apply_preserves_wf(w.state, w.service.start, w.service.stop, command, now);
    }
}

/// An input for a name that is not registered is answered with
/// `UnknownService` and changes nothing.
pub proof fn lemma_unknown_service(r: RegistryModel, name: Seq<char>, command: CommandModel, now: u64)
    requires
        !r.contains(name),
    ensures
        r.operate(name, command, now).next == r,
        r.operate(name, command, now).outcome == Err::<EffectModel, ErrorModel>(
            ErrorModel::UnknownService(name),
        ),
{
}

/// An input for one service leaves every other service as it is: its
/// worker, and with it every snapshot of it.
pub proof fn lemma_operate_is_local(
    r: RegistryModel,
    name: Seq<char>,
    command: CommandModel,
    now: u64,
    other: Seq<char>,
    at: u64,
)
    requires
        r.wf(),
        other != name,
    ensures
        r.operate(name, command, now).next.contains(other) == r.contains(other),
        r.contains(other) ==> r.operate(name, command, now).next.worker(other) == r.worker(
            other,
        ),
        r.operate(name, command, now).next.report(other, at) == r.report(other, at),
{
    let next = r.operate(name, command, now).next;
    lemma_operate_preserves_wf(r, name, command, now);
    if r.contains(other) {
        let j = r.index_of(other);
        lemma_index_of_unique(next, other, j);
    }
    if next.contains(other) {
        let j = next.index_of(other);
        lemma_index_of_unique(r, other, j);
    }
}

/// Operations on two different services do not depend on each other: each
/// returns what it would have returned without the other, and the registry
/// ends up the same in whichever order they are taken.
pub proof fn lemma_operations_commute(
    r: RegistryModel,
    first: Seq<char>,
    first_command: CommandModel,
    first_now: u64,
    second: Seq<char>,
    second_command: CommandModel,
    second_now: u64,
)
    requires
        r.wf(),
        first != second,
    ensures
        r.operate(first, first_command, first_now).next.operate(
            second,
            second_command,
            second_now,
        ).outcome == r.operate(second, second_command, second_now).outcome,
        r.operate(second, second_command, second_now).next.operate(
            first,
            first_command,
            first_now,
        ).outcome == r.operate(first, first_command, first_now).outcome,
        r.operate(first, first_command, first_now).next.operate(
            second,
            second_command,
            second_now,
        ).next == r.operate(second, second_command, second_now).next.operate(
            first,
            first_command,
            first_now,
        ).next,
{
    let a = r.operate(first, first_command, first_now).next;
    let b = r.operate(second, second_command, second_now).next;
    lemma_operate_preserves_wf(r, first, first_command, first_now);
    lemma_operate_preserves_wf(r, second, second_command, second_now);
    lemma_operate_is_local(r, first, first_command, first_now, second, 0);
    lemma_operate_is_local(r, second, second_command, second_now, first, 0);
    let ab = a.operate(second, second_command, second_now).next;
    let ba = b.operate(first, first_command, first_now).next;
    if r.contains(first) {
        lemma_index_of_unique(b, first, r.index_of(first));
    }
    if r.contains(second) {
        lemma_index_of_unique(a, second, r.index_of(second));
    }
    assert(ab.names == ba.names);
    assert(ab.workers =~= ba.workers);
}

/// Of two starts of one service, exactly one is accepted: after an accepted
/// start the next one for the same name is refused as `Busy` and changes
/// nothing, before the spawn is reported and after it.
pub proof fn lemma_second_start_is_busy(r: RegistryModel, name: Seq<char>, process: u64, now: u64)
    requires
        r.wf(),
        r.operate(name, CommandModel::Start, now).outcome is Ok,
    ensures
        r.operate(name, CommandModel::Start, now).next.operate(
            name,
            CommandModel::Start,
            now,
        ).outcome == Err::<EffectModel, ErrorModel>(ErrorModel::Busy),
        r.operate(name, CommandModel::Start, now).next.operate(
            name,
            CommandModel::Start,
            now,
        ).next == r.operate(name, CommandModel::Start, now).next,
        r.operate(name, CommandModel::Start, now).next.operate(
            name,
            CommandModel::Spawned { process },
            now,
        ).next.operate(name, CommandModel::Start, now).outcome == Err::<EffectModel, ErrorModel>(
            ErrorModel::Busy,
        ),
{
    let i = r.index_of(name);
    let w = r.workers[i];
    let a = r.operate(name, CommandModel::Start, now).next;
    lemma_operate_preserves_wf(r, name, CommandModel::Start, now);
    lemma_index_of_unique(a, name, i);
    lemma_second_start_refused(w.state, w.service.start, process, now);
    let aa = a.operate(name, CommandModel::Start, now).next;
    assert(aa.workers =~= a.workers);
    let s = a.operate(name, CommandModel::Spawned { process }, now).next;
    lemma_operate_preserves_wf(a, name, CommandModel::Spawned { process }, now);
    lemma_index_of_unique(s, name, i);
}

/// A stop of a stopped service fails with `NotRunning` and changes nothing
/// in the registry.
pub proof fn lemma_stop_of_stopped_service(
    r: RegistryModel,
    name: Seq<char>,
    timeout: u64,
    force: bool,
    now: u64,
)
    requires
        r.wf(),
        r.contains(name),
        r.worker(name).state.status is Stopped,
    ensures
        r.operate(name, CommandModel::Stop { timeout, force }, now).outcome == Err::<
            EffectModel,
            ErrorModel,
        >(ErrorModel::NotRunning),
        r.operate(name, CommandModel::Stop { timeout, force }, now).next == r,
{
    let next = r.operate(name, CommandModel::Stop { timeout, force }, now).next;
    assert(next.workers =~= r.workers);
}

/// A newly registered service is stopped, with nothing tracked and nothing
/// in flight, and the services that were there stay as they are.
pub proof fn lemma_register_adds_stopped(
    r: RegistryModel,
    name: Seq<char>,
    service: ServiceModel,
    now: u64,
    other: Seq<char>,
)
    requires
        r.wf(),
        !r.contains(name),
    ensures
        r.register(name, service, now).wf(),
        r.register(name, service, now).contains(name),
        r.register(name, service, now).worker(name).service == service,
        r.register(name, service, now).worker(name).state == Lifecycle::initial(now),
        r.register(name, service, now).worker(name).state.status == ServiceStatus::Stopped,
        r.contains(other) ==> r.register(name, service, now).contains(other) && r.register(
            name,
            service,
            now,
        ).worker(other) == r.worker(other),
{
    let next = r.register(name, service, now);
    assert forall|i: int, j: int| 0 <= i < j < next.names.len() implies next.names[i]
        != next.names[j] by {
        if j == r.names.len() {
            if next.names[i] == name {
                assert(r.names[i] == name);
            }
        }
    }
    lemma_index_of_unique(next, name, r.names.len() as int);
    if r.contains(other) {
        let k = r.index_of(other);
        lemma_index_of_unique(next, other, k);
    }
}

/// Registering a name that is taken changes nothing.
pub proof fn lemma_register_keeps_taken(
    r: RegistryModel,
    name: Seq<char>,
    service: ServiceModel,
    now: u64,
)
    requires
        r.contains(name),
    ensures
        r.register(name, service, now) == r,
{
}

} // verus!
