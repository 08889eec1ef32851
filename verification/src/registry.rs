//! The registry of supervised services.
//!
//! The registry owns one worker per service name and routes every input to
//! the worker it names. An input changes that worker alone, so operations
//! on different services never wait for each other, and each worker admits
//! one operation at a time, so operations on one service are serialised.

use vstd::prelude::*;
use crate::lifecycle::{CommandModel, EffectModel, ErrorModel};
use crate::service::{Service, ServiceModel};
use crate::service_worker::{
    outcome_model,
    Command,
    Effect,
    ServiceWorker,
    ServiceWorkerError,
    StatusReport,
    WorkerModel,
};

verus! {

/// One line of the bulk status: a service and its snapshot.
#[derive(Debug)]
pub struct ServiceEntry {
    pub name: String,
    pub report: StatusReport,
}

/// What a line of the bulk status is, as a mathematical value.
pub struct EntryModel {
    pub name: Seq<char>,
    pub report: StatusReport,
}

impl View for ServiceEntry {
    type V = EntryModel;

    open spec fn view(&self) -> EntryModel {
        EntryModel { name: self.name@, report: self.report }
    }
}

impl DeepView for ServiceEntry {
    type V = EntryModel;

    open spec fn deep_view(&self) -> EntryModel {
        self@
    }
}

/// What a registry is, as a mathematical value: the names in the order of
/// their registration, and the worker of each.
pub struct RegistryModel {
    pub names: Seq<Seq<char>>,
    pub workers: Seq<WorkerModel>,
}

/// What one input does to a registry.
pub struct Routed {
    pub next: RegistryModel,
    pub outcome: Result<EffectModel, ErrorModel>,
}

impl RegistryModel {
    /// Every name has one worker, no name occurs twice, and every worker is
    /// in a state that can occur.
    pub open spec fn wf(self) -> bool {
        &&& self.names.len() == self.workers.len()
        &&& forall|i: int, j: int|
            0 <= i < j < self.names.len() ==> self.names[i] != self.names[j]
        &&& forall|i: int| 0 <= i < self.workers.len() ==> (#[trigger] self.workers[i]).state.wf()
    }

    /// The registry without services.
    pub open spec fn empty() -> RegistryModel {
        RegistryModel { names: Seq::empty(), workers: Seq::empty() }
    }

    /// Whether a service of this name is registered.
    pub open spec fn contains(self, name: Seq<char>) -> bool {
        exists|i: int| 0 <= i < self.names.len() && self.names[i] == name
    }

    /// The place of a registered name.
    pub open spec fn index_of(self, name: Seq<char>) -> int {
        choose|i: int| 0 <= i < self.names.len() && self.names[i] == name
    }

    /// The worker of a registered name.
    pub open spec fn worker(self, name: Seq<char>) -> WorkerModel {
        self.workers[self.index_of(name)]
    }

    /// The registry with one more service, stopped since `now`; a name that
    /// is taken is not registered again.
    pub open spec fn register(self, name: Seq<char>, service: ServiceModel, now: u64) -> RegistryModel {
        if self.contains(name) {
            self
        } else {
            RegistryModel {
                names: self.names.push(name),
                workers: self.workers.push(
                    WorkerModel { service, state: crate::lifecycle::Lifecycle::initial(now) },
                ),
            }
        }
    }

    /// One input for the service `name`: the worker of that name takes it and
    /// nothing else changes. An unknown name changes nothing.
    pub open spec fn operate(self, name: Seq<char>, command: CommandModel, now: u64) -> Routed {
        if !self.contains(name) {
            Routed { next: self, outcome: Err(ErrorModel::UnknownService(name)) }
        } else {
            let i = self.index_of(name);
            let step = self.workers[i].apply(command, now);
            Routed {
                next: RegistryModel {
                    names: self.names,
                    workers: self.workers.update(
                        i,
                        WorkerModel { service: self.workers[i].service, state: step.next },
                    ),
                },
                outcome: step.outcome,
            }
        }
    }

    /// The snapshot of one service at `now`.
    pub open spec fn report(self, name: Seq<char>, now: u64) -> Option<StatusReport> {
        if self.contains(name) {
            Some(self.worker(name).report(now))
        } else {
            None
        }
    }

    /// The snapshots of all services at `now`, in the order of registration.
    pub open spec fn list(self, now: u64) -> Seq<EntryModel> {
        Seq::new(
            self.names.len(),
            |i: int| EntryModel { name: self.names[i], report: self.workers[i].report(now) },
        )
    }
}

/// A registered service: its name and its worker.
#[derive(Debug)]
struct Slot {
    name: String,
    worker: ServiceWorker,
}

/// The registry that a list of slots stands for.
spec fn slots_model(slots: Seq<Slot>) -> RegistryModel {
    RegistryModel {
        names: Seq::new(slots.len(), |i: int| slots[i].name@),
        workers: Seq::new(slots.len(), |i: int| slots[i].worker@),
    }
}

/// The place of `name` among the slots, if it is there.
fn find_slot(slots: &Vec<Slot>, name: &String) -> (place: Option<usize>)
    requires
        slots_model(slots@).wf(),
    ensures
        place is Some <==> slots_model(slots@).contains(name@),
        place matches Some(i) ==> i < slots.len() && i == slots_model(slots@).index_of(name@),
{
    let mut i: usize = 0;
    while i < slots.len()
        invariant
            i <= slots.len(),
            slots_model(slots@).wf(),
            forall|k: int| 0 <= k < i ==> slots_model(slots@).names[k] != name@,
        decreases slots.len() - i,
    {
        if slots[i].name == *name {
            proof {
                let model = slots_model(slots@);
                assert(model.names[i as int] == name@);
                let j = model.index_of(name@);
                assert(0 <= j < model.names.len() && model.names[j] == name@);
                if j < i {
                    assert(model.names[j] != model.names[i as int]);
                } else if i < j {
                    assert(model.names[i as int] != model.names[j]);
                }
            }
            return Some(i);
        }
        i += 1;
    }
    None
}

/// The registry of supervised services.
#[derive(Debug)]
pub struct Registry {
    slots: Vec<Slot>,
}

impl View for Registry {
    type V = RegistryModel;

    closed spec fn view(&self) -> RegistryModel {
        slots_model(self.slots@)
    }
}

impl Registry {
    #[verifier::type_invariant]
    spec fn well_formed(self) -> bool {
        self@.wf()
    }

    /// A registry without services.
    pub fn new() -> (registry: Self)
        ensures
            registry@ == RegistryModel::empty(),
            registry@.wf(),
    {
        let registry = Registry { slots: Vec::new() };
        assert(registry@.names =~= Seq::empty());
        assert(registry@.workers =~= Seq::empty());
        registry
    }

    /// The number of registered services.
    pub fn len(&self) -> (count: usize)
        ensures
            count == self@.names.len(),
            self@.wf(),
    {
        proof {
            use_type_invariant(self);
        }
        self.slots.len()
    }

    /// Whether a service of this name is registered.
    pub fn contains(&self, name: &str) -> (found: bool)
        ensures
            found == self@.contains(name@),
    {
        proof {
            use_type_invariant(self);
        }
        find_slot(&self.slots, &name.to_owned()).is_some()
    }

    /// Registers a service under `name`, stopped since `now`. Returns whether
    /// the service was added: a name that is taken keeps its worker.
    pub fn register(&mut self, name: String, service: Service, now: u64) -> (added: bool)
        ensures
            added == !old(self)@.contains(name@),
            final(self)@ == old(self)@.register(name@, service@, now),
            final(self)@.wf(),
    {
        proof {
            use_type_invariant(&*self);
        }
        if find_slot(&self.slots, &name).is_some() {
            return false;
        }
        let ghost before = self@;
        let mut slots: Vec<Slot> = Vec::new();
        core::mem::swap(&mut self.slots, &mut slots);
        let worker = ServiceWorker::new(service, now);
        slots.push(Slot { name, worker });
        proof {
            assert(slots_model(slots@).names =~= before.names.push(name@));
            assert(slots_model(slots@).workers =~= before.workers.push(worker@));
            crate::lifecycle_laws::lemma_initial_wf(now);
        }
        core::mem::swap(&mut self.slots, &mut slots);
        true
    }

    /// Hands one input to the worker of `name`. An unknown name is answered
    /// with `UnknownService` and changes nothing; otherwise the named worker
    /// takes the input and every other worker stays as it is.
    pub fn operate(&mut self, name: &str, command: Command, now: u64) -> (outcome: Result<
        Effect,
        ServiceWorkerError,
    >)
        ensures
            final(self)@ == old(self)@.operate(name@, command@, now).next,
            outcome_model(outcome) == old(self)@.operate(name@, command@, now).outcome,
            final(self)@.wf(),
    {
        proof {
            use_type_invariant(&*self);
        }
        let ghost before = self@;
        let mut slots: Vec<Slot> = Vec::new();
        core::mem::swap(&mut self.slots, &mut slots);
        let name = name.to_owned();
        let outcome = match find_slot(&slots, &name) {
            None => Err(ServiceWorkerError::UnknownService(name)),
            Some(i) => {
                let outcome = slots[i].worker.apply(command, now);
                proof {
                    let step = before.workers[i as int].apply(command@, now);
                    assert(slots_model(slots@).names =~= before.names);
                    assert(slots_model(slots@).workers =~= before.workers.update(
                        i as int,
                        WorkerModel { service: before.workers[i as int].service, state: step.next },
                    ));
                }
                outcome
            },
        };
        core::mem::swap(&mut self.slots, &mut slots);
        outcome
    }

    /// The snapshot of the service `name` at `now`, if it is registered.
    pub fn status(&self, name: &str, now: u64) -> (report: Option<StatusReport>)
        ensures
            report == self@.report(name@, now),
    {
        proof {
            use_type_invariant(self);
        }
        match find_slot(&self.slots, &name.to_owned()) {
            None => None,
            Some(i) => Some(self.slots[i].worker.status(now)),
        }
    }

    /// The snapshots of all services at `now`, in the order of registration.
    pub fn list(&self, now: u64) -> (entries: Vec<ServiceEntry>)
        ensures
            entries.deep_view() == self@.list(now),
    {
        let mut entries: Vec<ServiceEntry> = Vec::new();
        let mut i: usize = 0;
        while i < self.slots.len()
            invariant
                i <= self.slots.len(),
                entries.len() == i,
                forall|k: int|
                    0 <= k < i ==> (#[trigger] entries[k])@ == (EntryModel {
                        name: self@.names[k],
                        report: self@.workers[k].report(now),
                    }),
            decreases self.slots.len() - i,
        {
            let report = self.slots[i].worker.status(now);
            entries.push(ServiceEntry { name: self.slots[i].name.clone(), report });
            i += 1;
        }
        assert(entries.deep_view() =~= self@.list(now));
        entries
    }
}

} // verus!
