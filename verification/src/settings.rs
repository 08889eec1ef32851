//! What the supervisor is configured with: the address of the control
//! channel and the services to supervise. The record is loaded once, at
//! startup, by whoever hosts the supervisor.

use vstd::prelude::*;
use crate::lifecycle::Lifecycle;
use crate::registry::{Registry, RegistryModel};
use crate::registry_laws::lemma_register_adds_stopped;
use crate::service::{Service, ServiceModel};

verus! {

/// A service definition under its name.
#[derive(Debug)]
pub struct NamedService {
    pub name: String,
    pub service: Service,
}

/// What a named definition is, as a mathematical value.
pub struct NamedServiceModel {
    pub name: Seq<char>,
    pub service: ServiceModel,
}

impl View for NamedService {
    type V = NamedServiceModel;

    open spec fn view(&self) -> NamedServiceModel {
        NamedServiceModel { name: self.name@, service: self.service@ }
    }
}

impl DeepView for NamedService {
    type V = NamedServiceModel;

    open spec fn deep_view(&self) -> NamedServiceModel {
        self@
    }
}

/// The configuration of the supervisor.
#[derive(Debug)]
pub struct Settings {
    /// The address of the control channel.
    pub listen: String,
    /// The services to supervise.
    pub services: Vec<NamedService>,
}

/// What the configuration is, as a mathematical value.
pub struct SettingsModel {
    pub listen: Seq<char>,
    pub services: Seq<NamedServiceModel>,
}

impl View for Settings {
    type V = SettingsModel;

    open spec fn view(&self) -> SettingsModel {
        SettingsModel { listen: self.listen@, services: self.services.deep_view() }
    }
}

/// The registry after the definitions were registered in their order, each
/// stopped since `now`. Of two definitions with one name the first counts.
pub open spec fn register_all(
    registry: RegistryModel,
    definitions: Seq<NamedServiceModel>,
    now: u64,
) -> RegistryModel
    decreases definitions.len(),
{
    if definitions.len() == 0 {
        registry
    } else {
        register_all(registry, definitions.drop_last(), now).register(
            definitions.last().name,
            definitions.last().service,
            now,
        )
    }
}

/// Registering definitions keeps what a registry holds and adds, for every
/// definition whose name is new, a worker that is stopped since `now`: from
/// an empty registry, every service begins stopped, every configured name
/// is registered, and only configured names are.
pub proof fn lemma_register_all(
    registry: RegistryModel,
    definitions: Seq<NamedServiceModel>,
    now: u64,
)
    requires
        registry.wf(),
    ensures
        register_all(registry, definitions, now).wf(),
        forall|name: Seq<char>|
            registry.contains(name) ==> register_all(registry, definitions, now).contains(name)
                && register_all(registry, definitions, now).worker(name) == registry.worker(
                name,
            ),
        forall|i: int|
            0 <= i < definitions.len() ==> register_all(registry, definitions, now).contains(
                (#[trigger] definitions[i]).name,
            ),
        forall|name: Seq<char>| #[trigger]
            register_all(registry, definitions, now).contains(name) && !registry.contains(name)
                ==> register_all(registry, definitions, now).worker(name).state
                == Lifecycle::initial(now) && exists|i: int|
                0 <= i < definitions.len() && (#[trigger] definitions[i]).name == name,
    decreases definitions.len(),
{
    if definitions.len() > 0 {
        let front = definitions.drop_last();
        let last = definitions.last();
        let before = register_all(registry, front, now);
        let after = register_all(registry, definitions, now);
        lemma_register_all(registry, front, now);
        assert(after == before.register(last.name, last.service, now));
        if !before.contains(last.name) {
            assert forall|name: Seq<char>| before.contains(name) implies after.contains(name)
                && after.worker(name) == before.worker(name) by {
                lemma_register_adds_stopped(before, last.name, last.service, now, name);
            }
            lemma_register_adds_stopped(before, last.name, last.service, now, last.name);
            assert forall|name: Seq<char>| #[trigger]
                after.contains(name) && !before.contains(name) implies name == last.name by {
                let k = after.index_of(name);
                if k < before.names.len() {
                    assert(before.names[k] == name);
                }
            }
        }
        assert forall|i: int| 0 <= i < definitions.len() implies after.contains(
            (#[trigger] definitions[i]).name,
        ) by {
            if i < front.len() {
                assert(front[i] == definitions[i]);
            }
        }
        assert forall|name: Seq<char>| #[trigger]
            after.contains(name) && !registry.contains(name) implies after.worker(name).state
            == Lifecycle::initial(now) && exists|i: int|
            0 <= i < definitions.len() && (#[trigger] definitions[i]).name == name by {
            if before.contains(name) {
                let i = choose|i: int| 0 <= i < front.len() && (#[trigger] front[i]).name == name;
                assert(definitions[i].name == name);
            } else {
                assert(definitions[definitions.len() - 1].name == name);
            }
        }
    }
}

impl Settings {
    /// The registry that supervises the configured services: one worker per
    /// name, all stopped since `now`.
    pub fn registry(&self, now: u64) -> (registry: Registry)
        ensures
            registry@ == register_all(RegistryModel::empty(), self@.services, now),
            registry@.wf(),
    {
        let mut registry = Registry::new();
        let ghost all = self@.services;
        let mut i: usize = 0;
        while i < self.services.len()
            invariant
                i <= self.services.len(),
                all == self.services.deep_view(),
                registry@ == register_all(RegistryModel::empty(), all.take(i as int), now),
                registry@.wf(),
            decreases self.services.len() - i,
        {
            let definition = &self.services[i];
            registry.register(definition.name.clone(), definition.service.clone(), now);
            i += 1;
            proof {
                assert(all.take(i as int).drop_last() =~= all.take(i - 1));
                assert(all.take(i as int).last() == definition@);
            }
        }
        assert(all.take(self.services.len() as int) =~= all);
        registry
    }
}

} // verus!
