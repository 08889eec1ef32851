//! Static, immutable configuration of one managed service.

use vstd::prelude::*;

verus! {

/// What a script is, as a mathematical value: the executable and its
/// ordered argument list.
pub struct ScriptModel {
    pub command: Seq<char>,
    pub arguments: Seq<Seq<char>>,
}

/// What a service definition is, as a mathematical value.
pub struct ServiceModel {
    pub description: Seq<char>,
    pub start: Option<ScriptModel>,
    pub stop: Option<ScriptModel>,
}

/// An executable action. The executable is invoked directly with its
/// arguments, without a shell, in the supervisor's environment.
#[derive(Debug)]
pub enum ServiceScript {
    Exec { command: String, arguments: Vec<String> },
}

/// The actions of one service. A service without a stop action is stopped
/// by signalling its start process.
#[derive(Debug)]
pub struct ServiceScripts {
    pub start: Option<ServiceScript>,
    pub stop: Option<ServiceScript>,
}

/// The definition of one service.
#[derive(Debug)]
pub struct Service {
    pub description: String,
    pub scripts: ServiceScripts,
}

impl View for ServiceScript {
    type V = ScriptModel;

    open spec fn view(&self) -> ScriptModel {
        match self {
            ServiceScript::Exec { command, arguments } => ScriptModel {
                command: command@,
                arguments: arguments.deep_view(),
            },
        }
    }
}

/// The model of an optional script.
pub open spec fn script_option_model(script: Option<ServiceScript>) -> Option<ScriptModel> {
    match script {
        Some(s) => Some(s@),
        None => None,
    }
}

impl View for Service {
    type V = ServiceModel;

    open spec fn view(&self) -> ServiceModel {
        ServiceModel {
            description: self.description@,
            start: script_option_model(self.scripts.start),
            stop: script_option_model(self.scripts.stop),
        }
    }
}

/// Copies a list of strings, element by element.
pub fn copy_strings(items: &Vec<String>) -> (copy: Vec<String>)
    ensures
        copy.deep_view() == items.deep_view(),
{
    let mut copy: Vec<String> = Vec::new();
    let mut i: usize = 0;
    while i < items.len()
        invariant
            i <= items.len(),
            copy.len() == i,
            forall|k: int| 0 <= k < i ==> copy[k]@ == items[k]@,
        decreases items.len() - i,
    {
        copy.push(items[i].clone());
        i += 1;
    }
    assert(copy.deep_view() =~= items.deep_view());
    copy
}

impl Clone for ServiceScript {
    fn clone(&self) -> (copy: Self)
        ensures
            copy@ == self@,
    {
        match self {
            ServiceScript::Exec { command, arguments } => ServiceScript::Exec {
                command: command.clone(),
                arguments: copy_strings(arguments),
            },
        }
    }
}

impl Clone for ServiceScripts {
    fn clone(&self) -> (copy: Self)
        ensures
            script_option_model(copy.start) == script_option_model(self.start),
            script_option_model(copy.stop) == script_option_model(self.stop),
    {
        let start = match &self.start {
            Some(s) => Some(s.clone()),
            None => None,
        };
        let stop = match &self.stop {
            Some(s) => Some(s.clone()),
            None => None,
        };
        ServiceScripts { start, stop }
    }
}

impl Clone for Service {
    fn clone(&self) -> (copy: Self)
        ensures
            copy@ == self@,
    {
        Service { description: self.description.clone(), scripts: self.scripts.clone() }
    }
}

} // verus!
