//! Ordered activation: starting a sequence of services one after the
//! other, or stopping them in reverse.
//!
//! The order comes from outside. An activation hands out one call at a
//! time; the caller carries the call through and settles it before it asks
//! for the next. After the first failure no further call is handed out,
//! unless the activation was told to keep going, and what was reached
//! stays readable.

use vstd::prelude::*;
use crate::lifecycle::{CommandModel, ErrorModel};
use crate::service_worker::{Command, ServiceWorkerError};

verus! {

/// What an activation is, as a mathematical value.
pub struct ActivationModel {
    /// The services in the order in which they are called.
    pub calls: Seq<Seq<char>>,
    /// The command that each of them is given.
    pub command: CommandModel,
    /// Whether calls go on after a failure.
    pub keep_going: bool,
    /// The result of each call settled so far; `None` is a success.
    pub results: Seq<Option<ErrorModel>>,
    /// Whether a failure has ended the activation.
    pub halted: bool,
}

impl ActivationModel {
    /// Starting `names` in their order.
    pub open spec fn starting(names: Seq<Seq<char>>, keep_going: bool) -> ActivationModel {
        ActivationModel {
            calls: names,
            command: CommandModel::Start,
            keep_going,
            results: Seq::empty(),
            halted: false,
        }
    }

    /// Stopping `names` in the reverse of their order.
    pub open spec fn stopping(
        names: Seq<Seq<char>>,
        timeout: u64,
        force: bool,
        keep_going: bool,
    ) -> ActivationModel {
        ActivationModel {
            calls: names.reverse(),
            command: CommandModel::Stop { timeout, force },
            keep_going,
            results: Seq::empty(),
            halted: false,
        }
    }

    /// Which activations can occur: no more results than calls; a halted one
    /// was not to keep going and ends in a failure; one that is not to keep
    /// going and is not halted has seen no failure.
    pub open spec fn wf(self) -> bool {
        &&& self.results.len() <= self.calls.len()
        &&& self.halted ==> !self.keep_going && self.results.len() > 0
            && self.results.last() is Some
        &&& !self.keep_going ==> forall|i: int|
            0 <= i < self.results.len() - 1 ==> self.results[i] is None
        &&& !self.keep_going && !self.halted ==> forall|i: int|
            0 <= i < self.results.len() ==> self.results[i] is None
    }

    /// No call is left to hand out.
    pub open spec fn finished(self) -> bool {
        self.halted || self.results.len() >= self.calls.len()
    }

    /// The service to call next.
    pub open spec fn next(self) -> Option<Seq<char>> {
        if self.finished() {
            None
        } else {
            Some(self.calls[self.results.len() as int])
        }
    }

    /// The activation after the call handed out last ended with `result`.
    pub open spec fn settle(self, result: Option<ErrorModel>) -> ActivationModel {
        if self.finished() {
            self
        } else {
            ActivationModel {
                results: self.results.push(result),
                halted: result is Some && !self.keep_going,
                ..self
            }
        }
    }
}

/// The model of the result of one call.
pub open spec fn result_model(result: Option<ServiceWorkerError>) -> Option<ErrorModel> {
    match result {
        Some(error) => Some(error@),
        None => None,
    }
}

/// The models of the results, in order.
pub open spec fn results_model(results: Seq<Option<ServiceWorkerError>>) -> Seq<
    Option<ErrorModel>,
> {
    Seq::new(results.len(), |i: int| result_model(results[i]))
}

/// The strings in reverse order.
pub fn reversed(names: Vec<String>) -> (turned: Vec<String>)
    ensures
        turned.deep_view() == names.deep_view().reverse(),
{
    let ghost all = names.deep_view();
    let mut names = names;
    let mut turned: Vec<String> = Vec::new();
    while names.len() > 0
        invariant
            names.len() + turned.len() == all.len(),
            forall|k: int| 0 <= k < names.len() ==> names[k]@ == all[k],
            forall|k: int| 0 <= k < turned.len() ==> turned[k]@ == all[all.len() - 1 - k],
        decreases names.len(),
    {
        let last = names.pop();
        match last {
            Some(name) => {
                turned.push(name);
            },
            None => {},
        }
    }
    assert(turned.deep_view() =~= all.reverse());
    turned
}

/// A sequence of calls on services, handed out one at a time.
#[derive(Debug)]
pub struct Activation {
    calls: Vec<String>,
    stop: Option<(u64, bool)>,
    keep_going: bool,
    results: Vec<Option<ServiceWorkerError>>,
    halted: bool,
}

impl View for Activation {
    type V = ActivationModel;

    closed spec fn view(&self) -> ActivationModel {
        ActivationModel {
            calls: self.calls.deep_view(),
            command: match self.stop {
                Some((timeout, force)) => CommandModel::Stop { timeout, force },
                None => CommandModel::Start,
            },
            keep_going: self.keep_going,
            results: results_model(self.results@),
            halted: self.halted,
        }
    }
}

impl Activation {
    /// An activation that starts `names` in their order. With `keep_going`
    /// the calls go on after a failure.
    pub fn starting(names: Vec<String>, keep_going: bool) -> (activation: Self)
        ensures
            activation@ == ActivationModel::starting(names.deep_view(), keep_going),
    {
        let activation = Activation {
            calls: names,
            stop: None,
            keep_going,
            results: Vec::new(),
            halted: false,
        };
        assert(activation@.results =~= Seq::empty());
        activation
    }

    /// An activation that stops `names` in the reverse of their order, each
    /// within `timeout` milliseconds. With `keep_going` the calls go on
    /// after a failure.
    pub fn stopping(names: Vec<String>, timeout: u64, force: bool, keep_going: bool) -> (activation:
        Self)
        ensures
            activation@ == ActivationModel::stopping(
                names.deep_view(),
                timeout,
                force,
                keep_going,
            ),
    {
        let activation = Activation {
            calls: reversed(names),
            stop: Some((timeout, force)),
            keep_going,
            results: Vec::new(),
            halted: false,
        };
        assert(activation@.results =~= Seq::empty());
        activation
    }

    /// Whether no call is left to hand out.
    pub fn is_finished(&self) -> (finished: bool)
        ensures
            finished == self@.finished(),
    {
        self.halted || self.results.len() >= self.calls.len()
    }

    /// Whether a failure has ended the activation.
    pub fn is_halted(&self) -> (halted: bool)
        ensures
            halted == self@.halted,
    {
        self.halted
    }

    /// The number of calls settled so far.
    pub fn settled(&self) -> (count: usize)
        ensures
            count == self@.results.len(),
    {
        self.results.len()
    }

    /// The service to call next, or `None` when the activation is finished.
    pub fn next(&self) -> (name: Option<&String>)
        ensures
            match name {
                Some(n) => self@.next() == Some(n@),
                None => self@.next() is None,
            },
    {
        if self.halted || self.results.len() >= self.calls.len() {
            None
        } else {
            Some(&self.calls[self.results.len()])
        }
    }

    /// The command that every call of this activation gives its service.
    pub fn command(&self) -> (command: Command)
        ensures
            command@ == self@.command,
    {
        match self.stop {
            Some((timeout, force)) => Command::Stop { timeout, force },
            None => Command::Start,
        }
    }

    /// Records how the call handed out last ended: `None` for a success,
    /// the error otherwise. On a finished activation nothing is recorded.
    pub fn settle(&mut self, result: Option<ServiceWorkerError>)
        ensures
            final(self)@ == old(self)@.settle(result_model(result)),
    {
        if self.halted || self.results.len() >= self.calls.len() {
            return ;
        }
        let failed = result.is_some();
        let ghost before = self@;
        self.results.push(result);
        self.halted = failed && !self.keep_going;
        assert(self@.results =~= before.results.push(result_model(result)));
    }

    /// How the call at `index` ended, if it has been settled: `None` inside
    /// for a success.
    pub fn result(&self, index: usize) -> (result: Option<&Option<ServiceWorkerError>>)
        ensures
            match result {
                Some(r) => index < self@.results.len() && result_model(*r)
                    == self@.results[index as int],
                None => index >= self@.results.len(),
            },
    {
        if index < self.results.len() {
            Some(&self.results[index])
        } else {
            None
        }
    }

    /// The service of the call at `index`, in the order of the calls.
    pub fn call(&self, index: usize) -> (name: Option<&String>)
        ensures
            match name {
                Some(n) => index < self@.calls.len() && n@ == self@.calls[index as int],
                None => index >= self@.calls.len(),
            },
    {
        if index < self.calls.len() {
            Some(&self.calls[index])
        } else {
            None
        }
    }
}

/// A new activation can occur and has handed out nothing yet: its first
/// call is the first name when starting, and the last name when stopping.
pub proof fn lemma_activation_begins(names: Seq<Seq<char>>, timeout: u64, force: bool, keep_going: bool)
    ensures
        ActivationModel::starting(names, keep_going).wf(),
        ActivationModel::stopping(names, timeout, force, keep_going).wf(),
        names.len() > 0 ==> ActivationModel::starting(names, keep_going).next() == Some(names[0]),
        names.len() > 0 ==> ActivationModel::stopping(names, timeout, force, keep_going).next()
            == Some(names[names.len() - 1]),
        names.len() == 0 ==> ActivationModel::starting(names, keep_going).finished(),
{
}

/// Settling keeps an activation among those that can occur, never changes
/// the calls or a result settled earlier, and hands the calls out strictly
/// in order: the call settled as number `k` is the one for `calls[k]`.
pub proof fn lemma_settle_in_order(a: ActivationModel, result: Option<ErrorModel>)
    requires
        a.wf(),
    ensures
        a.settle(result).wf(),
        a.settle(result).calls == a.calls,
        a.settle(result).command == a.command,
        a.settle(result).keep_going == a.keep_going,
        a.results.len() <= a.settle(result).results.len() <= a.results.len() + 1,
        forall|i: int| 0 <= i < a.results.len() ==> a.settle(result).results[i] == a.results[i],
        !a.finished() ==> a.settle(result).results.len() == a.results.len() + 1 && a.settle(
            result,
        ).results.last() == result,
        a.finished() ==> a.settle(result) == a,
{
}

/// The first failure ends an activation that is not to keep going: no call
/// is handed out after it, whatever is settled later, and the calls before
/// it all succeeded.
pub proof fn lemma_failure_halts(a: ActivationModel, error: ErrorModel, later: Option<ErrorModel>)
    requires
        a.wf(),
        !a.keep_going,
        !a.finished(),
    ensures
        a.settle(Some(error)).halted,
        a.settle(Some(error)).next() is None,
        a.settle(Some(error)).settle(later) == a.settle(Some(error)),
        a.settle(Some(error)).results.len() == a.results.len() + 1,
        forall|i: int| 0 <= i < a.results.len() ==> a.settle(Some(error)).results[i] is None,
{
}

/// A success, and with `keep_going` a failure too, leads on to the next
/// name in the order of the calls.
pub proof fn lemma_goes_on(a: ActivationModel, result: Option<ErrorModel>)
    requires
        a.wf(),
        !a.finished(),
        result is None || a.keep_going,
    ensures
        !a.settle(result).halted,
        a.results.len() + 1 < a.calls.len() ==> a.settle(result).next() == Some(
            a.calls[a.results.len() as int + 1],
        ),
        a.results.len() + 1 == a.calls.len() ==> a.settle(result).finished(),
{
}

} // verus!
