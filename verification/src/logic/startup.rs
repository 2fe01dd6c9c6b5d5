//! The steps by which the script engine is brought up.
use vstd::prelude::*;

use super::error::LogicError;
use super::FeatureId;

verus! {

/// A step that the script engine takes, and that can fail.
#[derive(Debug, Clone, Copy, PartialEq, Eq, Structural)]
pub enum StartupStep {
    /// Bring a feature to life in the runtime.
    InitFeature(FeatureId),
    /// Load the main module and what it imports.
    LoadMain,
    /// Start to evaluate the main module and run the event loop until it idles.
    RunEventLoop,
    /// Wait for the result of that evaluation.
    AwaitEvaluation,
    /// Look up what the main module exports.
    GetNamespace,
    /// Bind the runtime's handles to those exports.
    BindHandles,
}

/// How far a startup has come.
pub struct Progress {
    /// All steps, in the order in which they are taken.
    pub steps: Seq<StartupStep>,
    /// The number of steps that have succeeded.
    pub done: nat,
    /// Why the step after those failed, if it did.
    pub failure: Option<LogicError>,
}

impl Progress {
    /// Before the first step.
    pub open spec fn start(steps: Seq<StartupStep>) -> Progress {
        Progress { steps, done: 0, failure: None }
    }

    /// Whether no step is left to take.
    pub open spec fn settled(self) -> bool {
        self.failure is Some || self.done >= self.steps.len()
    }

    /// The step to take.
    pub open spec fn next_step(self) -> Option<StartupStep> {
        if self.settled() {
            None
        } else {
            Some(self.steps[self.done as int])
        }
    }

    /// The progress once that step has had the given outcome.
    pub open spec fn after(self, outcome: Result<(), LogicError>) -> Progress {
        if self.settled() {
            self
        } else {
            match outcome {
                Ok(_) => Progress { done: self.done + 1, ..self },
                Err(error) => Progress { failure: Some(error), ..self },
            }
        }
    }

    /// The progress after a run of outcomes.
    pub open spec fn after_all(self, outcomes: Seq<Result<(), LogicError>>) -> Progress
        decreases outcomes.len(),
    {
        if outcomes.len() == 0 {
            self
        } else {
            self.after_all(outcomes.drop_last()).after(outcomes.last())
        }
    }
}

/// The steps by which the runtime of a script with the given features starts.
pub open spec fn runtime_steps(features: Seq<FeatureId>) -> Seq<StartupStep> {
    features.map_values(|feature: FeatureId| StartupStep::InitFeature(feature)) + seq![
        StartupStep::LoadMain,
        StartupStep::RunEventLoop,
        StartupStep::AwaitEvaluation,
    ]
}

/// The steps by which a script behind a proxy starts.
pub open spec fn proxy_steps() -> Seq<StartupStep> {
    seq![
        StartupStep::LoadMain,
        StartupStep::RunEventLoop,
        StartupStep::AwaitEvaluation,
        StartupStep::GetNamespace,
        StartupStep::BindHandles,
    ]
}

/// A startup under way. It says which step to take and is told how that went.
#[derive(Debug)]
pub struct Startup {
    steps: Vec<StartupStep>,
    done: usize,
    failure: Option<LogicError>,
}

impl View for Startup {
    type V = Progress;

    closed spec fn view(&self) -> Progress {
        Progress { steps: self.steps@, done: self.done as nat, failure: self.failure }
    }
}

impl Startup {
    /// The startup of a runtime with the given features.
    pub fn of_runtime(features: &Vec<FeatureId>) -> (startup: Startup)
        ensures
            startup@ == Progress::start(runtime_steps(features@)),
            startup@.steps.len() == features@.len() + 3,
            forall|i: int|
                0 <= i < features@.len() ==> #[trigger] startup@.steps[i]
                    == StartupStep::InitFeature(features@[i]),
            startup@.steps[features@.len() as int] == StartupStep::LoadMain,
            startup@.steps[features@.len() as int + 1] == StartupStep::RunEventLoop,
            startup@.steps[features@.len() as int + 2] == StartupStep::AwaitEvaluation,
            startup@.done == 0,
            startup@.failure is None,
    {
        let mut steps: Vec<StartupStep> = Vec::new();
        let mut i: usize = 0;
        while i < features.len()
            invariant
                i <= features@.len(),
                steps@.len() == i,
                forall|j: int|
                    0 <= j < i ==> #[trigger] steps@[j] == StartupStep::InitFeature(features@[j]),
            decreases features@.len() - i,
        {
            steps.push(StartupStep::InitFeature(features[i]));
            i = i + 1;
        }
        steps.push(StartupStep::LoadMain);
        steps.push(StartupStep::RunEventLoop);
        steps.push(StartupStep::AwaitEvaluation);
        assert(steps@ =~= runtime_steps(features@));
        Startup { steps, done: 0, failure: None }
    }

    /// The startup of a script behind a proxy.
    pub fn of_proxy() -> (startup: Startup)
        ensures
            startup@ == Progress::start(proxy_steps()),
            startup@.steps.len() == 5,
            startup@.steps[0] == StartupStep::LoadMain,
            startup@.steps[1] == StartupStep::RunEventLoop,
            startup@.steps[2] == StartupStep::AwaitEvaluation,
            startup@.steps[3] == StartupStep::GetNamespace,
            startup@.steps[4] == StartupStep::BindHandles,
            startup@.done == 0,
            startup@.failure is None,
    {
        let mut steps: Vec<StartupStep> = Vec::new();
        steps.push(StartupStep::LoadMain);
        steps.push(StartupStep::RunEventLoop);
        steps.push(StartupStep::AwaitEvaluation);
        steps.push(StartupStep::GetNamespace);
        steps.push(StartupStep::BindHandles);
        assert(steps@ =~= proxy_steps());
        Startup { steps, done: 0, failure: None }
    }

    /// The step to take, or `None` where none is left.
    pub fn next_step(&self) -> (step: Option<StartupStep>)
        ensures
            step == self@.next_step(),
            step is None <==> self@.failure is Some || self@.done >= self@.steps.len(),
            step is Some ==> step->Some_0 == self@.steps[self@.done as int],
    {
        if self.failure.is_none() && self.done < self.steps.len() {
            Some(self.steps[self.done])
        } else {
            None
        }
    }

    /// Takes note of how the step went.
    pub fn advance(&mut self, outcome: Result<(), LogicError>)
        ensures
            final(self)@ == old(self)@.after(outcome),
            final(self)@.steps == old(self)@.steps,
            old(self)@.failure is Some || old(self)@.done >= old(self)@.steps.len()
                ==> final(self)@.done == old(self)@.done && final(self)@.failure
                == old(self)@.failure,
            old(self)@.failure is None && old(self)@.done < old(self)@.steps.len() && outcome is Ok
                ==> final(self)@.done == old(self)@.done + 1 && final(self)@.failure is None,
            old(self)@.failure is None && old(self)@.done < old(self)@.steps.len() && outcome is Err
                ==> final(self)@.done == old(self)@.done && final(self)@.failure == Some(
                outcome->Err_0,
            ),
    {
        if self.failure.is_none() && self.done < self.steps.len() {
            match outcome {
                Ok(_) => {
                    self.done = self.done + 1;
                },
                Err(error) => {
                    self.failure = Some(error);
                },
            }
        }
    }

    /// How the startup went, once no step is left.
    pub fn finish(self) -> (res: Result<(), LogicError>)
        requires
            self@.settled(),
        ensures
            res == match self@.failure {
                Some(error) => Err::<(), LogicError>(error),
                None => Ok::<(), LogicError>(()),
            },
    {
        match self.failure {
            Some(error) => Err(error),
            None => Ok(()),
        }
    }
}

proof fn lemma_successes_count(steps: Seq<StartupStep>, outcomes: Seq<Result<(), LogicError>>)
    requires
        outcomes.len() <= steps.len(),
        forall|i: int| 0 <= i < outcomes.len() ==> (#[trigger] outcomes[i]) is Ok,
    ensures
        Progress::start(steps).after_all(outcomes) == (Progress {
            steps,
            done: outcomes.len(),
            failure: None,
        }),
    decreases outcomes.len(),
{
    if outcomes.len() > 0 {
        let before = outcomes.drop_last();
        assert forall|i: int| 0 <= i < before.len() implies (#[trigger] before[i]) is Ok by {
            assert(before[i] == outcomes[i]);
        }
        lemma_successes_count(steps, before);
    }
}

/// A startup all of whose steps succeed takes every step and reports no
/// failure.
pub proof fn startup_succeeds_with_its_steps(
    steps: Seq<StartupStep>,
    outcomes: Seq<Result<(), LogicError>>,
)
    requires
        outcomes.len() == steps.len(),
        forall|i: int| 0 <= i < outcomes.len() ==> (#[trigger] outcomes[i]) is Ok,
    ensures
        Progress::start(steps).after_all(outcomes).settled(),
        Progress::start(steps).after_all(outcomes).done == steps.len(),
        Progress::start(steps).after_all(outcomes).failure is None,
{
    lemma_successes_count(steps, outcomes);
}

/// A startup ends with the first step that fails: no later step is taken, and
/// that step's error is the one reported, whatever comes after.
pub proof fn startup_ends_at_the_first_failure(
    steps: Seq<StartupStep>,
    outcomes: Seq<Result<(), LogicError>>,
    failed: int,
)
    requires
        0 <= failed < outcomes.len(),
        failed < steps.len(),
        forall|i: int| 0 <= i < failed ==> (#[trigger] outcomes[i]) is Ok,
        outcomes[failed] is Err,
    ensures
        Progress::start(steps).after_all(outcomes).next_step() is None,
        Progress::start(steps).after_all(outcomes).done == failed,
        Progress::start(steps).after_all(outcomes).failure == Some(outcomes[failed]->Err_0),
    decreases outcomes.len(),
{
    let before = outcomes.drop_last();
    if failed == outcomes.len() - 1 {
        assert forall|i: int| 0 <= i < before.len() implies (#[trigger] before[i]) is Ok by {
            assert(before[i] == outcomes[i]);
        }
        lemma_successes_count(steps, before);
    } else {
        assert forall|i: int| 0 <= i < failed implies (#[trigger] before[i]) is Ok by {
            assert(before[i] == outcomes[i]);
        }
        assert(before[failed] == outcomes[failed]);
        startup_ends_at_the_first_failure(steps, before, failed);
    }
}

/// Whatever its features, and also where it has none, a runtime brings each
/// feature to life, in order, and then loads its main module, runs the event loop
/// and waits for the evaluation.
pub proof fn a_runtime_loads_its_main_module_after_its_features(features: Seq<FeatureId>)
    ensures
        runtime_steps(features).len() == features.len() + 3,
        forall|i: int|
            0 <= i < features.len() ==> #[trigger] runtime_steps(features)[i]
                == StartupStep::InitFeature(features[i]),
        runtime_steps(features)[features.len() as int] == StartupStep::LoadMain,
        runtime_steps(features)[features.len() as int + 1] == StartupStep::RunEventLoop,
        runtime_steps(features)[features.len() as int + 2] == StartupStep::AwaitEvaluation,
{
}

/// A script behind a proxy loads its main module, runs the event loop, waits for
/// the evaluation, looks up the exports and binds its handles, in that order.
pub proof fn a_proxied_script_binds_its_handles_last()
    ensures
        proxy_steps().len() == 5,
        proxy_steps()[0] == StartupStep::LoadMain,
        proxy_steps()[1] == StartupStep::RunEventLoop,
        proxy_steps()[2] == StartupStep::AwaitEvaluation,
        proxy_steps()[3] == StartupStep::GetNamespace,
        proxy_steps()[4] == StartupStep::BindHandles,
{
}

/// A startup asks for its steps one after the other: it begins with the first,
/// each success brings it to the one behind, no success is counted once a step
/// has failed or none is left, and the steps themselves never change.
pub proof fn a_startup_takes_its_steps_in_order(
    steps: Seq<StartupStep>,
    progress: Progress,
    outcome: Result<(), LogicError>,
)
    ensures
        Progress::start(steps).steps == steps,
        Progress::start(steps).done == 0,
        Progress::start(steps).failure is None,
        progress.settled() <==> progress.failure is Some || progress.done >= progress.steps.len(),
        progress.next_step() is None <==> progress.failure is Some || progress.done
            >= progress.steps.len(),
        progress.next_step() is Some ==> progress.next_step()->Some_0
            == progress.steps[progress.done as int],
        progress.after(outcome).steps == progress.steps,
        progress.next_step() is None ==> progress.after(outcome).done == progress.done
            && progress.after(outcome).failure == progress.failure,
        progress.next_step() is Some && outcome is Ok ==> progress.after(outcome).done
            == progress.done + 1 && progress.after(outcome).failure is None,
        progress.next_step() is Some && outcome is Err ==> progress.after(outcome).done
            == progress.done && progress.after(outcome).failure == Some(outcome->Err_0),
{
}

proof fn lemma_steps_stay(progress: Progress, outcomes: Seq<Result<(), LogicError>>)
    ensures
        progress.after_all(outcomes).steps == progress.steps,
    decreases outcomes.len(),
{
    if outcomes.len() > 0 {
        lemma_steps_stay(progress, outcomes.drop_last());
    }
}

/// A runtime whose startup has come to its end without a failure, however its
/// steps went, has taken all steps: its features live, and its main module was
/// loaded, run and waited for.
pub proof fn a_started_runtime_has_evaluated_its_main_module(
    features: Seq<FeatureId>,
    outcomes: Seq<Result<(), LogicError>>,
)
    requires
        Progress::start(runtime_steps(features)).after_all(outcomes).next_step() is None,
        Progress::start(runtime_steps(features)).after_all(outcomes).failure is None,
    ensures
        Progress::start(runtime_steps(features)).after_all(outcomes).done >= features.len() + 3,
        outcomes.len() >= features.len() + 3,
        forall|i: int| 0 <= i < features.len() + 3 ==> (#[trigger] outcomes[i]) is Ok,
{
    let steps = runtime_steps(features);
    lemma_steps_stay(Progress::start(steps), outcomes);
    lemma_done_counts_successes(steps, outcomes);
}

proof fn lemma_done_counts_successes(
    steps: Seq<StartupStep>,
    outcomes: Seq<Result<(), LogicError>>,
)
    ensures
        Progress::start(steps).after_all(outcomes).done <= outcomes.len(),
        Progress::start(steps).after_all(outcomes).failure is None ==> forall|i: int|
            0 <= i < Progress::start(steps).after_all(outcomes).done ==> (
            #[trigger] outcomes[i]) is Ok,
        Progress::start(steps).after_all(outcomes).failure is None ==> (Progress::start(
            steps,
        ).after_all(outcomes).done == outcomes.len() || Progress::start(steps).after_all(
            outcomes,
        ).done >= steps.len()),
    decreases outcomes.len(),
{
    if outcomes.len() > 0 {
        let before = outcomes.drop_last();
        lemma_done_counts_successes(steps, before);
        lemma_steps_stay(Progress::start(steps), before);
        let progress = Progress::start(steps).after_all(before);
        assert(forall|i: int| 0 <= i < before.len() ==> #[trigger] outcomes[i] == before[i]);
        assert(Progress::start(steps).after_all(outcomes) == progress.after(outcomes.last()));
    }
}

} // verus!
