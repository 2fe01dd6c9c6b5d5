use vstd::prelude::*;

use super::error::LogicError;
use super::proxy::RuntimeEnd;
use super::startup::{runtime_steps, Startup};
use super::{FeatureId, LogicArgs};

verus! {

/// Whether a runtime still runs.
#[derive(Debug, Clone, Copy, PartialEq, Eq, Structural)]
pub enum RuntimeStatus {
    Running,
    /// Its event loop has reported an error.
    Faulted,
}

impl RuntimeStatus {
    /// Whether a runtime with this status gets turns on the event loop.
    pub fn should_update(&self) -> (due: bool)
        ensures
            due == (*self == RuntimeStatus::Running),
    {
        match self {
            RuntimeStatus::Running => true,
            RuntimeStatus::Faulted => false,
        }
    }

    /// The status after a turn on the event loop with the given outcome.
    pub open spec fn after(self, outcome: Result<(), LogicError>) -> RuntimeStatus {
        if self == RuntimeStatus::Running && outcome is Err {
            RuntimeStatus::Faulted
        } else {
            self
        }
    }

    /// The status after a run of turns.
    pub open spec fn after_all(self, outcomes: Seq<Result<(), LogicError>>) -> RuntimeStatus
        decreases outcomes.len(),
    {
        if outcomes.len() == 0 {
            self
        } else {
            self.after_all(outcomes.drop_last()).after(outcomes.last())
        }
    }
}

/// A single instance of logic.
pub struct Runtime {
    features: Vec<FeatureId>,
    status: RuntimeStatus,
    end: RuntimeEnd,
}

impl Runtime {
    /// The features that live in the runtime, in the order of their start.
    pub closed spec fn live_features(self) -> Seq<FeatureId> {
        self.features@
    }

    pub closed spec fn current(self) -> RuntimeStatus {
        self.status
    }

    /// The end of the connection to the script's item.
    pub closed spec fn end(self) -> RuntimeEnd {
        self.end
    }

    /// The runtime of a script, once its startup has no step left. It runs with
    /// all of the script's features, or the startup's error is reported.
    pub fn new(args: &LogicArgs, end: RuntimeEnd, startup: Startup) -> (res: Result<
        Runtime,
        LogicError,
    >)
        requires
            startup@.steps == runtime_steps(args.features@),
            startup@.settled(),
        ensures
            match startup@.failure {
                Some(error) => res == Err::<Runtime, LogicError>(error),
                None => res is Ok && res->Ok_0.current() == RuntimeStatus::Running
                    && res->Ok_0.live_features() == args.features@ && res->Ok_0.end() == end,
            },
            res is Ok ==> startup@.done >= args.features@.len() + 3 && startup@.failure is None,
    {
        match startup.finish() {
            Ok(_) => {
                let mut features: Vec<FeatureId> = Vec::new();
                let mut i: usize = 0;
                while i < args.features.len()
                    invariant
                        i <= args.features@.len(),
                        features@ == args.features@.take(i as int),
                    decreases args.features@.len() - i,
                {
                    features.push(args.features[i]);
                    assert(features@ =~= args.features@.take(i + 1));
                    i = i + 1;
                }
                assert(features@ =~= args.features@);
                Ok(Runtime { features, status: RuntimeStatus::Running, end })
            },
            Err(error) => Err(error),
        }
    }

    pub fn status(&self) -> (status: RuntimeStatus)
        ensures
            status == self.current(),
    {
        self.status
    }

    /// The end through which the runtime talks to its script's item.
    pub fn connection(&mut self) -> (end: &mut RuntimeEnd)
        ensures
            *end == old(self).end(),
            final(self).end() == *final(end),
            final(self).current() == old(self).current(),
            final(self).live_features() == old(self).live_features(),
    {
        &mut self.end
    }

    /// Takes note of how a turn on the event loop went. A runtime that is not
    /// due for turns stays as it is.
    pub fn run_event_loop(&mut self, outcome: Result<(), LogicError>)
        ensures
            final(self).current() == old(self).current().after(outcome),
            final(self).current() == RuntimeStatus::Running <==> old(self).current()
                == RuntimeStatus::Running && outcome is Ok,
            final(self).live_features() == old(self).live_features(),
            final(self).end() == old(self).end(),
    {
        if !self.status.should_update() {
            return ;
        }
        if outcome.is_err() {
            self.status = RuntimeStatus::Faulted;
        }
    }
}

/// A runtime runs as long as none of its turns has failed, and is faulted for
/// good from the first that does.
pub proof fn a_fault_is_for_good(outcomes: Seq<Result<(), LogicError>>)
    ensures
        RuntimeStatus::Running.after_all(outcomes) == RuntimeStatus::Running <==> forall|i: int|
            0 <= i < outcomes.len() ==> (#[trigger] outcomes[i]) is Ok,
        RuntimeStatus::Faulted.after_all(outcomes) == RuntimeStatus::Faulted,
    decreases outcomes.len(),
{
    if outcomes.len() > 0 {
        let before = outcomes.drop_last();
        a_fault_is_for_good(before);
        assert(forall|i: int| 0 <= i < before.len() ==> #[trigger] before[i] == outcomes[i]);
        if RuntimeStatus::Running.after_all(outcomes) == RuntimeStatus::Running {
            assert(outcomes.last() is Ok);
            assert forall|i: int| 0 <= i < outcomes.len() implies (
            #[trigger] outcomes[i]) is Ok by {
                if i < before.len() {
                    assert(before[i] is Ok);
                }
            }
        } else if forall|i: int| 0 <= i < outcomes.len() ==> (#[trigger] outcomes[i]) is Ok {
            assert(outcomes[outcomes.len() - 1] is Ok);
            assert(forall|i: int| 0 <= i < before.len() ==> (#[trigger] before[i]) is Ok);
        }
    }
}

/// A turn faults a runtime exactly when it fails, whatever the error, and no turn
/// brings a faulted runtime back.
pub proof fn a_turn_faults_a_runtime_when_it_fails(
    before: RuntimeStatus,
    outcome: Result<(), LogicError>,
)
    ensures
        before.after(outcome) == RuntimeStatus::Running <==> before == RuntimeStatus::Running
            && outcome is Ok,
        before.after(outcome) == RuntimeStatus::Faulted <==> before == RuntimeStatus::Faulted
            || outcome is Err,
{
}

} // verus!
