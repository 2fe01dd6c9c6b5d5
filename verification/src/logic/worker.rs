use std::sync::Arc;
use tokio::sync::mpsc::{UnboundedReceiver, UnboundedSender};
use vstd::prelude::*;

use super::channel::{
    control_answers, control_channel, control_line_in, control_line_out, control_offered,
    control_sent, control_taken, poll_control, send_control, PollError,
};
use super::error::LogicError;
use super::instance::{Runtime, RuntimeStatus};
use super::loader::ModuleResolver;
use super::proxy::{connected, LogicInst, RuntimeEnd};
use super::share::share;
use super::{LogicArgs, RuntimeConnection};

verus! {

/// A request to a worker.
pub enum WorkerInputEvent {
    /// Start a runtime, which talks to its script's item through the given end.
    Create(Arc<LogicArgs>, RuntimeEnd),
}

impl WorkerInputEvent {
    /// What the runtime is made from.
    pub open spec fn args(self) -> LogicArgs {
        match self {
            WorkerInputEvent::Create(args, _) => *args,
        }
    }

    /// The runtime's end of the connection to its script's item.
    pub open spec fn end(self) -> RuntimeEnd {
        match self {
            WorkerInputEvent::Create(_, end) => end,
        }
    }
}

/// The frontend of a worker.
#[derive(Debug)]
pub struct Worker {
    inputs: UnboundedSender<WorkerInputEvent>,
}

/// What asking a worker for a runtime comes to, once the request was sent or
/// handed back: the connection to the runtime, whose frontend is `inst`, or an
/// error.
pub fn connect(sent: Result<(), WorkerInputEvent>, inst: LogicInst) -> (res: Result<
    RuntimeConnection,
    LogicError,
>)
    ensures
        sent is Ok ==> res == Ok::<RuntimeConnection, LogicError>(RuntimeConnection { inst }),
        sent is Err ==> res == Err::<RuntimeConnection, LogicError>(LogicError::ChannelClosed),
{
    match sent {
        Ok(_) => Ok(RuntimeConnection { inst }),
        Err(_) => Err(LogicError::ChannelClosed),
    }
}

impl Worker {
    /// The requests that the worker was sent, first to last.
    pub closed spec fn requests(self) -> Seq<WorkerInputEvent> {
        control_sent(self.inputs)
    }

    /// The requests that were meant for the worker, first to last, and also
    /// those that it was not sent because its backend was gone.
    pub closed spec fn offered(self) -> Seq<WorkerInputEvent> {
        control_offered(self.inputs)
    }

    /// All requests that the worker is sent in its life, first to last.
    pub closed spec fn line(self) -> Seq<WorkerInputEvent> {
        control_line_in(self.inputs)
    }

    /// The requests so far are the first of them all.
    pub open spec fn in_line(self) -> bool {
        self.requests().is_prefix_of(self.line())
    }

    /// Both ends of a new worker. The backend runs once it is given a thread.
    pub fn new(module_resolver: &Arc<ModuleResolver>) -> (ends: (Worker, WorkerImpl))
        ensures
            ends.0.requests() == Seq::<WorkerInputEvent>::empty(),
            ends.0.offered() == Seq::<WorkerInputEvent>::empty(),
            ends.1.serves(ends.0, **module_resolver),
    {
        let (inputs, control_src) = control_channel();
        (
            Worker { inputs },
            WorkerImpl {
                control_src,
                module_resolver: share(module_resolver),
                runtimes: Vec::new(),
                next: 0,
            },
        )
    }

    /// Asks the worker once to start a runtime. The request reaches it unless its
    /// backend is gone, and carries the other end of the connection.
    pub fn create_runtime(&mut self, args: Arc<LogicArgs>) -> (res: Result<
        RuntimeConnection,
        LogicError,
    >)
        ensures
            final(self).offered() == old(self).offered().push(final(self).offered().last()),
            final(self).offered().last().args() == *args,
            final(self).offered().last().end().fresh(),
            final(self).offered().last() matches WorkerInputEvent::Create(sent_args, end)
                && sent_args == args && end.offered().len() == 0 && end.taken().len() == 0
                && !end.is_closed() && (res is Ok ==> res->Ok_0.inst.line_in() == end.line_in()
                && res->Ok_0.inst.line_out() == end.line_out()),
            res is Ok ==> {
                &&& final(self).requests() == old(self).requests().push(
                    final(self).offered().last(),
                )
                &&& res->Ok_0.reaches(final(self).offered().last().end())
            },
            res is Err ==> final(self).requests() == old(self).requests(),
            res is Err ==> res->Err_0 == LogicError::ChannelClosed,
            final(self).line() == old(self).line(),
            old(self).in_line() ==> final(self).in_line(),
    {
        let (inst, end) = connected();
        connect(send_control(&mut self.inputs, WorkerInputEvent::Create(args, end)), inst)
    }
}

/// What a worker does after it has looked for a request.
pub enum Control {
    /// Start a runtime, which talks to its script's item through the given end,
    /// then give each runtime its turn.
    Create(Arc<LogicArgs>, RuntimeEnd),
    /// Give each runtime its turn.
    Idle,
    /// Stop: no request can come any more.
    Shutdown,
}

/// What a worker does next.
pub enum Action {
    /// Give the runtime at the index its turn.
    Turn(usize),
    /// See to a request, or the lack of one.
    Control(Control),
}

/// What a worker is to do about a request, or the lack of one.
pub open spec fn decision(polled: Result<WorkerInputEvent, PollError>) -> Control {
    match polled {
        Ok(WorkerInputEvent::Create(args, end)) => Control::Create(args, end),
        Err(PollError::Empty) => Control::Idle,
        Err(PollError::Disconnected) => Control::Shutdown,
    }
}

/// What a worker does about a request, or the lack of one.
pub fn control_for(polled: Result<WorkerInputEvent, PollError>) -> (control: Control)
    ensures
        control == decision(polled),
        match polled {
            Ok(WorkerInputEvent::Create(args, end)) => control == Control::Create(args, end),
            Err(PollError::Empty) => control is Idle,
            Err(PollError::Disconnected) => control is Shutdown,
        },
{
    match polled {
        Ok(WorkerInputEvent::Create(args, end)) => Control::Create(args, end),
        Err(PollError::Empty) => Control::Idle,
        Err(PollError::Disconnected) => Control::Shutdown,
    }
}

/// The statuses of a worker's runtimes.
pub open spec fn statuses(runtimes: Seq<Runtime>) -> Seq<RuntimeStatus> {
    runtimes.map_values(|runtime: Runtime| runtime.current())
}

/// The statuses after the runtime at `index` has had its turn.
pub open spec fn after_turn(
    statuses: Seq<RuntimeStatus>,
    index: int,
    outcome: Result<(), LogicError>,
) -> Seq<RuntimeStatus> {
    statuses.update(index, statuses[index].after(outcome))
}

/// The statuses after the runtimes before `count` have had their turns in
/// order.
pub open spec fn after_turns(
    statuses: Seq<RuntimeStatus>,
    outcomes: Seq<Result<(), LogicError>>,
    count: nat,
) -> Seq<RuntimeStatus>
    decreases count,
{
    if count == 0 {
        statuses
    } else {
        after_turn(
            after_turns(statuses, outcomes, (count - 1) as nat),
            count - 1,
            outcomes[count - 1],
        )
    }
}

/// The runtimes from `from` on that are due for a turn, in order.
pub open spec fn due_from(statuses: Seq<RuntimeStatus>, from: int) -> Seq<int>
    decreases statuses.len() - from,
{
    if from >= statuses.len() {
        Seq::empty()
    } else if statuses[from] == RuntimeStatus::Running {
        seq![from] + due_from(statuses, from + 1)
    } else {
        due_from(statuses, from + 1)
    }
}

/// The backend of a worker: it starts runtimes and gives them turns on the
/// event loop, first come first served.
pub struct WorkerImpl {
    control_src: UnboundedReceiver<WorkerInputEvent>,
    module_resolver: Arc<ModuleResolver>,
    runtimes: Vec<Runtime>,
    /// Where the round goes on.
    next: usize,
}

impl WorkerImpl {
    /// The requests that were taken up, first to last.
    pub closed spec fn accepted(self) -> Seq<WorkerInputEvent> {
        control_taken(self.control_src)
    }

    /// What came of each look for a request, first to last.
    pub closed spec fn answers(self) -> Seq<Result<WorkerInputEvent, PollError>> {
        control_answers(self.control_src)
    }

    /// All requests that the worker is sent in its life, first to last.
    pub closed spec fn line(self) -> Seq<WorkerInputEvent> {
        control_line_out(self.control_src)
    }

    /// The requests that were taken up so far are the first of them all.
    pub open spec fn in_line(self) -> bool {
        self.accepted().is_prefix_of(self.line())
    }

    /// The runtimes that were started, first to last.
    pub closed spec fn runtimes(self) -> Seq<Runtime> {
        self.runtimes@
    }

    /// The runtime from which on the round goes on.
    pub closed spec fn position(self) -> int {
        self.next as int
    }

    /// The runtimes that are still to get a turn in the round, in order.
    pub open spec fn left(self) -> Seq<int> {
        due_from(statuses(self.runtimes()), self.position())
    }

    pub closed spec fn resolver(self) -> ModuleResolver {
        *self.module_resolver
    }

    /// Whether this is a new backend, without runtimes and requests, of which
    /// `frontend` is the frontend and which uses the given resolver.
    pub open spec fn serves(self, frontend: Worker, resolver: ModuleResolver) -> bool {
        &&& self.accepted() == Seq::<WorkerInputEvent>::empty()
        &&& self.answers().len() == 0
        &&& self.runtimes() == Seq::<Runtime>::empty()
        &&& self.position() == 0
        &&& self.resolver() == resolver
        &&& self.line() == frontend.line()
        &&& self.in_line()
        &&& frontend.in_line()
    }

    /// The resolver for modules that runtimes do not hold themselves.
    pub fn module_resolver(&self) -> (module_resolver: &Arc<ModuleResolver>)
        ensures
            **module_resolver == self.resolver(),
    {
        &self.module_resolver
    }

    /// Looks for a request once, without waiting for one, and decides by what
    /// came of it.
    pub fn poll(&mut self) -> (control: Control)
        ensures
            final(self).answers() == old(self).answers().push(final(self).answers().last()),
            control == decision(final(self).answers().last()),
            match final(self).answers().last() {
                Ok(WorkerInputEvent::Create(args, end)) => control == Control::Create(args, end),
                Err(PollError::Empty) => control is Idle,
                Err(PollError::Disconnected) => control is Shutdown,
            },
            match control {
                Control::Create(args, end) => final(self).accepted() == old(
                    self,
                ).accepted().push(WorkerInputEvent::Create(args, end)),
                _ => final(self).accepted() == old(self).accepted(),
            },
            control is Shutdown ==> final(self).accepted() == final(self).line(),
            final(self).runtimes() == old(self).runtimes(),
            final(self).position() == old(self).position(),
            final(self).resolver() == old(self).resolver(),
            final(self).line() == old(self).line(),
            old(self).in_line() ==> final(self).in_line(),
    {
        control_for(poll_control(&mut self.control_src))
    }

    /// Takes in a runtime that has started. One that has not is forgotten.
    pub fn take_in(&mut self, started: Result<Runtime, LogicError>)
        ensures
            final(self).runtimes() == match started {
                Ok(runtime) => old(self).runtimes().push(runtime),
                Err(_) => old(self).runtimes(),
            },
            final(self).position() == old(self).position(),
            final(self).accepted() == old(self).accepted(),
            final(self).answers() == old(self).answers(),
            final(self).line() == old(self).line(),
            final(self).resolver() == old(self).resolver(),
    {
        if let Ok(runtime) = started {
            self.runtimes.push(runtime);
        }
    }

    /// The first runtime from `from` on that is due for a turn.
    pub fn next_due(&self, from: usize) -> (due: Option<usize>)
        ensures
            match due {
                Some(index) => {
                    &&& from <= index < self.runtimes().len()
                    &&& due_from(statuses(self.runtimes()), from as int) == seq![index as int]
                        + due_from(statuses(self.runtimes()), index + 1)
                },
                None => due_from(statuses(self.runtimes()), from as int) == Seq::<int>::empty(),
            },
            match due {
                Some(index) => {
                    &&& self.runtimes()[index as int].current() == RuntimeStatus::Running
                    &&& forall|j: int|
                        from <= j < index ==> (#[trigger] self.runtimes()[j]).current()
                            == RuntimeStatus::Faulted
                },
                None => forall|j: int|
                    from <= j < self.runtimes().len() ==> (#[trigger] self.runtimes()[j]).current()
                        == RuntimeStatus::Faulted,
            },
    {
        let mut index: usize = from;
        while index < self.runtimes.len()
            invariant
                from <= index,
                forall|j: int|
                    from <= j < index ==> (#[trigger] self.runtimes@[j]).current()
                        == RuntimeStatus::Faulted,
                due_from(statuses(self.runtimes@), from as int) == due_from(
                    statuses(self.runtimes@),
                    index as int,
                ),
            decreases self.runtimes@.len() - index,
        {
            if self.runtimes[index].status().should_update() {
                return Some(index);
            }
            index = index + 1;
        }
        None
    }

    /// The runtime that gets the next turn of the round. Where none is left the
    /// round is over, and the next one begins at the first runtime.
    pub fn next_turn(&mut self) -> (turn: Option<usize>)
        ensures
            match turn {
                Some(index) => {
                    &&& index < old(self).runtimes().len()
                    &&& final(self).position() == index + 1
                    &&& old(self).left() == seq![index as int] + final(self).left()
                },
                None => old(self).left() == Seq::<int>::empty() && final(self).position() == 0,
            },
            match turn {
                Some(index) => {
                    &&& old(self).position() <= index < old(self).runtimes().len()
                    &&& old(self).runtimes()[index as int].current() == RuntimeStatus::Running
                    &&& forall|j: int|
                        old(self).position() <= j < index ==> (
                        #[trigger] old(self).runtimes()[j]).current() == RuntimeStatus::Faulted
                },
                None => forall|j: int|
                    old(self).position() <= j < old(self).runtimes().len() ==> (
                    #[trigger] old(self).runtimes()[j]).current() == RuntimeStatus::Faulted,
            },
            final(self).runtimes() == old(self).runtimes(),
            final(self).accepted() == old(self).accepted(),
            final(self).answers() == old(self).answers(),
            final(self).line() == old(self).line(),
            final(self).resolver() == old(self).resolver(),
    {
        let turn = self.next_due(self.next);
        assert(turn is Some ==> turn->Some_0 < self.runtimes.len());
        self.next = match turn {
            Some(index) => index + 1,
            None => 0,
        };
        turn
    }

    /// What the worker does next: the round goes on with its next turn, or, once
    /// it is over, the worker looks once for a request and decides by what came of
    /// it. A whole round follows each look.
    pub fn next_action(&mut self) -> (action: Action)
        ensures
            match action {
                Action::Turn(index) => {
                    &&& index < old(self).runtimes().len()
                    &&& final(self).position() == index + 1
                    &&& old(self).left() == seq![index as int] + final(self).left()
                    &&& final(self).answers() == old(self).answers()
                    &&& final(self).accepted() == old(self).accepted()
                },
                Action::Control(control) => {
                    &&& old(self).left() == Seq::<int>::empty()
                    &&& final(self).position() == 0
                    &&& final(self).answers() == old(self).answers().push(
                        final(self).answers().last(),
                    )
                    &&& control == decision(final(self).answers().last())
                    &&& match control {
                        Control::Create(args, end) => final(self).accepted() == old(
                            self,
                        ).accepted().push(WorkerInputEvent::Create(args, end)),
                        Control::Idle => final(self).accepted() == old(self).accepted(),
                        Control::Shutdown => final(self).accepted() == old(self).accepted()
                            && final(self).accepted() == final(self).line(),
                    }
                },
            },
            match action {
                Action::Turn(index) => {
                    &&& old(self).position() <= index < old(self).runtimes().len()
                    &&& old(self).runtimes()[index as int].current() == RuntimeStatus::Running
                    &&& forall|j: int|
                        old(self).position() <= j < index ==> (
                        #[trigger] old(self).runtimes()[j]).current() == RuntimeStatus::Faulted
                },
                Action::Control(control) => {
                    &&& forall|j: int|
                        old(self).position() <= j < old(self).runtimes().len() ==> (
                        #[trigger] old(self).runtimes()[j]).current() == RuntimeStatus::Faulted
                    &&& match final(self).answers().last() {
                        Ok(WorkerInputEvent::Create(args, end)) => control == Control::Create(
                            args,
                            end,
                        ),
                        Err(PollError::Empty) => control is Idle,
                        Err(PollError::Disconnected) => control is Shutdown,
                    }
                },
            },
            final(self).runtimes() == old(self).runtimes(),
            final(self).line() == old(self).line(),
            final(self).resolver() == old(self).resolver(),
            old(self).in_line() ==> final(self).in_line(),
    {
        match self.next_turn() {
            Some(index) => Action::Turn(index),
            None => Action::Control(self.poll()),
        }
    }

    /// The end through which a runtime talks to its script's item.
    pub fn connection(&mut self, index: usize) -> (end: &mut RuntimeEnd)
        requires
            index < old(self).runtimes().len(),
        ensures
            *end == old(self).runtimes()[index as int].end(),
            final(self).runtimes()[index as int].end() == *final(end),
            statuses(final(self).runtimes()) == statuses(old(self).runtimes()),
            final(self).runtimes().len() == old(self).runtimes().len(),
            forall|i: int|
                0 <= i < old(self).runtimes().len() && i != index ==> (
                #[trigger] final(self).runtimes()[i]) == old(self).runtimes()[i],
            final(self).runtimes()[index as int].live_features() == old(
                self,
            ).runtimes()[index as int].live_features(),
            final(self).position() == old(self).position(),
            final(self).accepted() == old(self).accepted(),
            final(self).answers() == old(self).answers(),
            final(self).line() == old(self).line(),
            final(self).resolver() == old(self).resolver(),
    {
        self.runtimes[index].connection()
    }

    /// Takes note of how the turn of a runtime went. No other runtime is
    /// affected.
    pub fn record(&mut self, index: usize, outcome: Result<(), LogicError>)
        requires
            index < old(self).runtimes().len(),
        ensures
            statuses(final(self).runtimes()) == after_turn(
                statuses(old(self).runtimes()),
                index as int,
                outcome,
            ),
            final(self).runtimes().len() == old(self).runtimes().len(),
            final(self).runtimes()[index as int].current() == RuntimeStatus::Running <==> old(
                self,
            ).runtimes()[index as int].current() == RuntimeStatus::Running && outcome is Ok,
            forall|i: int|
                0 <= i < old(self).runtimes().len() && i != index ==> (
                #[trigger] final(self).runtimes()[i]) == old(self).runtimes()[i],
            final(self).runtimes()[index as int].live_features() == old(
                self,
            ).runtimes()[index as int].live_features(),
            final(self).runtimes()[index as int].end() == old(
                self,
            ).runtimes()[index as int].end(),
            final(self).position() == old(self).position(),
            final(self).accepted() == old(self).accepted(),
            final(self).answers() == old(self).answers(),
            final(self).line() == old(self).line(),
            final(self).resolver() == old(self).resolver(),
    {
        self.runtimes[index].run_event_loop(outcome);
        assert(statuses(self.runtimes@) =~= after_turn(
            statuses(old(self).runtimes@),
            index as int,
            outcome,
        ));
    }
}

/// The backend of a worker takes up the requests that its frontend was sent, in
/// the order in which they were sent.
pub proof fn requests_are_taken_up_in_order(frontend: Worker, backend: WorkerImpl, i: int)
    requires
        frontend.line() == backend.line(),
        frontend.in_line(),
        backend.in_line(),
        0 <= i < frontend.requests().len(),
        i < backend.accepted().len(),
    ensures
        backend.accepted()[i] == frontend.requests()[i],
{
    assert(frontend.requests()[i] == frontend.line()[i]);
    assert(backend.accepted()[i] == backend.line()[i]);
}

/// When a worker finds that no request can come any more, it has taken up all
/// that its frontend was sent.
pub proof fn no_request_is_lost_before_the_shutdown(frontend: Worker, backend: WorkerImpl)
    requires
        frontend.line() == backend.line(),
        frontend.in_line(),
        backend.accepted() == backend.line(),
    ensures
        frontend.requests().is_prefix_of(backend.accepted()),
{
}

/// In a round, which asks for the next due runtime from the start on and goes on
/// behind each that it finds, a runtime gets a turn exactly when it runs, and
/// the turns come in order, so that none gets two.
pub proof fn a_round_serves_each_running_runtime_once(before: Seq<RuntimeStatus>, from: int)
    requires
        0 <= from,
    ensures
        forall|j: int|
            0 <= j < due_from(before, from).len() ==> {
                let i = #[trigger] due_from(before, from)[j];
                from <= i < before.len() && before[i] == RuntimeStatus::Running
            },
        forall|i: int|
            from <= i < before.len() && #[trigger] before[i] == RuntimeStatus::Running
                ==> due_from(before, from).contains(i),
        forall|j: int, k: int|
            0 <= j < k < due_from(before, from).len() ==> (#[trigger] due_from(before, from)[j]) < (
            #[trigger] due_from(before, from)[k]),
    decreases before.len() - from,
{
    if from < before.len() {
        let rest = due_from(before, from + 1);
        let all = due_from(before, from);
        a_round_serves_each_running_runtime_once(before, from + 1);
        if before[from] == RuntimeStatus::Running {
            assert(all == seq![from] + rest);
            assert forall|j: int| 0 <= j < all.len() implies {
                let i = #[trigger] all[j];
                from <= i < before.len() && before[i] == RuntimeStatus::Running
            } by {
                if j > 0 {
                    assert(all[j] == rest[j - 1]);
                }
            }
            assert forall|i: int|
                from <= i < before.len() && #[trigger] before[i]
                    == RuntimeStatus::Running implies all.contains(i) by {
                if i == from {
                    assert(all[0] == i);
                } else {
                    let j = choose|j: int| 0 <= j < rest.len() && rest[j] == i;
                    assert(all[j + 1] == i);
                }
            }
            assert forall|j: int, k: int| 0 <= j < k < all.len() implies (#[trigger] all[j]) < (
            #[trigger] all[k]) by {
                assert(all[k] == rest[k - 1]);
                if j > 0 {
                    assert(all[j] == rest[j - 1]);
                }
            }
        }
    }
}

/// The turn of a runtime does not change which of the later ones are due.
pub proof fn a_turn_leaves_later_turns_alone(
    before: Seq<RuntimeStatus>,
    index: int,
    outcome: Result<(), LogicError>,
    from: int,
)
    requires
        0 <= index < before.len(),
        index < from,
    ensures
        due_from(after_turn(before, index, outcome), from) == due_from(before, from),
    decreases before.len() - from,
{
    if from < before.len() {
        a_turn_leaves_later_turns_alone(before, index, outcome, from + 1);
    }
}

/// One turn of a round: where the round goes on at `position`, the runtime at
/// `turn` gets the next turn, which goes as `outcome` says.
pub open spec fn gives_turn(
    before: Seq<RuntimeStatus>,
    position: int,
    turn: int,
    outcome: Result<(), LogicError>,
    after: Seq<RuntimeStatus>,
) -> bool {
    &&& 0 <= turn < before.len()
    &&& due_from(before, position) == seq![turn] + due_from(before, turn + 1)
    &&& after == after_turn(before, turn, outcome)
}

/// A round, which takes the next turn until none is left and records each turn
/// before the next, gives turns to exactly the runtimes that were due when it
/// began, in order. `turns` are the turns that it gave and `outcomes` how they
/// went; `stages` and `positions` are the statuses before, between and after them
/// and where the round went on.
pub proof fn a_round_gives_the_turns_that_are_due(
    stages: Seq<Seq<RuntimeStatus>>,
    positions: Seq<int>,
    turns: Seq<int>,
    outcomes: Seq<Result<(), LogicError>>,
)
    requires
        stages.len() == turns.len() + 1,
        positions.len() == turns.len() + 1,
        outcomes.len() == turns.len(),
        forall|k: int|
            0 <= k < turns.len() ==> gives_turn(
                stages[k],
                positions[k],
                #[trigger] turns[k],
                outcomes[k],
                stages[k + 1],
            ) && positions[k + 1] == turns[k] + 1,
        due_from(stages.last(), positions.last()) == Seq::<int>::empty(),
    ensures
        turns == due_from(stages[0], positions[0]),
    decreases turns.len(),
{
    if turns.len() > 0 {
        let later_stages = stages.drop_first();
        let later_positions = positions.drop_first();
        let later_turns = turns.drop_first();
        let later_outcomes = outcomes.drop_first();
        assert forall|k: int| 0 <= k < later_turns.len() implies gives_turn(
            later_stages[k],
            later_positions[k],
            #[trigger] later_turns[k],
            later_outcomes[k],
            later_stages[k + 1],
        ) && later_positions[k + 1] == later_turns[k] + 1 by {
            assert(later_turns[k] == turns[k + 1]);
        }
        a_round_gives_the_turns_that_are_due(
            later_stages,
            later_positions,
            later_turns,
            later_outcomes,
        );
        assert(gives_turn(stages[0], positions[0], turns[0], outcomes[0], stages[1]));
        a_turn_leaves_later_turns_alone(stages[0], turns[0], outcomes[0], turns[0] + 1);
        assert(turns =~= seq![turns[0]] + later_turns);
    }
}

/// In a round of turns each runtime is affected by the outcome of its own turn
/// and by no other: a fault stays with the runtime that it occurs in.
pub proof fn a_fault_stays_with_its_runtime(
    before: Seq<RuntimeStatus>,
    outcomes: Seq<Result<(), LogicError>>,
    count: nat,
)
    requires
        count <= before.len(),
    ensures
        after_turns(before, outcomes, count).len() == before.len(),
        forall|i: int|
            0 <= i < count ==> #[trigger] after_turns(before, outcomes, count)[i]
                == before[i].after(outcomes[i]),
        forall|i: int|
            count <= i < before.len() ==> #[trigger] after_turns(before, outcomes, count)[i]
                == before[i],
    decreases count,
{
    if count > 0 {
        a_fault_stays_with_its_runtime(before, outcomes, (count - 1) as nat);
    }
}

/// A worker does what it is asked, and only where it is asked nothing does it
/// idle or shut down: the former while a request can still come, the latter when
/// none can.
pub proof fn a_worker_does_as_it_is_asked(
    polled: Result<WorkerInputEvent, PollError>,
    args: Arc<LogicArgs>,
    end: RuntimeEnd,
)
    ensures
        decision(Ok(WorkerInputEvent::Create(args, end))) == Control::Create(args, end),
        WorkerInputEvent::Create(args, end).args() == *args,
        WorkerInputEvent::Create(args, end).end() == end,
        decision(polled) is Create <==> polled is Ok,
        decision(polled) is Idle <==> polled is Err && polled->Err_0 == PollError::Empty,
        decision(polled) is Shutdown <==> polled is Err && polled->Err_0
            == PollError::Disconnected,
{
}

/// The statuses of a worker's runtimes are those of each of them, in order, and a
/// turn changes that of the runtime which had it, and of no other.
pub proof fn a_turn_changes_one_status(
    runtimes: Seq<Runtime>,
    before: Seq<RuntimeStatus>,
    index: int,
    outcome: Result<(), LogicError>,
    i: int,
)
    requires
        0 <= index < before.len(),
    ensures
        statuses(runtimes).len() == runtimes.len(),
        0 <= i < runtimes.len() ==> statuses(runtimes)[i] == runtimes[i].current(),
        after_turn(before, index, outcome).len() == before.len(),
        0 <= i < before.len() && i != index ==> after_turn(before, index, outcome)[i] == before[i],
        after_turn(before, index, outcome)[index] == RuntimeStatus::Running <==> before[index]
            == RuntimeStatus::Running && outcome is Ok,
{
}

/// What is left of a round are the runtimes that run from where it goes on, each
/// once and in order.
pub proof fn a_round_leaves_out_no_running_runtime(worker: WorkerImpl, i: int)
    requires
        0 <= worker.position() <= i < worker.runtimes().len(),
    ensures
        worker.left().contains(i) <==> worker.runtimes()[i].current() == RuntimeStatus::Running,
        forall|j: int, k: int|
            0 <= j < k < worker.left().len() ==> (#[trigger] worker.left()[j]) < (
            #[trigger] worker.left()[k]),
{
    let before = statuses(worker.runtimes());
    a_round_serves_each_running_runtime_once(before, worker.position());
    assert(before[i] == worker.runtimes()[i].current());
    if worker.left().contains(i) {
        let j = choose|j: int| 0 <= j < worker.left().len() && worker.left()[j] == i;
        assert(due_from(before, worker.position())[j] == i);
    }
}

/// A new backend has no runtimes and no requests, begins its rounds at the first
/// runtime, uses the resolver it was given and gets what its frontend is sent.
pub proof fn a_new_worker_begins_at_the_start(
    worker: Worker,
    backend: WorkerImpl,
    resolver: ModuleResolver,
)
    requires
        backend.serves(worker, resolver),
    ensures
        backend.runtimes().len() == 0,
        backend.accepted().len() == 0,
        backend.answers().len() == 0,
        backend.position() == 0,
        backend.resolver() == resolver,
        backend.line() == worker.line(),
        worker.requests().is_prefix_of(worker.line()),
        backend.accepted().is_prefix_of(backend.line()),
{
}

/// An end of a worker is in line exactly when what passed it so far is the
/// beginning of all that does.
pub proof fn a_worker_in_line_has_the_first_requests(worker: Worker, backend: WorkerImpl)
    ensures
        worker.in_line() <==> worker.requests().is_prefix_of(worker.line()),
        backend.in_line() <==> backend.accepted().is_prefix_of(backend.line()),
{
}

/// A turn of a round goes to the first runtime that runs from where the round
/// goes on.
pub proof fn a_turn_goes_to_the_first_running_runtime(
    before: Seq<RuntimeStatus>,
    position: int,
    turn: int,
    outcome: Result<(), LogicError>,
    after: Seq<RuntimeStatus>,
    i: int,
)
    requires
        0 <= position,
        gives_turn(before, position, turn, outcome, after),
    ensures
        position <= turn < before.len(),
        before[turn] == RuntimeStatus::Running,
        position <= i < turn ==> before[i] == RuntimeStatus::Faulted,
        after.len() == before.len(),
        0 <= i < before.len() && i != turn ==> after[i] == before[i],
{
    a_round_serves_each_running_runtime_once(before, position);
    let all = due_from(before, position);
    assert(all[0] == turn);
    if position <= i < turn && before[i] == RuntimeStatus::Running {
        let j = choose|j: int| 0 <= j < all.len() && all[j] == i;
        assert(j != 0);
        assert(all[0] < all[j]);
    }
}

} // verus!
