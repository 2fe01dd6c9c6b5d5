use tokio::sync::mpsc::{UnboundedReceiver, UnboundedSender};
use vstd::prelude::*;

use crate::manifest::ManifestSection;

use super::channel::{
    close_inputs, input_channel, inputs_answers, inputs_closed, inputs_line_in, inputs_line_out,
    inputs_offered, inputs_sent, inputs_taken, output_channel, outputs_answers, outputs_line_in,
    outputs_line_out, outputs_offered, outputs_sent, outputs_taken, poll_input, poll_output,
    send_input, send_output, PollError,
};
use super::error::LogicError;
use super::module::{Code, ModuleSource, ModuleTable};
use super::module_url::{local_main, ModuleUrl};
use super::runtime::{LogicInputEvent, LogicOutputEvent};
use super::time::Timestamp;

verus! {

/// A script of several modules, which are looked up by their address.
#[derive(Debug)]
pub struct Logic {
    pub modules: ModuleTable,
}

/// A message to a script and the time at which it was sent.
#[derive(Debug, Clone, Copy, PartialEq, Eq, Structural)]
pub struct LogicInstEvent {
    pub input: LogicInputEvent,
    pub send_time: Timestamp,
}

/// The frontend of a running script.
#[derive(Debug)]
pub struct LogicInst {
    input: UnboundedSender<LogicInstEvent>,
    output: UnboundedReceiver<LogicOutputEvent>,
}

/// A script that has been set up, and the thread's worth of work that runs it.
pub struct Spawned {
    /// The frontend.
    pub inst: LogicInst,
    /// The backend.
    pub root: LogicRuntimeRoot,
    /// The script's modules.
    pub module_loader: Logic,
    /// The address of the module to start with.
    pub url: ModuleUrl,
}

impl Spawned {
    /// Whether this runs the given modules from their main module on, and
    /// nothing has passed between its ends yet.
    pub open spec fn fresh(self, modules: Map<Seq<char>, Code>) -> bool {
        &&& self.module_loader.modules@ == modules
        &&& self.url@ == local_main()
        &&& self.inst.fresh()
        &&& self.root.end().fresh()
        &&& self.root.is_open()
        &&& self.inst.faces(self.root.end())
    }
}

impl Logic {
    /// Sets the script up to run from its main module on.
    pub fn spawn(self) -> (spawned: Spawned)
        ensures
            spawned.fresh(self.modules@),
            spawned.module_loader.modules@ == self.modules@,
            spawned.url@ == "local://main"@,
    {
        LogicInst::new(self, ModuleUrl::local_main())
    }

    /// Answers a request for the module at an address.
    pub fn load(&self, module_specifier: &ModuleUrl) -> (res: Result<ModuleSource, LogicError>)
        ensures
            self.modules@.contains_key(module_specifier@) ==> res is Ok && res->Ok_0.is_script(
                module_specifier@,
                self.modules@[module_specifier@],
            ),
            !self.modules@.contains_key(module_specifier@) ==> res == Err::<
                ModuleSource,
                LogicError,
            >(LogicError::ModuleNotFound),
            res is Ok <==> self.modules@.contains_key(module_specifier@),
            res is Ok ==> res->Ok_0.code@ == self.modules@[module_specifier@] && res->Ok_0.url@
                == module_specifier@,
            res is Err ==> res->Err_0 == LogicError::ModuleNotFound,
    {
        match self.modules.get(module_specifier) {
            Some(module) => match module.resolve() {
                Ok(code) => Ok(ModuleSource::new(code, module_specifier)),
                Err(error) => Err(error),
            },
            None => Err(LogicError::ModuleNotFound),
        }
    }
}

impl Clone for Logic {
    fn clone(&self) -> (res: Self)
        ensures
            res.modules@ == self.modules@,
    {
        Logic { modules: self.modules.clone() }
    }
}

impl ManifestSection for Logic {
    type LiveInstance = Spawned;

    open spec fn ready(&self) -> bool {
        true
    }

    open spec fn lives_as(&self, live: Spawned) -> bool {
        live.fresh(self.modules@)
    }

    fn spawn(&self) -> (live: Spawned)
        ensures
            live.module_loader.modules@ == self.modules@,
            live.url@ == "local://main"@,
    {
        self.clone().spawn()
    }
}

/// What sending a message comes to, once it was sent or handed back.
pub fn delivery<Message>(sent: Result<(), Message>) -> (res: Result<(), LogicError>)
    ensures
        sent is Ok ==> res == Ok::<(), LogicError>(()),
        sent is Err ==> res == Err::<(), LogicError>(LogicError::ChannelClosed),
{
    match sent {
        Ok(_) => Ok(()),
        Err(_) => Err(LogicError::ChannelClosed),
    }
}

impl LogicInst {
    /// The messages that the script was sent, first to last.
    pub closed spec fn sent(self) -> Seq<LogicInstEvent> {
        inputs_sent(self.input)
    }

    /// The messages that were meant for the script, first to last, and also
    /// those that it was not sent because it had ended.
    pub closed spec fn offered(self) -> Seq<LogicInstEvent> {
        inputs_offered(self.input)
    }

    /// The messages that were read from the script, first to last.
    pub closed spec fn received(self) -> Seq<LogicOutputEvent> {
        outputs_taken(self.output)
    }

    /// What came of each look for a message from the script, first to last.
    pub closed spec fn answers(self) -> Seq<Result<LogicOutputEvent, PollError>> {
        outputs_answers(self.output)
    }

    /// All messages that the script is sent in its life, first to last.
    pub closed spec fn line_in(self) -> Seq<LogicInstEvent> {
        inputs_line_in(self.input)
    }

    /// All messages that the script sends in its life, first to last.
    pub closed spec fn line_out(self) -> Seq<LogicOutputEvent> {
        outputs_line_out(self.output)
    }

    /// Whether `end` is the other end of this frontend.
    pub open spec fn faces(self, end: RuntimeEnd) -> bool {
        self.line_in() == end.line_in() && self.line_out() == end.line_out()
    }

    /// The messages so far are the first of them all.
    pub open spec fn in_line(self) -> bool {
        self.sent().is_prefix_of(self.line_in()) && self.received().is_prefix_of(self.line_out())
    }

    /// Whether nothing has been sent, looked for or read yet.
    pub open spec fn fresh(self) -> bool {
        &&& self.sent() == Seq::<LogicInstEvent>::empty()
        &&& self.offered() == Seq::<LogicInstEvent>::empty()
        &&& self.received() == Seq::<LogicOutputEvent>::empty()
        &&& self.answers().len() == 0
        &&& self.in_line()
    }

    fn new(module_loader: Logic, url: ModuleUrl) -> (spawned: Spawned)
        ensures
            spawned.module_loader == module_loader,
            spawned.url == url,
            spawned.inst.fresh(),
            spawned.root.end().fresh(),
            spawned.root.is_open(),
            spawned.inst.faces(spawned.root.end()),
    {
        let (inst, end) = connected();
        Spawned { inst, root: LogicRuntimeRoot { end, running: true }, module_loader, url }
    }

    /// Sends the script a message. It gets there unless the script has ended.
    pub fn send(&mut self, input: LogicInputEvent, send_time: Timestamp) -> (res: Result<
        (),
        LogicError,
    >)
        ensures
            final(self).offered() == old(self).offered().push(LogicInstEvent { input, send_time }),
            res is Ok ==> final(self).sent() == old(self).sent().push(
                LogicInstEvent { input, send_time },
            ),
            res is Err ==> final(self).sent() == old(self).sent(),
            res is Err ==> res->Err_0 == LogicError::ChannelClosed,
            final(self).received() == old(self).received(),
            final(self).answers() == old(self).answers(),
            final(self).line_in() == old(self).line_in(),
            final(self).line_out() == old(self).line_out(),
            old(self).in_line() ==> final(self).in_line(),
    {
        delivery(send_input(&mut self.input, LogicInstEvent { input, send_time }))
    }

    /// Looks once for a message from the script, without waiting for one, and
    /// reads it if there is one.
    pub fn try_recv(&mut self) -> (message: Option<LogicOutputEvent>)
        ensures
            final(self).answers() == old(self).answers().push(final(self).answers().last()),
            message == match final(self).answers().last() {
                Ok(event) => Some(event),
                Err(_) => None::<LogicOutputEvent>,
            },
            final(self).received() == match message {
                Some(event) => old(self).received().push(event),
                None => old(self).received(),
            },
            final(self).answers().last() == Err::<LogicOutputEvent, PollError>(
                PollError::Disconnected,
            ) ==> final(self).received() == final(self).line_out(),
            final(self).sent() == old(self).sent(),
            final(self).offered() == old(self).offered(),
            final(self).line_in() == old(self).line_in(),
            final(self).line_out() == old(self).line_out(),
            old(self).in_line() ==> final(self).in_line(),
    {
        match poll_output(&mut self.output) {
            Ok(event) => Some(event),
            Err(_) => None,
        }
    }
}

/// The end of a frontend's channels that the backend holds.
pub struct RuntimeEnd {
    inputs: UnboundedReceiver<LogicInstEvent>,
    outputs: UnboundedSender<LogicOutputEvent>,
    refusals: Ghost<Seq<bool>>,
}

/// A frontend and the end that its backend holds.
pub(crate) fn connected() -> (ends: (LogicInst, RuntimeEnd))
    ensures
        ends.0.fresh(),
        ends.1.fresh(),
        ends.0.faces(ends.1),
{
    let (input, inputs) = input_channel();
    let (outputs, output) = output_channel();
    (LogicInst { input, output }, RuntimeEnd { inputs, outputs, refusals: Ghost(Seq::empty()) })
}

impl RuntimeEnd {
    /// The messages that were taken up, first to last.
    pub closed spec fn taken(self) -> Seq<LogicInstEvent> {
        inputs_taken(self.inputs)
    }

    /// What came of each look for a message, first to last.
    pub closed spec fn answers(self) -> Seq<Result<LogicInstEvent, PollError>> {
        inputs_answers(self.inputs)
    }

    /// The messages that were sent to the frontend, first to last.
    pub closed spec fn reported(self) -> Seq<LogicOutputEvent> {
        outputs_sent(self.outputs)
    }

    /// The messages that were meant for the frontend, first to last, and also
    /// those that it was not sent because it was gone.
    pub closed spec fn offered(self) -> Seq<LogicOutputEvent> {
        outputs_offered(self.outputs)
    }

    /// All messages that the frontend sends in its life, first to last.
    pub closed spec fn line_in(self) -> Seq<LogicInstEvent> {
        inputs_line_out(self.inputs)
    }

    /// All messages that the frontend is sent in its life, first to last.
    pub closed spec fn line_out(self) -> Seq<LogicOutputEvent> {
        outputs_line_in(self.outputs)
    }

    /// Whether messages from the frontend are refused.
    pub closed spec fn is_closed(self) -> bool {
        inputs_closed(self.inputs)
    }

    /// Whether messages from the frontend were refused by then, for each message
    /// that was meant for it.
    pub closed spec fn refused_at(self) -> Seq<bool> {
        self.refusals@
    }

    /// The messages so far are the first of them all.
    pub open spec fn in_line(self) -> bool {
        self.taken().is_prefix_of(self.line_in()) && self.reported().is_prefix_of(self.line_out())
    }

    /// Whether nothing has been sent, looked for or taken up yet.
    pub open spec fn fresh(self) -> bool {
        &&& self.taken() == Seq::<LogicInstEvent>::empty()
        &&& self.answers().len() == 0
        &&& self.reported() == Seq::<LogicOutputEvent>::empty()
        &&& self.offered() == Seq::<LogicOutputEvent>::empty()
        &&& self.refused_at() == Seq::<bool>::empty()
        &&& !self.is_closed()
        &&& self.in_line()
    }

    /// Whether `self` is at the same frontend as `before` and keeps to its lines
    /// if that did.
    pub open spec fn keeps_in_line(self, before: RuntimeEnd) -> bool {
        &&& self.line_in() == before.line_in()
        &&& self.line_out() == before.line_out()
        &&& before.in_line() ==> self.in_line()
    }

    /// Looks once for a message from the frontend, without waiting for one, and
    /// takes it up if there is one.
    pub fn try_recv(&mut self) -> (answer: Result<LogicInstEvent, PollError>)
        ensures
            final(self).answers() == old(self).answers().push(answer),
            final(self).taken() == match answer {
                Ok(event) => old(self).taken().push(event),
                Err(_) => old(self).taken(),
            },
            answer == Err::<LogicInstEvent, PollError>(PollError::Disconnected)
                ==> final(self).taken() == final(self).line_in(),
            final(self).reported() == old(self).reported(),
            final(self).offered() == old(self).offered(),
            final(self).refused_at() == old(self).refused_at(),
            final(self).is_closed() == old(self).is_closed(),
            final(self).keeps_in_line(*old(self)),
    {
        poll_input(&mut self.inputs)
    }

    /// Sends the frontend a message. It gets there unless the frontend is gone.
    pub fn send(&mut self, event: LogicOutputEvent) -> (res: Result<(), LogicError>)
        ensures
            final(self).offered() == old(self).offered().push(event),
            final(self).refused_at() == old(self).refused_at().push(old(self).is_closed()),
            res is Ok ==> final(self).reported() == old(self).reported().push(event),
            res is Err ==> final(self).reported() == old(self).reported(),
            res is Err ==> res->Err_0 == LogicError::ChannelClosed,
            final(self).taken() == old(self).taken(),
            final(self).answers() == old(self).answers(),
            final(self).is_closed() == old(self).is_closed(),
            final(self).keeps_in_line(*old(self)),
    {
        proof {
            self.refusals@ = self.refusals@.push(inputs_closed(self.inputs));
        }
        delivery(send_output(&mut self.outputs, event))
    }

    /// Has messages from the frontend refused from here on.
    pub fn close(&mut self)
        ensures
            final(self).is_closed(),
            final(self).taken() == old(self).taken(),
            final(self).answers() == old(self).answers(),
            final(self).reported() == old(self).reported(),
            final(self).offered() == old(self).offered(),
            final(self).refused_at() == old(self).refused_at(),
            final(self).keeps_in_line(*old(self)),
    {
        close_inputs(&mut self.inputs)
    }
}

/// What the backend of a script does next.
#[derive(Debug)]
pub enum Next {
    /// Run the event loop.
    RunEventLoop,
    /// Let the script process a message.
    Process(LogicInstEvent),
    /// Stop: the script has ended.
    Stop,
}

/// What the backend of a script is to do next once it has looked for a message.
pub open spec fn next_for(answer: Result<LogicInstEvent, PollError>) -> Next {
    match answer {
        Ok(event) => Next::Process(event),
        Err(PollError::Empty) => Next::RunEventLoop,
        Err(PollError::Disconnected) => Next::Stop,
    }
}

/// The message to process, if any, or the error with which the script ends.
pub fn message_for(polled: Result<LogicInstEvent, PollError>) -> (res: Result<
    Option<LogicInstEvent>,
    LogicError,
>)
    ensures
        res == match polled {
            Ok(event) => Ok::<Option<LogicInstEvent>, LogicError>(Some(event)),
            Err(PollError::Empty) => Ok::<Option<LogicInstEvent>, LogicError>(None),
            Err(PollError::Disconnected) => Err::<Option<LogicInstEvent>, LogicError>(
                LogicError::Disconnected,
            ),
        },
{
    match polled {
        Ok(event) => Ok(Some(event)),
        Err(PollError::Empty) => Ok(None),
        Err(PollError::Disconnected) => Err(LogicError::Disconnected),
    }
}

/// The backend of a running script.
pub struct LogicRuntimeRoot {
    end: RuntimeEnd,
    running: bool,
}

impl LogicRuntimeRoot {
    /// The end that faces the frontend.
    pub closed spec fn end(self) -> RuntimeEnd {
        self.end
    }

    /// The messages that were taken up, first to last.
    pub open spec fn taken(self) -> Seq<LogicInstEvent> {
        self.end().taken()
    }

    /// What came of each look for a message, first to last.
    pub open spec fn answers(self) -> Seq<Result<LogicInstEvent, PollError>> {
        self.end().answers()
    }

    /// The messages that were sent to the frontend, first to last.
    pub open spec fn reported(self) -> Seq<LogicOutputEvent> {
        self.end().reported()
    }

    /// The messages that were meant for the frontend, first to last, and also
    /// those that it was not sent because it was gone.
    pub open spec fn offered(self) -> Seq<LogicOutputEvent> {
        self.end().offered()
    }

    /// Whether messages are taken up.
    pub closed spec fn is_open(self) -> bool {
        self.running && !self.end.is_closed()
    }

    /// Whether the script has ended: messages are refused.
    pub closed spec fn has_ended(self) -> bool {
        !self.running && self.end.is_closed()
    }

    /// Whether `self` is `before` while the script goes on: nothing was meant
    /// for the frontend.
    pub open spec fn goes_on(self, before: LogicRuntimeRoot) -> bool {
        &&& self.is_open() == before.is_open()
        &&& self.end().keeps_in_line(before.end())
        &&& self.reported() == before.reported()
        &&& self.offered() == before.offered()
        &&& self.end().refused_at() == before.end().refused_at()
    }

    /// Whether `self` is `before` once the script has ended with an error: no
    /// message is taken up any more, and the error, and nothing else, was handed
    /// over for the frontend, which was sent it if it was still there. Messages
    /// from the frontend were refused by then.
    pub open spec fn ended_with(self, before: LogicRuntimeRoot, error: LogicError) -> bool {
        &&& self.has_ended()
        &&& self.end().keeps_in_line(before.end())
        &&& self.taken() == before.taken()
        &&& self.offered() == before.offered().push(LogicOutputEvent::Failed(error))
        &&& self.end().refused_at() == before.end().refused_at().push(true)
        &&& self.reported() == before.reported() || self.reported() == before.reported().push(
            LogicOutputEvent::Failed(error),
        )
    }

    /// Ends the script with an error. Messages are refused before the error is
    /// reported.
    pub fn fail(&mut self, error: LogicError)
        ensures
            final(self).ended_with(*old(self), error),
            final(self).answers() == old(self).answers(),
            final(self).end().is_closed(),
            final(self).offered() == old(self).offered().push(LogicOutputEvent::Failed(error)),
            final(self).end().refused_at() == old(self).end().refused_at().push(true),
            final(self).taken() == old(self).taken(),
    {
        self.running = false;
        self.end.close();
        let _ = self.end.send(LogicOutputEvent::Failed(error));
    }

    /// What follows a turn on the event loop: one look for a message, or the
    /// script's end.
    pub fn after_event_loop(&mut self, outcome: Result<(), LogicError>) -> (next: Next)
        ensures
            outcome is Err ==> {
                &&& next is Stop
                &&& final(self).ended_with(*old(self), outcome->Err_0)
                &&& final(self).offered() == old(self).offered().push(
                    LogicOutputEvent::Failed(outcome->Err_0),
                )
                &&& final(self).end().is_closed()
                &&& final(self).taken() == old(self).taken()
                &&& final(self).answers() == old(self).answers()
            },
            outcome is Ok ==> {
                &&& final(self).answers() == old(self).answers().push(final(self).answers().last())
                &&& next == next_for(final(self).answers().last())
                &&& final(self).answers().last() matches Ok(event) ==> next == Next::Process(event)
                    && final(self).offered() == old(self).offered()
                &&& final(self).answers().last() matches Err(error) ==> match error {
                    PollError::Empty => next is RunEventLoop && final(self).offered() == old(
                        self,
                    ).offered(),
                    PollError::Disconnected => next is Stop && final(self).offered() == old(
                        self,
                    ).offered().push(LogicOutputEvent::Failed(LogicError::Disconnected)),
                }
                &&& match next {
                    Next::Process(event) => {
                        &&& final(self).goes_on(*old(self))
                        &&& final(self).taken() == old(self).taken().push(event)
                    },
                    Next::RunEventLoop => {
                        &&& final(self).goes_on(*old(self))
                        &&& final(self).taken() == old(self).taken()
                    },
                    Next::Stop => {
                        &&& final(self).ended_with(*old(self), LogicError::Disconnected)
                        &&& final(self).taken() == final(self).end().line_in()
                    },
                }
            },
    {
        match outcome {
            Err(error) => {
                self.fail(error);
                Next::Stop
            },
            Ok(_) => match message_for(self.end.try_recv()) {
                Ok(Some(event)) => Next::Process(event),
                Ok(None) => Next::RunEventLoop,
                Err(error) => {
                    self.fail(error);
                    Next::Stop
                },
            },
        }
    }

    /// What follows the processing of a message.
    pub fn after_message(&mut self, outcome: Result<(), LogicError>) -> (next: Next)
        ensures
            match outcome {
                Err(error) => next is Stop && final(self).ended_with(*old(self), error)
                    && final(self).answers() == old(self).answers() && final(self).offered() == old(
                    self,
                ).offered().push(LogicOutputEvent::Failed(error)) && final(self).end().is_closed(),
                Ok(_) => next is RunEventLoop && *final(self) == *old(self),
            },
    {
        match outcome {
            Err(error) => {
                self.fail(error);
                Next::Stop
            },
            Ok(_) => Next::RunEventLoop,
        }
    }

    /// What follows the startup of the script.
    pub fn poll_runtime_proxy(&mut self, started: Result<(), LogicError>) -> (next: Next)
        ensures
            match started {
                Err(error) => next is Stop && final(self).ended_with(*old(self), error)
                    && final(self).answers() == old(self).answers() && final(self).offered() == old(
                    self,
                ).offered().push(LogicOutputEvent::Failed(error)) && final(self).end().is_closed(),
                Ok(_) => next is RunEventLoop && *final(self) == *old(self),
            },
    {
        match started {
            Err(error) => {
                self.fail(error);
                Next::Stop
            },
            Ok(_) => Next::RunEventLoop,
        }
    }
}

/// The backend takes up the messages that its frontend has sent, and the
/// frontend reads the messages that the backend has sent, both in the order in
/// which they were sent.
pub proof fn messages_arrive_in_order(frontend: LogicInst, backend: RuntimeEnd, i: int)
    requires
        frontend.faces(backend),
        frontend.in_line(),
        backend.in_line(),
        0 <= i,
    ensures
        i < frontend.sent().len() && i < backend.taken().len() ==> backend.taken()[i]
            == frontend.sent()[i],
        i < backend.reported().len() && i < frontend.received().len() ==> frontend.received()[i]
            == backend.reported()[i],
{
    if i < frontend.sent().len() && i < backend.taken().len() {
        assert(frontend.sent()[i] == frontend.line_in()[i]);
        assert(backend.taken()[i] == backend.line_in()[i]);
    }
    if i < backend.reported().len() && i < frontend.received().len() {
        assert(frontend.received()[i] == frontend.line_out()[i]);
        assert(backend.reported()[i] == backend.line_out()[i]);
    }
}

/// When one end finds the other gone, it has got all that the other has sent: a
/// backend that finds no frontend any more has taken up every message, and a
/// frontend that finds no backend any more has read every message.
pub proof fn nothing_is_lost_before_the_end(frontend: LogicInst, backend: RuntimeEnd)
    requires
        frontend.faces(backend),
        frontend.in_line(),
        backend.in_line(),
    ensures
        backend.taken() == backend.line_in() ==> frontend.sent().is_prefix_of(backend.taken()),
        frontend.received() == frontend.line_out() ==> backend.reported().is_prefix_of(
            frontend.received(),
        ),
{
}

/// However long a script goes on, nothing is handed over for its frontend until
/// it ends, and then the error with which it ended is, once, when messages to the
/// script are refused already. A script that fails to start does not go on at
/// all.
pub proof fn a_script_reports_its_end_once(
    run: Seq<LogicRuntimeRoot>,
    ended: LogicRuntimeRoot,
    error: LogicError,
)
    requires
        run.len() > 0,
        run[0].end().fresh(),
        forall|i: int| 0 < i < run.len() ==> (#[trigger] run[i]).goes_on(run[i - 1]),
        ended.ended_with(run.last(), error),
    ensures
        forall|i: int|
            0 <= i < run.len() ==> (#[trigger] run[i]).offered()
                == Seq::<LogicOutputEvent>::empty(),
        ended.offered() == seq![LogicOutputEvent::Failed(error)],
        ended.end().refused_at() == seq![true],
        ended.reported() == Seq::<LogicOutputEvent>::empty() || ended.reported()
            == seq![LogicOutputEvent::Failed(error)],
        ended.has_ended(),
{
    lemma_a_running_script_is_silent(run, run.len() - 1);
    assert forall|i: int| 0 <= i < run.len() implies (#[trigger] run[i]).offered()
        == Seq::<LogicOutputEvent>::empty() by {
        lemma_a_running_script_is_silent(run, i);
    }
}

proof fn lemma_a_running_script_is_silent(run: Seq<LogicRuntimeRoot>, i: int)
    requires
        0 <= i < run.len(),
        run[0].end().fresh(),
        forall|j: int| 0 < j < run.len() ==> (#[trigger] run[j]).goes_on(run[j - 1]),
    ensures
        run[i].offered() == Seq::<LogicOutputEvent>::empty(),
        run[i].reported() == Seq::<LogicOutputEvent>::empty(),
        run[i].end().refused_at() == Seq::<bool>::empty(),
    decreases i,
{
    if i > 0 {
        lemma_a_running_script_is_silent(run, i - 1);
        assert(run[i].goes_on(run[i - 1]));
    }
}

/// What a script spawns runs all of its modules, from the one at the main address
/// on, and nothing has passed between its two ends, which face one another.
pub proof fn a_spawned_script_runs_its_own_modules(
    logic: Logic,
    modules: Map<Seq<char>, Code>,
    spawned: Spawned,
)
    requires
        spawned.fresh(modules),
    ensures
        spawned.module_loader.modules@ == modules,
        spawned.url@ == "local://main"@,
        spawned.inst.offered().len() == 0,
        spawned.inst.sent().len() == 0,
        spawned.inst.received().len() == 0,
        spawned.inst.answers().len() == 0,
        spawned.root.offered().len() == 0,
        spawned.root.reported().len() == 0,
        spawned.root.taken().len() == 0,
        spawned.root.answers().len() == 0,
        !spawned.root.end().is_closed(),
        spawned.inst.line_in() == spawned.root.end().line_in(),
        spawned.inst.line_out() == spawned.root.end().line_out(),
        logic.ready(),
        logic.lives_as(spawned) ==> spawned.module_loader.modules@ == logic.modules@,
        logic.lives_as(spawned) ==> spawned.url@ == "local://main"@,
{
}

/// A script that has ended refuses messages, has taken up no further one, and has
/// handed over the error with which it ended as the last message of all, at a time
/// when it refused messages already.
pub proof fn an_ended_script_refuses_messages(
    before: LogicRuntimeRoot,
    after: LogicRuntimeRoot,
    error: LogicError,
)
    requires
        after.ended_with(before, error),
    ensures
        after.end().is_closed(),
        after.has_ended(),
        !after.is_open(),
        after.taken() == before.taken(),
        after.offered().len() == before.offered().len() + 1,
        after.offered().drop_last() == before.offered(),
        after.offered().last() == LogicOutputEvent::Failed(error),
        after.end().refused_at().len() == before.end().refused_at().len() + 1,
        after.end().refused_at().last(),
        after.reported() == before.reported() || (after.reported().drop_last() == before.reported()
            && after.reported().last() == LogicOutputEvent::Failed(error)),
        after.end().line_in() == before.end().line_in(),
        after.end().line_out() == before.end().line_out(),
{
    assert(after.offered().drop_last() =~= before.offered());
    if after.reported() != before.reported() {
        assert(after.reported().drop_last() =~= before.reported());
    }
}

/// A script that goes on says nothing and neither opens nor closes.
pub proof fn a_script_that_goes_on_says_nothing(before: LogicRuntimeRoot, after: LogicRuntimeRoot)
    requires
        after.goes_on(before),
    ensures
        after.offered() == before.offered(),
        after.reported() == before.reported(),
        after.end().refused_at() == before.end().refused_at(),
        after.is_open() == before.is_open(),
        before.is_open() ==> !after.end().is_closed(),
        after.end().line_in() == before.end().line_in(),
        after.end().line_out() == before.end().line_out(),
{
}

/// A message that was found is processed, a script without one goes on, and one
/// to which none can come any more stops. Nothing else is done about a look.
pub proof fn a_look_decides_what_follows(answer: Result<LogicInstEvent, PollError>)
    ensures
        answer matches Ok(event) ==> next_for(answer) == Next::Process(event),
        next_for(answer) is RunEventLoop <==> answer is Err && answer->Err_0 == PollError::Empty,
        next_for(answer) is Stop <==> answer is Err && answer->Err_0 == PollError::Disconnected,
{
}

/// The two ends of a connection face one another exactly when they have the same
/// lines, and an end is in line exactly when what passed it so far is the
/// beginning of them.
pub proof fn ends_that_face_one_another_share_their_lines(frontend: LogicInst, backend: RuntimeEnd)
    ensures
        frontend.faces(backend) <==> frontend.line_in() == backend.line_in()
            && frontend.line_out() == backend.line_out(),
        frontend.in_line() <==> frontend.sent().is_prefix_of(frontend.line_in())
            && frontend.received().is_prefix_of(frontend.line_out()),
        backend.in_line() <==> backend.taken().is_prefix_of(backend.line_in())
            && backend.reported().is_prefix_of(backend.line_out()),
        frontend.fresh() ==> frontend.in_line() && frontend.sent().len() == 0
            && frontend.offered().len() == 0 && frontend.received().len() == 0
            && frontend.answers().len() == 0,
        backend.fresh() ==> backend.in_line() && backend.taken().len() == 0
            && backend.answers().len() == 0 && backend.reported().len() == 0
            && backend.offered().len() == 0 && !backend.is_closed(),
{
}

/// Whatever is done at an end, its lines are the same afterwards, and what has
/// passed it is still the beginning of them.
pub proof fn an_end_keeps_to_its_lines(before: RuntimeEnd, after: RuntimeEnd)
    requires
        after.keeps_in_line(before),
        before.taken().is_prefix_of(before.line_in()),
        before.reported().is_prefix_of(before.line_out()),
    ensures
        after.line_in() == before.line_in(),
        after.line_out() == before.line_out(),
        after.taken().is_prefix_of(before.line_in()),
        after.reported().is_prefix_of(before.line_out()),
{
}

} // verus!
