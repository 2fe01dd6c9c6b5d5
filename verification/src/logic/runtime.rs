use vstd::prelude::*;

use super::error::LogicError;
use super::expose::read_field;
use super::func::{Double, ReturnValue};
use super::proxy::LogicInstEvent;
use super::startup::{proxy_steps, Startup};
use super::time::{span_between, Span, Timestamp};

verus! {

/// A message to a script.
#[derive(Debug, Clone, Copy, PartialEq, Eq, Structural)]
pub enum LogicInputEvent {
    /// A frame has passed; the number is its length in seconds.
    Update(Double),
}

/// A message from a script.
#[derive(Debug)]
pub enum LogicOutputEvent {
    /// The script has failed, and has ended with that.
    Failed(LogicError),
}

/// How long a call into a script took.
#[derive(Debug, Clone, Copy, PartialEq, Eq, Structural)]
pub struct InvocationInfo {
    /// From the start to the call.
    pub binding_delay: Span,
    /// The call itself.
    pub function_invocation: Span,
}

/// What a script's main module is connected to.
#[derive(Debug, Clone, Copy, PartialEq, Eq, Structural)]
pub struct RuntimeHandles {
    /// The length of the latest frame in seconds.
    pub delta_t: Double,
    /// Whether the module exports a function `OnUpdate`.
    pub on_update: bool,
}

impl RuntimeHandles {
    /// The handles once a frame of the given length has passed. A script that
    /// has no `OnUpdate` is not told.
    pub open spec fn updated(self, delta_t: Double) -> RuntimeHandles {
        if self.on_update {
            RuntimeHandles { delta_t, ..self }
        } else {
            self
        }
    }

    /// The handles once frames of the given lengths have passed.
    pub open spec fn updated_all(self, frames: Seq<Double>) -> RuntimeHandles
        decreases frames.len(),
    {
        if frames.len() == 0 {
            self
        } else {
            self.updated_all(frames.drop_last()).updated(frames.last())
        }
    }
}

/// What a script that reads `deltaTime` is handed back, where `prior` was handed
/// back before.
pub open spec fn delta_time_of<H>(
    source: Option<&RuntimeHandles>,
    prior: ReturnValue<H>,
) -> ReturnValue<H> {
    match source {
        Some(handles) => ReturnValue::Double(handles.delta_t),
        None => prior,
    }
}

/// A script with `OnUpdate` reads the length of the latest frame from
/// `deltaTime`, and one without reads what it read at first.
pub proof fn delta_time_is_that_of_the_latest_frame<H>(
    handles: RuntimeHandles,
    frames: Seq<Double>,
    prior: ReturnValue<H>,
)
    requires
        frames.len() > 0,
    ensures
        delta_time_of(Some(&handles.updated_all(frames)), prior) == ReturnValue::<H>::Double(
            if handles.on_update {
                frames.last()
            } else {
                handles.delta_t
            },
        ),
        handles.updated_all(frames).on_update == handles.on_update,
    decreases frames.len(),
{
    let before = frames.drop_last();
    if before.len() > 0 {
        delta_time_is_that_of_the_latest_frame(handles, before, prior);
    } else {
        assert(handles.updated_all(before) == handles);
    }
}

/// The accessor of a frame's length.
#[derive(Debug, Clone, Copy)]
pub struct DeltaTime {}

impl DeltaTime {
    /// The name under which scripts see it.
    pub fn name() -> (name: &'static str)
        ensures
            name@ == "deltaTime"@,
    {
        "deltaTime"
    }

    pub fn get(source: &RuntimeHandles) -> (delta_t: Double)
        ensures
            delta_t == source.delta_t,
    {
        source.delta_t
    }

    /// Answers a script that reads `deltaTime`.
    pub fn read<H>(source: Option<&RuntimeHandles>, rv: &mut ReturnValue<H>)
        ensures
            *final(rv) == delta_time_of(source, *old(rv)),
            source matches Some(handles) ==> *final(rv) == ReturnValue::<H>::Double(
                handles.delta_t,
            ),
            source is None ==> *final(rv) == *old(rv),
    {
        let get = |handles: &RuntimeHandles| -> (delta_t: Double)
            ensures
                delta_t == handles.delta_t,
            { DeltaTime::get(handles) };
        read_field(source, get, rv)
    }
}

/// What a message asks of the script engine.
#[derive(Debug, Clone, Copy, PartialEq, Eq, Structural)]
pub struct Received {
    /// How long the message was on its way.
    pub message_delay: Span,
    /// Whether `OnUpdate` is to be called.
    pub invoke: bool,
}

/// A script behind a proxy.
#[derive(Debug)]
pub struct LogicRuntime {
    update_counter: u64,
    handles: Box<RuntimeHandles>,
}

impl LogicRuntime {
    /// The number of calls of `OnUpdate` so far.
    pub closed spec fn updates(self) -> nat {
        self.update_counter as nat
    }

    pub closed spec fn connected(self) -> RuntimeHandles {
        *self.handles
    }

    /// The script, once its startup has no step left, or that startup's error.
    pub fn spawn_runtime(startup: Startup, on_update: bool) -> (res: Result<
        LogicRuntime,
        LogicError,
    >)
        requires
            startup@.steps == proxy_steps(),
            startup@.settled(),
        ensures
            match startup@.failure {
                Some(error) => res == Err::<LogicRuntime, LogicError>(error),
                None => res is Ok && res->Ok_0.updates() == 0 && res->Ok_0.connected() == (
                RuntimeHandles { delta_t: Double { bits: 0 }, on_update }),
            },
    {
        match startup.finish() {
            Ok(_) => Ok(
                LogicRuntime {
                    update_counter: 0,
                    handles: Box::new(RuntimeHandles { delta_t: Double { bits: 0 }, on_update }),
                },
            ),
            Err(error) => Err(error),
        }
    }

    /// What the script's main module is connected to.
    pub fn handles(&self) -> (handles: &RuntimeHandles)
        ensures
            *handles == self.connected(),
    {
        &self.handles
    }

    /// The number of calls of `OnUpdate` so far.
    pub fn update_counter(&self) -> (update_counter: u64)
        ensures
            update_counter == self.updates(),
    {
        self.update_counter
    }

    /// Prepares a call of `OnUpdate`: the script can read the frame's length
    /// from here on. A script without that function is left as it is, and is
    /// not called.
    pub fn on_update(&mut self, delta_t: Double) -> (invoke: bool)
        ensures
            invoke == old(self).connected().on_update,
            final(self).connected() == old(self).connected().updated(delta_t),
            invoke ==> final(self).connected().delta_t == delta_t,
            !invoke ==> final(self).connected().delta_t == old(self).connected().delta_t,
            final(self).connected().on_update == old(self).connected().on_update,
            final(self).updates() == old(self).updates(),
    {
        if self.handles.on_update {
            self.handles.delta_t = delta_t;
            true
        } else {
            false
        }
    }

    /// Takes note of a call of `OnUpdate`, whether or not the function threw.
    pub fn finish_update(
        &mut self,
        start: Timestamp,
        binding_done: Timestamp,
        finished: Timestamp,
    ) -> (info: InvocationInfo)
        requires
            old(self).updates() < u64::MAX,
        ensures
            info == (InvocationInfo {
                binding_delay: span_between(start, binding_done),
                function_invocation: span_between(binding_done, finished),
            }),
            start.nanos <= binding_done.nanos <= finished.nanos ==> start.nanos
                + info.binding_delay.nanos + info.function_invocation.nanos == finished.nanos
                && start.nanos + info.binding_delay.nanos == binding_done.nanos,
            final(self).updates() == old(self).updates() + 1,
            final(self).connected() == old(self).connected(),
    {
        self.update_counter = self.update_counter + 1;
        InvocationInfo {
            binding_delay: binding_done.duration_since(start),
            function_invocation: finished.duration_since(binding_done),
        }
    }

    /// Takes up a message that is looked at at `start`.
    pub fn process_message(&mut self, event: &LogicInstEvent, start: Timestamp) -> (received:
        Received)
        ensures
            received.message_delay == span_between(event.send_time, start),
            event.send_time.nanos <= start.nanos ==> event.send_time.nanos
                + received.message_delay.nanos == start.nanos,
            received.invoke == old(self).connected().on_update,
            received.invoke ==> event.input == LogicInputEvent::Update(
                final(self).connected().delta_t,
            ),
            !received.invoke ==> final(self).connected() == old(self).connected(),
            final(self).connected() == match event.input {
                LogicInputEvent::Update(delta_t) => old(self).connected().updated(delta_t),
            },
            final(self).updates() == old(self).updates(),
    {
        let message_delay = start.duration_since(event.send_time);
        match event.input {
            LogicInputEvent::Update(delta_t) => {
                let invoke = self.on_update(delta_t);
                Received { message_delay, invoke }
            },
        }
    }
}

/// A script with `OnUpdate` has each frame's length, whatever it is, and one
/// without keeps what it had; neither gains or loses the function.
pub proof fn a_frame_shows_in_the_handles<H>(
    handles: RuntimeHandles,
    delta_t: Double,
    prior: ReturnValue<H>,
)
    ensures
        handles.on_update ==> handles.updated(delta_t).delta_t == delta_t,
        !handles.on_update ==> handles.updated(delta_t).delta_t == handles.delta_t,
        handles.updated(delta_t).on_update == handles.on_update,
        delta_time_of(Some(&handles), prior) == ReturnValue::<H>::Double(handles.delta_t),
        delta_time_of(None, prior) == prior,
{
}

} // verus!
