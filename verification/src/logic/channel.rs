//! The channels between frontend and backend, which are tokio's unbounded ones.
//!
//! Each end is followed by what went through it: a sender by the messages that
//! it has put into its channel, a receiver by the messages that it has taken
//! out. Both are the beginnings of one sequence, the channel's line: all that is
//! put into the channel in its life. No sender is ever cloned here, so that the
//! sender that was made with a channel puts in all of it.
//!
//! Whether a message can be put in or taken out at a given moment rests with
//! whoever holds the other end. Nothing is said of that. So that a caller can
//! still say what it does about either, a sender is also followed by the messages
//! that it was handed, and a receiver by the answers that it gave when it was
//! asked for a message.
use tokio::sync::mpsc::error::TryRecvError;
use tokio::sync::mpsc::{unbounded_channel, UnboundedReceiver, UnboundedSender};
use vstd::prelude::*;

use super::proxy::LogicInstEvent;
use super::runtime::LogicOutputEvent;
use super::worker::WorkerInputEvent;

verus! {

/// `tokio::sync::mpsc::UnboundedSender`, of which nothing is known but what the
/// functions below say.
#[verifier::external_type_specification]
#[verifier::external_body]
#[verifier::reject_recursive_types(T)]
pub struct ExUnboundedSender<T>(UnboundedSender<T>);

/// `tokio::sync::mpsc::UnboundedReceiver`, of which nothing is known but what the
/// functions below say.
#[verifier::external_type_specification]
#[verifier::external_body]
#[verifier::reject_recursive_types(T)]
pub struct ExUnboundedReceiver<T>(UnboundedReceiver<T>);

/// Why no message could be taken out of a channel.
#[derive(Debug, Clone, Copy, PartialEq, Eq, Structural)]
pub enum PollError {
    /// There is none at the moment.
    Empty,
    /// There is none, and there will be none.
    Disconnected,
}

/// The requests that a sender has put into its channel, first to last.
pub uninterp spec fn control_sent(tx: UnboundedSender<WorkerInputEvent>) -> Seq<WorkerInputEvent>;

/// The requests that a sender was handed to be put into its channel, first to
/// last, and also those that it handed back.
pub uninterp spec fn control_offered(tx: UnboundedSender<WorkerInputEvent>) -> Seq<
    WorkerInputEvent,
>;

/// The requests that a receiver has taken out of its channel, first to last.
pub uninterp spec fn control_taken(rx: UnboundedReceiver<WorkerInputEvent>) -> Seq<
    WorkerInputEvent,
>;

/// All requests that a sender puts into its channel in its life, first to last.
pub uninterp spec fn control_line_in(tx: UnboundedSender<WorkerInputEvent>) -> Seq<
    WorkerInputEvent,
>;

/// All requests that are put into the channel of a receiver in its life, first to
/// last.
pub uninterp spec fn control_line_out(rx: UnboundedReceiver<WorkerInputEvent>) -> Seq<
    WorkerInputEvent,
>;

/// What a receiver has answered each time it was asked for a request, first to
/// last.
pub uninterp spec fn control_answers(rx: UnboundedReceiver<WorkerInputEvent>) -> Seq<
    Result<WorkerInputEvent, PollError>,
>;

/// The inputs that a sender has put into its channel, first to last.
pub uninterp spec fn inputs_sent(tx: UnboundedSender<LogicInstEvent>) -> Seq<LogicInstEvent>;

/// The inputs that a sender was handed to be put into its channel, first to last,
/// and also those that it handed back.
pub uninterp spec fn inputs_offered(tx: UnboundedSender<LogicInstEvent>) -> Seq<LogicInstEvent>;

/// The inputs that a receiver has taken out of its channel, first to last.
pub uninterp spec fn inputs_taken(rx: UnboundedReceiver<LogicInstEvent>) -> Seq<LogicInstEvent>;

/// All inputs that a sender puts into its channel in its life, first to last.
pub uninterp spec fn inputs_line_in(tx: UnboundedSender<LogicInstEvent>) -> Seq<LogicInstEvent>;

/// All inputs that are put into the channel of a receiver in its life, first to
/// last.
pub uninterp spec fn inputs_line_out(rx: UnboundedReceiver<LogicInstEvent>) -> Seq<LogicInstEvent>;

/// What a receiver has answered each time it was asked for an input, first to
/// last.
pub uninterp spec fn inputs_answers(rx: UnboundedReceiver<LogicInstEvent>) -> Seq<
    Result<LogicInstEvent, PollError>,
>;

/// Whether a receiver of inputs has been closed.
pub uninterp spec fn inputs_closed(rx: UnboundedReceiver<LogicInstEvent>) -> bool;

/// The outputs that a sender has put into its channel, first to last.
pub uninterp spec fn outputs_sent(tx: UnboundedSender<LogicOutputEvent>) -> Seq<LogicOutputEvent>;

/// The outputs that a sender was handed to be put into its channel, first to
/// last, and also those that it handed back.
pub uninterp spec fn outputs_offered(tx: UnboundedSender<LogicOutputEvent>) -> Seq<
    LogicOutputEvent,
>;

/// The outputs that a receiver has taken out of its channel, first to last.
pub uninterp spec fn outputs_taken(rx: UnboundedReceiver<LogicOutputEvent>) -> Seq<
    LogicOutputEvent,
>;

/// All outputs that a sender puts into its channel in its life, first to last.
pub uninterp spec fn outputs_line_in(tx: UnboundedSender<LogicOutputEvent>) -> Seq<
    LogicOutputEvent,
>;

/// All outputs that are put into the channel of a receiver in its life, first to
/// last.
pub uninterp spec fn outputs_line_out(rx: UnboundedReceiver<LogicOutputEvent>) -> Seq<
    LogicOutputEvent,
>;

/// What a receiver has answered each time it was asked for an output, first to
/// last.
pub uninterp spec fn outputs_answers(rx: UnboundedReceiver<LogicOutputEvent>) -> Seq<
    Result<LogicOutputEvent, PollError>,
>;

/// `tokio::sync::mpsc::unbounded_channel`, for requests to a worker.
///
/// Taken on trust: nothing has gone through a new channel, its sender has not
/// been handed anything, its receiver has not been asked for anything, and what
/// its sender, the only one, puts in is what comes out at its receiver, in the
/// same order.
#[verifier::external_body]
pub(crate) fn control_channel() -> (ends: (
    UnboundedSender<WorkerInputEvent>,
    UnboundedReceiver<WorkerInputEvent>,
))
    ensures
        control_sent(ends.0) == Seq::<WorkerInputEvent>::empty(),
        control_offered(ends.0) == Seq::<WorkerInputEvent>::empty(),
        control_taken(ends.1) == Seq::<WorkerInputEvent>::empty(),
        control_answers(ends.1).len() == 0,
        control_line_in(ends.0) == control_line_out(ends.1),
{
    unbounded_channel()
}

/// `UnboundedSender::send`, for requests to a worker.
///
/// Taken on trust: the message is what this call hands to the sender; where the
/// call succeeds, the message is put into the channel, as the next of the
/// sender's line; where it fails, the message is handed back and nothing is put
/// in.
#[verifier::external_body]
pub(crate) fn send_control(
    tx: &mut UnboundedSender<WorkerInputEvent>,
    message: WorkerInputEvent,
) -> (res: Result<(), WorkerInputEvent>)
    ensures
        control_offered(*final(tx)) == control_offered(*old(tx)).push(message),
        res is Ok ==> control_sent(*final(tx)) == control_sent(*old(tx)).push(message),
        res is Ok ==> control_sent(*final(tx)).is_prefix_of(control_line_in(*old(tx))),
        res is Err ==> control_sent(*final(tx)) == control_sent(*old(tx)),
        control_line_in(*final(tx)) == control_line_in(*old(tx)),
        res is Err ==> res->Err_0 == message,
{
    tx.send(message).map_err(|error| error.0)
}

/// `UnboundedReceiver::try_recv`, for requests to a worker.
///
/// Taken on trust: what comes back is the receiver's answer to this call; a
/// message that comes back is taken out of the channel and is the next of its
/// line; a call that fails takes nothing out; and one that finds the channel
/// disconnected finds that all of its line has been taken out.
#[verifier::external_body]
pub(crate) fn poll_control(rx: &mut UnboundedReceiver<WorkerInputEvent>) -> (res: Result<
    WorkerInputEvent,
    PollError,
>)
    ensures
        control_answers(*final(rx)) == control_answers(*old(rx)).push(res),
        res is Ok ==> control_taken(*final(rx)) == control_taken(*old(rx)).push(res->Ok_0),
        res is Ok ==> control_taken(*final(rx)).is_prefix_of(control_line_out(*old(rx))),
        res is Err ==> control_taken(*final(rx)) == control_taken(*old(rx)),
        res is Err && res->Err_0 == PollError::Disconnected ==> control_taken(*final(rx))
            == control_line_out(*old(rx)),
        control_line_out(*final(rx)) == control_line_out(*old(rx)),
{
    match rx.try_recv() {
        Ok(message) => Ok(message),
        Err(TryRecvError::Empty) => Err(PollError::Empty),
        Err(TryRecvError::Disconnected) => Err(PollError::Disconnected),
    }
}

/// `tokio::sync::mpsc::unbounded_channel`, for inputs of a script.
///
/// Taken on trust: nothing has gone through a new channel, its sender has not
/// been handed anything, its receiver is open and has not been asked for
/// anything, and what its sender, the only one, puts in is what comes out at its
/// receiver, in the same order.
#[verifier::external_body]
pub(crate) fn input_channel() -> (ends: (
    UnboundedSender<LogicInstEvent>,
    UnboundedReceiver<LogicInstEvent>,
))
    ensures
        inputs_sent(ends.0) == Seq::<LogicInstEvent>::empty(),
        inputs_offered(ends.0) == Seq::<LogicInstEvent>::empty(),
        inputs_taken(ends.1) == Seq::<LogicInstEvent>::empty(),
        inputs_answers(ends.1).len() == 0,
        inputs_line_in(ends.0) == inputs_line_out(ends.1),
        !inputs_closed(ends.1),
{
    unbounded_channel()
}

/// `UnboundedSender::send`, for inputs of a script.
///
/// Taken on trust: the message is what this call hands to the sender; where the
/// call succeeds, the message is put into the channel, as the next of the
/// sender's line; where it fails, the message is handed back and nothing is put
/// in.
#[verifier::external_body]
pub(crate) fn send_input(
    tx: &mut UnboundedSender<LogicInstEvent>,
    message: LogicInstEvent,
) -> (res: Result<(), LogicInstEvent>)
    ensures
        inputs_offered(*final(tx)) == inputs_offered(*old(tx)).push(message),
        res is Ok ==> inputs_sent(*final(tx)) == inputs_sent(*old(tx)).push(message),
        res is Ok ==> inputs_sent(*final(tx)).is_prefix_of(inputs_line_in(*old(tx))),
        res is Err ==> inputs_sent(*final(tx)) == inputs_sent(*old(tx)),
        inputs_line_in(*final(tx)) == inputs_line_in(*old(tx)),
        res is Err ==> res->Err_0 == message,
{
    tx.send(message).map_err(|error| error.0)
}

/// `UnboundedReceiver::try_recv`, for inputs of a script.
///
/// Taken on trust: what comes back is the receiver's answer to this call; a
/// message that comes back is taken out of the channel and is the next of its
/// line; a call that fails takes nothing out; one that finds the channel
/// disconnected finds that all of its line has been taken out; and no call opens
/// or closes the receiver.
#[verifier::external_body]
pub(crate) fn poll_input(rx: &mut UnboundedReceiver<LogicInstEvent>) -> (res: Result<
    LogicInstEvent,
    PollError,
>)
    ensures
        inputs_answers(*final(rx)) == inputs_answers(*old(rx)).push(res),
        res is Ok ==> inputs_taken(*final(rx)) == inputs_taken(*old(rx)).push(res->Ok_0),
        res is Ok ==> inputs_taken(*final(rx)).is_prefix_of(inputs_line_out(*old(rx))),
        res is Err ==> inputs_taken(*final(rx)) == inputs_taken(*old(rx)),
        res is Err && res->Err_0 == PollError::Disconnected ==> inputs_taken(*final(rx))
            == inputs_line_out(*old(rx)),
        inputs_line_out(*final(rx)) == inputs_line_out(*old(rx)),
        inputs_closed(*final(rx)) == inputs_closed(*old(rx)),
{
    match rx.try_recv() {
        Ok(message) => Ok(message),
        Err(TryRecvError::Empty) => Err(PollError::Empty),
        Err(TryRecvError::Disconnected) => Err(PollError::Disconnected),
    }
}

/// `UnboundedReceiver::close`, for inputs of a script.
///
/// Taken on trust: the receiver is closed, and nothing is asked for or taken out.
#[verifier::external_body]
pub(crate) fn close_inputs(rx: &mut UnboundedReceiver<LogicInstEvent>)
    ensures
        inputs_closed(*final(rx)),
        inputs_taken(*final(rx)) == inputs_taken(*old(rx)),
        inputs_answers(*final(rx)) == inputs_answers(*old(rx)),
        inputs_line_out(*final(rx)) == inputs_line_out(*old(rx)),
{
    rx.close()
}

/// `tokio::sync::mpsc::unbounded_channel`, for outputs of a script.
///
/// Taken on trust: nothing has gone through a new channel, its sender has not
/// been handed anything, its receiver has not been asked for anything, and what
/// its sender, the only one, puts in is what comes out at its receiver, in the
/// same order.
#[verifier::external_body]
pub(crate) fn output_channel() -> (ends: (
    UnboundedSender<LogicOutputEvent>,
    UnboundedReceiver<LogicOutputEvent>,
))
    ensures
        outputs_sent(ends.0) == Seq::<LogicOutputEvent>::empty(),
        outputs_offered(ends.0) == Seq::<LogicOutputEvent>::empty(),
        outputs_taken(ends.1) == Seq::<LogicOutputEvent>::empty(),
        outputs_answers(ends.1).len() == 0,
        outputs_line_in(ends.0) == outputs_line_out(ends.1),
{
    unbounded_channel()
}

/// `UnboundedSender::send`, for outputs of a script.
///
/// Taken on trust: the message is what this call hands to the sender; where the
/// call succeeds, the message is put into the channel, as the next of the
/// sender's line; where it fails, the message is handed back and nothing is put
/// in.
#[verifier::external_body]
pub(crate) fn send_output(
    tx: &mut UnboundedSender<LogicOutputEvent>,
    message: LogicOutputEvent,
) -> (res: Result<(), LogicOutputEvent>)
    ensures
        outputs_offered(*final(tx)) == outputs_offered(*old(tx)).push(message),
        res is Ok ==> outputs_sent(*final(tx)) == outputs_sent(*old(tx)).push(message),
        res is Ok ==> outputs_sent(*final(tx)).is_prefix_of(outputs_line_in(*old(tx))),
        res is Err ==> outputs_sent(*final(tx)) == outputs_sent(*old(tx)),
        outputs_line_in(*final(tx)) == outputs_line_in(*old(tx)),
        res is Err ==> res->Err_0 == message,
{
    tx.send(message).map_err(|error| error.0)
}

/// `UnboundedReceiver::try_recv`, for outputs of a script.
///
/// Taken on trust: what comes back is the receiver's answer to this call; a
/// message that comes back is taken out of the channel and is the next of its
/// line; a call that fails takes nothing out; and one that finds the channel
/// disconnected finds that all of its line has been taken out.
#[verifier::external_body]
pub(crate) fn poll_output(rx: &mut UnboundedReceiver<LogicOutputEvent>) -> (res: Result<
    LogicOutputEvent,
    PollError,
>)
    ensures
        outputs_answers(*final(rx)) == outputs_answers(*old(rx)).push(res),
        res is Ok ==> outputs_taken(*final(rx)) == outputs_taken(*old(rx)).push(res->Ok_0),
        res is Ok ==> outputs_taken(*final(rx)).is_prefix_of(outputs_line_out(*old(rx))),
        res is Err ==> outputs_taken(*final(rx)) == outputs_taken(*old(rx)),
        res is Err && res->Err_0 == PollError::Disconnected ==> outputs_taken(*final(rx))
            == outputs_line_out(*old(rx)),
        outputs_line_out(*final(rx)) == outputs_line_out(*old(rx)),
{
    match rx.try_recv() {
        Ok(message) => Ok(message),
        Err(TryRecvError::Empty) => Err(PollError::Empty),
        Err(TryRecvError::Disconnected) => Err(PollError::Disconnected),
    }
}

} // verus!
