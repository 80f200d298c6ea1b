//! Messages at the pipes of a worker.
use crate::coordinator::error::{Error, OutsideError};
use crate::coordinator::message::{CoordinatorMessage, Multiplexed, WorkerMessage};
use vstd::prelude::*;

verus! {

/// What came of decoding a message from the worker.
#[derive(Debug, PartialEq, Eq)]
pub enum Decoded {
    /// A message.
    Message(Multiplexed<WorkerMessage>),
    /// The output of the worker ended before a message was complete.
    UnexpectedEnd(OutsideError),
    /// The output of the worker is no message, or it could not be read.
    Malformed(OutsideError),
}

/// What is to be done with the output of the worker.
#[derive(Debug, PartialEq, Eq)]
pub enum InputAction {
    /// Hand the message on, and decode the next.
    Forward(Multiplexed<WorkerMessage>),
    /// Decode no more.
    Stop(Result<(), Error>),
}

/// Whether the worker has closed its output.
pub open spec fn closed(decoded: Decoded) -> bool {
    decoded is UnexpectedEnd
}

/// Whether the worker has closed its output.
pub fn bincode_input_closed(decoded: &Decoded) -> (r: bool)
    ensures
        r == closed(*decoded),
{
    match decoded {
        Decoded::UnexpectedEnd(_) => true,
        _ => false,
    }
}

/// What is to be done with the output of the worker.
pub open spec fn input_action(decoded: Decoded) -> InputAction {
    match decoded {
        Decoded::Message(message) => InputAction::Forward(message),
        Decoded::UnexpectedEnd(_) => InputAction::Stop(Ok(())),
        Decoded::Malformed(source) => InputAction::Stop(
            Err(Error::WorkerMessageDeserialization { source }),
        ),
    }
}

/// Says what is to be done with the output of the worker.
pub fn input_step(decoded: Decoded) -> (action: InputAction)
    ensures
        action == input_action(decoded),
{
    if bincode_input_closed(&decoded) {
        return InputAction::Stop(Ok(()));
    }
    match decoded {
        Decoded::Message(message) => InputAction::Forward(message),
        Decoded::UnexpectedEnd(source) => InputAction::Stop(
            Err(Error::WorkerMessageDeserialization { source }),
        ),
        Decoded::Malformed(source) => InputAction::Stop(
            Err(Error::WorkerMessageDeserialization { source }),
        ),
    }
}

/// What it means whether a message of the worker was handed on.
pub fn forwarded(sent: Result<(), OutsideError>) -> (r: Result<(), Error>)
    ensures
        r == match sent {
            Ok(_) => Ok::<(), Error>(()),
            Err(source) => Err(Error::UnableToSendWorkerMessage { source }),
        },
{
    match sent {
        Ok(_) => Ok(()),
        Err(source) => Err(Error::UnableToSendWorkerMessage { source }),
    }
}

/// What the writer of the input of the worker is waiting for.
#[derive(Debug, Clone, Copy, PartialEq, Eq)]
pub enum OutputQueue {
    /// The next message.
    Message,
    /// The message to be written.
    Write,
    /// The pipe to be flushed.
    Flush,
    /// Nothing.
    Over,
}

/// What happens to the writer of the input of the worker.
#[derive(Debug, PartialEq, Eq)]
pub enum OutputQueueEvent {
    /// The next message; `Some(None)` where there will be none, and `None` where
    /// the work was cancelled.
    Next(Option<Option<Multiplexed<CoordinatorMessage>>>),
    /// The message was written, or it was not.
    Written(Result<(), OutsideError>),
    /// The pipe was flushed, or it was not.
    Flushed(Result<(), OutsideError>),
}

/// What is to be done with the input of the worker.
#[derive(Debug, PartialEq, Eq)]
pub enum OutputAction {
    /// Write the message.
    Write(Multiplexed<CoordinatorMessage>),
    /// Flush the pipe.
    Flush,
    /// Take the next message.
    Take,
    /// Write no more.
    Stop(Result<(), Error>),
}

impl OutputQueue {
    /// Whether `event` can happen now.
    pub open spec fn expects(self, event: OutputQueueEvent) -> bool {
        match self {
            OutputQueue::Message => event is Next,
            OutputQueue::Write => event is Written,
            OutputQueue::Flush => event is Flushed,
            OutputQueue::Over => false,
        }
    }

    /// What the writer waits for after `event`.
    pub open spec fn after(self, event: OutputQueueEvent) -> OutputQueue {
        match event {
            OutputQueueEvent::Next(Some(Some(_))) => OutputQueue::Write,
            OutputQueueEvent::Written(Ok(_)) => OutputQueue::Flush,
            OutputQueueEvent::Flushed(Ok(_)) => OutputQueue::Message,
            _ => OutputQueue::Over,
        }
    }

    /// What is to be done when `event` happens.
    pub open spec fn reaction(self, event: OutputQueueEvent) -> OutputAction {
        match event {
            OutputQueueEvent::Next(Some(Some(message))) => OutputAction::Write(message),
            OutputQueueEvent::Next(_) => OutputAction::Stop(Ok(())),
            OutputQueueEvent::Written(Ok(_)) => OutputAction::Flush,
            OutputQueueEvent::Written(Err(source)) => OutputAction::Stop(
                Err(Error::CoordinatorMessageSerialization { source }),
            ),
            OutputQueueEvent::Flushed(Ok(_)) => OutputAction::Take,
            OutputQueueEvent::Flushed(Err(source)) => OutputAction::Stop(
                Err(Error::WorkerStdinFlush { source }),
            ),
        }
    }

    /// A writer that has written nothing.
    pub fn new() -> (queue: OutputQueue)
        ensures
            queue is Message,
    {
        OutputQueue::Message
    }

    /// Takes an event and says what is to be done.
    pub fn advance(&mut self, event: OutputQueueEvent) -> (action: OutputAction)
        requires
            old(self).expects(event),
        ensures
            *final(self) == old(self).after(event),
            action == old(self).reaction(event),
    {
        match event {
            OutputQueueEvent::Next(Some(Some(message))) => {
                *self = OutputQueue::Write;
                OutputAction::Write(message)
            },
            OutputQueueEvent::Next(_) => {
                *self = OutputQueue::Over;
                OutputAction::Stop(Ok(()))
            },
            OutputQueueEvent::Written(Ok(_)) => {
                *self = OutputQueue::Flush;
                OutputAction::Flush
            },
            OutputQueueEvent::Written(Err(source)) => {
                *self = OutputQueue::Over;
                OutputAction::Stop(Err(Error::CoordinatorMessageSerialization { source }))
            },
            OutputQueueEvent::Flushed(Ok(_)) => {
                *self = OutputQueue::Message;
                OutputAction::Take
            },
            OutputQueueEvent::Flushed(Err(source)) => {
                *self = OutputQueue::Over;
                OutputAction::Stop(Err(Error::WorkerStdinFlush { source }))
            },
        }
    }
}

/// What a writer waits for after all of `events`, one after another.
pub open spec fn output_after(events: Seq<OutputQueueEvent>) -> OutputQueue
    decreases events.len(),
{
    if events.len() == 0 {
        OutputQueue::Message
    } else {
        output_after(events.drop_last()).after(events.last())
    }
}

/// Whether `events` can happen to a writer, one after another.
pub open spec fn output_expects(events: Seq<OutputQueueEvent>) -> bool
    decreases events.len(),
{
    events.len() > 0 ==> {
        &&& output_expects(events.drop_last())
        &&& output_after(events.drop_last()).expects(events.last())
    }
}

/// When a message is taken, the message before it has been written to the worker,
/// and the pipe has been flushed since.
pub proof fn each_message_is_flushed_before_the_next(events: Seq<OutputQueueEvent>, i: int)
    requires
        output_expects(events),
        0 < i < events.len(),
        events[i] is Next,
    ensures
        i >= 3,
        events[i - 1] matches OutputQueueEvent::Flushed(Ok(_)),
        events[i - 2] matches OutputQueueEvent::Written(Ok(_)),
        events[i - 3] matches OutputQueueEvent::Next(Some(Some(_))),
    decreases events.len(),
{
    if i < events.len() - 1 {
        let before = events.drop_last();
        each_message_is_flushed_before_the_next(before, i);
        assert(before[i - 1] == events[i - 1] && before[i - 2] == events[i - 2] && before[i - 3]
            == events[i - 3] && before[i] == events[i]);
    } else {
        let first = events.drop_last();
        let second = first.drop_last();
        let third = second.drop_last();
        assert(events.last() == events[i] && first.last() == events[i - 1]);
        reveal_with_fuel(output_after, 4);
        reveal_with_fuel(output_expects, 4);
        assert(second.len() > 0);
        assert(second.last() == events[i - 2]);
        assert(third.len() > 0);
        assert(third.last() == events[i - 3]);
    }
}

/// The messages that are handed on of what the worker sends.
pub open spec fn handed_on(output: Seq<Decoded>) -> Seq<Multiplexed<WorkerMessage>>
    decreases output.len(),
{
    if output.len() == 0 {
        Seq::empty()
    } else {
        match input_action(output[0]) {
            InputAction::Forward(message) => seq![message] + handed_on(output.skip(1)),
            InputAction::Stop(_) => Seq::empty(),
        }
    }
}

/// All messages that the worker sends before the end of its output are handed
/// on, each once and in order, and nothing after it.
pub proof fn messages_are_handed_on_in_order(output: Seq<Decoded>, end: int)
    requires
        0 <= end <= output.len(),
        forall|i: int| 0 <= i < end ==> #[trigger] output[i] is Message,
        end < output.len() ==> !(output[end] is Message),
    ensures
        handed_on(output) == Seq::new(end as nat, |i: int| output[i]->Message_0),
    decreases end,
{
    if end > 0 {
        let rest = output.skip(1);
        assert forall|i: int| 0 <= i < end - 1 implies #[trigger] rest[i] is Message by {
            assert(rest[i] == output[i + 1]);
        }
        messages_are_handed_on_in_order(rest, end - 1);
        assert(output[0] is Message);
        assert(handed_on(output) =~= Seq::new(end as nat, |i: int| output[i]->Message_0));
    } else {
        assert(handed_on(output) =~= Seq::new(0, |i: int| output[i]->Message_0));
    }
}

/// A message of the worker is handed on as it is. The end of the output of the worker is
/// no error; output that is no message is one, and its cause is told.
pub proof fn output_of_the_worker_is_read_to_its_end(decoded: Decoded)
    ensures
        match decoded {
            Decoded::Message(message) => input_action(decoded) == InputAction::Forward(message),
            Decoded::UnexpectedEnd(_) => input_action(decoded) matches InputAction::Stop(Ok(_)),
            Decoded::Malformed(source) => {
                &&& input_action(decoded) matches InputAction::Stop(
                    Err(Error::WorkerMessageDeserialization { source: told }),
                )
                &&& told == source
            },
        },
        closed(decoded) <==> (input_action(decoded) matches InputAction::Stop(Ok(_))),
{
}

/// The messages that are written to the worker among what happens to its writer, in order.
pub open spec fn taken(events: Seq<OutputQueueEvent>) -> Seq<Multiplexed<CoordinatorMessage>>
    decreases events.len(),
{
    if events.len() == 0 {
        Seq::empty()
    } else {
        let before = taken(events.drop_last());
        match events.last() {
            OutputQueueEvent::Next(Some(Some(message))) => before.push(message),
            _ => before,
        }
    }
}

/// What the writer is told to write when `events` happen, one after another.
pub open spec fn told_to_write(events: Seq<OutputQueueEvent>) -> Seq<
    Multiplexed<CoordinatorMessage>,
>
    decreases events.len(),
{
    if events.len() == 0 {
        Seq::empty()
    } else {
        let before = told_to_write(events.drop_last());
        match output_after(events.drop_last()).reaction(events.last()) {
            OutputAction::Write(message) => before.push(message),
            _ => before,
        }
    }
}

/// Every message that is taken is written, unchanged and in order, and nothing else is.
pub proof fn taken_messages_are_written(events: Seq<OutputQueueEvent>)
    ensures
        told_to_write(events) == taken(events),
    decreases events.len(),
{
    if events.len() > 0 {
        taken_messages_are_written(events.drop_last());
    }
}

/// A message that was written is flushed, and then the next one is taken. The writer stops
/// without an error when there are no more messages or the work was cancelled, and with the
/// cause where a message could not be written or flushed.
pub proof fn writer_goes_round(queue: OutputQueue, source: OutsideError)
    ensures
        queue.reaction(OutputQueueEvent::Written(Ok(()))) is Flush,
        queue.after(OutputQueueEvent::Written(Ok(()))) is Flush,
        queue.reaction(OutputQueueEvent::Flushed(Ok(()))) is Take,
        queue.after(OutputQueueEvent::Flushed(Ok(()))) is Message,
        queue.reaction(OutputQueueEvent::Next(None)) matches OutputAction::Stop(Ok(_)),
        queue.reaction(OutputQueueEvent::Next(Some(None))) matches OutputAction::Stop(Ok(_)),
        queue.after(OutputQueueEvent::Next(None)) is Over,
        queue.after(OutputQueueEvent::Next(Some(None))) is Over,
        queue.reaction(OutputQueueEvent::Written(Err(source))) == OutputAction::Stop(
            Err(Error::CoordinatorMessageSerialization { source }),
        ),
        queue.reaction(OutputQueueEvent::Flushed(Err(source))) == OutputAction::Stop(
            Err(Error::WorkerStdinFlush { source }),
        ),
        queue.after(OutputQueueEvent::Written(Err(source))) is Over,
        queue.after(OutputQueueEvent::Flushed(Err(source))) is Over,
        forall|message: Multiplexed<CoordinatorMessage>| #[trigger]
            queue.after(OutputQueueEvent::Next(Some(Some(message)))) is Write,
{
}

/// The two ends of the pipes do what is said of them here at every event, and a message that
/// could not be handed on is told with its cause.
pub proof fn pipes_do_as_stated(
    decoded: Decoded,
    input: InputAction,
    sent: Result<(), OutsideError>,
    passed: Result<(), Error>,
    queue: &mut OutputQueue,
    event: OutputQueueEvent,
    output: OutputAction,
)
    requires
        call_ensures(input_step, (decoded,), input),
        call_ensures(forwarded, (sent,), passed),
        call_ensures(OutputQueue::advance, (queue, event), output),
    ensures
        input == input_action(decoded),
        sent is Ok ==> passed is Ok,
        sent matches Err(source) ==> passed == Err::<(), Error>(
            Error::UnableToSendWorkerMessage { source },
        ),
        *final(queue) == old(queue).after(event),
        output == old(queue).reaction(event),
{
}

} // verus!
