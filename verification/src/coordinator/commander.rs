//! Exchanges between the coordinator and a worker.
use crate::coordinator::error::{CommanderError, MultiplexedSenderError, OutsideError};
use crate::coordinator::message;
use crate::coordinator::message::{
    CoordinatorMessage, DeleteFileRequest, DeleteFileResponse, JobId, Multiplexed,
    OneToOneResponse, ReadFileRequest, ReadFileResponse, SerializedError2, WorkerMessage,
    WriteFileRequest, WriteFileResponse,
};
use vstd::prelude::*;

verus! {

/// Numbers the jobs of one worker.
pub struct Commander {
    id: JobId,
}

impl View for Commander {
    type V = JobId;

    closed spec fn view(&self) -> JobId {
        self.id
    }
}

/// The number that follows `id`; after the largest comes zero.
pub open spec fn next_of(id: JobId) -> JobId {
    if id == u64::MAX {
        0
    } else {
        (id + 1) as u64
    }
}

impl Commander {
    /// How often listeners that are gone are looked for, in seconds.
    pub const GC_PERIOD_SECS: u64 = 30;

    /// Numbers from zero on.
    pub fn new() -> (commander: Commander)
        ensures
            commander@ == 0,
    {
        Commander { id: 0 }
    }

    /// The number of the next job.
    pub fn next_id(&mut self) -> (id: JobId)
        ensures
            id == old(self)@,
            final(self)@ == next_of(old(self)@),
    {
        let id: JobId = self.id;
        self.id = if id == u64::MAX {
            0
        } else {
            id + 1
        };
        id
    }

    /// What marks the messages of a job.
    pub fn build_multiplexed_sender(&self, job_id: JobId) -> (sender: MultiplexedSender)
        ensures
            sender.job_id == job_id,
    {
        MultiplexedSender { job_id }
    }
}

/// The numbers of `n` jobs from `start` on.
pub open spec fn drawn_ids(start: JobId, n: nat) -> Seq<JobId>
    decreases n,
{
    if n == 0 {
        Seq::empty()
    } else {
        seq![start] + drawn_ids(next_of(start), (n - 1) as nat)
    }
}

proof fn lemma_drawn_ids(start: JobId, n: nat)
    ensures
        drawn_ids(start, n).len() == n,
        forall|i: int|
            0 <= i < n ==> #[trigger] drawn_ids(start, n)[i] == (start + i) % 0x1_0000_0000_0000_0000,
    decreases n,
{
    if n > 0 {
        let next = next_of(start);
        let rest = drawn_ids(next, (n - 1) as nat);
        lemma_drawn_ids(next, (n - 1) as nat);
        assert forall|i: int| 0 <= i < n implies #[trigger] drawn_ids(start, n)[i] == (start + i)
            % 0x1_0000_0000_0000_0000 by {
            if i > 0 {
                assert(drawn_ids(start, n)[i] == rest[i - 1]);
                assert((next + (i - 1)) % 0x1_0000_0000_0000_0000 == (start + i)
                    % 0x1_0000_0000_0000_0000);
            }
        }
    }
}

/// No two jobs have the same number, as long as all numbers have not been used
/// up.
pub proof fn job_ids_are_unique(start: JobId, n: nat)
    requires
        n <= 0x1_0000_0000_0000_0000,
    ensures
        drawn_ids(start, n).no_duplicates(),
{
    lemma_drawn_ids(start, n);
    let ids = drawn_ids(start, n);
    assert forall|i: int, j: int| 0 <= i < j < n implies ids[i] != ids[j] by {
        assert(ids[i] == (start + i) % 0x1_0000_0000_0000_0000);
        assert(ids[j] == (start + j) % 0x1_0000_0000_0000_0000);
        assert((start + i) % 0x1_0000_0000_0000_0000 != (start + j) % 0x1_0000_0000_0000_0000);
    }
}

/// Marks the messages of one job.
pub struct MultiplexedSender {
    pub job_id: JobId,
}

impl MultiplexedSender {
    /// The message as it is sent to the worker.
    pub fn multiplex(&self, message: CoordinatorMessage) -> (multiplexed: Multiplexed<
        CoordinatorMessage,
    >)
        ensures
            multiplexed == Multiplexed(self.job_id, message),
    {
        Multiplexed(self.job_id, message)
    }
}

/// How much the worker is expected to answer to a request.
#[derive(Debug, Clone, Copy, PartialEq, Eq)]
pub enum Answers {
    /// One message.
    One,
    /// Messages until the job ends.
    Many,
}

/// How far an exchange has come.
#[derive(Debug, PartialEq, Eq)]
pub enum Exchange {
    /// The command that lists the listener is being sent.
    Registering(Answers, JobId, CoordinatorMessage),
    /// The command was sent and is to be acknowledged.
    Acknowledging(Answers, JobId, CoordinatorMessage),
    /// The request is being sent.
    Requesting(Answers),
    /// The one answer is to come.
    Answering,
    /// The exchange has ended.
    Ended,
}

/// What happens to an exchange.
#[derive(Debug, PartialEq, Eq)]
pub enum ExchangeEvent {
    /// The demultiplexer can be reached, or it cannot.
    CommandSent(Result<(), OutsideError>),
    /// The demultiplexer lists the listener, or it has gone.
    Acknowledged(Result<(), OutsideError>),
    /// The request was sent, or it was not.
    RequestSent(Result<(), MultiplexedSenderError>),
    /// The answer came, or the demultiplexer has gone.
    Answered(Result<WorkerMessage, OutsideError>),
}

/// What is to be done for an exchange.
#[derive(Debug, PartialEq, Eq)]
pub enum ExchangeAction {
    /// Wait for the demultiplexer to acknowledge the command.
    AwaitAcknowledgement,
    /// Send the request.
    SendRequest(Multiplexed<CoordinatorMessage>),
    /// Wait for the answer.
    AwaitAnswer,
    /// The exchange is under way; its messages go to the listener.
    Started,
    /// This is the answer.
    Finish(WorkerMessage),
    /// The exchange failed.
    Fail(CommanderError),
}

impl Exchange {
    /// Whether `event` can happen now.
    pub open spec fn expects(self, event: ExchangeEvent) -> bool {
        match self {
            Exchange::Registering(..) => event is CommandSent,
            Exchange::Acknowledging(..) => event is Acknowledged,
            Exchange::Requesting(_) => event is RequestSent,
            Exchange::Answering => event is Answered,
            Exchange::Ended => false,
        }
    }

    /// The exchange after `event`.
    pub open spec fn after(self, event: ExchangeEvent) -> Exchange {
        match (self, event) {
            (
                Exchange::Registering(answers, job_id, message),
                ExchangeEvent::CommandSent(Ok(_)),
            ) => Exchange::Acknowledging(answers, job_id, message),
            (
                Exchange::Acknowledging(answers, _, _),
                ExchangeEvent::Acknowledged(Ok(_)),
            ) => Exchange::Requesting(answers),
            (
                Exchange::Requesting(Answers::One),
                ExchangeEvent::RequestSent(Ok(_)),
            ) => Exchange::Answering,
            _ => Exchange::Ended,
        }
    }

    /// What is to be done when `event` happens.
    pub open spec fn reaction(self, event: ExchangeEvent) -> ExchangeAction {
        match (self, event) {
            (_, ExchangeEvent::CommandSent(Ok(_))) => ExchangeAction::AwaitAcknowledgement,
            (_, ExchangeEvent::CommandSent(Err(source))) => ExchangeAction::Fail(
                CommanderError::UnableToSendToDemultiplexer { source },
            ),
            (
                Exchange::Acknowledging(_, job_id, message),
                ExchangeEvent::Acknowledged(Ok(_)),
            ) => ExchangeAction::SendRequest(Multiplexed(job_id, message)),
            (_, ExchangeEvent::Acknowledged(Ok(_))) => vstd::pervasive::arbitrary(),
            (_, ExchangeEvent::Acknowledged(Err(source))) => ExchangeAction::Fail(
                CommanderError::DemultiplexerDidNotRespond { source },
            ),
            (
                Exchange::Requesting(Answers::One),
                ExchangeEvent::RequestSent(Ok(_)),
            ) => ExchangeAction::AwaitAnswer,
            (_, ExchangeEvent::RequestSent(Ok(_))) => ExchangeAction::Started,
            (
                Exchange::Requesting(Answers::One),
                ExchangeEvent::RequestSent(Err(source)),
            ) => ExchangeAction::Fail(CommanderError::UnableToStartOne { source }),
            (_, ExchangeEvent::RequestSent(Err(source))) => ExchangeAction::Fail(
                CommanderError::UnableToStartMany { source },
            ),
            (_, ExchangeEvent::Answered(Ok(message))) => ExchangeAction::Finish(message),
            (_, ExchangeEvent::Answered(Err(source))) => ExchangeAction::Fail(
                CommanderError::UnableToReceiveFromDemultiplexer { source },
            ),
        }
    }

    /// Begins an exchange for a request that the worker answers with one
    /// response. The listener is listed first.
    pub fn one<M: OneToOneResponse>(job_id: JobId, request: M) -> (exchange: Exchange)
        ensures
            exchange == Exchange::Registering(Answers::One, job_id, request.asks()),
    {
        Exchange::Registering(Answers::One, job_id, request.into_message())
    }

    /// Begins an exchange for a request that the worker answers with many
    /// messages. The listener is listed first.
    pub fn many(job_id: JobId, request: CoordinatorMessage) -> (exchange: Exchange)
        ensures
            exchange == Exchange::Registering(Answers::Many, job_id, request),
    {
        Exchange::Registering(Answers::Many, job_id, request)
    }

    /// Takes an event and says what is to be done.
    pub fn advance(self, event: ExchangeEvent) -> (r: (Exchange, ExchangeAction))
        requires
            self.expects(event),
        ensures
            r.0 == self.after(event),
            r.1 == self.reaction(event),
    {
        match (self, event) {
            (Exchange::Registering(answers, job_id, message), ExchangeEvent::CommandSent(sent)) => {
                match sent {
                    Ok(_) => (
                        Exchange::Acknowledging(answers, job_id, message),
                        ExchangeAction::AwaitAcknowledgement,
                    ),
                    Err(source) => (
                        Exchange::Ended,
                        ExchangeAction::Fail(CommanderError::UnableToSendToDemultiplexer { source }),
                    ),
                }
            },
            (
                Exchange::Acknowledging(answers, job_id, message),
                ExchangeEvent::Acknowledged(acknowledged),
            ) => match acknowledged {
                Ok(_) => {
                    let sender: MultiplexedSender = MultiplexedSender { job_id };
                    (
                        Exchange::Requesting(answers),
                        ExchangeAction::SendRequest(sender.multiplex(message)),
                    )
                },
                Err(source) => (
                    Exchange::Ended,
                    ExchangeAction::Fail(CommanderError::DemultiplexerDidNotRespond { source }),
                ),
            },
            (Exchange::Requesting(answers), ExchangeEvent::RequestSent(sent)) => match (
                answers,
                sent,
            ) {
                (Answers::One, Ok(_)) => (Exchange::Answering, ExchangeAction::AwaitAnswer),
                (Answers::Many, Ok(_)) => (Exchange::Ended, ExchangeAction::Started),
                (Answers::One, Err(source)) => (
                    Exchange::Ended,
                    ExchangeAction::Fail(CommanderError::UnableToStartOne { source }),
                ),
                (Answers::Many, Err(source)) => (
                    Exchange::Ended,
                    ExchangeAction::Fail(CommanderError::UnableToStartMany { source }),
                ),
            },
            (Exchange::Answering, ExchangeEvent::Answered(answer)) => match answer {
                Ok(message) => (Exchange::Ended, ExchangeAction::Finish(message)),
                Err(source) => (
                    Exchange::Ended,
                    ExchangeAction::Fail(
                        CommanderError::UnableToReceiveFromDemultiplexer { source },
                    ),
                ),
            },
            (_, _) => vstd::pervasive::unreached(),
        }
    }
}

/// `r` is what the answer `message` to a request of type `M` means: its
/// response, or why the worker failed, or that it answered something else.
pub open spec fn answer_means<M: OneToOneResponse>(
    message: WorkerMessage,
    r: Result<M::Response, CommanderError>,
) -> bool {
    match M::answered(message) {
        Some(response) => r == Ok::<M::Response, CommanderError>(response),
        None => match message {
            WorkerMessage::Error(error) => {
                &&& r matches Err(CommanderError::WorkerOperationFailed { source })
                &&& message::adapted(error, source)
            },
            WorkerMessage::Error2(error) => r == Err::<M::Response, CommanderError>(
                CommanderError::WorkerOperationFailed { source: error },
            ),
            _ => r == Err::<M::Response, CommanderError>(CommanderError::UnexpectedResponseType),
        },
    }
}

/// What the answer of the worker to a request of type `M` means.
pub fn one_answer<M: OneToOneResponse>(message: WorkerMessage) -> (r: Result<
    M::Response,
    CommanderError,
>)
    ensures
        answer_means::<M>(message, r),
{
    match M::from_message(message) {
        Ok(response) => Ok(response),
        Err(WorkerMessage::Error(error)) => Err(
            CommanderError::WorkerOperationFailed { source: SerializedError2::adapt(error) },
        ),
        Err(WorkerMessage::Error2(error)) => Err(
            CommanderError::WorkerOperationFailed { source: error },
        ),
        Err(_) => Err(CommanderError::UnexpectedResponseType),
    }
}

/// The exchange after all of `events`, one after another.
pub open spec fn exchange_after(exchange: Exchange, events: Seq<ExchangeEvent>) -> Exchange
    decreases events.len(),
{
    if events.len() == 0 {
        exchange
    } else {
        exchange_after(exchange, events.drop_last()).after(events.last())
    }
}

/// Whether `events` can happen to `exchange`, one after another.
pub open spec fn exchange_expects(exchange: Exchange, events: Seq<ExchangeEvent>) -> bool
    decreases events.len(),
{
    events.len() > 0 ==> {
        &&& exchange_expects(exchange, events.drop_last())
        &&& exchange_after(exchange, events.drop_last()).expects(events.last())
    }
}

/// A request is sent, under the number of its job, only after the demultiplexer
/// has acknowledged the listener of that job: no answer can come too early.
pub proof fn listener_precedes_request(
    answers: Answers,
    job_id: JobId,
    message: CoordinatorMessage,
    events: Seq<ExchangeEvent>,
    last: ExchangeEvent,
    sent: Multiplexed<CoordinatorMessage>,
)
    requires
        exchange_expects(Exchange::Registering(answers, job_id, message), events.push(last)),
        exchange_after(Exchange::Registering(answers, job_id, message), events).reaction(last)
            == ExchangeAction::SendRequest(sent),
    ensures
        sent == Multiplexed(job_id, message),
        last matches ExchangeEvent::Acknowledged(Ok(_)),
        events.len() == 1,
        events[0] matches ExchangeEvent::CommandSent(Ok(_)),
{
    let start = Exchange::Registering(answers, job_id, message);
    let all = events.push(last);
    assert(all.drop_last() =~= events);
    let at = exchange_after(start, events);
    assert(at.expects(last));
    assert(at is Acknowledging);
    lemma_acknowledging(answers, job_id, message, events);
}

proof fn lemma_acknowledging(
    answers: Answers,
    job_id: JobId,
    message: CoordinatorMessage,
    events: Seq<ExchangeEvent>,
)
    requires
        exchange_expects(Exchange::Registering(answers, job_id, message), events),
        exchange_after(Exchange::Registering(answers, job_id, message), events) is Acknowledging,
    ensures
        events.len() == 1,
        events[0] matches ExchangeEvent::CommandSent(Ok(_)),
        exchange_after(Exchange::Registering(answers, job_id, message), events)
            == Exchange::Acknowledging(answers, job_id, message),
{
    let start = Exchange::Registering(answers, job_id, message);
    let before = events.drop_last();
    let at = exchange_after(start, before);
    assert(events.len() > 0);
    assert(at is Registering);
    if before.len() > 0 {
        let earlier = exchange_after(start, before.drop_last());
        assert(at == earlier.after(before.last()));
        assert(false);
    }
    assert(events =~= seq![events.last()]);
}

/// The jobs are numbered one after another; after the largest number comes zero.
pub proof fn job_ids_count_up(start: JobId, n: nat, i: int)
    requires
        0 <= i < n,
    ensures
        drawn_ids(start, n).len() == n,
        drawn_ids(start, n)[i] == (start + i) % 0x1_0000_0000_0000_0000,
        next_of(start) == (start + 1) % 0x1_0000_0000_0000_0000,
{
    lemma_drawn_ids(start, n);
}

/// An exchange in which nothing fails goes through all of its steps: the listener is
/// listed, that is acknowledged, the request is sent under the number of its job, and the
/// one answer that comes is the answer of the exchange, or the messages of the worker go
/// to the listener.
pub proof fn exchange_reaches_its_answer(
    answers: Answers,
    job_id: JobId,
    message: CoordinatorMessage,
    answer: WorkerMessage,
)
    ensures
        ({
            let listing = Exchange::Registering(answers, job_id, message);
            let sent = ExchangeEvent::CommandSent(Ok(()));
            let listed = ExchangeEvent::Acknowledged(Ok(()));
            let asked = ExchangeEvent::RequestSent(Ok(()));
            let answered = ExchangeEvent::Answered(Ok(answer));
            let waiting = listing.after(sent);
            let asking = waiting.after(listed);
            &&& listing.expects(sent) && waiting.expects(listed) && asking.expects(asked)
            &&& listing.reaction(sent) is AwaitAcknowledgement
            &&& waiting.reaction(listed) == ExchangeAction::SendRequest(
                Multiplexed(job_id, message),
            )
            &&& answers is One ==> {
                &&& asking.reaction(asked) is AwaitAnswer
                &&& asking.after(asked).expects(answered)
                &&& asking.after(asked).reaction(answered) == ExchangeAction::Finish(answer)
                &&& asking.after(asked).after(answered) is Ended
            }
            &&& answers is Many ==> {
                &&& asking.reaction(asked) is Started
                &&& asking.after(asked) is Ended
            }
        }),
{
}

/// A step that fails ends the exchange, with the error that says which step it was and
/// why it failed.
pub proof fn exchange_tells_which_step_failed(
    answers: Answers,
    job_id: JobId,
    message: CoordinatorMessage,
    source: OutsideError,
    unsent: MultiplexedSenderError,
)
    ensures
        ({
            let listing = Exchange::Registering(answers, job_id, message);
            let waiting = Exchange::Acknowledging(answers, job_id, message);
            let asking = Exchange::Requesting(answers);
            let failed = ExchangeEvent::RequestSent(Err(unsent));
            &&& listing.reaction(ExchangeEvent::CommandSent(Err(source))) == ExchangeAction::Fail(
                CommanderError::UnableToSendToDemultiplexer { source },
            )
            &&& listing.after(ExchangeEvent::CommandSent(Err(source))) is Ended
            &&& waiting.reaction(ExchangeEvent::Acknowledged(Err(source))) == ExchangeAction::Fail(
                CommanderError::DemultiplexerDidNotRespond { source },
            )
            &&& waiting.after(ExchangeEvent::Acknowledged(Err(source))) is Ended
            &&& asking.after(failed) is Ended
            &&& answers is One ==> asking.reaction(failed) == ExchangeAction::Fail(
                CommanderError::UnableToStartOne { source: unsent },
            )
            &&& answers is Many ==> asking.reaction(failed) == ExchangeAction::Fail(
                CommanderError::UnableToStartMany { source: unsent },
            )
            &&& Exchange::Answering.reaction(ExchangeEvent::Answered(Err(source)))
                == ExchangeAction::Fail(
                CommanderError::UnableToReceiveFromDemultiplexer { source },
            )
            &&& Exchange::Answering.after(ExchangeEvent::Answered(Err(source))) is Ended
        }),
{
}

/// An error of the worker is told as the worker told it, whatever was asked, as long as it
/// is no response to the request.
pub proof fn worker_errors_are_told<M: OneToOneResponse>(
    message: WorkerMessage,
    r: Result<M::Response, CommanderError>,
)
    requires
        answer_means::<M>(message, r),
        M::answered(message) is None,
    ensures
        match message {
            WorkerMessage::Error(error) => {
                &&& r matches Err(CommanderError::WorkerOperationFailed { source })
                &&& source.message@ == error.0@
                &&& source.causes@.len() == 0
            },
            WorkerMessage::Error2(error) => {
                r matches Err(CommanderError::WorkerOperationFailed { source }) && source == error
            },
            _ => r matches Err(CommanderError::UnexpectedResponseType),
        },
{
}

/// Each request is answered by a response of its own kind and by no other: the content of
/// a file that was read comes through byte for byte, and so does each request.
pub proof fn answers_are_of_the_kind_that_was_asked(
    message: WorkerMessage,
    write: WriteFileRequest,
    delete: DeleteFileRequest,
    read: ReadFileRequest,
    written: Result<WriteFileResponse, CommanderError>,
    deleted: Result<DeleteFileResponse, CommanderError>,
    content: Result<ReadFileResponse, CommanderError>,
)
    requires
        answer_means::<WriteFileRequest>(message, written),
        answer_means::<DeleteFileRequest>(message, deleted),
        answer_means::<ReadFileRequest>(message, content),
    ensures
        write.asks() == CoordinatorMessage::WriteFile(write),
        delete.asks() == CoordinatorMessage::DeleteFile(delete),
        read.asks() == CoordinatorMessage::ReadFile(read),
        written is Ok <==> message is WriteFile,
        deleted is Ok <==> message is DeleteFile,
        content is Ok <==> message is ReadFile,
        message matches WorkerMessage::ReadFile(file) ==> (content matches Ok(got) && got.0@
            == file.0@),
{
}

/// An exchange does what is said of it here at every event, it begins with the message of
/// its request, and its answer means what is said of it here. Jobs are numbered without
/// gaps.
pub proof fn exchanges_do_as_stated<M: OneToOneResponse>(
    job_id: JobId,
    request: M,
    begun: Exchange,
    exchange: Exchange,
    event: ExchangeEvent,
    step: (Exchange, ExchangeAction),
    message: WorkerMessage,
    r: Result<M::Response, CommanderError>,
    commander: &mut Commander,
    id: JobId,
)
    requires
        call_ensures(Exchange::one::<M>, (job_id, request), begun),
        call_ensures(Exchange::advance, (exchange, event), step),
        call_ensures(one_answer::<M>, (message,), r),
        call_ensures(Commander::next_id, (commander,), id),
    ensures
        begun == Exchange::Registering(Answers::One, job_id, request.asks()),
        step.0 == exchange.after(event),
        step.1 == exchange.reaction(event),
        answer_means::<M>(message, r),
        id == old(commander)@,
        final(commander)@ == (id + 1) % 0x1_0000_0000_0000_0000,
{
}

/// An exchange with many answers begins with its own request, and a message is marked with
/// the number of its job and otherwise unchanged.
pub proof fn messages_are_marked_with_their_job(
    job_id: JobId,
    request: CoordinatorMessage,
    begun: Exchange,
    commander: Commander,
    sender: MultiplexedSender,
    message: CoordinatorMessage,
    multiplexed: Multiplexed<CoordinatorMessage>,
)
    requires
        call_ensures(Exchange::many, (job_id, request), begun),
        call_ensures(Commander::build_multiplexed_sender, (&commander, job_id), sender),
        call_ensures(MultiplexedSender::multiplex, (&sender, message), multiplexed),
    ensures
        begun == Exchange::Registering(Answers::Many, job_id, request),
        multiplexed.0 == job_id,
        multiplexed.1 == message,
{
}

} // verus!
