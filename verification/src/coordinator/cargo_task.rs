//! A run of Cargo in a container.
use crate::coordinator::error::{
    CommanderError, MultiplexedSenderError, ResourceError, SpawnCargoError,
};
use crate::coordinator::message;
use crate::coordinator::message::{
    CommandStatistics, CoordinatorMessage, ExecuteCommandRequest, ExecuteCommandResponse,
    SerializedError2, WorkerMessage,
};
use vstd::prelude::*;

verus! {

/// What a run of Cargo that starts is waiting for; `P` is a permit for a process.
pub enum CargoStart<P> {
    /// A permit. The run is to carry out the request.
    Permit { request: ExecuteCommandRequest },
    /// The exchange with the worker.
    Exchange { permit: P },
    /// Nothing: the run has started, or it never will.
    Over,
}

/// What happens to a run of Cargo that starts; `S` is what an exchange goes
/// through.
pub enum CargoStartEvent<P, S> {
    /// There is a permit, or it was refused.
    Permitted(Result<P, ResourceError>),
    /// The exchange with the worker has begun, or it has not.
    Exchanged(Result<S, CommanderError>),
}

/// What is to be done for a run of Cargo that starts.
pub enum CargoStartAction<P, S> {
    /// Begin an exchange with the worker with this message.
    BeginExchange(CoordinatorMessage),
    /// The run has started, and it keeps its permit.
    Started { permit: P, channels: S },
    /// Give up.
    Fail(SpawnCargoError),
}

impl<P> CargoStart<P> {
    /// Whether `event` can happen now.
    pub open spec fn expects<S>(self, event: CargoStartEvent<P, S>) -> bool {
        match self {
            CargoStart::Permit { .. } => event is Permitted,
            CargoStart::Exchange { .. } => event is Exchanged,
            CargoStart::Over => false,
        }
    }

    /// What the run waits for after `event`.
    pub open spec fn after<S>(self, event: CargoStartEvent<P, S>) -> CargoStart<P> {
        match (self, event) {
            (
                CargoStart::Permit { .. },
                CargoStartEvent::Permitted(Ok(permit)),
            ) => CargoStart::Exchange { permit },
            _ => CargoStart::Over,
        }
    }

    /// What is to be done when `event`, which can happen, happens.
    pub open spec fn reaction<S>(self, event: CargoStartEvent<P, S>) -> CargoStartAction<P, S> {
        match event {
            CargoStartEvent::Permitted(Ok(_)) => CargoStartAction::BeginExchange(
                CoordinatorMessage::ExecuteCommand(self->request),
            ),
            CargoStartEvent::Permitted(Err(source)) => CargoStartAction::Fail(
                SpawnCargoError::AcquirePermit { source },
            ),
            CargoStartEvent::Exchanged(Ok(channels)) => CargoStartAction::Started {
                permit: self->permit,
                channels,
            },
            CargoStartEvent::Exchanged(Err(source)) => CargoStartAction::Fail(
                SpawnCargoError::CouldNotStartCargo { source },
            ),
        }
    }

    /// A run that is to carry out `request`. It first needs a permit.
    pub fn new(request: ExecuteCommandRequest) -> (start: CargoStart<P>)
        ensures
            start == (CargoStart::<P>::Permit { request }),
    {
        CargoStart::Permit { request }
    }

    /// Takes an event and says what is to be done.
    pub fn advance<S>(self, event: CargoStartEvent<P, S>) -> (r: (
        CargoStart<P>,
        CargoStartAction<P, S>,
    ))
        requires
            self.expects(event),
        ensures
            r.0 == self.after(event),
            r.1 == self.reaction(event),
    {
        match (self, event) {
            (CargoStart::Permit { request }, CargoStartEvent::Permitted(permit)) => match permit {
                Ok(permit) => (
                    CargoStart::Exchange { permit },
                    CargoStartAction::BeginExchange(CoordinatorMessage::ExecuteCommand(request)),
                ),
                Err(source) => (
                    CargoStart::Over,
                    CargoStartAction::Fail(SpawnCargoError::AcquirePermit { source }),
                ),
            },
            (CargoStart::Exchange { permit }, CargoStartEvent::Exchanged(exchange)) => {
                match exchange {
                    Ok(channels) => (
                        CargoStart::Over,
                        CargoStartAction::Started { permit, channels },
                    ),
                    Err(source) => (
                        CargoStart::Over,
                        CargoStartAction::Fail(SpawnCargoError::CouldNotStartCargo { source }),
                    ),
                }
            },
            (_, _) => vstd::pervasive::unreached(),
        }
    }
}

/// What a run that is to carry out `request` waits for after all of `events`.
pub open spec fn start_after<P, S>(
    request: ExecuteCommandRequest,
    events: Seq<CargoStartEvent<P, S>>,
) -> CargoStart<P>
    decreases events.len(),
{
    if events.len() == 0 {
        CargoStart::Permit { request }
    } else {
        start_after(request, events.drop_last()).after(events.last())
    }
}

/// A run begins its exchange with the worker only when it has been given a permit,
/// asks for exactly its request, and starts with that very permit. A run that is
/// refused a permit sends the worker nothing.
pub proof fn process_needs_a_permit<P, S>(
    request: ExecuteCommandRequest,
    events: Seq<CargoStartEvent<P, S>>,
    event: CargoStartEvent<P, S>,
)
    requires
        start_after(request, events).expects(event),
    ensures
        match start_after(request, events).reaction(event) {
            CargoStartAction::BeginExchange(message) => {
                &&& events.len() == 0
                &&& event matches CargoStartEvent::Permitted(Ok(_))
                &&& message == CoordinatorMessage::ExecuteCommand(request)
            },
            CargoStartAction::Started { permit, .. } => {
                &&& events.len() == 1
                &&& events[0] == CargoStartEvent::<P, S>::Permitted(Ok(permit))
            },
            CargoStartAction::Fail(_) => true,
        },
        event matches CargoStartEvent::Permitted(Err(source)) ==> {
            &&& start_after(request, events).reaction(event) == CargoStartAction::<P, S>::Fail(
                SpawnCargoError::AcquirePermit { source },
            )
            &&& start_after(request, events).after(event) is Over
        },
{
    lemma_start(request, events);
}

proof fn lemma_start<P, S>(request: ExecuteCommandRequest, events: Seq<CargoStartEvent<P, S>>)
    ensures
        match start_after(request, events) {
            CargoStart::Permit { request: asked } => events.len() == 0 && asked == request,
            CargoStart::Exchange { permit } => {
                &&& events.len() == 1
                &&& events[0] == CargoStartEvent::<P, S>::Permitted(Ok(permit))
            },
            CargoStart::Over => true,
        },
    decreases events.len(),
{
    if events.len() > 0 {
        lemma_start(request, events.drop_last());
    }
}

/// A run of Cargo.
pub struct CargoTask {
    stdin_open: bool,
    cancelled: bool,
    ended: bool,
}

/// How far a run of Cargo has come.
pub ghost struct CargoState {
    /// Whether the run still takes input.
    pub stdin_open: bool,
    /// Whether the run was cancelled.
    pub cancelled: bool,
    /// Whether the run has ended.
    pub ended: bool,
}

/// What happens to a run of Cargo.
#[derive(Debug, PartialEq, Eq)]
pub enum CargoEvent {
    /// The run is to be cancelled.
    Cancelled,
    /// There is input for it, or there will be none any more.
    Stdin(Option<String>),
    /// The worker told something.
    FromWorker(WorkerMessage),
    /// There is nothing more to wait for: neither input nor a message of the worker.
    Exhausted,
}

/// What is to be done for a run of Cargo.
#[derive(Debug, PartialEq, Eq)]
pub enum CargoAction {
    /// Send the worker the message that ends the run.
    SendKill(CoordinatorMessage),
    /// Send the worker the message about the input.
    SendStdin(CoordinatorMessage),
    /// Hand on output. It does not matter whether anybody takes it.
    Stdout(String),
    /// Hand on error output. It does not matter whether anybody takes it.
    Stderr(String),
    /// Hand on statistics. It does not matter whether anybody takes them.
    Status(CommandStatistics),
    /// The run has ended.
    Finish(Result<ExecuteCommandResponse, SpawnCargoError>),
}

/// `action` is what is to be done when `event` happens.
pub open spec fn cargo_reaction(event: CargoEvent, action: CargoAction) -> bool {
    match event {
        CargoEvent::Cancelled => action == CargoAction::SendKill(CoordinatorMessage::Kill),
        CargoEvent::Stdin(Some(packet)) => action == CargoAction::SendStdin(
            CoordinatorMessage::StdinPacket(packet),
        ),
        CargoEvent::Stdin(None) => action == CargoAction::SendStdin(CoordinatorMessage::StdinClose),
        CargoEvent::FromWorker(told) => match told {
            WorkerMessage::ExecuteCommand(response) => action == CargoAction::Finish(Ok(response)),
            WorkerMessage::StdoutPacket(packet) => action == CargoAction::Stdout(packet),
            WorkerMessage::StderrPacket(packet) => action == CargoAction::Stderr(packet),
            WorkerMessage::CommandStatistics(stats) => action == CargoAction::Status(stats),
            WorkerMessage::Error(error) => {
                &&& action matches CargoAction::Finish(Err(SpawnCargoError::Worker { source }))
                &&& message::adapted(error, source)
            },
            WorkerMessage::Error2(error) => action == CargoAction::Finish(
                Err(SpawnCargoError::Worker { source: error }),
            ),
            other => {
                &&& action matches CargoAction::Finish(
                    Err(SpawnCargoError::UnexpectedMessage { message: name }),
                )
                &&& name@ == message::worker_message_name(other)
            },
        },
        CargoEvent::Exhausted => action == CargoAction::Finish(
            Err(SpawnCargoError::UnexpectedEndOfMessages),
        ),
    }
}

/// Whether a run ends with `event`.
pub open spec fn ends(event: CargoEvent) -> bool {
    match event {
        CargoEvent::Exhausted => true,
        CargoEvent::FromWorker(told) => !(told is StdoutPacket || told is StderrPacket
            || told is CommandStatistics),
        _ => false,
    }
}

impl CargoState {
    /// A run that has begun.
    pub open spec fn begun() -> CargoState {
        CargoState { stdin_open: true, cancelled: false, ended: false }
    }

    /// Whether `event` can happen now: a run is cancelled once, input comes only
    /// while the run takes it, and there is always more to wait for until it takes
    /// none.
    pub open spec fn expects(self, event: CargoEvent) -> bool {
        &&& !self.ended
        &&& event is Cancelled ==> !self.cancelled
        &&& event is Stdin ==> self.stdin_open
        &&& event is Exhausted ==> !self.stdin_open
    }

    /// The run after `event`.
    pub open spec fn after(self, event: CargoEvent) -> CargoState {
        CargoState {
            stdin_open: self.stdin_open && event != CargoEvent::Stdin(None),
            cancelled: self.cancelled || event is Cancelled,
            ended: self.ended || ends(event),
        }
    }
}

impl View for CargoTask {
    type V = CargoState;

    closed spec fn view(&self) -> CargoState {
        CargoState {
            stdin_open: self.stdin_open,
            cancelled: self.cancelled,
            ended: self.ended,
        }
    }
}

impl CargoTask {
    /// A run that has begun.
    pub fn new() -> (task: CargoTask)
        ensures
            task@ == CargoState::begun(),
    {
        CargoTask { stdin_open: true, cancelled: false, ended: false }
    }

    /// Whether the run still takes input.
    pub fn stdin_open(&self) -> (open: bool)
        ensures
            open == self@.stdin_open,
    {
        self.stdin_open
    }

    /// Whether the run was cancelled.
    pub fn cancelled(&self) -> (cancelled: bool)
        ensures
            cancelled == self@.cancelled,
    {
        self.cancelled
    }

    /// Takes an event and says what is to be done.
    pub fn advance(&mut self, event: CargoEvent) -> (action: CargoAction)
        requires
            old(self)@.expects(event),
        ensures
            final(self)@ == old(self)@.after(event),
            cargo_reaction(event, action),
    {
        match event {
            CargoEvent::Cancelled => {
                self.cancelled = true;
                CargoAction::SendKill(CoordinatorMessage::Kill)
            },
            CargoEvent::Stdin(Some(packet)) => CargoAction::SendStdin(
                CoordinatorMessage::StdinPacket(packet),
            ),
            CargoEvent::Stdin(None) => {
                self.stdin_open = false;
                CargoAction::SendStdin(CoordinatorMessage::StdinClose)
            },
            CargoEvent::FromWorker(told) => match told {
                WorkerMessage::StdoutPacket(packet) => CargoAction::Stdout(packet),
                WorkerMessage::StderrPacket(packet) => CargoAction::Stderr(packet),
                WorkerMessage::CommandStatistics(stats) => CargoAction::Status(stats),
                WorkerMessage::ExecuteCommand(response) => {
                    self.ended = true;
                    CargoAction::Finish(Ok(response))
                },
                WorkerMessage::Error(error) => {
                    self.ended = true;
                    CargoAction::Finish(
                        Err(SpawnCargoError::Worker { source: SerializedError2::adapt(error) }),
                    )
                },
                WorkerMessage::Error2(error) => {
                    self.ended = true;
                    CargoAction::Finish(Err(SpawnCargoError::Worker { source: error }))
                },
                other => {
                    self.ended = true;
                    CargoAction::Finish(
                        Err(SpawnCargoError::UnexpectedMessage { message: other.name().to_owned() }),
                    )
                },
            },
            CargoEvent::Exhausted => {
                self.ended = true;
                CargoAction::Finish(Err(SpawnCargoError::UnexpectedEndOfMessages))
            },
        }
    }

    /// What it means for the run whether the message that ends it was sent.
    pub fn kill_sent(sent: Result<(), MultiplexedSenderError>) -> (r: Result<(), SpawnCargoError>)
        ensures
            r == match sent {
                Ok(_) => Ok::<(), SpawnCargoError>(()),
                Err(source) => Err(SpawnCargoError::Kill { source }),
            },
    {
        match sent {
            Ok(_) => Ok(()),
            Err(source) => Err(SpawnCargoError::Kill { source }),
        }
    }

    /// What it means for the run whether a message about its input was sent.
    pub fn stdin_sent(sent: Result<(), MultiplexedSenderError>) -> (r: Result<(), SpawnCargoError>)
        ensures
            r == match sent {
                Ok(_) => Ok::<(), SpawnCargoError>(()),
                Err(source) => Err(SpawnCargoError::Stdin { source }),
            },
    {
        match sent {
            Ok(_) => Ok(()),
            Err(source) => Err(SpawnCargoError::Stdin { source }),
        }
    }
}

/// A run after all of `events`, one after another.
pub open spec fn cargo_after(events: Seq<CargoEvent>) -> CargoState
    decreases events.len(),
{
    if events.len() == 0 {
        CargoState::begun()
    } else {
        cargo_after(events.drop_last()).after(events.last())
    }
}

/// A history of a run: its events, each of which can happen, and what was done at
/// each of them.
pub open spec fn cargo_history(events: Seq<CargoEvent>, actions: Seq<CargoAction>) -> bool
    decreases events.len(),
{
    &&& events.len() == actions.len()
    &&& events.len() > 0 ==> {
        &&& cargo_history(events.drop_last(), actions.drop_last())
        &&& cargo_after(events.drop_last()).expects(events.last())
        &&& cargo_reaction(events.last(), actions.last())
    }
}

/// The output that the worker told, in order.
pub open spec fn told_stdout(events: Seq<CargoEvent>) -> Seq<Seq<char>>
    decreases events.len(),
{
    if events.len() == 0 {
        Seq::empty()
    } else {
        let before = told_stdout(events.drop_last());
        match events.last() {
            CargoEvent::FromWorker(WorkerMessage::StdoutPacket(packet)) => before.push(packet@),
            _ => before,
        }
    }
}

/// The output that was handed on, in order.
pub open spec fn handed_stdout(actions: Seq<CargoAction>) -> Seq<Seq<char>>
    decreases actions.len(),
{
    if actions.len() == 0 {
        Seq::empty()
    } else {
        let before = handed_stdout(actions.drop_last());
        match actions.last() {
            CargoAction::Stdout(packet) => before.push(packet@),
            _ => before,
        }
    }
}

/// The error output that the worker told, in order.
pub open spec fn told_stderr(events: Seq<CargoEvent>) -> Seq<Seq<char>>
    decreases events.len(),
{
    if events.len() == 0 {
        Seq::empty()
    } else {
        let before = told_stderr(events.drop_last());
        match events.last() {
            CargoEvent::FromWorker(WorkerMessage::StderrPacket(packet)) => before.push(packet@),
            _ => before,
        }
    }
}

/// The error output that was handed on, in order.
pub open spec fn handed_stderr(actions: Seq<CargoAction>) -> Seq<Seq<char>>
    decreases actions.len(),
{
    if actions.len() == 0 {
        Seq::empty()
    } else {
        let before = handed_stderr(actions.drop_last());
        match actions.last() {
            CargoAction::Stderr(packet) => before.push(packet@),
            _ => before,
        }
    }
}

/// The statistics that the worker told, in order.
pub open spec fn told_status(events: Seq<CargoEvent>) -> Seq<CommandStatistics>
    decreases events.len(),
{
    if events.len() == 0 {
        Seq::empty()
    } else {
        let before = told_status(events.drop_last());
        match events.last() {
            CargoEvent::FromWorker(WorkerMessage::CommandStatistics(stats)) => before.push(stats),
            _ => before,
        }
    }
}

/// The statistics that were handed on, in order.
pub open spec fn handed_status(actions: Seq<CargoAction>) -> Seq<CommandStatistics>
    decreases actions.len(),
{
    if actions.len() == 0 {
        Seq::empty()
    } else {
        let before = handed_status(actions.drop_last());
        match actions.last() {
            CargoAction::Status(stats) => before.push(stats),
            _ => before,
        }
    }
}

/// How often the worker was told to end the run.
pub open spec fn kills(actions: Seq<CargoAction>) -> nat
    decreases actions.len(),
{
    if actions.len() == 0 {
        0
    } else {
        let before = kills(actions.drop_last());
        if actions.last() is SendKill {
            before + 1
        } else {
            before
        }
    }
}

/// The messages about the input that were sent to the worker, in order.
pub open spec fn sent_stdin(actions: Seq<CargoAction>) -> Seq<CoordinatorMessage>
    decreases actions.len(),
{
    if actions.len() == 0 {
        Seq::empty()
    } else {
        let before = sent_stdin(actions.drop_last());
        match actions.last() {
            CargoAction::SendStdin(told) => before.push(told),
            _ => before,
        }
    }
}

/// All output of the worker is handed on, in order and unchanged, and nothing
/// else is; the same holds of the error output and of the statistics.
pub proof fn output_is_handed_on(events: Seq<CargoEvent>, actions: Seq<CargoAction>)
    requires
        cargo_history(events, actions),
    ensures
        handed_stdout(actions) == told_stdout(events),
        handed_stderr(actions) == told_stderr(events),
        handed_status(actions) == told_status(events),
    decreases events.len(),
{
    if events.len() > 0 {
        output_is_handed_on(events.drop_last(), actions.drop_last());
    }
}

/// The end of the input is the last thing that the worker is told about the
/// input.
pub proof fn nothing_follows_the_end_of_input(events: Seq<CargoEvent>, actions: Seq<CargoAction>)
    requires
        cargo_history(events, actions),
    ensures
        forall|i: int|
            0 <= i < sent_stdin(actions).len() - 1 ==> #[trigger] sent_stdin(actions)[i]
                != CoordinatorMessage::StdinClose,
{
    lemma_end_of_input(events, actions);
}

proof fn lemma_end_of_input(events: Seq<CargoEvent>, actions: Seq<CargoAction>)
    requires
        cargo_history(events, actions),
    ensures
        forall|i: int|
            0 <= i < sent_stdin(actions).len() - 1 ==> #[trigger] sent_stdin(actions)[i]
                != CoordinatorMessage::StdinClose,
        sent_stdin(actions).len() > 0 && sent_stdin(actions).last()
            == CoordinatorMessage::StdinClose ==> !cargo_after(events).stdin_open,
    decreases events.len(),
{
    if events.len() > 0 {
        let before = sent_stdin(actions.drop_last());
        let now = sent_stdin(actions);
        lemma_end_of_input(events.drop_last(), actions.drop_last());
        assert forall|i: int| 0 <= i < now.len() - 1 implies #[trigger] now[i]
            != CoordinatorMessage::StdinClose by {
            if now.len() > before.len() && i == before.len() - 1 {
                assert(now[i] == before.last());
            } else {
                assert(now[i] == before[i]);
            }
        }
    }
}

/// The worker is told to end the run at most once, namely when the run was
/// cancelled.
pub proof fn worker_is_killed_once(events: Seq<CargoEvent>, actions: Seq<CargoAction>)
    requires
        cargo_history(events, actions),
    ensures
        kills(actions) == if cargo_after(events).cancelled {
            1nat
        } else {
            0nat
        },
    decreases events.len(),
{
    if events.len() > 0 {
        worker_is_killed_once(events.drop_last(), actions.drop_last());
    }
}

/// A run goes on until the worker says that the command has ended, or that
/// something failed, or something unexpected, or there is nothing more to wait
/// for; then it ends, and nothing follows. That it was cancelled does not end it.
pub proof fn run_ends_with_its_answer(
    events: Seq<CargoEvent>,
    actions: Seq<CargoAction>,
    i: int,
)
    requires
        cargo_history(events, actions),
        0 <= i < events.len(),
    ensures
        (actions[i] is Finish) == ends(events[i]),
        actions[i] is Finish ==> i == events.len() - 1,
        (actions[i] matches CargoAction::Finish(Ok(_))) == (
        events[i] matches CargoEvent::FromWorker(WorkerMessage::ExecuteCommand(_))),
    decreases events.len(),
{
    let before = events.drop_last();
    if i < before.len() {
        run_ends_with_its_answer(before, actions.drop_last(), i);
        assert(before[i] == events[i] && actions.drop_last()[i] == actions[i]);
        if actions[i] is Finish {
            assert(before[i] == before.last());
            assert(cargo_after(before).ended);
        }
    }
}

/// A run that has been given a permit asks the worker for its request, and when the
/// worker can be reached it starts, with its permit and with what the exchange goes
/// through. A run that is refused a permit, or that cannot reach the worker, fails with
/// that very error.
pub proof fn permitted_run_starts<P, S>(
    request: ExecuteCommandRequest,
    permit: P,
    channels: S,
    refusal: ResourceError,
    silence: CommanderError,
)
    ensures
        ({
            let start = CargoStart::<P>::Permit { request };
            let given = CargoStartEvent::<P, S>::Permitted(Ok(permit));
            let next = start.after(given);
            &&& start.expects(given)
            &&& start.reaction(given) == CargoStartAction::<P, S>::BeginExchange(
                CoordinatorMessage::ExecuteCommand(request),
            )
            &&& next.expects(CargoStartEvent::<P, S>::Exchanged(Ok(channels)))
            &&& next.reaction(CargoStartEvent::<P, S>::Exchanged(Ok(channels))) == (
            CargoStartAction::<P, S>::Started { permit, channels })
            &&& next.reaction(CargoStartEvent::<P, S>::Exchanged(Err(silence)))
                == CargoStartAction::<P, S>::Fail(
                SpawnCargoError::CouldNotStartCargo { source: silence },
            )
            &&& start.reaction(CargoStartEvent::<P, S>::Permitted(Err(refusal)))
                == CargoStartAction::<P, S>::Fail(
                SpawnCargoError::AcquirePermit { source: refusal },
            )
        }),
{
}

/// What the run is given to read and what the worker tells is passed on unchanged. The
/// end of the command is the end of the run, and an error of the worker ends it with that
/// error; a message that no run expects, or silence, ends it too. Nothing else ends it.
pub proof fn run_passes_on_what_comes(event: CargoEvent, action: CargoAction)
    requires
        cargo_reaction(event, action),
    ensures
        match event {
            CargoEvent::Cancelled => action == CargoAction::SendKill(CoordinatorMessage::Kill),
            CargoEvent::Stdin(Some(packet)) => {
                &&& action matches CargoAction::SendStdin(CoordinatorMessage::StdinPacket(sent))
                &&& sent@ == packet@
            },
            CargoEvent::Stdin(None) => action == CargoAction::SendStdin(
                CoordinatorMessage::StdinClose,
            ),
            CargoEvent::FromWorker(WorkerMessage::StdoutPacket(packet)) => {
                action matches CargoAction::Stdout(handed) && handed@ == packet@
            },
            CargoEvent::FromWorker(WorkerMessage::StderrPacket(packet)) => {
                action matches CargoAction::Stderr(handed) && handed@ == packet@
            },
            CargoEvent::FromWorker(WorkerMessage::CommandStatistics(stats)) => {
                action == CargoAction::Status(stats)
            },
            CargoEvent::FromWorker(WorkerMessage::ExecuteCommand(ended)) => {
                &&& action matches CargoAction::Finish(Ok(response))
                &&& response.success == ended.success
                &&& response.exit_detail@ == ended.exit_detail@
            },
            CargoEvent::FromWorker(WorkerMessage::Error(error)) => {
                &&& action matches CargoAction::Finish(Err(SpawnCargoError::Worker { source }))
                &&& source.message@ == error.0@
                &&& source.causes@.len() == 0
            },
            CargoEvent::FromWorker(WorkerMessage::Error2(error)) => {
                &&& action matches CargoAction::Finish(Err(SpawnCargoError::Worker { source }))
                &&& source == error
            },
            CargoEvent::FromWorker(WorkerMessage::WriteFile(_)) => {
                &&& action matches CargoAction::Finish(
                    Err(SpawnCargoError::UnexpectedMessage { message: name }),
                )
                &&& name@ == "WriteFile"@
            },
            CargoEvent::FromWorker(WorkerMessage::DeleteFile(_)) => {
                &&& action matches CargoAction::Finish(
                    Err(SpawnCargoError::UnexpectedMessage { message: name }),
                )
                &&& name@ == "DeleteFile"@
            },
            CargoEvent::FromWorker(WorkerMessage::ReadFile(_)) => {
                &&& action matches CargoAction::Finish(
                    Err(SpawnCargoError::UnexpectedMessage { message: name }),
                )
                &&& name@ == "ReadFile"@
            },
            CargoEvent::Exhausted => action == CargoAction::Finish(
                Err(SpawnCargoError::UnexpectedEndOfMessages),
            ),
        },
        action is Finish <==> ends(event),
{
}

/// A run takes input until its input ends, and it counts as cancelled once it was
/// cancelled; it has ended once something came that it ends with. None of these has to
/// do with the others, and before the end the run waits for whatever can come.
pub proof fn run_remembers_what_came(events: Seq<CargoEvent>)
    ensures
        cargo_after(events).stdin_open <==> forall|i: int|
            0 <= i < events.len() ==> #[trigger] events[i] != CargoEvent::Stdin(None),
        cargo_after(events).cancelled <==> exists|i: int|
            0 <= i < events.len() && #[trigger] events[i] is Cancelled,
        cargo_after(events).ended <==> exists|i: int|
            0 <= i < events.len() && ends(#[trigger] events[i]),
        forall|told: WorkerMessage|
            !cargo_after(events).ended ==> #[trigger] cargo_after(events).expects(
                CargoEvent::FromWorker(told),
            ),
        forall|packet: Option<String>|
            !cargo_after(events).ended && cargo_after(events).stdin_open
                ==> #[trigger] cargo_after(events).expects(CargoEvent::Stdin(packet)),
        !cargo_after(events).ended && !cargo_after(events).cancelled ==> cargo_after(
            events,
        ).expects(CargoEvent::Cancelled),
        !cargo_after(events).ended && !cargo_after(events).stdin_open ==> cargo_after(
            events,
        ).expects(CargoEvent::Exhausted),
    decreases events.len(),
{
    if events.len() > 0 {
        let before = events.drop_last();
        let n = events.len() - 1;
        run_remembers_what_came(before);
        assert(events[n] == events.last());
        assert(forall|i: int| 0 <= i < n ==> #[trigger] events[i] == before[i]);
        if cargo_after(before).stdin_open && events.last() != CargoEvent::Stdin(None) {
            assert forall|i: int| 0 <= i < events.len() implies #[trigger] events[i]
                != CargoEvent::Stdin(None) by {
                if i < n {
                    assert(before[i] != CargoEvent::Stdin(None));
                }
            }
        }
        if !cargo_after(before).stdin_open {
            let i = choose|i: int|
                0 <= i < before.len() && #[trigger] before[i] == CargoEvent::Stdin(None);
            assert(events[i] == before[i]);
        }
        if cargo_after(before).cancelled {
            let i = choose|i: int| 0 <= i < before.len() && #[trigger] before[i] is Cancelled;
            assert(events[i] == before[i]);
        }
        if cargo_after(before).ended {
            let i = choose|i: int| 0 <= i < before.len() && ends(#[trigger] before[i]);
            assert(events[i] == before[i]);
        }
    }
}

/// The input that the run is given, in order; `None` is its end.
pub open spec fn given_stdin(events: Seq<CargoEvent>) -> Seq<Option<Seq<char>>>
    decreases events.len(),
{
    if events.len() == 0 {
        Seq::empty()
    } else {
        let before = given_stdin(events.drop_last());
        match events.last() {
            CargoEvent::Stdin(Some(packet)) => before.push(Some(packet@)),
            CargoEvent::Stdin(None) => before.push(None),
            _ => before,
        }
    }
}

/// All input that the run is given is sent to the worker, in order and unchanged, and so
/// is its end; nothing else is sent as input.
pub proof fn input_is_sent_on(events: Seq<CargoEvent>, actions: Seq<CargoAction>)
    requires
        cargo_history(events, actions),
    ensures
        sent_stdin(actions).len() == given_stdin(events).len(),
        forall|i: int|
            0 <= i < given_stdin(events).len() ==> match #[trigger] given_stdin(events)[i] {
                Some(packet) => sent_stdin(actions)[i] matches CoordinatorMessage::StdinPacket(sent)
                    && sent@ == packet,
                None => sent_stdin(actions)[i] == CoordinatorMessage::StdinClose,
            },
    decreases events.len(),
{
    if events.len() > 0 {
        let given = given_stdin(events.drop_last());
        let sent = sent_stdin(actions.drop_last());
        input_is_sent_on(events.drop_last(), actions.drop_last());
        assert forall|i: int| 0 <= i < given_stdin(events).len() implies match #[trigger] given_stdin(
            events,
        )[i] {
            Some(packet) => sent_stdin(actions)[i] matches CoordinatorMessage::StdinPacket(told)
                && told@ == packet,
            None => sent_stdin(actions)[i] == CoordinatorMessage::StdinClose,
        } by {
            if i < given.len() {
                assert(given_stdin(events)[i] == given[i]);
                assert(sent_stdin(actions)[i] == sent[i]);
            }
        }
    }
}

/// A run that starts, and one that has started, do what is said of them here at every
/// event.
pub proof fn runs_do_as_stated<P, S>(
    start: CargoStart<P>,
    event: CargoStartEvent<P, S>,
    step: (CargoStart<P>, CargoStartAction<P, S>),
    task: &mut CargoTask,
    happens: CargoEvent,
    action: CargoAction,
)
    requires
        call_ensures(CargoStart::<P>::advance::<S>, (start, event), step),
        call_ensures(CargoTask::advance, (task, happens), action),
    ensures
        step.0 == start.after(event),
        step.1 == start.reaction(event),
        final(task)@ == old(task)@.after(happens),
        cargo_reaction(happens, action),
{
}

/// A message that could not be sent ends the run with the cause, told apart by what the
/// message was about.
pub proof fn unsent_messages_end_the_run(
    sent: Result<(), MultiplexedSenderError>,
    kill: Result<(), SpawnCargoError>,
    stdin: Result<(), SpawnCargoError>,
)
    requires
        call_ensures(CargoTask::kill_sent, (sent,), kill),
        call_ensures(CargoTask::stdin_sent, (sent,), stdin),
    ensures
        sent is Ok ==> kill is Ok && stdin is Ok,
        sent matches Err(source) ==> {
            &&& kill == Err::<(), _>(SpawnCargoError::Kill { source })
            &&& stdin == Err::<(), _>(SpawnCargoError::Stdin { source })
        },
{
}

} // verus!
