//! The life of a container: how it starts, how long it lasts and how it ends.
use crate::coordinator::error::{
    CommanderError, Error, OutsideError, ResourceError, TerminateContainerError,
};
use crate::coordinator::manifest;
use crate::coordinator::manifest::ModifyCargoToml;
use crate::coordinator::message::{ReadFileRequest, ReadFileResponse};
use vstd::prelude::*;

verus! {

/// Which pipes of a new worker were captured.
#[derive(Debug, Clone, Copy, PartialEq, Eq)]
pub struct WorkerPipes {
    pub stdin: bool,
    pub stdout: bool,
}

/// What a container that starts is waiting for; `P` is a permit for a container.
pub enum Startup<P> {
    /// A permit.
    Permit,
    /// The worker process.
    Worker { permit: P },
    /// The manifest.
    Manifest { permit: P },
    /// Nothing: the container is ready, or it never will be.
    Over,
}

/// What happens to a container that starts.
pub enum StartupEvent<P> {
    /// There is a permit, or it was refused.
    Permitted(Result<P, ResourceError>),
    /// The worker process was started, or it was not.
    WorkerSpawned(Result<WorkerPipes, OutsideError>),
    /// The worker has sent the manifest, or it has not.
    ManifestRead(Result<ReadFileResponse, CommanderError>),
}

/// What is to be done for a container that starts.
pub enum StartupAction<P> {
    /// Start the worker process.
    SpawnWorker,
    /// Read and write the pipes of the worker, and ask it for the manifest.
    ReadManifest(ReadFileRequest),
    /// The container is ready, and it keeps its permit.
    Ready { permit: P, cargo_toml: ModifyCargoToml },
    /// Give up; the permit, if there is one, goes back.
    Fail(Error),
}

impl<P> Startup<P> {
    /// The permit of the container, if it has one.
    pub open spec fn held(self) -> Option<P> {
        match self {
            Startup::Worker { permit } => Some(permit),
            Startup::Manifest { permit } => Some(permit),
            _ => None,
        }
    }

    /// Whether `event` can happen now.
    pub open spec fn expects(self, event: StartupEvent<P>) -> bool {
        match self {
            Startup::Permit => event is Permitted,
            Startup::Worker { .. } => event is WorkerSpawned,
            Startup::Manifest { .. } => event is ManifestRead,
            Startup::Over => false,
        }
    }

    /// What the container waits for after `event`.
    pub open spec fn after(self, event: StartupEvent<P>) -> Startup<P> {
        match (self, event) {
            (Startup::Permit, StartupEvent::Permitted(Ok(permit))) => Startup::Worker { permit },
            (Startup::Worker { permit }, StartupEvent::WorkerSpawned(Ok(pipes))) => {
                if pipes.stdin && pipes.stdout {
                    Startup::Manifest { permit }
                } else {
                    Startup::Over
                }
            },
            _ => Startup::Over,
        }
    }

    /// `action` is what is to be done when `event`, which can happen, happens.
    pub open spec fn reaction(self, event: StartupEvent<P>, action: StartupAction<P>) -> bool {
        match event {
            StartupEvent::Permitted(Ok(_)) => action is SpawnWorker,
            StartupEvent::Permitted(Err(source)) => action == StartupAction::<P>::Fail(
                Error::AcquirePermit { source },
            ),
            StartupEvent::WorkerSpawned(Err(source)) => action == StartupAction::<P>::Fail(
                Error::SpawnWorker { source },
            ),
            StartupEvent::WorkerSpawned(Ok(pipes)) => if !pipes.stdin {
                action == StartupAction::<P>::Fail(Error::WorkerStdinCapture)
            } else if !pipes.stdout {
                action == StartupAction::<P>::Fail(Error::WorkerStdoutCapture)
            } else {
                action matches StartupAction::ReadManifest(read) && read.path@
                    == ModifyCargoToml::PATH@
            },
            StartupEvent::ManifestRead(reply) => match action {
                StartupAction::Ready { permit, cargo_toml } => {
                    &&& self.held() == Some(permit)
                    &&& manifest::read_from(reply, Ok(cargo_toml))
                },
                StartupAction::Fail(Error::CouldNotLoadCargoToml { source }) => {
                    manifest::read_from(reply, Err(source))
                },
                _ => false,
            },
        }
    }

    /// A container that is to start. It first needs a permit.
    pub fn new() -> (startup: Startup<P>)
        ensures
            startup is Permit,
    {
        Startup::Permit
    }

    /// The permit of the container, if it has one.
    pub fn permit(&self) -> (permit: Option<&P>)
        ensures
            permit == match self.held() {
                Some(permit) => Some(&permit),
                None => None,
            },
    {
        match self {
            Startup::Worker { permit } => Some(permit),
            Startup::Manifest { permit } => Some(permit),
            _ => None,
        }
    }

    /// Takes an event and says what is to be done.
    pub fn advance(self, event: StartupEvent<P>) -> (r: (Startup<P>, StartupAction<P>))
        requires
            self.expects(event),
        ensures
            r.0 == self.after(event),
            self.reaction(event, r.1),
    {
        match (self, event) {
            (Startup::Permit, StartupEvent::Permitted(permit)) => match permit {
                Ok(permit) => (Startup::Worker { permit }, StartupAction::SpawnWorker),
                Err(source) => (
                    Startup::Over,
                    StartupAction::Fail(Error::AcquirePermit { source }),
                ),
            },
            (Startup::Worker { permit }, StartupEvent::WorkerSpawned(spawned)) => match spawned {
                Err(source) => (Startup::Over, StartupAction::Fail(Error::SpawnWorker { source })),
                Ok(pipes) => {
                    if !pipes.stdin {
                        (Startup::Over, StartupAction::Fail(Error::WorkerStdinCapture))
                    } else if !pipes.stdout {
                        (Startup::Over, StartupAction::Fail(Error::WorkerStdoutCapture))
                    } else {
                        (
                            Startup::Manifest { permit },
                            StartupAction::ReadManifest(ModifyCargoToml::read_request()),
                        )
                    }
                },
            },
            (Startup::Manifest { permit }, StartupEvent::ManifestRead(reply)) => {
                match ModifyCargoToml::read(reply) {
                    Ok(cargo_toml) => (Startup::Over, StartupAction::Ready { permit, cargo_toml }),
                    Err(source) => (
                        Startup::Over,
                        StartupAction::Fail(Error::CouldNotLoadCargoToml { source }),
                    ),
                }
            },
            (_, _) => vstd::pervasive::unreached(),
        }
    }
}

/// What a container waits for after all of `events`, one after another.
pub open spec fn startup_after<P>(events: Seq<StartupEvent<P>>) -> Startup<P>
    decreases events.len(),
{
    if events.len() == 0 {
        Startup::Permit
    } else {
        startup_after(events.drop_last()).after(events.last())
    }
}

/// A container has its worker started only when it has been given a permit, and it
/// asks for the manifest only when that worker has both pipes; all the while it
/// holds the permit that it was given.
pub proof fn startup_is_in_order<P>(events: Seq<StartupEvent<P>>)
    ensures
        match startup_after(events) {
            Startup::Permit => events.len() == 0,
            Startup::Worker { permit } => {
                &&& events.len() == 1
                &&& events[0] == StartupEvent::<P>::Permitted(Ok(permit))
            },
            Startup::Manifest { permit } => {
                &&& events.len() == 2
                &&& events[0] == StartupEvent::<P>::Permitted(Ok(permit))
                &&& events[1] matches StartupEvent::WorkerSpawned(Ok(pipes))
                &&& pipes.stdin
                &&& pipes.stdout
            },
            Startup::Over => true,
        },
    decreases events.len(),
{
    if events.len() > 0 {
        startup_is_in_order(events.drop_last());
        assert(events[events.len() - 1] == events.last());
        assert(events.len() > 1 ==> events[0] == events.drop_last()[0]);
    }
}

/// Which parts of a running container have ended.
pub struct ContainerTask {
    child: bool,
    demultiplexer: bool,
    io_queue: bool,
}

/// Which parts of a running container have ended.
pub ghost struct Ended {
    pub child: bool,
    pub demultiplexer: bool,
    pub io_queue: bool,
}

/// The end of a part of a running container.
#[derive(Debug, PartialEq, Eq)]
pub enum TaskEvent {
    /// The worker process exited, or waiting for it failed.
    ChildExited(Result<(), OutsideError>),
    /// The demultiplexer ended, or its task panicked.
    DemultiplexerEnded(Result<Result<(), CommanderError>, OutsideError>),
    /// The first of the tasks at the pipes ended, or it panicked; or there was
    /// no such task.
    IoQueueEnded(Option<Result<Result<(), Error>, OutsideError>>),
}

/// What is to be done when a part of a running container has ended.
#[derive(Debug, PartialEq, Eq)]
pub enum TaskAction {
    /// Wait for the other parts.
    Wait,
    /// The container has ended.
    End(Result<(), Error>),
}

impl TaskEvent {
    /// The error that the event ends the container with, if it does.
    pub open spec fn failure(self) -> Option<Error> {
        match self {
            TaskEvent::ChildExited(_) => None,
            TaskEvent::DemultiplexerEnded(Err(source)) => Some(
                Error::DemultiplexerTaskPanicked { source },
            ),
            TaskEvent::DemultiplexerEnded(Ok(Err(source))) => Some(
                Error::DemultiplexerTaskFailed { source },
            ),
            TaskEvent::DemultiplexerEnded(Ok(Ok(_))) => None,
            TaskEvent::IoQueueEnded(Some(Err(source))) => Some(Error::IoQueuePanicked { source }),
            TaskEvent::IoQueueEnded(Some(Ok(Err(error)))) => Some(error),
            TaskEvent::IoQueueEnded(Some(Ok(Ok(_)))) => None,
            TaskEvent::IoQueueEnded(None) => None,
        }
    }

    /// The two events are the ends of one and the same part.
    pub open spec fn same_part(self, other: TaskEvent) -> bool {
        match self {
            TaskEvent::ChildExited(_) => other is ChildExited,
            TaskEvent::DemultiplexerEnded(_) => other is DemultiplexerEnded,
            TaskEvent::IoQueueEnded(_) => other is IoQueueEnded,
        }
    }
}

impl Ended {
    /// All parts run.
    pub open spec fn nothing() -> Ended {
        Ended { child: false, demultiplexer: false, io_queue: false }
    }

    /// All parts have ended.
    pub open spec fn all(self) -> bool {
        self.child && self.demultiplexer && self.io_queue
    }

    /// Whether `event` can happen now.
    pub open spec fn expects(self, event: TaskEvent) -> bool {
        match event {
            TaskEvent::ChildExited(_) => !self.child,
            TaskEvent::DemultiplexerEnded(_) => !self.demultiplexer,
            TaskEvent::IoQueueEnded(_) => !self.io_queue,
        }
    }

    /// What has ended after `event`.
    pub open spec fn after(self, event: TaskEvent) -> Ended {
        match event {
            TaskEvent::ChildExited(_) => Ended { child: true, ..self },
            TaskEvent::DemultiplexerEnded(_) => Ended { demultiplexer: true, ..self },
            TaskEvent::IoQueueEnded(_) => Ended { io_queue: true, ..self },
        }
    }

    /// What is to be done when `event` happens: the container ends with the
    /// first failure, or when all parts have ended.
    pub open spec fn reaction(self, event: TaskEvent) -> TaskAction {
        match event.failure() {
            Some(error) => TaskAction::End(Err(error)),
            None => if self.after(event).all() {
                TaskAction::End(Ok(()))
            } else {
                TaskAction::Wait
            },
        }
    }
}

impl View for ContainerTask {
    type V = Ended;

    closed spec fn view(&self) -> Ended {
        Ended {
            child: self.child,
            demultiplexer: self.demultiplexer,
            io_queue: self.io_queue,
        }
    }
}

impl ContainerTask {
    /// All parts run.
    pub fn new() -> (task: ContainerTask)
        ensures
            task@ == Ended::nothing(),
    {
        ContainerTask { child: false, demultiplexer: false, io_queue: false }
    }

    /// Takes the end of a part and says what is to be done.
    pub fn advance(&mut self, event: TaskEvent) -> (action: TaskAction)
        requires
            old(self)@.expects(event),
        ensures
            final(self)@ == old(self)@.after(event),
            action == old(self)@.reaction(event),
    {
        match event {
            TaskEvent::ChildExited(_) => {
                self.child = true;
            },
            TaskEvent::DemultiplexerEnded(ended) => {
                self.demultiplexer = true;
                match ended {
                    Err(source) => {
                        return TaskAction::End(Err(Error::DemultiplexerTaskPanicked { source }));
                    },
                    Ok(Err(source)) => {
                        return TaskAction::End(Err(Error::DemultiplexerTaskFailed { source }));
                    },
                    Ok(Ok(_)) => {},
                }
            },
            TaskEvent::IoQueueEnded(ended) => {
                self.io_queue = true;
                match ended {
                    Some(Err(source)) => {
                        return TaskAction::End(Err(Error::IoQueuePanicked { source }));
                    },
                    Some(Ok(Err(error))) => {
                        return TaskAction::End(Err(error));
                    },
                    Some(Ok(Ok(_))) => {},
                    None => {},
                }
            },
        }
        if self.child && self.demultiplexer && self.io_queue {
            TaskAction::End(Ok(()))
        } else {
            TaskAction::Wait
        }
    }
}

/// What has ended after all of `events`.
pub open spec fn ended_after(events: Seq<TaskEvent>) -> Ended
    decreases events.len(),
{
    if events.len() == 0 {
        Ended::nothing()
    } else {
        ended_after(events.drop_last()).after(events.last())
    }
}

/// How a container ends of which `events` happen, one after another; `None`
/// where it has not ended.
pub open spec fn task_outcome(events: Seq<TaskEvent>) -> Option<Result<(), Error>>
    decreases events.len(),
{
    if events.len() == 0 {
        None
    } else {
        match task_outcome(events.drop_last()) {
            Some(outcome) => Some(outcome),
            None => match ended_after(events.drop_last()).reaction(events.last()) {
                TaskAction::End(outcome) => Some(outcome),
                TaskAction::Wait => None,
            },
        }
    }
}

/// No part ends twice.
pub open spec fn each_part_once(events: Seq<TaskEvent>) -> bool {
    forall|i: int, j: int|
        0 <= i < j < events.len() ==> !(#[trigger] events[i]).same_part(#[trigger] events[j])
}

/// No event is a failure.
pub open spec fn no_failures(events: Seq<TaskEvent>) -> bool {
    forall|i: int| 0 <= i < events.len() ==> (#[trigger] events[i]).failure() is None
}

proof fn lemma_ended(events: Seq<TaskEvent>)
    ensures
        ended_after(events).child <==> exists|i: int|
            0 <= i < events.len() && #[trigger] events[i] is ChildExited,
        ended_after(events).demultiplexer <==> exists|i: int|
            0 <= i < events.len() && #[trigger] events[i] is DemultiplexerEnded,
        ended_after(events).io_queue <==> exists|i: int|
            0 <= i < events.len() && #[trigger] events[i] is IoQueueEnded,
    decreases events.len(),
{
    if events.len() > 0 {
        let before = events.drop_last();
        lemma_ended(before);
        assert(events[events.len() - 1] == events.last());
        assert forall|i: int| 0 <= i < before.len() implies #[trigger] events[i] == before[i] by {}
        if ended_after(before).child {
            let i = choose|i: int| 0 <= i < before.len() && #[trigger] before[i] is ChildExited;
            assert(events[i] is ChildExited);
        }
        if ended_after(before).demultiplexer {
            let i = choose|i: int|
                0 <= i < before.len() && #[trigger] before[i] is DemultiplexerEnded;
            assert(events[i] is DemultiplexerEnded);
        }
        if ended_after(before).io_queue {
            let i = choose|i: int| 0 <= i < before.len() && #[trigger] before[i] is IoQueueEnded;
            assert(events[i] is IoQueueEnded);
        }
    }
}

proof fn lemma_not_ended(events: Seq<TaskEvent>, next: TaskEvent)
    requires
        each_part_once(events.push(next)),
    ensures
        !ended_after(events).all(),
        ended_after(events).expects(next),
{
    lemma_ended(events);
    let all = events.push(next);
    assert forall|i: int| 0 <= i < events.len() implies !(#[trigger] events[i]).same_part(
        next,
    ) by {
        assert(all[i] == events[i] && all[events.len() as int] == next);
    }
}

/// A container in which nothing fails ends well, when all of its parts have
/// ended and not before.
pub proof fn container_lasts_until_all_parts_end(events: Seq<TaskEvent>)
    requires
        each_part_once(events),
        no_failures(events),
    ensures
        ended_after(events).all() ==> task_outcome(events) == Some(Ok::<(), Error>(())),
        !ended_after(events).all() ==> task_outcome(events) is None,
    decreases events.len(),
{
    if events.len() > 0 {
        let before = events.drop_last();
        assert(before.push(events.last()) =~= events);
        assert forall|i: int| 0 <= i < before.len() implies (#[trigger] before[i]).failure()
            is None by {
            assert(before[i] == events[i]);
        }
        assert(each_part_once(before));
        container_lasts_until_all_parts_end(before);
        lemma_not_ended(before, events.last());
        assert(events[events.len() - 1].failure() is None);
    }
}

/// The first failure in a container is what the container ends with, whatever
/// happens after it; the exit of the worker process is no failure.
pub proof fn container_ends_with_the_first_failure(events: Seq<TaskEvent>, first: int)
    requires
        each_part_once(events),
        0 <= first < events.len(),
        events[first].failure() is Some,
        no_failures(events.take(first)),
    ensures
        task_outcome(events) == Some(Err::<(), Error>(events[first].failure()->0)),
        events[first] !is ChildExited,
    decreases events.len(),
{
    let before = events.drop_last();
    if first == events.len() - 1 {
        assert(before =~= events.take(first));
        assert(each_part_once(before));
        assert(before.push(events.last()) =~= events);
        lemma_not_ended(before, events.last());
        container_lasts_until_all_parts_end(before);
    } else {
        assert(before.take(first) =~= events.take(first));
        assert(before[first] == events[first]);
        assert(each_part_once(before));
        container_ends_with_the_first_failure(before, first);
    }
}

/// What is to be done after a container that shuts down was killed.
#[derive(Debug, PartialEq, Eq)]
pub enum ShutdownAction {
    /// Wait for the container to end.
    AwaitTask,
    /// The container was not killed.
    Fail(Error),
}

/// Takes how the kill of a container that shuts down went, and says what is to
/// be done.
pub fn killed(kill: Result<(), TerminateContainerError>) -> (action: ShutdownAction)
    ensures
        action == match kill {
            Ok(_) => ShutdownAction::AwaitTask,
            Err(source) => ShutdownAction::Fail(Error::KillWorker { source }),
        },
{
    match kill {
        Ok(_) => ShutdownAction::AwaitTask,
        Err(source) => ShutdownAction::Fail(Error::KillWorker { source }),
    }
}

/// How the shutdown of a container ends whose task ended with `task`, or
/// panicked.
pub fn shut_down(task: Result<Result<(), Error>, OutsideError>) -> (r: Result<(), Error>)
    ensures
        r == match task {
            Ok(outcome) => outcome,
            Err(source) => Err(Error::ContainerTaskPanicked { source }),
        },
{
    match task {
        Ok(outcome) => outcome,
        Err(source) => Err(Error::ContainerTaskPanicked { source }),
    }
}

/// A container that is given a permit has its worker started; a worker with both pipes is
/// asked for the manifest; and a manifest that is UTF-8 and TOML makes the container
/// ready, with the permit that it was given and with exactly what that file describes.
pub proof fn permitted_container_gets_ready<P>(
    permit: P,
    pipes: WorkerPipes,
    file: ReadFileResponse,
    first: StartupAction<P>,
    second: StartupAction<P>,
    third: StartupAction<P>,
)
    requires
        pipes.stdin,
        pipes.stdout,
        vstd::utf8::valid_utf8(file.0@),
        manifest::toml_parsed(vstd::utf8::decode_utf8(file.0@)) is Some,
        ({
            let given = StartupEvent::<P>::Permitted(Ok(permit));
            let spawned = StartupEvent::<P>::WorkerSpawned(Ok(pipes));
            let read = StartupEvent::<P>::ManifestRead(Ok(file));
            let starting = Startup::<P>::Permit.after(given);
            let reading = starting.after(spawned);
            &&& Startup::<P>::Permit.reaction(given, first)
            &&& starting.reaction(spawned, second)
            &&& reading.reaction(read, third)
        }),
    ensures
        ({
            let given = StartupEvent::<P>::Permitted(Ok(permit));
            let spawned = StartupEvent::<P>::WorkerSpawned(Ok(pipes));
            let read = StartupEvent::<P>::ManifestRead(Ok(file));
            let starting = Startup::<P>::Permit.after(given);
            let reading = starting.after(spawned);
            &&& Startup::<P>::Permit.expects(given) && starting.expects(spawned)
                && reading.expects(read)
            &&& first is SpawnWorker
            &&& second matches StartupAction::ReadManifest(asked)
            &&& asked.path@ == "Cargo.toml"@
            &&& third matches StartupAction::Ready { permit: kept, cargo_toml }
            &&& kept == permit
            &&& manifest::toml_parsed(vstd::utf8::decode_utf8(file.0@)) == Some(cargo_toml@)
            &&& reading.after(read) is Over
        }),
{
}

/// A container that does not get ready tells why: the permit was refused, the worker was
/// not started, a pipe of it is missing, or its manifest could not be had. Then it waits
/// for nothing more.
pub proof fn failed_start_is_told<P>(
    permit: P,
    refusal: ResourceError,
    spawn: OutsideError,
    pipes: WorkerPipes,
    reply: Result<ReadFileResponse, CommanderError>,
    action: StartupAction<P>,
)
    ensures
        ({
            let refused = StartupEvent::<P>::Permitted(Err(refusal));
            let unspawned = StartupEvent::<P>::WorkerSpawned(Err(spawn));
            let spawned = StartupEvent::<P>::WorkerSpawned(Ok(pipes));
            let read = StartupEvent::<P>::ManifestRead(reply);
            let starting = Startup::<P>::Worker { permit };
            let reading = Startup::<P>::Manifest { permit };
            &&& Startup::<P>::Permit.reaction(refused, action) ==> action
                == StartupAction::<P>::Fail(Error::AcquirePermit { source: refusal })
            &&& Startup::<P>::Permit.after(refused) is Over
            &&& starting.reaction(unspawned, action) ==> action == StartupAction::<P>::Fail(
                Error::SpawnWorker { source: spawn },
            )
            &&& starting.after(unspawned) is Over
            &&& !pipes.stdin ==> {
                &&& starting.reaction(spawned, action) ==> action == StartupAction::<P>::Fail(
                    Error::WorkerStdinCapture,
                )
                &&& starting.after(spawned) is Over
            }
            &&& pipes.stdin && !pipes.stdout ==> {
                &&& starting.reaction(spawned, action) ==> action == StartupAction::<P>::Fail(
                    Error::WorkerStdoutCapture,
                )
                &&& starting.after(spawned) is Over
            }
            &&& reading.reaction(read, action) ==> match reply {
                Err(source) => action matches StartupAction::Fail(
                    Error::CouldNotLoadCargoToml {
                        source: manifest::ModifyCargoTomlError::CouldNotRead { source: told },
                    },
                ) && told == source,
                Ok(file) => {
                    let text = vstd::utf8::decode_utf8(file.0@);
                    &&& !vstd::utf8::valid_utf8(file.0@) ==> (action matches StartupAction::Fail(
                        Error::CouldNotLoadCargoToml {
                            source: manifest::ModifyCargoTomlError::InvalidUtf8 { .. },
                        },
                    ))
                    &&& vstd::utf8::valid_utf8(file.0@) && manifest::toml_parsed(text) is None
                        ==> (action matches StartupAction::Fail(
                        Error::CouldNotLoadCargoToml {
                            source: manifest::ModifyCargoTomlError::CouldNotDeserialize { .. },
                        },
                    ))
                },
            }
            &&& reading.after(read) is Over
        }),
{
}

/// The permit that a container holds while it starts is the one that it was given.
pub proof fn starting_container_holds_its_permit<P>(permit: P)
    ensures
        Startup::<P>::Permit.held() is None,
        (Startup::<P>::Worker { permit }).held() == Some(permit),
        (Startup::<P>::Manifest { permit }).held() == Some(permit),
        Startup::<P>::Over.held() is None,
{
}

/// The end of a part of a container is a failure exactly when a task panicked or ended
/// with an error, and the failure then holds that error. How the worker process exited
/// does not matter.
pub proof fn failures_are_told_apart(event: TaskEvent)
    ensures
        match event {
            TaskEvent::ChildExited(_) => event.failure() is None,
            TaskEvent::DemultiplexerEnded(Ok(Ok(_))) => event.failure() is None,
            TaskEvent::DemultiplexerEnded(Ok(Err(source))) => event.failure() == Some(
                Error::DemultiplexerTaskFailed { source },
            ),
            TaskEvent::DemultiplexerEnded(Err(source)) => event.failure() == Some(
                Error::DemultiplexerTaskPanicked { source },
            ),
            TaskEvent::IoQueueEnded(None) => event.failure() is None,
            TaskEvent::IoQueueEnded(Some(Ok(Ok(_)))) => event.failure() is None,
            TaskEvent::IoQueueEnded(Some(Ok(Err(error)))) => event.failure() == Some(error),
            TaskEvent::IoQueueEnded(Some(Err(source))) => event.failure() == Some(
                Error::IoQueuePanicked { source },
            ),
        },
{
}

/// A container in which nothing fails has ended exactly when the worker process has exited,
/// the demultiplexer has ended and the first task at the pipes has ended, in whichever
/// order.
pub proof fn all_three_parts_end(events: Seq<TaskEvent>)
    requires
        each_part_once(events),
        no_failures(events),
    ensures
        task_outcome(events) is Some <==> {
            &&& exists|i: int| 0 <= i < events.len() && #[trigger] events[i] is ChildExited
            &&& exists|i: int| 0 <= i < events.len() && #[trigger] events[i] is DemultiplexerEnded
            &&& exists|i: int| 0 <= i < events.len() && #[trigger] events[i] is IoQueueEnded
        },
        task_outcome(events) matches Some(outcome) ==> outcome is Ok,
{
    container_lasts_until_all_parts_end(events);
    lemma_ended(events);
}

/// A container that shuts down ends as its task ended, once it was killed; where it was not
/// killed, or its task panicked, that is told with its cause.
pub proof fn shutdown_ends_as_the_task_ended(
    kill: Result<(), TerminateContainerError>,
    action: ShutdownAction,
    task: Result<Result<(), Error>, OutsideError>,
    r: Result<(), Error>,
)
    requires
        call_ensures(killed, (kill,), action),
        call_ensures(shut_down, (task,), r),
    ensures
        kill is Ok <==> action is AwaitTask,
        kill matches Err(source) ==> action == ShutdownAction::Fail(Error::KillWorker { source }),
        task matches Ok(outcome) ==> r == outcome,
        task matches Err(source) ==> r == Err::<(), Error>(Error::ContainerTaskPanicked { source }),
{
}

/// A container that starts, and one that runs, do what is said of them here at every event.
pub proof fn containers_do_as_stated<P>(
    startup: Startup<P>,
    event: StartupEvent<P>,
    step: (Startup<P>, StartupAction<P>),
    task: &mut ContainerTask,
    end: TaskEvent,
    action: TaskAction,
)
    requires
        call_ensures(Startup::<P>::advance, (startup, event), step),
        call_ensures(ContainerTask::advance, (task, end), action),
    ensures
        step.0 == startup.after(event),
        startup.reaction(event, step.1),
        final(task)@ == old(task)@.after(end),
        action == old(task)@.reaction(end),
{
}

} // verus!
