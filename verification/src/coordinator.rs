//! Runs the tools of the toolchain inside containers.
use crate::coordinator::compilation::CompileResponse;
use crate::coordinator::crates::Crate;
use crate::coordinator::error::{CompileError, ContainerCratesError, CratesError, Error};
use crate::coordinator::output::WithOutput;
use vstd::prelude::*;

pub mod cargo_task;
pub mod commander;
pub mod compilation;
pub mod container;
pub mod crates;
pub mod demultiplexer;
pub mod docker;
pub mod error;
pub mod fleet;
pub mod io_queue;
pub mod manifest;
pub mod message;
pub mod output;
pub mod request;
pub mod tracking;
pub mod version;

verus! {

/// A model of how references may alias.
#[derive(Debug, Copy, Clone, PartialEq, Eq)]
pub enum AliasingModel {
    Stacked,
    Tree,
}

/// Makes coordinators that share the resource limits `L`.
#[derive(Debug)]
pub struct CoordinatorFactory<L> {
    limits: L,
}

/// Runs things in a container `C` of its own, which it starts when it is first
/// needed and for which it keeps the permit `P`. `L` are the resource limits, `B` is
/// the backend that runs containers, and the cancellation of `T` ends what runs.
#[derive(Debug)]
pub struct Coordinator<L, B, P, C, T> {
    limits: L,
    backend: B,
    stable: Option<(P, C)>,
    token: T,
}

/// Where a coordinator has its container from.
#[derive(Debug)]
pub enum Stable<'a, L, B, P, C, T> {
    /// It runs, under this permit.
    Running { permit: &'a P, container: &'a C },
    /// It is to be started: with a permit of these limits, by this backend, until
    /// this token is cancelled.
    Start { limits: &'a L, backend: &'a B, token: &'a T },
}

/// What a coordinator holds.
pub ghost struct Coordinating<L, B, P, C, T> {
    pub limits: L,
    pub backend: B,
    pub stable: Option<(P, C)>,
    pub token: T,
}

impl<L, B, P, C, T> Coordinating<L, B, P, C, T> {
    /// A coordinator that has no container.
    pub open spec fn fresh(limits: L, backend: B, token: T) -> Coordinating<L, B, P, C, T> {
        Coordinating { limits, backend, stable: None, token }
    }

    /// The coordinator after it was told whether a container was started.
    pub open spec fn started(self, container: Result<(P, C), Error>) -> Coordinating<L, B, P, C, T> {
        match container {
            Ok(container) => Coordinating { stable: Some(container), ..self },
            Err(_) => self,
        }
    }

    /// The coordinator after it has given its container up.
    pub open spec fn idled(self, token: T) -> Coordinating<L, B, P, C, T> {
        Coordinating { stable: None, token, ..self }
    }
}

impl<L> View for CoordinatorFactory<L> {
    type V = L;

    closed spec fn view(&self) -> L {
        self.limits
    }
}

impl<L, B, P, C, T> View for Coordinator<L, B, P, C, T> {
    type V = Coordinating<L, B, P, C, T>;

    closed spec fn view(&self) -> Coordinating<L, B, P, C, T> {
        Coordinating {
            limits: self.limits,
            backend: self.backend,
            stable: self.stable,
            token: self.token,
        }
    }
}

impl<L> CoordinatorFactory<L> {
    /// Makes coordinators that share `limits`.
    pub fn new(limits: L) -> (factory: CoordinatorFactory<L>)
        ensures
            factory@ == limits,
    {
        CoordinatorFactory { limits }
    }

    /// The limits that the coordinators share.
    pub fn limits(&self) -> (limits: &L)
        ensures
            *limits == self@,
    {
        &self.limits
    }

    /// A coordinator without a container, with the backend's default.
    pub fn build<B: Default, P, C, T>(&self, token: T) -> (coordinator: Coordinator<L, B, P, C, T>) where
        L: Clone,

        ensures
            cloned(self@, coordinator@.limits),
            call_ensures(B::default, (), coordinator@.backend),
            coordinator@ == Coordinating::<L, B, P, C, T>::fresh(
                coordinator@.limits,
                coordinator@.backend,
                token,
            ),
    {
        let limits: L = self.limits.clone();
        let backend: B = B::default();
        Coordinator::new(limits, backend, token)
    }
}

impl<L, B, P, C, T> Coordinator<L, B, P, C, T> {
    /// A coordinator without a container.
    pub fn new(limits: L, backend: B, token: T) -> (coordinator: Coordinator<L, B, P, C, T>)
        ensures
            coordinator@ == Coordinating::<L, B, P, C, T>::fresh(limits, backend, token),
    {
        Coordinator { limits, backend, stable: None, token }
    }

    /// The container, if it has been started; else what one is to be started with.
    pub fn start_stable(&self) -> (stable: Stable<'_, L, B, P, C, T>)
        ensures
            match stable {
                Stable::Running { permit, container } => self@.stable == Some(
                    (*permit, *container),
                ),
                Stable::Start { limits, backend, token } => {
                    &&& self@.stable is None
                    &&& *limits == self@.limits
                    &&& *backend == self@.backend
                    &&& *token == self@.token
                },
            },
    {
        match &self.stable {
            Some((permit, container)) => Stable::Running { permit, container },
            None => Stable::Start {
                limits: &self.limits,
                backend: &self.backend,
                token: &self.token,
            },
        }
    }

    /// Takes the container that was to be started, and its permit; where that
    /// failed, the next attempt starts anew.
    pub fn container_started(&mut self, container: Result<(P, C), Error>) -> (r: Result<(), Error>)
        requires
            old(self)@.stable is None,
        ensures
            final(self)@ == old(self)@.started(container),
            r == match container {
                Ok(_) => Ok::<(), Error>(()),
                Err(error) => Err(error),
            },
    {
        match container {
            Ok(container) => {
                self.stable = Some(container);
                Ok(())
            },
            Err(error) => Err(error),
        }
    }

    /// What the answer of the container, or the lack of a container, means for
    /// the question for the crates.
    pub fn crates(container: Result<Result<Vec<Crate>, ContainerCratesError>, Error>) -> (r: Result<
        Vec<Crate>,
        CratesError,
    >)
        ensures
            r == match container {
                Ok(Ok(crates)) => Ok::<Vec<Crate>, CratesError>(crates),
                Ok(Err(source)) => Err(CratesError::Container { source }),
                Err(source) => Err(CratesError::Start { source }),
            },
    {
        match container {
            Ok(Ok(crates)) => Ok(crates),
            Ok(Err(source)) => Err(CratesError::Container { source }),
            Err(source) => Err(CratesError::Start { source }),
        }
    }

    /// What the answer of the container, or the lack of a container, means for a
    /// compilation.
    pub fn compile(
        container: Result<Result<WithOutput<CompileResponse>, CompileError>, Error>,
    ) -> (r: Result<WithOutput<CompileResponse>, CompileError>)
        ensures
            r == match container {
                Ok(answer) => answer,
                Err(source) => Err(CompileError::CouldNotStartContainer { source }),
            },
    {
        Self::begin_compile(container)
    }

    /// What the answer `A` of the container, or the lack of a container, means
    /// for a compilation that begins.
    pub fn begin_compile<A>(container: Result<Result<A, CompileError>, Error>) -> (r: Result<
        A,
        CompileError,
    >)
        ensures
            r == match container {
                Ok(answer) => answer,
                Err(source) => Err(CompileError::CouldNotStartContainer { source }),
            },
    {
        match container {
            Ok(answer) => answer,
            Err(source) => Err(CompileError::CouldNotStartContainer { source }),
        }
    }

    /// Gives the container up. Returns the token that is to be cancelled and the
    /// container that is to be shut down, with the permit that goes back then;
    /// `fresh` is the token from now on.
    pub fn idle(&mut self, fresh: T) -> (r: (T, Option<(P, C)>))
        ensures
            final(self)@ == old(self)@.idled(fresh),
            r.0 == old(self)@.token,
            r.1 == old(self)@.stable,
    {
        let mut token: T = fresh;
        std::mem::swap(&mut token, &mut self.token);
        (token, self.stable.take())
    }

    /// What the shutdown of the container that was given up, if there was one,
    /// means for the coordinator.
    pub fn idled(shutdown: Option<Result<(), Error>>) -> (r: Result<(), Error>)
        ensures
            r == match shutdown {
                Some(outcome) => outcome,
                None => Ok(()),
            },
    {
        match shutdown {
            Some(outcome) => outcome,
            None => Ok(()),
        }
    }

    /// Gives the backend back when the coordinator has become idle.
    pub fn shutdown(self, idle: Result<(), Error>) -> (r: Result<B, Error>)
        ensures
            r == match idle {
                Ok(_) => Ok::<B, Error>(self@.backend),
                Err(error) => Err(error),
            },
    {
        match idle {
            Ok(_) => Ok(self.backend),
            Err(error) => Err(error),
        }
    }
}

/// A coordinator that has become idle is as good as a new one: it keeps its
/// limits and its backend, and it starts another container when one is needed.
pub proof fn still_usable_after_idle<L, B, P, C, T>(
    before: Coordinating<L, B, P, C, T>,
    fresh: T,
    permit: P,
    container: C,
)
    ensures
        before.idled(fresh) == Coordinating::<L, B, P, C, T>::fresh(
            before.limits,
            before.backend,
            fresh,
        ),
        before.idled(fresh).started(Ok((permit, container))).stable == Some((permit, container)),
{
}

/// A coordinator whose container could not be started is as it was before.
pub proof fn failed_start_changes_nothing<L, B, P, C, T>(
    before: Coordinating<L, B, P, C, T>,
    error: Error,
)
    ensures
        before.started(Err(error)) == before,
{
}

/// A coordinator keeps its limits, its backend and its token when its container has been
/// started, and the container is then the one that was started, under its permit. When it
/// becomes idle it keeps its limits and its backend, has no container, and has the fresh
/// token. A new coordinator has what it was made with and no container.
pub proof fn coordinator_keeps_what_it_was_made_with<L, B, P, C, T>(
    before: Coordinating<L, B, P, C, T>,
    limits: L,
    backend: B,
    token: T,
    permit: P,
    container: C,
)
    ensures
        ({
            let new = Coordinating::<L, B, P, C, T>::fresh(limits, backend, token);
            let started = before.started(Ok((permit, container)));
            let idle = before.idled(token);
            &&& new.limits == limits && new.backend == backend && new.token == token
            &&& new.stable is None
            &&& started.limits == before.limits && started.backend == before.backend
            &&& started.token == before.token
            &&& started.stable == Some((permit, container))
            &&& idle.limits == before.limits && idle.backend == before.backend
            &&& idle.token == token
            &&& idle.stable is None
        }),
{
}

/// The answer of a container is passed on as it is, and so is an error; that there is no
/// container is told with its cause.
pub proof fn answers_are_passed_on<L, B, P, C, T>(
    crates: Result<Result<Vec<Crate>, ContainerCratesError>, Error>,
    listed: Result<Vec<Crate>, CratesError>,
    answer: Result<Result<WithOutput<CompileResponse>, CompileError>, Error>,
    compiled: Result<WithOutput<CompileResponse>, CompileError>,
    shutdown: Option<Result<(), Error>>,
    idle: Result<(), Error>,
)
    requires
        call_ensures(Coordinator::<L, B, P, C, T>::crates, (crates,), listed),
        call_ensures(Coordinator::<L, B, P, C, T>::compile, (answer,), compiled),
        call_ensures(Coordinator::<L, B, P, C, T>::idled, (shutdown,), idle),
    ensures
        match crates {
            Ok(Ok(crates)) => listed == Ok::<_, CratesError>(crates),
            Ok(Err(source)) => listed == Err::<Vec<Crate>, _>(CratesError::Container { source }),
            Err(source) => listed == Err::<Vec<Crate>, _>(CratesError::Start { source }),
        },
        answer matches Ok(inner) ==> compiled == inner,
        answer matches Err(source) ==> compiled == Err::<WithOutput<CompileResponse>, _>(
            CompileError::CouldNotStartContainer { source },
        ),
        shutdown matches Some(outcome) ==> idle == outcome,
        shutdown is None ==> idle is Ok,
{
}

/// A coordinator starts at most one container: it runs in the one that was started until it
/// becomes idle. Then it gives up that very container, with its permit, and the token that
/// it had, and is to start another. Its backend comes back when it is shut down.
pub proof fn container_is_started_once_and_given_up_once<L, B, P, C, T>(
    coordinator: Coordinator<L, B, P, C, T>,
    stable: Stable<'_, L, B, P, C, T>,
    starting: &mut Coordinator<L, B, P, C, T>,
    container: Result<(P, C), Error>,
    started: Result<(), Error>,
    idling: &mut Coordinator<L, B, P, C, T>,
    fresh: T,
    given_up: (T, Option<(P, C)>),
    idle: Result<(), Error>,
    backend: Result<B, Error>,
)
    requires
        call_ensures(Coordinator::<L, B, P, C, T>::start_stable, (&coordinator,), stable),
        call_ensures(
            Coordinator::<L, B, P, C, T>::container_started,
            (starting, container),
            started,
        ),
        call_ensures(Coordinator::<L, B, P, C, T>::idle, (idling, fresh), given_up),
        call_ensures(Coordinator::<L, B, P, C, T>::shutdown, (coordinator, idle), backend),
    ensures
        stable is Running <==> coordinator@.stable is Some,
        stable matches Stable::Running { permit, container } ==> coordinator@.stable == Some(
            (*permit, *container),
        ),
        stable matches Stable::Start { limits, backend, token } ==> {
            &&& *limits == coordinator@.limits
            &&& *backend == coordinator@.backend
            &&& *token == coordinator@.token
        },
        match container {
            Ok(container) => {
                &&& started is Ok
                &&& final(starting)@.stable == Some(container)
                &&& final(starting)@.limits == old(starting)@.limits
                &&& final(starting)@.backend == old(starting)@.backend
                &&& final(starting)@.token == old(starting)@.token
            },
            Err(error) => {
                &&& started == Err::<(), Error>(error)
                &&& final(starting)@ == old(starting)@
            },
        },
        given_up.0 == old(idling)@.token,
        given_up.1 == old(idling)@.stable,
        final(idling)@.stable is None,
        final(idling)@.token == fresh,
        final(idling)@.limits == old(idling)@.limits,
        final(idling)@.backend == old(idling)@.backend,
        idle is Ok ==> backend == Ok::<B, Error>(coordinator@.backend),
        idle matches Err(error) ==> backend == Err::<B, Error>(error),
{
}

} // verus!
