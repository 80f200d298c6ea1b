//! A response together with the output that was printed on the way to it.
use vstd::prelude::*;
use vstd::string::StringExecFns;

verus! {

/// A response together with what was printed.
#[derive(Debug, Clone, PartialEq, Eq)]
pub struct WithOutput<T> {
    pub response: T,
    pub stdout: String,
    pub stderr: String,
}

impl<T> std::ops::Deref for WithOutput<T> {
    type Target = T;

    /// The response.
    fn deref(&self) -> (response: &T)
        ensures
            *response == self.response,
    {
        &self.response
    }
}

/// What happens while output is gathered.
#[derive(Debug, PartialEq, Eq)]
pub enum OutputEvent<T, E> {
    /// The task has ended.
    Finished(Result<T, E>),
    /// Output was printed, or there will be none any more.
    Stdout(Option<String>),
    /// Error output was printed, or there will be none any more.
    Stderr(Option<String>),
}

/// What has been gathered.
pub ghost struct Gathered<T> {
    pub response: Option<T>,
    pub stdout: Seq<char>,
    pub stderr: Seq<char>,
    pub stdout_open: bool,
    pub stderr_open: bool,
}

impl<T> Gathered<T> {
    /// Before anything happened.
    pub open spec fn nothing() -> Self {
        Gathered {
            response: None,
            stdout: Seq::empty(),
            stderr: Seq::empty(),
            stdout_open: true,
            stderr_open: true,
        }
    }

    /// Whether all has come.
    pub open spec fn complete(self) -> bool {
        self.response is Some && !self.stdout_open && !self.stderr_open
    }

    /// Whether `event` can happen now.
    pub open spec fn expects<E>(self, event: OutputEvent<T, E>) -> bool {
        match event {
            OutputEvent::Finished(_) => self.response is None,
            OutputEvent::Stdout(_) => self.stdout_open,
            OutputEvent::Stderr(_) => self.stderr_open,
        }
    }

    /// What has been gathered after `event`.
    pub open spec fn after<E>(self, event: OutputEvent<T, E>) -> Self {
        match event {
            OutputEvent::Finished(Ok(response)) => Gathered { response: Some(response), ..self },
            OutputEvent::Finished(Err(_)) => self,
            OutputEvent::Stdout(Some(packet)) => Gathered { stdout: self.stdout + packet@, ..self },
            OutputEvent::Stdout(None) => Gathered { stdout_open: false, ..self },
            OutputEvent::Stderr(Some(packet)) => Gathered { stderr: self.stderr + packet@, ..self },
            OutputEvent::Stderr(None) => Gathered { stderr_open: false, ..self },
        }
    }
}

/// Gathers the output of a task until the task has ended and its output too, or
/// the task has failed.
pub struct Absorption<T> {
    response: Option<T>,
    stdout: String,
    stderr: String,
    stdout_open: bool,
    stderr_open: bool,
}

impl<T> View for Absorption<T> {
    type V = Gathered<T>;

    closed spec fn view(&self) -> Gathered<T> {
        Gathered {
            response: self.response,
            stdout: self.stdout@,
            stderr: self.stderr@,
            stdout_open: self.stdout_open,
            stderr_open: self.stderr_open,
        }
    }
}

impl<T> Absorption<T> {
    /// Nothing has been gathered yet.
    pub fn new() -> (absorption: Self)
        ensures
            absorption@ == Gathered::<T>::nothing(),
    {
        Absorption {
            response: None,
            stdout: String::new(),
            stderr: String::new(),
            stdout_open: true,
            stderr_open: true,
        }
    }

    /// Whether more output can come.
    pub fn stdout_open(&self) -> (open: bool)
        ensures
            open == self@.stdout_open,
    {
        self.stdout_open
    }

    /// Whether more error output can come.
    pub fn stderr_open(&self) -> (open: bool)
        ensures
            open == self@.stderr_open,
    {
        self.stderr_open
    }

    /// Whether the task can still end.
    pub fn task_open(&self) -> (open: bool)
        ensures
            open == (self@.response is None),
    {
        self.response.is_none()
    }

    /// Takes an event. Returns the error of the task at once, and the response
    /// with all output when everything has come; until then it returns the
    /// absorption, which waits for more.
    pub fn absorb<E>(self, event: OutputEvent<T, E>) -> (r: Result<
        Result<WithOutput<T>, E>,
        Absorption<T>,
    >)
        requires
            self@.expects(event),
        ensures
            match event {
                OutputEvent::Finished(Err(error)) => r == Ok::<_, Absorption<T>>(
                    Err::<WithOutput<T>, E>(error),
                ),
                _ => {
                    let now = self@.after(event);
                    if now.complete() {
                        &&& r matches Ok(Ok(all))
                        &&& Some(all.response) == now.response
                        &&& all.stdout@ == now.stdout
                        &&& all.stderr@ == now.stderr
                    } else {
                        r matches Err(waiting) && waiting@ == now
                    }
                },
            },
            r matches Ok(Ok(all)) ==> {
                let now = self@.after(event);
                &&& !now.stdout_open
                &&& !now.stderr_open
                &&& now.response == Some(all.response)
            },
            r matches Ok(Err(error)) ==> event == OutputEvent::<T, E>::Finished(Err(error)),
            r matches Err(waiting) ==> waiting@.stdout_open || waiting@.stderr_open
                || waiting@.response is None,
    {
        let mut now: Absorption<T> = self;
        match event {
            OutputEvent::Finished(Err(error)) => {
                return Ok(Err(error));
            },
            OutputEvent::Finished(Ok(response)) => {
                now.response = Some(response);
            },
            OutputEvent::Stdout(Some(packet)) => {
                now.stdout.append(packet.as_str());
            },
            OutputEvent::Stdout(None) => {
                now.stdout_open = false;
            },
            OutputEvent::Stderr(Some(packet)) => {
                now.stderr.append(packet.as_str());
            },
            OutputEvent::Stderr(None) => {
                now.stderr_open = false;
            },
        }
        if now.stdout_open || now.stderr_open {
            return Err(now);
        }
        match now.response {
            Some(response) => Ok(
                Ok(WithOutput { response, stdout: now.stdout, stderr: now.stderr }),
            ),
            None => Err(now),
        }
    }
}

/// What has been gathered after all of `events`, one after another.
pub open spec fn gathered_after<T, E>(events: Seq<OutputEvent<T, E>>) -> Gathered<T>
    decreases events.len(),
{
    if events.len() == 0 {
        Gathered::nothing()
    } else {
        gathered_after(events.drop_last()).after(events.last())
    }
}

/// The packets of output among `events`, joined in their order.
pub open spec fn printed_stdout<T, E>(events: Seq<OutputEvent<T, E>>) -> Seq<char>
    decreases events.len(),
{
    if events.len() == 0 {
        Seq::empty()
    } else {
        let before = printed_stdout(events.drop_last());
        match events.last() {
            OutputEvent::Stdout(Some(packet)) => before + packet@,
            _ => before,
        }
    }
}

/// The packets of error output among `events`, joined in their order.
pub open spec fn printed_stderr<T, E>(events: Seq<OutputEvent<T, E>>) -> Seq<char>
    decreases events.len(),
{
    if events.len() == 0 {
        Seq::empty()
    } else {
        let before = printed_stderr(events.drop_last());
        match events.last() {
            OutputEvent::Stderr(Some(packet)) => before + packet@,
            _ => before,
        }
    }
}

/// All that was printed is gathered, in its order, however the two kinds of
/// output and the end of the task come after one another.
pub proof fn all_output_is_gathered<T, E>(events: Seq<OutputEvent<T, E>>)
    ensures
        gathered_after(events).stdout == printed_stdout(events),
        gathered_after(events).stderr == printed_stderr(events),
    decreases events.len(),
{
    if events.len() > 0 {
        all_output_is_gathered(events.drop_last());
    }
}

/// Whether `events` can happen, one after another.
pub open spec fn gathering_expects<T, E>(events: Seq<OutputEvent<T, E>>) -> bool
    decreases events.len(),
{
    events.len() > 0 ==> {
        &&& gathering_expects(events.drop_last())
        &&& gathered_after(events.drop_last()).expects(events.last())
    }
}

/// A packet is added, whole, behind what was gathered of its stream before, and
/// changes nothing of the other stream; what else happens adds nothing to either.
pub proof fn packets_are_appended<T, E>(events: Seq<OutputEvent<T, E>>, event: OutputEvent<T, E>)
    ensures
        gathered_after(Seq::<OutputEvent<T, E>>::empty()).stdout == Seq::<char>::empty(),
        gathered_after(Seq::<OutputEvent<T, E>>::empty()).stderr == Seq::<char>::empty(),
        ({
            let before = gathered_after(events);
            let now = gathered_after(events.push(event));
            match event {
                OutputEvent::Stdout(Some(packet)) => {
                    &&& now.stdout == before.stdout + packet@
                    &&& now.stderr == before.stderr
                },
                OutputEvent::Stderr(Some(packet)) => {
                    &&& now.stdout == before.stdout
                    &&& now.stderr == before.stderr + packet@
                },
                _ => now.stdout == before.stdout && now.stderr == before.stderr,
            }
        }),
{
    assert(events.push(event).drop_last() =~= events);
}

/// The end of either stream, and that of the task, is known exactly when it has
/// come; the response is that with which the task ended last.
proof fn lemma_ends<T, E>(events: Seq<OutputEvent<T, E>>)
    ensures
        gathered_after(events).stdout_open <==> forall|i: int|
            0 <= i < events.len() ==> #[trigger] events[i] != OutputEvent::<T, E>::Stdout(None),
        gathered_after(events).stderr_open <==> forall|i: int|
            0 <= i < events.len() ==> #[trigger] events[i] != OutputEvent::<T, E>::Stderr(None),
        gathered_after(events).response is None <==> forall|i: int|
            0 <= i < events.len() ==> !(#[trigger] events[i] matches OutputEvent::Finished(Ok(_))),
        gathered_after(events).response matches Some(response) ==> exists|i: int|
            0 <= i < events.len() && #[trigger] events[i] == OutputEvent::<T, E>::Finished(
                Ok(response),
            ),
    decreases events.len(),
{
    if events.len() > 0 {
        let before = events.drop_last();
        let n = events.len() - 1;
        lemma_ends(before);
        assert(events[n] == events.last());
        assert(forall|i: int| 0 <= i < n ==> #[trigger] events[i] == before[i]);
        if gathered_after(before).stdout_open && events.last() != OutputEvent::<T, E>::Stdout(
            None,
        ) {
            assert forall|i: int| 0 <= i < events.len() implies #[trigger] events[i]
                != OutputEvent::<T, E>::Stdout(None) by {
                if i < n {
                    assert(before[i] != OutputEvent::<T, E>::Stdout(None));
                }
            }
        }
        if !gathered_after(before).stdout_open {
            let i = choose|i: int|
                0 <= i < before.len() && #[trigger] before[i] == OutputEvent::<T, E>::Stdout(None);
            assert(events[i] == before[i]);
        }
        if gathered_after(before).stderr_open && events.last() != OutputEvent::<T, E>::Stderr(
            None,
        ) {
            assert forall|i: int| 0 <= i < events.len() implies #[trigger] events[i]
                != OutputEvent::<T, E>::Stderr(None) by {
                if i < n {
                    assert(before[i] != OutputEvent::<T, E>::Stderr(None));
                }
            }
        }
        if !gathered_after(before).stderr_open {
            let i = choose|i: int|
                0 <= i < before.len() && #[trigger] before[i] == OutputEvent::<T, E>::Stderr(None);
            assert(events[i] == before[i]);
        }
        if gathered_after(before).response is None && !(events.last() matches OutputEvent::Finished(
            Ok(_),
        )) {
            assert forall|i: int| 0 <= i < events.len() implies !(
            #[trigger] events[i] matches OutputEvent::Finished(Ok(_))) by {
                if i < n {
                    assert(!(before[i] matches OutputEvent::Finished(Ok(_))));
                }
            }
        }
        match gathered_after(before).response {
            Some(response) => {
                let i = choose|i: int|
                    0 <= i < before.len() && #[trigger] before[i] == OutputEvent::<
                        T,
                        E,
                    >::Finished(Ok(response));
                assert(events[i] == before[i]);
            },
            None => {},
        }
    }
}

/// All has come exactly when the task has ended with a response, its output has
/// ended and its error output has ended, whichever of the three came last. While
/// one of them is missing there is no response.
pub proof fn response_waits_for_all_ends<T, E>(events: Seq<OutputEvent<T, E>>)
    ensures
        gathered_after(events).complete() <==> {
            &&& exists|i: int|
                0 <= i < events.len() && (#[trigger] events[i] matches OutputEvent::Finished(Ok(_)))
            &&& exists|i: int|
                0 <= i < events.len() && #[trigger] events[i] == OutputEvent::<T, E>::Stdout(None)
            &&& exists|i: int|
                0 <= i < events.len() && #[trigger] events[i] == OutputEvent::<T, E>::Stderr(None)
        },
        gathered_after(events).complete() ==> exists|i: int|
            0 <= i < events.len() && (#[trigger] events[i] matches OutputEvent::Finished(
                Ok(response),
            ) && gathered_after(events).response == Some(response)),
{
    lemma_ends(events);
    match gathered_after(events).response {
        Some(response) => {
            let i = choose|i: int|
                0 <= i < events.len() && #[trigger] events[i] == OutputEvent::<T, E>::Finished(
                    Ok(response),
                );
            assert(events[i] matches OutputEvent::Finished(Ok(_)));
        },
        None => {},
    }
}

/// The task ends with a response at most once, and nothing of a stream comes after
/// its end: so what is gathered when all has come are all the packets of both
/// streams.
pub proof fn nothing_follows_an_end<T, E>(events: Seq<OutputEvent<T, E>>, i: int, j: int)
    requires
        gathering_expects(events),
        0 <= i < j < events.len(),
    ensures
        events[i] == OutputEvent::<T, E>::Stdout(None) ==> !(events[j] is Stdout),
        events[i] == OutputEvent::<T, E>::Stderr(None) ==> !(events[j] is Stderr),
        events[i] matches OutputEvent::Finished(Ok(_)) ==> !(events[j] is Finished),
    decreases events.len(),
{
    let before = events.drop_last();
    assert(before[i] == events[i]);
    if j < events.len() - 1 {
        assert(before[j] == events[j]);
        nothing_follows_an_end(before, i, j);
    } else {
        lemma_ends(before);
    }
}

/// A task that gathers output responds exactly when, with this event, the task has ended
/// with a response and both of its streams have ended, and it responds with all that was
/// printed; an error of the task is told at once; and in all other cases it goes on to
/// gather, having lost nothing.
pub proof fn gathering_goes_on_until_all_has_come<T, E>(
    events: Seq<OutputEvent<T, E>>,
    gathering: Absorption<T>,
    event: OutputEvent<T, E>,
    r: Result<Result<WithOutput<T>, E>, Absorption<T>>,
)
    requires
        gathering@ == gathered_after(events),
        call_ensures(Absorption::<T>::absorb::<E>, (gathering, event), r),
    ensures
        ({
            let all = events.push(event);
            match event {
                OutputEvent::Finished(Err(error)) => r == Ok::<_, Absorption<T>>(
                    Err::<WithOutput<T>, E>(error),
                ),
                _ => match r {
                    Ok(Ok(output)) => {
                        &&& exists|i: int|
                            0 <= i < all.len() && #[trigger] all[i] == OutputEvent::<
                                T,
                                E,
                            >::Finished(Ok(output.response))
                        &&& exists|i: int|
                            0 <= i < all.len() && #[trigger] all[i] == OutputEvent::<T, E>::Stdout(
                                None,
                            )
                        &&& exists|i: int|
                            0 <= i < all.len() && #[trigger] all[i] == OutputEvent::<T, E>::Stderr(
                                None,
                            )
                        &&& output.stdout@ == printed_stdout(all)
                        &&& output.stderr@ == printed_stderr(all)
                    },
                    Ok(Err(_)) => false,
                    Err(waiting) => {
                        &&& waiting@ == gathered_after(all)
                        &&& waiting@.stdout == printed_stdout(all)
                        &&& waiting@.stderr == printed_stderr(all)
                        &&& ({
                            ||| forall|i: int|
                                0 <= i < all.len() ==> !(
                                #[trigger] all[i] matches OutputEvent::Finished(Ok(_)))
                            ||| forall|i: int|
                                0 <= i < all.len() ==> #[trigger] all[i] != OutputEvent::<
                                    T,
                                    E,
                                >::Stdout(None)
                            ||| forall|i: int|
                                0 <= i < all.len() ==> #[trigger] all[i] != OutputEvent::<
                                    T,
                                    E,
                                >::Stderr(None)
                        })
                    },
                },
            }
        }),
{
    let all = events.push(event);
    assert(all.drop_last() =~= events);
    lemma_ends(all);
    all_output_is_gathered(all);
}

} // verus!
