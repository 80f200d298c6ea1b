//! Hands each message of a worker to whoever waits for it.
use crate::coordinator::error::CommanderError;
use crate::coordinator::message::{JobId, Multiplexed, WorkerMessage};
use std::collections::HashMap;
use vstd::prelude::*;

verus! {

broadcast use vstd::std_specs::hash::group_hash_axioms;

/// Someone wants to listen to the messages of a job.
#[derive(Debug)]
pub enum DemultiplexCommand<Many, Once> {
    /// To all of them.
    Listen(JobId, Many),
    /// To the next of them.
    ListenOnce(JobId, Once),
}

/// What happens to a demultiplexer.
#[derive(Debug)]
pub enum DemultiplexEvent<Many, Once> {
    /// A command came, or none will come any more.
    Command(Option<DemultiplexCommand<Many, Once>>),
    /// A message of the worker came, or none will come any more.
    FromWorker(Option<Multiplexed<WorkerMessage>>),
    /// The listeners of these jobs are gone: those to all messages of a job and
    /// those to the next one.
    Gc { closed: Vec<JobId>, closed_once: Vec<JobId> },
}

/// What is to be done after an event.
#[derive(Debug)]
pub enum DemultiplexAction<Once> {
    /// Tell the sender of the command that it was carried out.
    Acknowledge,
    /// Hand the message to this listener, which is listed no more.
    NotifyOnce(Once, WorkerMessage),
    /// Hand the message to the listener of this job, which stays listed.
    NotifyMany(JobId, WorkerMessage),
    /// Nobody listens to this job: drop the message.
    NoListener(JobId, WorkerMessage),
    /// Go on.
    Continue,
    /// Stop without an error.
    Stop,
    /// Stop with an error.
    Fail(CommanderError),
}

/// Who listens to which job.
#[verifier::reject_recursive_types(Many)]
#[verifier::reject_recursive_types(Once)]
pub ghost struct Listeners<Many, Once> {
    pub many: Map<JobId, Many>,
    pub once: Map<JobId, Once>,
}

impl<Many, Once> Listeners<Many, Once> {
    /// The listeners after `event`.
    pub open spec fn after(self, event: DemultiplexEvent<Many, Once>) -> Self {
        match event {
            DemultiplexEvent::Command(Some(DemultiplexCommand::Listen(job_id, waiter))) => {
                Listeners { many: self.many.insert(job_id, waiter), ..self }
            },
            DemultiplexEvent::Command(Some(DemultiplexCommand::ListenOnce(job_id, waiter))) => {
                Listeners { once: self.once.insert(job_id, waiter), ..self }
            },
            DemultiplexEvent::FromWorker(Some(Multiplexed(job_id, _))) => {
                Listeners { once: self.once.remove(job_id), ..self }
            },
            DemultiplexEvent::Gc { closed, closed_once } => Listeners {
                many: self.many.remove_keys(closed@.to_set()),
                once: self.once.remove_keys(closed_once@.to_set()),
            },
            _ => self,
        }
    }

    /// What is to be done when `event` happens with these listeners.
    pub open spec fn reaction(self, event: DemultiplexEvent<Many, Once>) -> DemultiplexAction<
        Once,
    > {
        match event {
            DemultiplexEvent::Command(None) => DemultiplexAction::Stop,
            DemultiplexEvent::Command(Some(DemultiplexCommand::Listen(job_id, _))) => {
                if self.many.dom().contains(job_id) {
                    DemultiplexAction::Fail(CommanderError::DuplicateDemultiplexerClient { job_id })
                } else {
                    DemultiplexAction::Acknowledge
                }
            },
            DemultiplexEvent::Command(Some(DemultiplexCommand::ListenOnce(job_id, _))) => {
                if self.once.dom().contains(job_id) {
                    DemultiplexAction::Fail(CommanderError::DuplicateDemultiplexerClient { job_id })
                } else {
                    DemultiplexAction::Acknowledge
                }
            },
            DemultiplexEvent::FromWorker(None) => DemultiplexAction::Stop,
            DemultiplexEvent::FromWorker(Some(Multiplexed(job_id, message))) => {
                if self.once.dom().contains(job_id) {
                    DemultiplexAction::NotifyOnce(self.once[job_id], message)
                } else if self.many.dom().contains(job_id) {
                    DemultiplexAction::NotifyMany(job_id, message)
                } else {
                    DemultiplexAction::NoListener(job_id, message)
                }
            },
            DemultiplexEvent::Gc { .. } => DemultiplexAction::Continue,
        }
    }
}

/// The listeners to the messages of a worker.
pub struct Demultiplexer<Many, Once> {
    waiting: HashMap<JobId, Many>,
    waiting_once: HashMap<JobId, Once>,
}

impl<Many, Once> View for Demultiplexer<Many, Once> {
    type V = Listeners<Many, Once>;

    closed spec fn view(&self) -> Listeners<Many, Once> {
        Listeners { many: self.waiting@, once: self.waiting_once@ }
    }
}

impl<Many, Once> Demultiplexer<Many, Once> {
    /// A demultiplexer to which nobody listens.
    pub fn new() -> (demultiplexer: Self)
        ensures
            demultiplexer@.many == Map::<JobId, Many>::empty(),
            demultiplexer@.once == Map::<JobId, Once>::empty(),
    {
        Demultiplexer { waiting: HashMap::new(), waiting_once: HashMap::new() }
    }

    /// Takes an event and says what is to be done.
    pub fn demultiplex(&mut self, event: DemultiplexEvent<Many, Once>) -> (action:
        DemultiplexAction<Once>)
        ensures
            final(self)@ == old(self)@.after(event),
            action == old(self)@.reaction(event),
    {
        let ghost was = self@;
        match event {
            DemultiplexEvent::Command(None) => DemultiplexAction::Stop,
            DemultiplexEvent::Command(Some(command)) => match command {
                DemultiplexCommand::Listen(job_id, waiter) => {
                    let old: Option<Many> = self.waiting.insert(job_id, waiter);
                    if old.is_some() {
                        DemultiplexAction::Fail(
                            CommanderError::DuplicateDemultiplexerClient { job_id },
                        )
                    } else {
                        DemultiplexAction::Acknowledge
                    }
                },
                DemultiplexCommand::ListenOnce(job_id, waiter) => {
                    let old: Option<Once> = self.waiting_once.insert(job_id, waiter);
                    if old.is_some() {
                        DemultiplexAction::Fail(
                            CommanderError::DuplicateDemultiplexerClient { job_id },
                        )
                    } else {
                        DemultiplexAction::Acknowledge
                    }
                },
            },
            DemultiplexEvent::FromWorker(None) => DemultiplexAction::Stop,
            DemultiplexEvent::FromWorker(Some(multiplexed)) => {
                let Multiplexed(job_id, message) = multiplexed;
                match self.waiting_once.remove(&job_id) {
                    Some(waiter) => DemultiplexAction::NotifyOnce(waiter, message),
                    None => {
                        assert(self.waiting_once@ =~= was.once.remove(job_id));
                        if self.waiting.contains_key(&job_id) {
                            DemultiplexAction::NotifyMany(job_id, message)
                        } else {
                            DemultiplexAction::NoListener(job_id, message)
                        }
                    },
                }
            },
            DemultiplexEvent::Gc { closed, closed_once } => {
                remove_all(&mut self.waiting, &closed);
                remove_all(&mut self.waiting_once, &closed_once);
                DemultiplexAction::Continue
            },
        }
    }

    /// Who listens to all messages of the job.
    pub fn listener(&self, job_id: JobId) -> (listener: Option<&Many>)
        ensures
            listener == if self@.many.dom().contains(job_id) {
                Some(&self@.many[job_id])
            } else {
                None
            },
    {
        self.waiting.get(&job_id)
    }

    /// Who listens to the next message of the job.
    pub fn once_listener(&self, job_id: JobId) -> (listener: Option<&Once>)
        ensures
            listener == if self@.once.dom().contains(job_id) {
                Some(&self@.once[job_id])
            } else {
                None
            },
    {
        self.waiting_once.get(&job_id)
    }

    /// The jobs to all of whose messages someone listens, in any order.
    pub fn jobs(&self) -> (jobs: Vec<JobId>)
        ensures
            jobs@.no_duplicates(),
            jobs@.to_set() == self@.many.dom(),
    {
        keys(&self.waiting)
    }

    /// The jobs to whose next message someone listens, in any order.
    pub fn once_jobs(&self) -> (jobs: Vec<JobId>)
        ensures
            jobs@.no_duplicates(),
            jobs@.to_set() == self@.once.dom(),
    {
        keys(&self.waiting_once)
    }
}

/// The keys of `map`, in any order.
fn keys<V>(map: &HashMap<JobId, V>) -> (keys: Vec<JobId>)
    ensures
        keys@.no_duplicates(),
        keys@.to_set() == map@.dom(),
{
    let mut keys: Vec<JobId> = Vec::new();
    for key in it: map.keys()
        invariant
            keys@ == it.seq().unref().take(it.index()),
            it.seq().unref().to_set() == map@.dom(),
            it.seq().unref().no_duplicates(),
            it.index() == it.seq().len() ==> keys@ == it.seq().unref(),
    {
        keys.push(*key);
    }
    keys
}

/// Removes the entries of all `jobs`.
fn remove_all<V>(map: &mut HashMap<JobId, V>, jobs: &Vec<JobId>)
    ensures
        final(map)@ == old(map)@.remove_keys(jobs@.to_set()),
{
    let ghost was = map@;
    let mut i: usize = 0;
    assert(map@ =~= was.remove_keys(jobs@.take(0).to_set()));
    while i < jobs.len()
        invariant
            i <= jobs@.len(),
            map@ == was.remove_keys(jobs@.take(i as int).to_set()),
        decreases jobs@.len() - i,
    {
        map.remove(&jobs[i]);
        proof {
            let shorter = jobs@.take(i as int);
            assert(jobs@.take(i + 1) =~= shorter.push(jobs@[i as int]));
            assert(shorter.push(jobs@[i as int]).to_set() =~= shorter.to_set().insert(
                jobs@[i as int],
            )) by {
                broadcast use vstd::seq_lib::group_to_multiset_ensures;
                broadcast use vstd::seq_lib::group_seq_properties;
            }
            assert(map@ =~= was.remove_keys(jobs@.take(i + 1).to_set()));
        }
        i = i + 1;
    }
    assert(jobs@.take(i as int) =~= jobs@);
}

/// Whether `event` has to do with `job_id`.
pub open spec fn concerns<Many, Once>(
    event: DemultiplexEvent<Many, Once>,
    job_id: JobId,
) -> bool {
    match event {
        DemultiplexEvent::Command(Some(DemultiplexCommand::Listen(id, _))) => id == job_id,
        DemultiplexEvent::Command(Some(DemultiplexCommand::ListenOnce(id, _))) => id == job_id,
        DemultiplexEvent::FromWorker(Some(Multiplexed(id, _))) => id == job_id,
        DemultiplexEvent::Gc { closed, closed_once } => closed@.contains(job_id)
            || closed_once@.contains(job_id),
        _ => false,
    }
}

/// An event changes nothing for a job that it has nothing to do with.
pub proof fn other_jobs_are_untouched<Many, Once>(
    listeners: Listeners<Many, Once>,
    event: DemultiplexEvent<Many, Once>,
    job_id: JobId,
)
    requires
        !concerns(event, job_id),
    ensures
        ({
            let now = listeners.after(event);
            &&& now.many.dom().contains(job_id) == listeners.many.dom().contains(job_id)
            &&& now.once.dom().contains(job_id) == listeners.once.dom().contains(job_id)
            &&& now.many.dom().contains(job_id) ==> now.many[job_id] == listeners.many[job_id]
            &&& now.once.dom().contains(job_id) ==> now.once[job_id] == listeners.once[job_id]
        }),
{
}

/// The listeners after all of `events`, one after another.
pub open spec fn after_all<Many, Once>(
    listeners: Listeners<Many, Once>,
    events: Seq<DemultiplexEvent<Many, Once>>,
) -> Listeners<Many, Once>
    decreases events.len(),
{
    if events.len() == 0 {
        listeners
    } else {
        after_all(listeners, events.drop_last()).after(events.last())
    }
}

/// Whoever asked for the next message of a job gets that message, whatever
/// happens to other jobs in between, and gets no second one.
pub proof fn reply_reaches_its_listener<Many, Once>(
    listeners: Listeners<Many, Once>,
    job_id: JobId,
    waiter: Once,
    events: Seq<DemultiplexEvent<Many, Once>>,
    message: WorkerMessage,
)
    requires
        !listeners.once.dom().contains(job_id),
        forall|i: int| 0 <= i < events.len() ==> !concerns(#[trigger] events[i], job_id),
    ensures
        ({
            let listen = DemultiplexEvent::Command(
                Some(DemultiplexCommand::ListenOnce(job_id, waiter)),
            );
            let reply = DemultiplexEvent::FromWorker(Some(Multiplexed(job_id, message)));
            let now = after_all(listeners.after(listen), events);
            &&& listeners.reaction(listen) == DemultiplexAction::<Once>::Acknowledge
            &&& now.reaction(reply) == DemultiplexAction::NotifyOnce(waiter, message)
            &&& !now.after(reply).once.dom().contains(job_id)
        }),
{
    let listen = DemultiplexEvent::Command(Some(DemultiplexCommand::ListenOnce(job_id, waiter)));
    lemma_once_listener_stays(listeners.after(listen), job_id, events);
}

proof fn lemma_once_listener_stays<Many, Once>(
    listeners: Listeners<Many, Once>,
    job_id: JobId,
    events: Seq<DemultiplexEvent<Many, Once>>,
)
    requires
        listeners.once.dom().contains(job_id),
        forall|i: int| 0 <= i < events.len() ==> !concerns(#[trigger] events[i], job_id),
    ensures
        after_all(listeners, events).once.dom().contains(job_id),
        after_all(listeners, events).once[job_id] == listeners.once[job_id],
    decreases events.len(),
{
    if events.len() > 0 {
        let before = events.drop_last();
        assert forall|i: int| 0 <= i < before.len() implies !concerns(
            #[trigger] before[i],
            job_id,
        ) by {
            assert(before[i] == events[i]);
        }
        lemma_once_listener_stays(listeners, job_id, before);
        assert(events.last() == events[events.len() - 1]);
        other_jobs_are_untouched(after_all(listeners, before), events.last(), job_id);
    }
}

/// Whether `event` leaves whoever listens to all messages of `job_id` alone: it
/// neither lists another listener for the job nor says that its listener is
/// gone.
pub open spec fn keeps_listener<Many, Once>(
    event: DemultiplexEvent<Many, Once>,
    job_id: JobId,
) -> bool {
    match event {
        DemultiplexEvent::Command(Some(DemultiplexCommand::Listen(id, _))) => id != job_id,
        DemultiplexEvent::Command(Some(DemultiplexCommand::ListenOnce(id, _))) => id != job_id,
        DemultiplexEvent::Gc { closed, .. } => !closed@.contains(job_id),
        _ => true,
    }
}

/// Whoever asked for all messages of a job gets each of them, however many came
/// before and whatever happens to other jobs.
pub proof fn every_message_reaches_its_listener<Many, Once>(
    listeners: Listeners<Many, Once>,
    job_id: JobId,
    waiter: Many,
    events: Seq<DemultiplexEvent<Many, Once>>,
    message: WorkerMessage,
)
    requires
        !listeners.many.dom().contains(job_id),
        !listeners.once.dom().contains(job_id),
        forall|i: int| 0 <= i < events.len() ==> keeps_listener(#[trigger] events[i], job_id),
    ensures
        ({
            let listen = DemultiplexEvent::Command(
                Some(DemultiplexCommand::Listen(job_id, waiter)),
            );
            let told = DemultiplexEvent::FromWorker(Some(Multiplexed(job_id, message)));
            let now = after_all(listeners.after(listen), events);
            &&& listeners.reaction(listen) == DemultiplexAction::<Once>::Acknowledge
            &&& now.reaction(told) == DemultiplexAction::<Once>::NotifyMany(job_id, message)
            &&& now.many[job_id] == waiter
        }),
{
    let listen = DemultiplexEvent::Command(Some(DemultiplexCommand::Listen(job_id, waiter)));
    lemma_listener_stays(listeners.after(listen), job_id, events);
}

proof fn lemma_listener_stays<Many, Once>(
    listeners: Listeners<Many, Once>,
    job_id: JobId,
    events: Seq<DemultiplexEvent<Many, Once>>,
)
    requires
        listeners.many.dom().contains(job_id),
        !listeners.once.dom().contains(job_id),
        forall|i: int| 0 <= i < events.len() ==> keeps_listener(#[trigger] events[i], job_id),
    ensures
        after_all(listeners, events).many.dom().contains(job_id),
        after_all(listeners, events).many[job_id] == listeners.many[job_id],
        !after_all(listeners, events).once.dom().contains(job_id),
    decreases events.len(),
{
    if events.len() > 0 {
        let before = events.drop_last();
        assert forall|i: int| 0 <= i < before.len() implies keeps_listener(
            #[trigger] before[i],
            job_id,
        ) by {
            assert(before[i] == events[i]);
        }
        lemma_listener_stays(listeners, job_id, before);
        assert(keeps_listener(events[events.len() - 1], job_id));
    }
}

/// The jobs for which `events` list a listener, in that order.
pub open spec fn listed_jobs<Many, Once>(events: Seq<DemultiplexEvent<Many, Once>>) -> Seq<JobId>
    decreases events.len(),
{
    if events.len() == 0 {
        Seq::empty()
    } else {
        let before = listed_jobs(events.drop_last());
        match events.last() {
            DemultiplexEvent::Command(Some(DemultiplexCommand::Listen(id, _))) => before.push(id),
            DemultiplexEvent::Command(Some(DemultiplexCommand::ListenOnce(id, _))) => before.push(
                id,
            ),
            _ => before,
        }
    }
}

proof fn lemma_listeners_were_listed<Many, Once>(
    listeners: Listeners<Many, Once>,
    events: Seq<DemultiplexEvent<Many, Once>>,
)
    requires
        listeners.many == Map::<JobId, Many>::empty(),
        listeners.once == Map::<JobId, Once>::empty(),
    ensures
        forall|id: JobId| #[trigger]
            after_all(listeners, events).many.dom().contains(id) ==> listed_jobs(events).contains(id),
        forall|id: JobId| #[trigger]
            after_all(listeners, events).once.dom().contains(id) ==> listed_jobs(events).contains(id),
    decreases events.len(),
{
    if events.len() > 0 {
        let before = events.drop_last();
        lemma_listeners_were_listed(listeners, before);
        let was = listed_jobs(before);
        let now = listed_jobs(events);
        assert forall|id: JobId| was.contains(id) implies now.contains(id) by {
            let i = choose|i: int| 0 <= i < was.len() && was[i] == id;
            assert(now[i] == id);
        }
        let last = events.last();
        let earlier = after_all(listeners, before);
        match last {
            DemultiplexEvent::Command(Some(DemultiplexCommand::Listen(id, _))) => {
                assert(now[now.len() - 1] == id);
            },
            DemultiplexEvent::Command(Some(DemultiplexCommand::ListenOnce(id, _))) => {
                assert(now[now.len() - 1] == id);
            },
            _ => {},
        }
        assert forall|id: JobId| #[trigger]
            after_all(listeners, events).many.dom().contains(id) implies now.contains(id) by {
            assert(earlier.after(last).many.dom().contains(id));
            if earlier.many.dom().contains(id) {
                assert(was.contains(id));
            }
        }
        assert forall|id: JobId| #[trigger]
            after_all(listeners, events).once.dom().contains(id) implies now.contains(id) by {
            assert(earlier.after(last).once.dom().contains(id));
            if earlier.once.dom().contains(id) {
                assert(was.contains(id));
            }
        }
    }
}

/// A demultiplexer never fails while each listener is listed for a job of its
/// own.
pub proof fn jobs_of_their_own_never_fail<Many, Once>(
    listeners: Listeners<Many, Once>,
    events: Seq<DemultiplexEvent<Many, Once>>,
    next: DemultiplexEvent<Many, Once>,
)
    requires
        listeners.many == Map::<JobId, Many>::empty(),
        listeners.once == Map::<JobId, Once>::empty(),
        listed_jobs(events.push(next)).no_duplicates(),
    ensures
        !(after_all(listeners, events).reaction(next) is Fail),
{
    lemma_listeners_were_listed(listeners, events);
    let all = events.push(next);
    assert(all.drop_last() =~= events);
    let was = listed_jobs(events);
    let now = listed_jobs(all);
    match next {
        DemultiplexEvent::Command(Some(DemultiplexCommand::Listen(id, _))) => {
            if was.contains(id) {
                let i = choose|i: int| 0 <= i < was.len() && was[i] == id;
                assert(now[i] == id && now[now.len() - 1] == id);
            }
        },
        DemultiplexEvent::Command(Some(DemultiplexCommand::ListenOnce(id, _))) => {
            if was.contains(id) {
                let i = choose|i: int| 0 <= i < was.len() && was[i] == id;
                assert(now[i] == id && now[now.len() - 1] == id);
            }
        },
        _ => {},
    }
}

/// Each event changes the listeners as it says and in no other way: whoever asks to listen
/// is listed for that job, in place of a listener of the same kind; a message takes the
/// listener to the next message of its job off the list and leaves the listeners to all
/// messages; listeners that are gone are taken off, each kind by its own list; and the end
/// of commands or of messages changes nothing.
pub proof fn listeners_change_as_told<Many, Once>(
    listeners: Listeners<Many, Once>,
    event: DemultiplexEvent<Many, Once>,
    id: JobId,
)
    ensures
        ({
            let now = listeners.after(event);
            let same_many = {
                &&& now.many.dom().contains(id) == listeners.many.dom().contains(id)
                &&& now.many.dom().contains(id) ==> now.many[id] == listeners.many[id]
            };
            let same_once = {
                &&& now.once.dom().contains(id) == listeners.once.dom().contains(id)
                &&& now.once.dom().contains(id) ==> now.once[id] == listeners.once[id]
            };
            match event {
                DemultiplexEvent::Command(Some(DemultiplexCommand::Listen(job_id, waiter))) => {
                    &&& same_once
                    &&& if id == job_id {
                        now.many.dom().contains(id) && now.many[id] == waiter
                    } else {
                        same_many
                    }
                },
                DemultiplexEvent::Command(
                    Some(DemultiplexCommand::ListenOnce(job_id, waiter)),
                ) => {
                    &&& same_many
                    &&& if id == job_id {
                        now.once.dom().contains(id) && now.once[id] == waiter
                    } else {
                        same_once
                    }
                },
                DemultiplexEvent::FromWorker(Some(Multiplexed(job_id, _))) => {
                    &&& same_many
                    &&& if id == job_id {
                        !now.once.dom().contains(id)
                    } else {
                        same_once
                    }
                },
                DemultiplexEvent::Gc { closed, closed_once } => {
                    &&& if closed@.contains(id) {
                        !now.many.dom().contains(id)
                    } else {
                        same_many
                    }
                    &&& if closed_once@.contains(id) {
                        !now.once.dom().contains(id)
                    } else {
                        same_once
                    }
                },
                _ => same_many && same_once,
            }
        }),
{
}

/// A second listener of the same kind for a job is an error that names the job, and a first
/// one is acknowledged. A message goes, unchanged, to the listener to the next message of
/// its job if there is one, else to the listener to all of them, else to nobody. Looking
/// for listeners that are gone is never the end; the end of commands or of messages is, and
/// it is no error.
pub proof fn events_are_answered_as_listed<Many, Once>(
    listeners: Listeners<Many, Once>,
    job_id: JobId,
    many: Many,
    once: Once,
    message: WorkerMessage,
    closed: Vec<JobId>,
    closed_once: Vec<JobId>,
)
    ensures
        ({
            let listen = DemultiplexEvent::<Many, Once>::Command(
                Some(DemultiplexCommand::Listen(job_id, many)),
            );
            let listen_once = DemultiplexEvent::<Many, Once>::Command(
                Some(DemultiplexCommand::ListenOnce(job_id, once)),
            );
            let told = DemultiplexEvent::<Many, Once>::FromWorker(
                Some(Multiplexed(job_id, message)),
            );
            &&& listeners.reaction(listen) == if listeners.many.dom().contains(job_id) {
                DemultiplexAction::<Once>::Fail(
                    CommanderError::DuplicateDemultiplexerClient { job_id },
                )
            } else {
                DemultiplexAction::<Once>::Acknowledge
            }
            &&& listeners.reaction(listen_once) == if listeners.once.dom().contains(job_id) {
                DemultiplexAction::<Once>::Fail(
                    CommanderError::DuplicateDemultiplexerClient { job_id },
                )
            } else {
                DemultiplexAction::<Once>::Acknowledge
            }
            &&& listeners.once.dom().contains(job_id) ==> listeners.reaction(told)
                == DemultiplexAction::NotifyOnce(listeners.once[job_id], message)
            &&& !listeners.once.dom().contains(job_id) && listeners.many.dom().contains(job_id)
                ==> listeners.reaction(told) == DemultiplexAction::<Once>::NotifyMany(
                job_id,
                message,
            )
            &&& !listeners.once.dom().contains(job_id) && !listeners.many.dom().contains(job_id)
                ==> listeners.reaction(told) == DemultiplexAction::<Once>::NoListener(
                job_id,
                message,
            )
            &&& listeners.reaction(DemultiplexEvent::Gc { closed, closed_once }) is Continue
            &&& listeners.reaction(DemultiplexEvent::Command(None)) is Stop
            &&& listeners.reaction(DemultiplexEvent::FromWorker(None)) is Stop
        }),
{
}

/// A demultiplexer does what is said of its listeners here at every event.
pub proof fn demultiplexers_do_as_stated<Many, Once>(
    demultiplexer: &mut Demultiplexer<Many, Once>,
    event: DemultiplexEvent<Many, Once>,
    action: DemultiplexAction<Once>,
)
    requires
        call_ensures(Demultiplexer::<Many, Once>::demultiplex, (demultiplexer, event), action),
    ensures
        final(demultiplexer)@ == old(demultiplexer)@.after(event),
        action == old(demultiplexer)@.reaction(event),
{
}

/// Whoever is asked for is the listener that is listed for the job, of the kind that was asked
/// for; and the jobs with listeners are told, each once.
pub proof fn listeners_are_found_as_listed<Many, Once>(
    demultiplexer: Demultiplexer<Many, Once>,
    job_id: JobId,
    listener: Option<&Many>,
    once_listener: Option<&Once>,
    jobs: Vec<JobId>,
    once_jobs: Vec<JobId>,
)
    requires
        call_ensures(Demultiplexer::<Many, Once>::listener, (&demultiplexer, job_id), listener),
        call_ensures(
            Demultiplexer::<Many, Once>::once_listener,
            (&demultiplexer, job_id),
            once_listener,
        ),
        call_ensures(Demultiplexer::<Many, Once>::jobs, (&demultiplexer,), jobs),
        call_ensures(Demultiplexer::<Many, Once>::once_jobs, (&demultiplexer,), once_jobs),
    ensures
        listener is Some <==> demultiplexer@.many.dom().contains(job_id),
        listener matches Some(waiter) ==> *waiter == demultiplexer@.many[job_id],
        once_listener is Some <==> demultiplexer@.once.dom().contains(job_id),
        once_listener matches Some(waiter) ==> *waiter == demultiplexer@.once[job_id],
        jobs@.contains(job_id) <==> demultiplexer@.many.dom().contains(job_id),
        once_jobs@.contains(job_id) <==> demultiplexer@.once.dom().contains(job_id),
        jobs@.no_duplicates(),
        once_jobs@.no_duplicates(),
{
    assert(jobs@.contains(job_id) <==> jobs@.to_set().contains(job_id));
    assert(once_jobs@.contains(job_id) <==> once_jobs@.to_set().contains(job_id));
}

} // verus!
