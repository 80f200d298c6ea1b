//! Which containers run, and how they are ended.
use crate::coordinator::docker::CommandLine;
use crate::coordinator::error::{OutsideError, TerminateContainerError};
use crate::text;
use crate::text::{is_before, same_text, trim};
use vstd::prelude::*;

verus! {

/// The names of the containers that run, each once, in lexicographic order.
#[derive(Debug)]
pub struct TrackedContainers {
    names: Vec<String>,
}

impl View for TrackedContainers {
    type V = Set<Seq<char>>;

    closed spec fn view(&self) -> Set<Seq<char>> {
        text::texts(self.names@).to_set()
    }
}

/// Each of `names` precedes all that follow it.
pub open spec fn ascending(names: Seq<Seq<char>>) -> bool {
    forall|i: int, j: int|
        0 <= i < j < names.len() ==> text::precedes(#[trigger] names[i], #[trigger] names[j])
}

impl TrackedContainers {
    /// Whether the names are in order.
    pub closed spec fn wf(self) -> bool {
        ascending(text::texts(self.names@))
    }

    /// No container runs.
    pub fn new() -> (containers: TrackedContainers)
        ensures
            containers.wf(),
            containers@ == Set::<Seq<char>>::empty(),
    {
        let containers: TrackedContainers = TrackedContainers { names: Vec::new() };
        assert(containers@ =~= Set::<Seq<char>>::empty());
        containers
    }

    /// The names, in lexicographic order.
    pub fn names(&self) -> (names: &Vec<String>)
        requires
            self.wf(),
        ensures
            text::texts(names@).to_set() == self@,
            ascending(text::texts(names@)),
    {
        &self.names
    }

    /// The first place whose name does not precede `name`.
    fn place(&self, name: &str) -> (i: usize)
        requires
            self.wf(),
        ensures
            i <= self.names@.len(),
            forall|j: int| 0 <= j < i ==> text::precedes(#[trigger] self.names@[j]@, name@),
            i < self.names@.len() ==> !text::precedes(self.names@[i as int]@, name@),
    {
        let mut i: usize = 0;
        while i < self.names.len() && is_before(self.names[i].as_str(), name)
            invariant
                i <= self.names@.len(),
                forall|j: int| 0 <= j < i ==> text::precedes(#[trigger] self.names@[j]@, name@),
            decreases self.names@.len() - i,
        {
            i = i + 1;
        }
        i
    }

    /// `name` is listed exactly when it stands at its place.
    proof fn lemma_place(self, name: Seq<char>, i: int)
        requires
            self.wf(),
            0 <= i <= self.names@.len(),
            forall|j: int| 0 <= j < i ==> text::precedes(#[trigger] self.names@[j]@, name),
            i < self.names@.len() ==> !text::precedes(self.names@[i]@, name),
        ensures
            self@.contains(name) <==> i < self.names@.len() && self.names@[i]@ == name,
            i < self.names@.len() && self.names@[i]@ != name ==> text::precedes(
                name,
                self.names@[i]@,
            ),
    {
        let all = text::texts(self.names@);
        assert forall|j: int| 0 <= j < all.len() implies #[trigger] all[j] == self.names@[j]@ by {}
        if i < all.len() {
            text::precedes_is_total(name, all[i]);
            if all[i] == name {
                assert(all.contains(name));
            }
        }
        if self@.contains(name) {
            let k = choose|k: int| 0 <= k < all.len() && all[k] == name;
            if k < i {
                text::precedes_is_irreflexive(name);
                assert(text::precedes(self.names@[k]@, name));
            } else if k > i {
                assert(text::precedes(all[i], all[k]));
            }
        }
    }

    /// Lists `name`. Returns whether it was not listed before.
    pub fn insert(&mut self, name: &str) -> (was_inserted: bool)
        requires
            old(self).wf(),
        ensures
            final(self).wf(),
            final(self)@ == old(self)@.insert(name@),
            was_inserted == !old(self)@.contains(name@),
    {
        let i: usize = self.place(name);
        proof {
            self.lemma_place(name@, i as int);
        }
        let ghost was = text::texts(self.names@);
        if i < self.names.len() && same_text(self.names[i].as_str(), name) {
            assert(self@.insert(name@) =~= self@);
            false
        } else {
            self.names.insert(i, name.to_owned());
            proof {
                let now = text::texts(self.names@);
                assert(now =~= was.insert(i as int, name@));
                assert forall|a: int, b: int| 0 <= a < b < now.len() implies text::precedes(
                    #[trigger] now[a],
                    #[trigger] now[b],
                ) by {
                    let x = if a < i { a } else { a - 1 };
                    let y = if b < i { b } else { b - 1 };
                    if a == i {
                        assert(now[b] == was[b - 1]);
                        if b - 1 > i {
                            assert(text::precedes(was[i as int], was[b - 1]));
                            text::precedes_is_transitive(name@, was[i as int], was[b - 1]);
                        }
                    } else if b == i {
                        assert(now[a] == was[a]);
                    } else {
                        assert(now[a] == was[x] && now[b] == was[y]);
                    }
                }
                assert(now.to_set() =~= was.to_set().insert(name@)) by {
                    assert forall|s: Seq<char>| now.contains(s) implies was.contains(s) || s
                        == name@ by {
                        let k = choose|k: int| 0 <= k < now.len() && now[k] == s;
                        if k < i {
                            assert(was[k] == s);
                        } else if k > i {
                            assert(was[k - 1] == s);
                        }
                    }
                    assert forall|s: Seq<char>| was.contains(s) || s == name@ implies now.contains(
                        s,
                    ) by {
                        if s == name@ {
                            assert(now[i as int] == s);
                        } else {
                            let k = choose|k: int| 0 <= k < was.len() && was[k] == s;
                            if k < i {
                                assert(now[k] == s);
                            } else {
                                assert(now[k + 1] == s);
                            }
                        }
                    }
                }
            }
            true
        }
    }

    /// Lists `name` no more. Returns whether it was listed before.
    pub fn remove(&mut self, name: &str) -> (was_tracked: bool)
        requires
            old(self).wf(),
        ensures
            final(self).wf(),
            final(self)@ == old(self)@.remove(name@),
            was_tracked == old(self)@.contains(name@),
    {
        let i: usize = self.place(name);
        proof {
            self.lemma_place(name@, i as int);
        }
        let ghost was = text::texts(self.names@);
        if i < self.names.len() && same_text(self.names[i].as_str(), name) {
            self.names.remove(i);
            proof {
                let now = text::texts(self.names@);
                assert(now =~= was.remove(i as int));
                assert forall|a: int, b: int| 0 <= a < b < now.len() implies text::precedes(
                    #[trigger] now[a],
                    #[trigger] now[b],
                ) by {
                    let x = if a < i { a } else { a + 1 };
                    let y = if b < i { b } else { b + 1 };
                    assert(now[a] == was[x] && now[b] == was[y]);
                }
                assert(now.to_set() =~= was.to_set().remove(name@)) by {
                    assert forall|s: Seq<char>| now.contains(s) implies was.contains(s) && s
                        != name@ by {
                        let k = choose|k: int| 0 <= k < now.len() && now[k] == s;
                        text::precedes_is_irreflexive(s);
                        if k < i {
                            assert(was[k] == s);
                            assert(text::precedes(was[k], was[i as int]));
                        } else {
                            assert(was[k + 1] == s);
                            assert(text::precedes(was[i as int], was[k + 1]));
                        }
                    }
                    assert forall|s: Seq<char>| was.contains(s) && s != name@ implies now.contains(
                        s,
                    ) by {
                        let k = choose|k: int| 0 <= k < was.len() && was[k] == s;
                        if k < i {
                            assert(now[k] == s);
                        } else {
                            assert(now[k - 1] == s);
                        }
                    }
                }
            }
            true
        } else {
            assert(self@.remove(name@) =~= self@);
            false
        }
    }
}

/// A container that is to be ended, and the command that does it.
pub ghost struct Pending {
    pub name: Seq<char>,
    pub program: Seq<char>,
    pub args: Seq<Seq<char>>,
}

/// Ends a container, at most once.
#[derive(Debug)]
pub struct TerminateContainer {
    pending: Option<(String, CommandLine)>,
}

impl View for TerminateContainer {
    type V = Option<Pending>;

    closed spec fn view(&self) -> Option<Pending> {
        match self.pending {
            Some((name, command)) => Some(
                Pending {
                    name: name@,
                    program: command.program@,
                    args: text::texts(command.args@),
                },
            ),
            None => None,
        }
    }
}

/// A container to end now.
#[derive(Debug, PartialEq, Eq)]
pub struct Termination {
    pub name: String,
    pub command: CommandLine,
    /// Whether the container was listed.
    pub was_tracked: bool,
}

/// What a command printed and how it exited.
#[derive(Debug, Clone, PartialEq, Eq)]
pub struct CommandOutput {
    pub success: bool,
    pub code: Option<i32>,
    pub stdout: Vec<u8>,
    pub stderr: Vec<u8>,
}

/// How a command that should kill a container failed.
#[derive(Debug, Clone, PartialEq, Eq)]
pub struct KillFailure {
    pub name: String,
    pub code: Option<i32>,
    pub stdout: String,
    pub stderr: String,
}

/// `bytes` as text, with a replacement for what is not UTF-8.
pub uninterp spec fn lossy_text(bytes: Seq<u8>) -> Seq<char>;

/// Calls `String::from_utf8_lossy`. Trusted: the text depends on the bytes
/// alone, and valid UTF-8 is decoded.
#[verifier::external_body]
fn decode_lossy(bytes: &Vec<u8>) -> (r: String)
    ensures
        r@ == lossy_text(bytes@),
        vstd::utf8::valid_utf8(bytes@) ==> r@ == vstd::utf8::decode_utf8(bytes@),
{
    String::from_utf8_lossy(bytes).into_owned()
}

impl TerminateContainer {
    /// Lists the container `name`, which `command` ends. Returns with it whether
    /// the container was not listed before.
    pub fn new(name: String, command: CommandLine, containers: &mut TrackedContainers) -> (r: (
        TerminateContainer,
        bool,
    ))
        requires
            old(containers).wf(),
        ensures
            final(containers).wf(),
            final(containers)@ == old(containers)@.insert(name@),
            r.1 == !old(containers)@.contains(name@),
            r.0@ == Some(
                Pending {
                    name: name@,
                    program: command.program@,
                    args: text::texts(command.args@),
                },
            ),
    {
        let was_inserted: bool = Self::start_tracking(name.as_str(), containers);
        (TerminateContainer { pending: Some((name, command)) }, was_inserted)
    }

    /// There is no container to end.
    pub fn none() -> (r: TerminateContainer)
        ensures
            r@ is None,
    {
        TerminateContainer { pending: None }
    }

    /// The name of the container that is to be ended, if there is one.
    pub fn name(&self) -> (name: Option<&str>)
        ensures
            match self@ {
                Some(pending) => name matches Some(name) && name@ == pending.name,
                None => name is None,
            },
    {
        match &self.pending {
            Some((name, _)) => Some(name.as_str()),
            None => None,
        }
    }

    /// Lists a container. Returns whether it was not listed before.
    pub fn start_tracking(name: &str, containers: &mut TrackedContainers) -> (was_inserted: bool)
        requires
            old(containers).wf(),
        ensures
            final(containers).wf(),
            final(containers)@ == old(containers)@.insert(name@),
            was_inserted == !old(containers)@.contains(name@),
    {
        containers.insert(name)
    }

    /// Lists a container no more. Returns whether it was listed before.
    pub fn stop_tracking(name: &str, containers: &mut TrackedContainers) -> (was_tracked: bool)
        requires
            old(containers).wf(),
        ensures
            final(containers).wf(),
            final(containers)@ == old(containers)@.remove(name@),
            was_tracked == old(containers)@.contains(name@),
    {
        containers.remove(name)
    }

    /// Says which container is to be ended now, if one is; afterwards there is
    /// none to end, and the container is listed no more.
    pub fn terminate_now(&mut self, containers: &mut TrackedContainers) -> (r: Option<Termination>)
        requires
            old(containers).wf(),
        ensures
            final(containers).wf(),
            final(self)@ is None,
            match old(self)@ {
                Some(pending) => {
                    &&& r matches Some(end)
                    &&& end.name@ == pending.name
                    &&& end.command.program@ == pending.program
                    &&& text::texts(end.command.args@) == pending.args
                    &&& end.was_tracked == old(containers)@.contains(pending.name)
                    &&& final(containers)@ == old(containers)@.remove(pending.name)
                },
                None => r is None && final(containers)@ == old(containers)@,
            },
    {
        match self.pending.take() {
            Some((name, command)) => {
                let was_tracked: bool = Self::stop_tracking(name.as_str(), containers);
                Some(Termination { name, command, was_tracked })
            },
            None => None,
        }
    }

    /// What is to be said of the command that should kill the container `name`:
    /// the reason if it could not be run, and what it printed, without white
    /// space around it, if it failed.
    pub fn killed(name: String, output: Result<CommandOutput, OutsideError>) -> (r: Result<
        Option<KillFailure>,
        TerminateContainerError,
    >)
        ensures
            match output {
                Err(source) => r == Err::<Option<KillFailure>, _>(
                    TerminateContainerError { name, source },
                ),
                Ok(output) => r matches Ok(report) && failure_reported(name, output, report),
            },
    {
        match output {
            Err(source) => Err(TerminateContainerError { name, source }),
            Ok(output) => Ok(Self::report_failure(name, output)),
        }
    }

    /// How the command that should kill the container `name` failed, if it did.
    /// The container may have ended before, so this is no error.
    pub fn report_failure(name: String, output: CommandOutput) -> (report: Option<KillFailure>)
        ensures
            failure_reported(name, output, report),
    {
        if output.success {
            None
        } else {
            let stdout: String = decode_lossy(&output.stdout);
            let stderr: String = decode_lossy(&output.stderr);
            Some(
                KillFailure {
                    name,
                    code: output.code,
                    stdout: trim(stdout.as_str()).to_owned(),
                    stderr: trim(stderr.as_str()).to_owned(),
                },
            )
        }
    }
}

/// `report` tells how the command that printed `output` failed, if it did.
pub open spec fn failure_reported(
    name: String,
    output: CommandOutput,
    report: Option<KillFailure>,
) -> bool {
    if output.success {
        report is None
    } else {
        &&& report matches Some(failure)
        &&& failure.name == name
        &&& failure.code == output.code
        &&& failure.stdout@ == text::trimmed(lossy_text(output.stdout@))
        &&& failure.stderr@ == text::trimmed(lossy_text(output.stderr@))
    }
}

/// Ending a container that was not listed before it started leaves the list as
/// it was before.
pub proof fn ending_undoes_starting(before: Set<Seq<char>>, name: Seq<char>)
    requires
        !before.contains(name),
    ensures
        before.insert(name).remove(name) == before,
{
    assert(before.insert(name).remove(name) =~= before);
}

/// A container starts or ends.
pub ghost enum Tracking {
    Started(Seq<char>),
    Ended(Seq<char>),
}

/// The containers that are listed after all of `events`.
pub open spec fn listed_after(events: Seq<Tracking>) -> Set<Seq<char>>
    decreases events.len(),
{
    if events.len() == 0 {
        Set::empty()
    } else {
        match events.last() {
            Tracking::Started(name) => listed_after(events.drop_last()).insert(name),
            Tracking::Ended(name) => listed_after(events.drop_last()).remove(name),
        }
    }
}

/// The container `name` was started, and it has not ended since.
pub open spec fn still_running(events: Seq<Tracking>, name: Seq<char>) -> bool {
    exists|i: int|
        {
            &&& 0 <= i < events.len()
            &&& #[trigger] events[i] == Tracking::Started(name)
            &&& forall|j: int|
                i < j < events.len() ==> #[trigger] events[j] != Tracking::Ended(name)
        }
}

/// A container is listed exactly as long as it runs.
pub proof fn running_containers_are_listed(events: Seq<Tracking>, name: Seq<char>)
    ensures
        listed_after(events).contains(name) <==> still_running(events, name),
    decreases events.len(),
{
    if events.len() > 0 {
        let before = events.drop_last();
        let n = events.len() - 1;
        running_containers_are_listed(before, name);
        assert(events[n] == events.last());
        assert forall|j: int| 0 <= j < n implies #[trigger] events[j] == before[j] by {}
        if events.last() == Tracking::Started(name) {
            assert(still_running(events, name));
        } else if events.last() != Tracking::Ended(name) {
            if still_running(before, name) {
                let i = choose|i: int|
                    {
                        &&& 0 <= i < before.len()
                        &&& #[trigger] before[i] == Tracking::Started(name)
                        &&& forall|j: int|
                            i < j < before.len() ==> #[trigger] before[j] != Tracking::Ended(name)
                    };
                assert(events[i] == Tracking::Started(name));
                assert forall|j: int| i < j < events.len() implies #[trigger] events[j]
                    != Tracking::Ended(name) by {
                    if j < n {
                        assert(before[j] == events[j]);
                    }
                }
            }
            if still_running(events, name) {
                let i = choose|i: int|
                    {
                        &&& 0 <= i < events.len()
                        &&& #[trigger] events[i] == Tracking::Started(name)
                        &&& forall|j: int|
                            i < j < events.len() ==> #[trigger] events[j] != Tracking::Ended(name)
                    };
                assert(before[i] == Tracking::Started(name));
                assert forall|j: int| i < j < before.len() implies #[trigger] before[j]
                    != Tracking::Ended(name) by {
                    assert(before[j] == events[j]);
                }
            }
        }
    }
}

/// A command that succeeded is not reported. One that failed is reported with the name of
/// the container, with how it exited, and with all of the text that it printed but for
/// white space around it.
pub proof fn failed_kill_is_told_whole(
    name: String,
    output: CommandOutput,
    report: Option<KillFailure>,
    before: Seq<char>,
    printed: Seq<char>,
    after: Seq<char>,
)
    requires
        failure_reported(name, output, report),
        forall|j: int| 0 <= j < before.len() ==> text::white_space(#[trigger] before[j]),
        forall|j: int| 0 <= j < after.len() ==> text::white_space(#[trigger] after[j]),
        printed.len() > 0 ==> !text::white_space(printed[0]) && !text::white_space(
            printed.last(),
        ),
    ensures
        report is None <==> output.success,
        report matches Some(failure) ==> {
            &&& failure.name@ == name@
            &&& failure.code == output.code
            &&& lossy_text(output.stdout@) == before + printed + after ==> failure.stdout@
                == printed
            &&& lossy_text(output.stderr@) == before + printed + after ==> failure.stderr@
                == printed
        },
{
    text::trimming_leaves_the_middle(before, printed, after);
}

/// Names that are in order are each listed once, and of two of them the one that is listed
/// first precedes the other.
pub proof fn ordered_names_are_listed_once(names: Seq<Seq<char>>, i: int, j: int)
    requires
        ascending(names),
        0 <= i < j < names.len(),
    ensures
        text::precedes(names[i], names[j]),
        names[i] != names[j],
        names.no_duplicates(),
{
    assert forall|a: int, b: int| 0 <= a < b < names.len() implies names[a] != names[b] by {
        assert(text::precedes(names[a], names[b]));
        text::precedes_is_irreflexive(names[a]);
    }
}

/// A container is ended at most once, by the command that it was started with, and it is
/// listed no more from then on; other containers stay listed.
pub proof fn containers_are_ended_once(
    name: String,
    command: CommandLine,
    containers: &mut TrackedContainers,
    started: (TerminateContainer, bool),
    ending: &mut TerminateContainer,
    ending_containers: &mut TrackedContainers,
    r: Option<Termination>,
    other: Seq<char>,
)
    requires
        call_ensures(TerminateContainer::new, (name, command, containers), started),
        call_ensures(TerminateContainer::terminate_now, (ending, ending_containers), r),
    ensures
        final(containers)@.contains(name@),
        other != name@ ==> final(containers)@.contains(other) == old(containers)@.contains(other),
        started.1 <==> !old(containers)@.contains(name@),
        final(ending)@ is None,
        r is Some <==> old(ending)@ is Some,
        r matches Some(end) ==> {
            &&& !final(ending_containers)@.contains(end.name@)
            &&& end.was_tracked <==> old(ending_containers)@.contains(end.name@)
            &&& other != end.name@ ==> final(ending_containers)@.contains(other) == old(
                ending_containers,
            )@.contains(other)
        },
        r is None ==> final(ending_containers)@ == old(ending_containers)@,
        old(ending)@ == started.0@ ==> (r matches Some(end) && {
            &&& end.name@ == name@
            &&& end.command.program@ == command.program@
            &&& text::texts(end.command.args@) == text::texts(command.args@)
        }),
{
}

/// A command that could not be run is told with its cause and with the name of the
/// container; one that ran is told only where it failed, with how it exited.
pub proof fn kills_are_told(
    name: String,
    output: Result<CommandOutput, OutsideError>,
    r: Result<Option<KillFailure>, TerminateContainerError>,
)
    requires
        call_ensures(TerminateContainer::killed, (name, output), r),
    ensures
        output matches Err(source) ==> (r matches Err(error) && error.name@ == name@ && error.source
            == source),
        output matches Ok(output) ==> {
            &&& r matches Ok(report)
            &&& report is None <==> output.success
            &&& report matches Some(failure) ==> failure.name@ == name@ && failure.code
                == output.code
            &&& failure_reported(name, output, report)
        },
{
}

/// Listing a name and listing it no more change nothing for other names, and each tells
/// whether it changed anything. The names come out in order, each once, and no others.
pub proof fn names_are_listed_one_by_one(
    inserting: &mut TrackedContainers,
    removing: &mut TrackedContainers,
    name: &str,
    was_inserted: bool,
    was_tracked: bool,
    containers: &TrackedContainers,
    names: &Vec<String>,
    other: Seq<char>,
)
    requires
        call_ensures(TrackedContainers::insert, (inserting, name), was_inserted),
        call_ensures(TrackedContainers::remove, (removing, name), was_tracked),
        call_ensures(TrackedContainers::names, (containers,), names),
    ensures
        final(inserting)@.contains(other) <==> old(inserting)@.contains(other) || other == name@,
        was_inserted <==> !old(inserting)@.contains(name@),
        final(removing)@.contains(other) <==> old(removing)@.contains(other) && other != name@,
        was_tracked <==> old(removing)@.contains(name@),
        containers@.contains(other) <==> exists|i: int|
            0 <= i < names@.len() && (#[trigger] names@[i])@ == other,
        forall|i: int, j: int|
            0 <= i < j < names@.len() ==> text::precedes(
                (#[trigger] names@[i])@,
                (#[trigger] names@[j])@,
            ),
{
    let listed = text::texts(names@);
    assert forall|i: int| 0 <= i < listed.len() implies #[trigger] listed[i] == names@[i]@ by {}
    if containers@.contains(other) {
        let i = choose|i: int| 0 <= i < listed.len() && listed[i] == other;
        assert(names@[i]@ == other);
    }
    if exists|i: int| 0 <= i < names@.len() && (#[trigger] names@[i])@ == other {
        let i = choose|i: int| 0 <= i < names@.len() && (#[trigger] names@[i])@ == other;
        assert(listed[i] == other);
        assert(listed.contains(other));
    }
    assert forall|i: int, j: int| 0 <= i < j < names@.len() implies text::precedes(
        (#[trigger] names@[i])@,
        (#[trigger] names@[j])@,
    ) by {
        assert(text::precedes(listed[i], listed[j]));
    }
}

} // verus!
