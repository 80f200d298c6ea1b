//! The containers of all coordinators that share their resource limits.
use crate::coordinator::container::{Startup, StartupAction, StartupEvent};
use vstd::prelude::*;

verus! {

/// Something happens to the container of one of the coordinators.
pub ghost enum FleetStep<P> {
    /// The container of the coordinator starts: what happens to it, and what is
    /// done then.
    Starts(nat, StartupEvent<P>, StartupAction<P>),
    /// The start of the container of the coordinator is dropped halfway.
    Drops(nat),
    /// The coordinator gives its container up.
    Idles(nat),
}

/// The containers of the coordinators: those that start, and the permits of those
/// that run.
pub ghost struct Fleet<P> {
    pub starting: Map<nat, Startup<P>>,
    pub running: Map<nat, P>,
}

impl<P> Fleet<P> {
    /// No coordinator has a container.
    pub open spec fn nothing() -> Fleet<P> {
        Fleet { starting: Map::empty(), running: Map::empty() }
    }

    /// What the container of coordinator `n` waits for, which does not run.
    pub open spec fn startup(self, n: nat) -> Startup<P> {
        if self.starting.dom().contains(n) {
            self.starting[n]
        } else {
            Startup::Permit
        }
    }

    /// Whether `step` can happen now: a coordinator starts a container only where
    /// it has none, and as a container starts.
    pub open spec fn allows(self, step: FleetStep<P>) -> bool {
        match step {
            FleetStep::Starts(n, event, action) => {
                &&& !self.running.dom().contains(n)
                &&& self.startup(n).expects(event)
                &&& self.startup(n).reaction(event, action)
            },
            FleetStep::Drops(_) => true,
            FleetStep::Idles(_) => true,
        }
    }

    /// The containers after `step`.
    pub open spec fn after(self, step: FleetStep<P>) -> Fleet<P> {
        match step {
            FleetStep::Starts(n, event, action) => match action {
                StartupAction::Ready { permit, .. } => Fleet {
                    starting: self.starting.remove(n),
                    running: self.running.insert(n, permit),
                },
                StartupAction::Fail(_) => Fleet { starting: self.starting.remove(n), ..self },
                _ => Fleet {
                    starting: self.starting.insert(n, self.startup(n).after(event)),
                    ..self
                },
            },
            FleetStep::Drops(n) => Fleet { starting: self.starting.remove(n), ..self },
            FleetStep::Idles(n) => Fleet { running: self.running.remove(n), ..self },
        }
    }

    /// How many permits are given out in `step`.
    pub open spec fn granted(self, step: FleetStep<P>) -> int {
        match step {
            FleetStep::Starts(_, StartupEvent::Permitted(Ok(_)), _) => 1,
            _ => 0,
        }
    }

    /// How many permits go back in `step`.
    pub open spec fn returned(self, step: FleetStep<P>) -> int {
        match step {
            FleetStep::Starts(n, _, StartupAction::Fail(_)) => if self.startup(n).held() is Some {
                1
            } else {
                0
            },
            FleetStep::Drops(n) => if self.startup(n).held() is Some {
                1
            } else {
                0
            },
            FleetStep::Idles(n) => if self.running.dom().contains(n) {
                1
            } else {
                0
            },
            _ => 0,
        }
    }
}

/// The containers after all of `steps`, one after another.
pub open spec fn fleet_after<P>(steps: Seq<FleetStep<P>>) -> Fleet<P>
    decreases steps.len(),
{
    if steps.len() == 0 {
        Fleet::nothing()
    } else {
        fleet_after(steps.drop_last()).after(steps.last())
    }
}

/// Whether `steps` can happen, one after another.
pub open spec fn fleet_allows<P>(steps: Seq<FleetStep<P>>) -> bool
    decreases steps.len(),
{
    steps.len() > 0 ==> {
        &&& fleet_allows(steps.drop_last())
        &&& fleet_after(steps.drop_last()).allows(steps.last())
    }
}

/// How many permits are out after all of `steps`.
pub open spec fn permits_out<P>(steps: Seq<FleetStep<P>>) -> int
    decreases steps.len(),
{
    if steps.len() == 0 {
        0
    } else {
        let before = fleet_after(steps.drop_last());
        permits_out(steps.drop_last()) + before.granted(steps.last()) - before.returned(
            steps.last(),
        )
    }
}

/// `permit` was given to coordinator `n` in one of `steps`.
pub open spec fn was_granted<P>(steps: Seq<FleetStep<P>>, n: nat, permit: P) -> bool {
    exists|i: int|
        {
            &&& 0 <= i < steps.len()
            &&& #[trigger] steps[i] matches FleetStep::Starts(m, event, _)
            &&& m == n
            &&& event == StartupEvent::<P>::Permitted(Ok(permit))
        }
}

proof fn lemma_granted_stays<P>(steps: Seq<FleetStep<P>>, n: nat, permit: P)
    requires
        steps.len() > 0,
        was_granted(steps.drop_last(), n, permit),
    ensures
        was_granted(steps, n, permit),
{
    let before = steps.drop_last();
    let i = choose|i: int|
        {
            &&& 0 <= i < before.len()
            &&& #[trigger] before[i] matches FleetStep::Starts(m, event, _)
            &&& m == n
            &&& event == StartupEvent::<P>::Permitted(Ok(permit))
        };
    assert(steps[i] == before[i]);
}

/// Every container that runs, or has its worker started, holds a permit that its
/// coordinator was given for it, and each of these permits is out. So there are
/// never more containers than permits that were given out and have not gone back.
pub proof fn containers_never_outnumber_permits<P>(steps: Seq<FleetStep<P>>)
    requires
        fleet_allows(steps),
    ensures
        ({
            let fleet = fleet_after(steps);
            &&& fleet.running.dom().finite()
            &&& fleet.starting.dom().finite()
            &&& fleet.running.dom().disjoint(fleet.starting.dom())
            &&& fleet.running.dom().len() + fleet.starting.dom().len() == permits_out(steps)
            &&& fleet.running.dom().len() <= permits_out(steps)
            &&& forall|n: nat| #[trigger]
                fleet.running.dom().contains(n) ==> was_granted(steps, n, fleet.running[n])
            &&& forall|n: nat| #[trigger]
                fleet.starting.dom().contains(n) ==> {
                    &&& fleet.starting[n].held() is Some
                    &&& was_granted(steps, n, fleet.starting[n].held()->0)
                }
        }),
    decreases steps.len(),
{
    if steps.len() > 0 {
        let before = steps.drop_last();
        let was = fleet_after(before);
        let now = fleet_after(steps);
        let last = steps.last();
        containers_never_outnumber_permits(before);
        assert(steps[steps.len() - 1] == last);
        assert forall|n: nat, permit: P| #[trigger]
            was_granted(before, n, permit) implies was_granted(steps, n, permit) by {
            lemma_granted_stays(steps, n, permit);
        }
        match last {
            FleetStep::Starts(n, event, action) => {
                let state = was.startup(n);
                if was.starting.dom().contains(n) {
                    assert(state.held() is Some);
                    assert(was_granted(before, n, state.held()->0));
                    assert(was_granted(steps, n, state.held()->0));
                } else {
                    assert(state is Permit);
                }
                if let StartupEvent::Permitted(Ok(permit)) = event {
                    assert(was_granted(steps, n, permit));
                }
                match action {
                    StartupAction::Ready { permit, .. } => {
                        assert(state is Manifest);
                        assert(now.starting.dom() =~= was.starting.dom().remove(n));
                        assert(now.running.dom() =~= was.running.dom().insert(n));
                    },
                    StartupAction::Fail(_) => {
                        assert(now.starting.dom() =~= was.starting.dom().remove(n));
                    },
                    _ => {
                        assert(now.starting.dom() =~= was.starting.dom().insert(n));
                        assert(state.after(event).held() is Some);
                    },
                }
                assert forall|m: nat| #[trigger] now.running.dom().contains(m) implies was_granted(
                    steps,
                    m,
                    now.running[m],
                ) by {
                    if was.running.dom().contains(m) {
                        assert(was_granted(before, m, was.running[m]));
                    }
                }
                assert forall|m: nat| #[trigger] now.starting.dom().contains(m) implies {
                    &&& now.starting[m].held() is Some
                    &&& was_granted(steps, m, now.starting[m].held()->0)
                } by {
                    if m != n {
                        assert(was.starting.dom().contains(m));
                        assert(was_granted(before, m, was.starting[m].held()->0));
                    }
                }
            },
            FleetStep::Drops(n) => {
                assert(now.starting.dom() =~= was.starting.dom().remove(n));
                assert forall|m: nat| #[trigger] now.running.dom().contains(m) implies was_granted(
                    steps,
                    m,
                    now.running[m],
                ) by {
                    assert(was_granted(before, m, was.running[m]));
                }
                assert forall|m: nat| #[trigger] now.starting.dom().contains(m) implies {
                    &&& now.starting[m].held() is Some
                    &&& was_granted(steps, m, now.starting[m].held()->0)
                } by {
                    assert(was.starting.dom().contains(m));
                    assert(was_granted(before, m, was.starting[m].held()->0));
                }
            },
            FleetStep::Idles(n) => {
                assert(now.running.dom() =~= was.running.dom().remove(n));
                assert forall|m: nat| #[trigger] now.running.dom().contains(m) implies was_granted(
                    steps,
                    m,
                    now.running[m],
                ) by {
                    assert(was_granted(before, m, was.running[m]));
                }
                assert forall|m: nat| #[trigger] now.starting.dom().contains(m) implies {
                    &&& now.starting[m].held() is Some
                    &&& was_granted(steps, m, now.starting[m].held()->0)
                } by {
                    assert(was_granted(before, m, was.starting[m].held()->0));
                }
            },
        }
    }
}

} // verus!
