//! The handshake that brings an engine instance up, as a state machine.
//!
//! Two of its steps wait on the JavaScript runtime, so the waiting is the
//! driver's: it asks the machine what to do, does it, and reports what
//! happened. The machine keeps the order. The steps are
//!
//! 1. look the engine's entry point up in the global scope;
//! 2. call the engine module's warm-up entry point and wait for it to settle;
//! 3. call the entry point's instance-producing method and wait for it;
//! 4. check that what it produced is an engine instance.
//!
//! Step 2 looks like dead code and is not. Without it the values that the
//! runtime hands out afterwards come back `undefined`, for a reason that is
//! not understood. It runs once, before step 3, and how it settles is
//! ignored. Do not remove it.

use crate::fault::BindingFault;
use vstd::prelude::*;

verus! {

/// Where a handshake stands.
#[derive(Clone, Copy, Debug, PartialEq, Eq, Structural)]
pub enum Phase {
    /// Nothing has been done yet.
    Locating,
    /// The entry point is there; the warm-up call has not settled.
    WarmingUp,
    /// The warm-up call has settled; the instance has not been produced.
    Producing,
    /// The instance is there and has the right shape.
    Ready,
    /// The handshake has failed, for good.
    Failed(BindingFault),
}

/// What the driver reports back.
#[derive(Clone, Copy, Debug, PartialEq, Eq, Structural)]
pub enum Event {
    /// The lookup was made. `found` says whether the global scope had the
    /// expected shape.
    Located { found: bool },
    /// The warm-up call has settled. `fulfilled` says how.
    WarmedUp { fulfilled: bool },
    /// The instance-producing call has settled. `shaped` says whether it gave
    /// a value of the shape of an engine instance.
    Produced { shaped: bool },
}

/// What the driver has to do next.
#[derive(Clone, Copy, Debug, PartialEq, Eq, Structural)]
pub enum Action {
    /// Look the entry point up and report [`Event::Located`].
    Locate,
    /// Make the warm-up call, wait for it and report [`Event::WarmedUp`].
    WarmUp,
    /// Make the instance-producing call, wait for it and report
    /// [`Event::Produced`].
    Produce,
    /// Hand the instance to the caller.
    Deliver,
    /// Abort with the fault.
    Abort(BindingFault),
}

/// The action that a phase asks for.
pub open spec fn action_of(phase: Phase) -> Action {
    match phase {
        Phase::Locating => Action::Locate,
        Phase::WarmingUp => Action::WarmUp,
        Phase::Producing => Action::Produce,
        Phase::Ready => Action::Deliver,
        Phase::Failed(fault) => Action::Abort(fault),
    }
}

/// Whether a phase is an end: nothing moves a handshake out of it.
pub open spec fn is_final(phase: Phase) -> bool {
    phase is Ready || phase is Failed
}

/// The phase after an event. An event that answers the pending action moves
/// the handshake on, or fails it where a shape was wrong. An event that
/// answers another action fails it as out of turn. How the warm-up call
/// settled changes nothing.
pub open spec fn step(phase: Phase, event: Event) -> Phase {
    match (phase, event) {
        (Phase::Ready, _) => phase,
        (Phase::Failed(_), _) => phase,
        (Phase::Locating, Event::Located { found }) => if found {
            Phase::WarmingUp
        } else {
            Phase::Failed(BindingFault::NotInitialized)
        },
        (Phase::WarmingUp, Event::WarmedUp { .. }) => Phase::Producing,
        (Phase::Producing, Event::Produced { shaped }) => if shaped {
            Phase::Ready
        } else {
            Phase::Failed(BindingFault::NotInitialized)
        },
        _ => Phase::Failed(BindingFault::OutOfTurn),
    }
}

/// The phase after a run of events, from the start.
pub open spec fn run(events: Seq<Event>) -> Phase
    decreases events.len(),
{
    if events.len() == 0 {
        Phase::Locating
    } else {
        step(run(events.drop_last()), events.last())
    }
}

/// How far a phase is along the handshake.
pub open spec fn progress(phase: Phase) -> nat {
    match phase {
        Phase::Locating => 0,
        Phase::WarmingUp => 1,
        Phase::Producing => 2,
        Phase::Ready => 3,
        Phase::Failed(_) => 3,
    }
}

/// One handshake. Handshakes share nothing: any number may run side by side.
#[derive(Debug)]
pub struct Bootstrap {
    phase: Phase,
}

impl View for Bootstrap {
    type V = Phase;

    closed spec fn view(&self) -> Phase {
        self.phase
    }
}

impl Bootstrap {
    /// A handshake of which nothing has been done.
    pub fn begin() -> (handshake: Bootstrap)
        ensures
            handshake@ == Phase::Locating,
    {
        Bootstrap { phase: Phase::Locating }
    }

    /// Where the handshake stands.
    pub fn phase(&self) -> (phase: Phase)
        ensures
            phase == self@,
    {
        self.phase
    }

    /// What the driver has to do now.
    pub fn pending(&self) -> (action: Action)
        ensures
            action == action_of(self@),
    {
        match self.phase {
            Phase::Locating => Action::Locate,
            Phase::WarmingUp => Action::WarmUp,
            Phase::Producing => Action::Produce,
            Phase::Ready => Action::Deliver,
            Phase::Failed(fault) => Action::Abort(fault),
        }
    }

    /// Whether the handshake has ended, well or badly.
    pub fn is_over(&self) -> (over: bool)
        ensures
            over == is_final(self@),
    {
        match self.phase {
            Phase::Ready => true,
            Phase::Failed(_) => true,
            _ => false,
        }
    }

    /// Takes in what the driver reports and returns what it has to do next.
    pub fn advance(&mut self, event: Event) -> (action: Action)
        ensures
            final(self)@ == step(old(self)@, event),
            action == action_of(final(self)@),
    {
        let next = match self.phase {
            Phase::Ready => Phase::Ready,
            Phase::Failed(fault) => Phase::Failed(fault),
            Phase::Locating => match event {
                Event::Located { found: true } => Phase::WarmingUp,
                Event::Located { found: false } => Phase::Failed(BindingFault::NotInitialized),
                _ => Phase::Failed(BindingFault::OutOfTurn),
            },
            Phase::WarmingUp => match event {
                Event::WarmedUp { .. } => Phase::Producing,
                _ => Phase::Failed(BindingFault::OutOfTurn),
            },
            Phase::Producing => match event {
                Event::Produced { shaped: true } => Phase::Ready,
                Event::Produced { shaped: false } => Phase::Failed(BindingFault::NotInitialized),
                _ => Phase::Failed(BindingFault::OutOfTurn),
            },
        };
        self.phase = next;
        self.pending()
    }
}

/// An event that does not end the handshake moves it exactly one step on, and
/// no event moves it back.
pub proof fn lemma_step_moves_forward(phase: Phase, event: Event)
    ensures
        progress(step(phase, event)) >= progress(phase),
        !is_final(phase) ==> is_final(step(phase, event)) || progress(step(phase, event))
            == progress(phase) + 1,
        is_final(phase) ==> step(phase, event) == phase,
{
}

/// How the warm-up call settles is never seen: both outcomes lead to the same
/// phase, whatever phase the handshake is in, and where the warm-up call was
/// pending that phase is the one that asks for the instance.
pub proof fn lemma_warm_up_outcome_is_ignored(phase: Phase, one: bool, other: bool)
    ensures
        step(phase, Event::WarmedUp { fulfilled: one }) == step(
            phase,
            Event::WarmedUp { fulfilled: other },
        ),
        phase == Phase::WarmingUp ==> step(phase, Event::WarmedUp { fulfilled: one })
            == Phase::Producing,
{
}

/// After `n` events a handshake that has not ended has made exactly `n`
/// steps.
pub proof fn lemma_run_counts_steps(events: Seq<Event>)
    ensures
        !is_final(run(events)) ==> progress(run(events)) == events.len(),
        progress(run(events)) <= events.len() || run(events) is Failed,
    decreases events.len(),
{
    if events.len() > 0 {
        lemma_run_counts_steps(events.drop_last());
        lemma_step_moves_forward(run(events.drop_last()), events.last());
    }
}

/// Taking the first `n` events of a run and then one more is taking the first
/// `n + 1`.
proof fn lemma_run_unfolds(events: Seq<Event>, n: int)
    requires
        0 <= n < events.len(),
    ensures
        run(events.take(n + 1)) == step(run(events.take(n)), events[n]),
{
    assert(events.take(n + 1).drop_last() =~= events.take(n));
    assert(events.take(n + 1).last() == events[n]);
}

/// Once a handshake has ended, more events change nothing.
pub proof fn lemma_end_is_kept(events: Seq<Event>, n: int)
    requires
        0 <= n <= events.len(),
        is_final(run(events.take(n))),
    ensures
        run(events) == run(events.take(n)),
    decreases events.len() - n,
{
    if n == events.len() {
        assert(events.take(n) =~= events);
    } else {
        lemma_run_unfolds(events, n);
        lemma_end_is_kept(events, n + 1);
    }
}

/// A handshake is ready only by the protocol: the first three events are the
/// lookup that found the entry point, the warm-up call settling, and the
/// instance-producing call giving a value of the right shape, in this order.
/// So the instance-producing call is never made before the warm-up call has
/// settled, and the warm-up call is answered once.
pub proof fn lemma_ready_only_by_protocol(events: Seq<Event>)
    requires
        run(events) == Phase::Ready,
    ensures
        events.len() >= 3,
        events[0] == (Event::Located { found: true }),
        events[1] is WarmedUp,
        events[2] == (Event::Produced { shaped: true }),
        run(events.take(0)) == Phase::Locating,
        run(events.take(1)) == Phase::WarmingUp,
        run(events.take(2)) == Phase::Producing,
        run(events.take(3)) == Phase::Ready,
{
    assert(events.take(0) =~= Seq::<Event>::empty());
    lemma_ready_needs_three(events);
    lemma_run_unfolds(events, 0);
    lemma_run_unfolds(events, 1);
    lemma_run_unfolds(events, 2);
    if is_final(run(events.take(1))) {
        lemma_end_is_kept(events, 1);
    }
    if is_final(run(events.take(2))) {
        lemma_end_is_kept(events, 2);
    }
    lemma_end_is_kept(events, 3);
}

/// Fewer than three events do not make a handshake ready.
proof fn lemma_ready_needs_three(events: Seq<Event>)
    requires
        run(events) == Phase::Ready,
    ensures
        events.len() >= 3,
    decreases events.len(),
{
    if events.len() > 0 {
        let before = events.drop_last();
        if run(before) == Phase::Ready {
            lemma_ready_needs_three(before);
        } else {
            lemma_run_counts_steps(before);
        }
    }
}

/// On every path, each of the three actions that reach into the runtime is
/// pending at most once: a phase that asks for one is never entered twice.
pub proof fn lemma_each_action_once(events: Seq<Event>, i: int, j: int)
    requires
        0 <= i < j <= events.len(),
        !is_final(run(events.take(i))),
    ensures
        run(events.take(j)) != run(events.take(i)),
        progress(run(events.take(j))) > progress(run(events.take(i))),
    decreases j - i,
{
    lemma_run_unfolds(events, i);
    lemma_step_moves_forward(run(events.take(i)), events[i]);
    if i + 1 < j {
        let next = run(events.take(i + 1));
        if is_final(next) {
            assert(events.take(j).take(i + 1) =~= events.take(i + 1));
            lemma_end_is_kept(events.take(j), i + 1);
        } else {
            lemma_each_action_once(events, i + 1, j);
        }
    }
}

} // verus!
