//! The cross-thread bridge: a two-state machine that forwards the worker
//! thread's event stream to a single consumer without blocking it. The
//! channel itself and the consumer's scheduler live with the caller; this
//! module decides what each channel outcome means.

use crate::events::WaylandUpdate;
use vstd::prelude::*;

verus! {

/// Subscription state: Waiting forwards channel items as they come; channel
/// closure emits Finished and moves to the terminal Finished state, which
/// suspends forever.
#[derive(Debug, Clone, Copy, PartialEq, Eq, Structural)]
pub enum State {
    Waiting,
    Finished,
}

impl State {
    /// One step of the machine on a channel outcome: an item received, or
    /// `None` for channel closure.
    pub open spec fn spec_step(self, received: Option<WaylandUpdate>) -> (State, Option<
        WaylandUpdate,
    >) {
        match self {
            State::Waiting => match received {
                Some(update) => (State::Waiting, Some(update)),
                None => (State::Finished, Some(WaylandUpdate::Finished)),
            },
            State::Finished => (State::Finished, None),
        }
    }

    /// Drive the machine by one channel outcome; what comes back is the next
    /// state and the event to forward to the consumer, if any.
    pub fn step(self, received: Option<WaylandUpdate>) -> (r: (State, Option<WaylandUpdate>))
        ensures
            r == self.spec_step(received),
    {
        match self {
            State::Waiting => match received {
                Some(update) => (State::Waiting, Some(update)),
                None => (State::Finished, Some(WaylandUpdate::Finished)),
            },
            State::Finished => (State::Finished, None),
        }
    }
}

/// What subscribing does before the first receive: spawn the worker thread
/// if nobody has, and emit Init exactly on that first spawn.
pub fn on_subscribe(worker_started: bool) -> (r: (bool, Option<WaylandUpdate>))
    ensures
        r.0 == !worker_started,
        worker_started ==> r.1 is None,
        !worker_started ==> r.1 == Some(WaylandUpdate::Init),
{
    if worker_started {
        (false, None)
    } else {
        (true, Some(WaylandUpdate::Init))
    }
}

/// Everything the machine forwards to the consumer when fed the scripted
/// channel outcomes in order, starting from `s`.
pub open spec fn run(s: State, script: Seq<Option<WaylandUpdate>>) -> Seq<WaylandUpdate>
    decreases script.len(),
{
    if script.len() == 0 {
        Seq::empty()
    } else {
        let step = s.spec_step(script.first());
        let rest = run(step.0, script.drop_first());
        match step.1 {
            Some(update) => seq![update] + rest,
            None => rest,
        }
    }
}

/// Delivery ordering: fed the items the worker produced, in production
/// order, the machine forwards exactly that sequence to the consumer, in
/// that order, with no duplication or drop.
pub proof fn lemma_delivery_order(produced: Seq<WaylandUpdate>)
    ensures
        run(State::Waiting, produced.map_values(|u: WaylandUpdate| Some(u))) == produced,
    decreases produced.len(),
{
    let script = produced.map_values(|u: WaylandUpdate| Some(u));
    if produced.len() == 0 {
        assert(run(State::Waiting, script) =~= produced);
    } else {
        lemma_delivery_order(produced.drop_first());
        assert(script.drop_first() =~= produced.drop_first().map_values(
            |u: WaylandUpdate| Some(u),
        ));
        assert(run(State::Waiting, script) =~= produced);
    }
}

/// Once Finished, the machine emits nothing, whatever else the script
/// holds.
pub proof fn lemma_finished_silent(script: Seq<Option<WaylandUpdate>>)
    ensures
        run(State::Finished, script) == Seq::<WaylandUpdate>::empty(),
    decreases script.len(),
{
    if script.len() > 0 {
        lemma_finished_silent(script.drop_first());
        assert(run(State::Finished, script) =~= Seq::<WaylandUpdate>::empty());
    }
}

/// Channel closure after the produced items: the consumer observes the
/// produced sequence, then exactly one Finished event, then nothing more,
/// however long the script goes on.
pub proof fn lemma_closure_emits_finished_once(
    produced: Seq<WaylandUpdate>,
    after: Seq<Option<WaylandUpdate>>,
)
    ensures
        run(
            State::Waiting,
            produced.map_values(|u: WaylandUpdate| Some(u)) + seq![
                Option::<WaylandUpdate>::None,
            ] + after,
        ) == produced.push(WaylandUpdate::Finished),
    decreases produced.len(),
{
    let script = produced.map_values(|u: WaylandUpdate| Some(u)) + seq![
        Option::<WaylandUpdate>::None,
    ] + after;
    if produced.len() == 0 {
        assert(script.first() is None);
        lemma_finished_silent(script.drop_first());
        assert(run(State::Waiting, script) =~= produced.push(WaylandUpdate::Finished));
    } else {
        lemma_closure_emits_finished_once(produced.drop_first(), after);
        assert(script.first() == Some(produced.first()));
        assert(script.drop_first() =~= produced.drop_first().map_values(
            |u: WaylandUpdate| Some(u),
        ) + seq![Option::<WaylandUpdate>::None] + after);
        assert(run(State::Waiting, script) =~= produced.push(WaylandUpdate::Finished));
    }
}

} // verus!
