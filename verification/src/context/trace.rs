//! Whole runs of the loop of a context, and what holds of all of them.
//!
//! A run is what a host goes through between entering the loop and leaving
//! it. Here it is a function of the context and of what the delegate does in
//! each tick, built from the steps of the context alone.

use vstd::prelude::*;
use crate::context::{Event, State, Step};

verus! {

/// What the delegate does in one tick, as far as the loop can tell.
pub struct Tick {
    /// Whether `update` asked the context for shutdown.
    pub update_stops: bool,
    /// Whether `render` asked the context for shutdown.
    pub render_stops: bool,
}

impl Tick {
    /// Whether the loop ends with this tick: one of the two hooks asked for
    /// shutdown.
    pub open spec fn stops(self) -> bool {
        self.update_stops || self.render_stops
    }
}

/// One thing that the host does in the course of a run.
pub enum Action {
    /// It opens a frame on the driver.
    BeginFrame,
    /// It calls `update` on the delegate.
    Update,
    /// It calls `render` on the delegate.
    Render,
    /// It closes the frame on the driver.
    EndFrame,
}

/// A run of the loop.
pub struct Run {
    /// What the host did, in order.
    pub actions: Seq<Action>,
    /// The context as the run leaves it.
    pub state: State,
    /// Whether the loop has ended. It has not where the ticks were used up
    /// before.
    pub finished: bool,
}

impl Run {
    /// This run with `action` before it.
    pub open spec fn after(self, action: Action) -> Run {
        Run { actions: seq![action] + self.actions, state: self.state, finished: self.finished }
    }
}

/// The state as a hook of the delegate leaves it.
pub open spec fn leaves(state: State, stops: bool) -> State {
    if stops {
        state.shutdown()
    } else {
        state
    }
}

/// How far a step is from the end of its tick.
pub open spec fn distance(step: Step) -> nat {
    match step {
        Step::EndFrame => 3,
        Step::BeginFrame => 2,
        Step::Update { .. } => 1,
        Step::Render { .. } => 0,
        Step::Finish => 0,
    }
}

/// The run that begins with `step` in `state`, where the delegate does what
/// `ticks` say, one tick after the other.
pub open spec fn play(state: State, step: Step, ticks: Seq<Tick>) -> Run
    decreases ticks.len(), distance(step),
{
    match step {
        Step::Finish => Run { actions: seq![], state, finished: true },
        Step::BeginFrame => play(state, state.next(Event::FrameBegun), ticks).after(
            Action::BeginFrame,
        ),
        Step::EndFrame => play(state, state.next(Event::FrameEnded), ticks).after(
            Action::EndFrame,
        ),
        Step::Update { framed } => if ticks.len() == 0 {
            Run { actions: seq![], state, finished: false }
        } else {
            let state = leaves(state, ticks[0].update_stops);
            play(state, state.next(Event::Updated { framed }), ticks).after(Action::Update)
        },
        Step::Render { framed } => if ticks.len() == 0 {
            Run { actions: seq![], state, finished: false }
        } else {
            let state = leaves(state, ticks[0].render_stops);
            play(state, state.next(Event::Rendered { framed }), ticks.drop_first()).after(
                Action::Render,
            )
        },
    }
}

/// The run of the loop on a context in `state`: it enters the loop and
/// follows the steps from there.
pub open spec fn run(state: State, ticks: Seq<Tick>) -> Run {
    play(state.start().0, state.start().1, ticks)
}

/// What the host does in one tick: the two calls, inside a frame where the
/// context has video.
pub open spec fn tick_actions(video: bool) -> Seq<Action> {
    if video {
        seq![Action::BeginFrame, Action::Update, Action::Render, Action::EndFrame]
    } else {
        seq![Action::Update, Action::Render]
    }
}

/// What the host does in a run of `n` ticks.
pub open spec fn run_actions(video: bool, n: nat) -> Seq<Action>
    decreases n,
{
    if n == 0 {
        seq![]
    } else {
        tick_actions(video) + run_actions(video, (n - 1) as nat)
    }
}

/// Whether tick `k` is the first of `ticks` with which the loop ends.
pub open spec fn first_stop(ticks: Seq<Tick>, k: int) -> bool {
    &&& 0 <= k < ticks.len()
    &&& ticks[k].stops()
    &&& forall|i: int| 0 <= i < k ==> !(#[trigger] ticks[i]).stops()
}

proof fn lemma_play_to_stop(state: State, ticks: Seq<Tick>, k: int)
    requires
        state.running,
        first_stop(ticks, k),
    ensures
        play(state, state.tick(), ticks) == (Run {
            actions: run_actions(state.video, (k + 1) as nat),
            state: state.shutdown(),
            finished: true,
        }),
    decreases k,
{
    reveal_with_fuel(play, 5);
    reveal_with_fuel(run_actions, 2);
    let rest = ticks.drop_first();
    if k > 0 {
        assert(!ticks[0].stops());
        assert(first_stop(rest, k - 1)) by {
            assert(rest[k - 1] == ticks[k]);
            assert forall|i: int| 0 <= i < k - 1 implies !(#[trigger] rest[i]).stops() by {
                assert(rest[i] == ticks[i + 1]);
            }
        }
        lemma_play_to_stop(state, rest, k - 1);
    }
    assert(play(state, state.tick(), ticks).actions =~= run_actions(
        state.video,
        (k + 1) as nat,
    ));
}

/// The loop ends with the first tick in which a hook of the delegate asks
/// for shutdown, and that tick still runs to its end. In every tick the host
/// calls `update` and then `render`, inside a frame if the context has video
/// and with no frame hook at all if it has none. The run leaves the context
/// not running, and it goes the same way whether the context was running
/// before or not.
pub proof fn law_run_ends_at_first_stop(state: State, ticks: Seq<Tick>, k: int)
    requires
        first_stop(ticks, k),
    ensures
        run(state, ticks) == (Run {
            actions: run_actions(state.video, (k + 1) as nat),
            state: state.shutdown(),
            finished: true,
        }),
{
    lemma_play_to_stop(state.start().0, ticks, k);
}

proof fn lemma_play_without_stop(state: State, ticks: Seq<Tick>)
    requires
        state.running,
        forall|i: int| 0 <= i < ticks.len() ==> !(#[trigger] ticks[i]).stops(),
    ensures
        play(state, state.tick(), ticks).state == state,
        !play(state, state.tick(), ticks).finished,
    decreases ticks.len(),
{
    reveal_with_fuel(play, 5);
    if ticks.len() > 0 {
        let rest = ticks.drop_first();
        assert(!ticks[0].stops());
        assert forall|i: int| 0 <= i < rest.len() implies !(#[trigger] rest[i]).stops() by {
            assert(rest[i] == ticks[i + 1]);
        }
        lemma_play_without_stop(state, rest);
    }
}

/// Nothing ends the loop but a request for shutdown: while the delegate
/// makes none, the loop does not end and the context stays running.
pub proof fn law_run_goes_on(state: State, ticks: Seq<Tick>)
    requires
        forall|i: int| 0 <= i < ticks.len() ==> !(#[trigger] ticks[i]).stops(),
    ensures
        !run(state, ticks).finished,
        run(state, ticks).state.running,
{
    lemma_play_without_stop(state.start().0, ticks);
}

} // verus!
