//! Whole runs of the loop, and what holds of all of them.
//!
//! A run is what a host goes through between entering the loop and leaving
//! it. Here it is a function of the runtime and of what each call of the
//! callback does, built from the steps of the runtime alone.

use vstd::prelude::*;
use crate::runtime::{Event, State, Step};

verus! {

/// What one call of the callback does, as far as the loop can tell.
pub struct Tick<E> {
    /// Whether the callback asked the runtime for shutdown.
    pub shutdown: bool,
    /// What the callback returned.
    pub result: Result<(), E>,
}

impl<E> Tick<E> {
    /// Whether the loop ends with this tick: the callback asked for
    /// shutdown, or it failed.
    pub open spec fn stops(self) -> bool {
        self.shutdown || self.result is Err
    }

    /// The runtime as the callback leaves it.
    pub open spec fn leaves(self, state: State) -> State {
        if self.shutdown {
            state.shutdown()
        } else {
            state
        }
    }
}

/// One thing that the host does in the course of a run.
pub enum Action {
    /// It opens a frame on the driver.
    BeginFrame,
    /// It calls the callback.
    Invoke,
    /// It closes the frame on the driver.
    EndFrame,
}

/// A run of the loop.
pub struct Run<E> {
    /// What the host did, in order.
    pub actions: Seq<Action>,
    /// The runtime as the run leaves it.
    pub state: State,
    /// What the loop returned, or `None` where the ticks were used up
    /// before the loop ended.
    pub result: Option<Result<(), E>>,
}

impl<E> Run<E> {
    /// This run with `action` before it.
    pub open spec fn after(self, action: Action) -> Run<E> {
        Run { actions: seq![action] + self.actions, state: self.state, result: self.result }
    }
}

/// How far a step is from the next call of the callback.
pub open spec fn distance<E>(step: Step<E>) -> nat {
    match step {
        Step::EndFrame { .. } => 2,
        Step::BeginFrame => 1,
        Step::Invoke { .. } => 0,
        Step::Finish { .. } => 0,
    }
}

/// The run that begins with `step` in `state`, where the calls of the
/// callback do what `ticks` say, one after the other.
pub open spec fn play<E>(state: State, step: Step<E>, ticks: Seq<Tick<E>>) -> Run<E>
    decreases ticks.len(), distance(step),
{
    match step {
        Step::Finish { result } => Run { actions: seq![], state, result: Some(result) },
        Step::BeginFrame => {
            let (state, step) = state.next(Event::<E>::FrameBegun);
            play(state, step, ticks).after(Action::BeginFrame)
        },
        Step::EndFrame { result } => {
            let (state, step) = state.next(Event::FrameEnded { result });
            play(state, step, ticks).after(Action::EndFrame)
        },
        Step::Invoke { framed } => if ticks.len() == 0 {
            Run { actions: seq![], state, result: None }
        } else {
            let (state, step) = ticks[0].leaves(state).next(
                Event::Returned { framed, result: ticks[0].result },
            );
            play(state, step, ticks.drop_first()).after(Action::Invoke)
        },
    }
}

/// The run of the loop on a runtime in `state`: it enters the loop and
/// follows the steps from there.
pub open spec fn run<E>(state: State, ticks: Seq<Tick<E>>) -> Run<E> {
    play(state.start(), Step::Invoke { framed: false }, ticks)
}

/// What the host does in one tick after the first: the call of the callback,
/// inside a frame where the runtime has video.
pub open spec fn tick_actions(video: bool) -> Seq<Action> {
    if video {
        seq![Action::BeginFrame, Action::Invoke, Action::EndFrame]
    } else {
        seq![Action::Invoke]
    }
}

/// What the host does in `n` ticks that follow the first.
pub open spec fn later_ticks(video: bool, n: nat) -> Seq<Action>
    decreases n,
{
    if n == 0 {
        seq![]
    } else {
        tick_actions(video) + later_ticks(video, (n - 1) as nat)
    }
}

/// What the host does in a run of `n` ticks, `n` at least one: the first
/// call stands alone, every later one in a tick of its own.
pub open spec fn run_actions(video: bool, n: nat) -> Seq<Action> {
    seq![Action::Invoke] + later_ticks(video, (n - 1) as nat)
}

/// Whether tick `k` is the first of `ticks` with which the loop ends.
pub open spec fn first_stop<E>(ticks: Seq<Tick<E>>, k: int) -> bool {
    &&& 0 <= k < ticks.len()
    &&& ticks[k].stops()
    &&& forall|i: int| 0 <= i < k ==> !(#[trigger] ticks[i]).stops()
}

proof fn lemma_play_to_stop<E>(state: State, framed: bool, ticks: Seq<Tick<E>>, k: int)
    requires
        state.running,
        first_stop(ticks, k),
    ensures
        play(state, Step::Invoke { framed }, ticks).actions == (if framed {
            seq![Action::Invoke, Action::EndFrame]
        } else {
            seq![Action::Invoke]
        }) + later_ticks(state.video, k as nat),
        play(state, Step::Invoke { framed }, ticks).state == state.shutdown(),
        play(state, Step::Invoke { framed }, ticks).result == Some(ticks[k].result),
    decreases k,
{
    reveal_with_fuel(play, 4);
    let rest = ticks.drop_first();
    if k > 0 {
        assert(!ticks[0].stops());
        assert(first_stop(rest, k - 1)) by {
            assert(rest[k - 1] == ticks[k]);
            assert forall|i: int| 0 <= i < k - 1 implies !(#[trigger] rest[i]).stops() by {
                assert(rest[i] == ticks[i + 1]);
            }
        }
        lemma_play_to_stop(state, state.video, rest, k - 1);
        assert(rest[k - 1] == ticks[k]);
    }
}

/// The loop ends with the first tick in which the callback asks for shutdown
/// or fails, and returns what the callback returned in that tick. Up to
/// there the host calls the callback once per tick, the first time with no
/// frame around the call, every later time inside a frame if the runtime has
/// video and with no frame hook at all if it has none. The run leaves the
/// runtime not running.
pub proof fn law_run_ends_at_first_stop<E>(state: State, ticks: Seq<Tick<E>>, k: int)
    requires
        first_stop(ticks, k),
    ensures
        run(state, ticks) == (Run {
            actions: run_actions(state.video, (k + 1) as nat),
            state: state.shutdown(),
            result: Some(ticks[k].result),
        }),
{
    lemma_play_to_stop(state.start(), false, ticks, k);
}

/// How many times the host calls the callback in `actions`.
pub open spec fn invocations(actions: Seq<Action>) -> nat
    decreases actions.len(),
{
    if actions.len() == 0 {
        0
    } else {
        (if actions[0] is Invoke {
            1nat
        } else {
            0nat
        }) + invocations(actions.drop_first())
    }
}

proof fn lemma_invocations_add(a: Seq<Action>, b: Seq<Action>)
    ensures
        invocations(a + b) == invocations(a) + invocations(b),
    decreases a.len(),
{
    if a.len() == 0 {
        assert(a + b == b);
    } else {
        assert((a + b).drop_first() == a.drop_first() + b);
        lemma_invocations_add(a.drop_first(), b);
    }
}

proof fn lemma_later_ticks(video: bool, n: nat)
    ensures
        invocations(later_ticks(video, n)) == n,
        later_ticks(video, n).len() == if video {
            3 * n
        } else {
            n
        },
        forall|i: int|
            0 <= i < later_ticks(video, n).len() ==> #[trigger] later_ticks(video, n)[i] == (
            if !video || i % 3 == 1 {
                Action::Invoke
            } else if i % 3 == 0 {
                Action::BeginFrame
            } else {
                Action::EndFrame
            }),
    decreases n,
{
    if n > 0 {
        let tick = tick_actions(video);
        let rest = later_ticks(video, (n - 1) as nat);
        lemma_later_ticks(video, (n - 1) as nat);
        lemma_invocations_add(tick, rest);
        reveal_with_fuel(invocations, 4);
        assert forall|i: int| 0 <= i < later_ticks(video, n).len() implies #[trigger] later_ticks(
            video,
            n,
        )[i] == (if !video || i % 3 == 1 {
            Action::Invoke
        } else if i % 3 == 0 {
            Action::BeginFrame
        } else {
            Action::EndFrame
        }) by {
            if i >= tick.len() {
                assert((tick + rest)[i] == rest[i - tick.len()]);
            }
        }
    }
}

/// The three actions at the place of tick `j` in a run with video, where
/// `j` counts the ticks after the first from zero.
pub open spec fn framed_tick(actions: Seq<Action>, j: int) -> Seq<Action> {
    actions.subrange(3 * j + 1, 3 * j + 4)
}

/// In a run of `n` ticks the host calls the callback `n` times. With video,
/// the first call stands alone and every later one stands between the
/// opening of a frame just before it and the closing of that frame just
/// after it, so that frames never nest and none stays open. Without video
/// the host does nothing but call the callback.
pub proof fn law_frames_bracket_calls(video: bool, n: nat)
    requires
        n >= 1,
    ensures
        invocations(run_actions(video, n)) == n,
        run_actions(video, n)[0] == Action::Invoke,
        !video ==> run_actions(video, n).len() == n && forall|i: int|
            0 <= i < n ==> #[trigger] run_actions(video, n)[i] == Action::Invoke,
        video ==> run_actions(video, n).len() == 3 * n - 2 && forall|j: int|
            0 <= j < n - 1 ==> #[trigger] framed_tick(run_actions(video, n), j) == seq![
                Action::BeginFrame,
                Action::Invoke,
                Action::EndFrame,
            ],
{
    let actions = run_actions(video, n);
    let later = later_ticks(video, (n - 1) as nat);
    lemma_later_ticks(video, (n - 1) as nat);
    lemma_invocations_add(seq![Action::Invoke], later);
    reveal_with_fuel(invocations, 2);
    if video {
        assert forall|j: int| 0 <= j < n - 1 implies #[trigger] framed_tick(actions, j) == seq![
            Action::BeginFrame,
            Action::Invoke,
            Action::EndFrame,
        ] by {
            assert(actions[3 * j + 1] == later[3 * j]);
            assert(actions[3 * j + 2] == later[3 * j + 1]);
            assert(actions[3 * j + 3] == later[3 * j + 2]);
        }
    } else {
        assert forall|i: int| 0 <= i < n implies #[trigger] actions[i] == Action::Invoke by {
            if i >= 1 {
                assert(actions[i] == later[i - 1]);
            }
        }
    }
}

/// A callback that asks for shutdown in its first call and succeeds is
/// called that once and never inside a frame. The loop returns success and
/// leaves the runtime not running.
pub proof fn law_immediate_shutdown<E>(state: State, ticks: Seq<Tick<E>>)
    requires
        ticks.len() >= 1,
        ticks[0].shutdown,
        ticks[0].result is Ok,
    ensures
        run(state, ticks) == (Run::<E> {
            actions: seq![Action::Invoke],
            state: state.shutdown(),
            result: Some(Ok(())),
        }),
        invocations(run(state, ticks).actions) == 1,
{
    law_run_ends_at_first_stop(state, ticks, 0);
    law_frames_bracket_calls(state.video, 1);
    assert(run_actions(state.video, 1) == seq![Action::Invoke]);
    match ticks[0].result {
        Ok(unit) => {
            assert(ticks[0].result == Ok::<(), E>(unit));
        },
        Err(_) => {},
    }
}

/// A callback that fails in its first call is called that once, and the loop
/// returns that failure as it is.
pub proof fn law_failure_halts<E>(state: State, ticks: Seq<Tick<E>>, failure: E)
    requires
        ticks.len() >= 1,
        ticks[0].result == Err::<(), E>(failure),
    ensures
        run(state, ticks) == (Run::<E> {
            actions: seq![Action::Invoke],
            state: state.shutdown(),
            result: Some(Err(failure)),
        }),
        invocations(run(state, ticks).actions) == 1,
{
    law_run_ends_at_first_stop(state, ticks, 0);
    law_frames_bracket_calls(state.video, 1);
    assert(run_actions(state.video, 1) == seq![Action::Invoke]);
}

/// What a callback does that counts down from `n` and asks for shutdown
/// when it has reached zero: it succeeds `n` times, and asks for shutdown
/// the last time.
pub open spec fn countdown<E>(n: nat) -> Seq<Tick<E>> {
    Seq::new(n, |i: int| Tick { shutdown: i == n - 1, result: Ok(()) })
}

/// A callback that counts down from `n`, `n` at least one, is called `n`
/// times. The loop then returns success and leaves the runtime not running.
pub proof fn law_countdown<E>(state: State, n: nat)
    requires
        n >= 1,
    ensures
        run(state, countdown::<E>(n)).actions == run_actions(state.video, n),
        invocations(run(state, countdown::<E>(n)).actions) == n,
        run(state, countdown::<E>(n)).result == Some(Ok::<(), E>(())),
        !run(state, countdown::<E>(n)).state.running,
{
    law_run_ends_at_first_stop(state, countdown::<E>(n), n - 1);
    law_frames_bracket_calls(state.video, n);
}

/// A run does not depend on whether the runtime was running before it, nor
/// on anything else of the past: two runtimes that agree on video run alike.
pub proof fn law_run_forgets_the_past<E>(a: State, b: State, ticks: Seq<Tick<E>>)
    requires
        a.video == b.video,
    ensures
        run(a, ticks) == run(b, ticks),
{
}

/// A runtime can run again. Once a run has ended, another run on the same
/// runtime goes as it would have gone in place of the first.
pub proof fn law_repeated_run<E>(state: State, first: Seq<Tick<E>>, k: int, second: Seq<Tick<E>>)
    requires
        first_stop(first, k),
    ensures
        !run(state, first).state.running,
        run(run(state, first).state, second) == run(state, second),
{
    law_run_ends_at_first_stop(state, first, k);
}

proof fn lemma_play_without_stop<E>(state: State, framed: bool, ticks: Seq<Tick<E>>)
    requires
        state.running,
        forall|i: int| 0 <= i < ticks.len() ==> !(#[trigger] ticks[i]).stops(),
    ensures
        play(state, Step::Invoke { framed }, ticks).state == state,
        play(state, Step::Invoke { framed }, ticks).result is None,
    decreases ticks.len(),
{
    reveal_with_fuel(play, 4);
    if ticks.len() > 0 {
        let rest = ticks.drop_first();
        assert(!ticks[0].stops());
        assert forall|i: int| 0 <= i < rest.len() implies !(#[trigger] rest[i]).stops() by {
            assert(rest[i] == ticks[i + 1]);
        }
        lemma_play_without_stop(state, state.video, rest);
    }
}

/// Nothing ends the loop but a request for shutdown or a failure: while the
/// callback does neither, the loop returns nothing and the runtime stays
/// running.
pub proof fn law_run_goes_on<E>(state: State, ticks: Seq<Tick<E>>)
    requires
        forall|i: int| 0 <= i < ticks.len() ==> !(#[trigger] ticks[i]).stops(),
    ensures
        run(state, ticks).result is None,
        run(state, ticks).state.running,
{
    lemma_play_without_stop(state.start(), false, ticks);
}

} // verus!
