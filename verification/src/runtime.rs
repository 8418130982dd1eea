//! The runtime and its loop, one step at a time.
//!
//! The loop calls a callback once per tick until the callback asks for
//! shutdown or fails. Where the runtime has video, every tick but the first
//! runs inside a frame of the driver. The host performs each step and
//! reports it back; the runtime answers with the step that comes next.

use vstd::prelude::*;
use crate::video::{closes, outcome, startup, BuildError, Config, Startup, StartupRequest};

pub mod trace;

verus! {

/// Gathers the settings for a runtime.
pub struct Builder {
    title: String,
    enable_video: bool,
}

impl View for Builder {
    type V = Config;

    closed spec fn view(&self) -> Config {
        Config { title: self.title@, enable_video: self.enable_video }
    }
}

impl Builder {
    /// A builder with an empty title and video switched off.
    pub fn new() -> (builder: Builder)
        ensures
            builder@ == (Config { title: Seq::empty(), enable_video: false }),
    {
        Builder { title: String::new(), enable_video: false }
    }

    /// Sets the title. Any text is taken here: whether it can be handed to
    /// the driver is found out when the runtime is built.
    pub fn title(&mut self, title: &str) -> (builder: &mut Builder)
        ensures
            builder@ == (Config { title: title@, enable_video: old(self)@.enable_video }),
            *final(self) == *final(builder),
    {
        self.title = title.to_owned();
        self
    }

    /// Asks for the video driver to be brought up.
    pub fn enable_video(&mut self) -> (builder: &mut Builder)
        ensures
            builder@ == (Config { title: old(self)@.title, enable_video: true }),
            *final(self) == *final(builder),
    {
        self.enable_video = true;
        self
    }

    /// What the host has to do to the driver before `build`. An error here
    /// is the error that `build` returns, and the driver is then not to be
    /// touched.
    pub fn startup(&self) -> (out: Result<Startup, BuildError>)
        ensures
            match out {
                Ok(request) => self@.startup() == Ok::<StartupRequest, BuildError>(request@),
                Err(error) => self@.startup() == Err::<StartupRequest, BuildError>(error),
            },
    {
        startup(self.title.as_str(), self.enable_video)
    }

    /// Builds the runtime. `ready` is the driver's answer to the question
    /// whether it is ready, asked after the startup request was carried out;
    /// it counts only where that request started the driver.
    ///
    /// Without video the build succeeds whatever `ready` says. With video, a
    /// title that holds a null character ends in `InvalidConfiguration`, and a
    /// driver that is not ready in `InitializationFailure`. A runtime that
    /// comes out is not running.
    pub fn build(&mut self, ready: bool) -> (out: Result<Runtime, BuildError>)
        ensures
            *final(self) == *old(self),
            match old(self)@.outcome(ready) {
                Ok(video) => out matches Ok(rt) && rt@ == (State { running: false, video }),
                Err(error) => out == Err::<Runtime, BuildError>(error),
            },
    {
        match outcome(self.title.as_str(), self.enable_video, ready) {
            Ok(video) => Ok(Runtime { running: false, video }),
            Err(error) => Err(error),
        }
    }
}

/// Drives the loop and owns the video driver for as long as it lives.
pub struct Runtime {
    running: bool,
    video: bool,
}

/// A runtime as the contracts see it.
pub struct State {
    /// Whether the loop is active.
    pub running: bool,
    /// Whether the runtime was built with video, so that its ticks run
    /// inside frames.
    pub video: bool,
}

impl View for Runtime {
    type V = State;

    closed spec fn view(&self) -> State {
        State { running: self.running, video: self.video }
    }
}

/// What the host does next.
#[derive(Debug, PartialEq, Eq)]
pub enum Step<E> {
    /// Open a frame on the driver.
    BeginFrame,
    /// Call the callback with the runtime. `framed` says whether a frame is
    /// open around the call.
    Invoke { framed: bool },
    /// Close the frame on the driver. `result` is what the callback of this
    /// tick returned.
    EndFrame { result: Result<(), E> },
    /// Leave the loop and return `result`.
    Finish { result: Result<(), E> },
}

/// What the host reports once it has carried a step out.
#[derive(Debug, PartialEq, Eq)]
pub enum Event<E> {
    /// The driver has opened a frame.
    FrameBegun,
    /// The callback has returned `result`. `framed` is taken from the step
    /// that asked for the call.
    Returned { framed: bool, result: Result<(), E> },
    /// The driver has closed the frame of the tick that ended in `result`.
    FrameEnded { result: Result<(), E> },
}

impl State {
    /// The state on entering the loop: running, whatever it was before.
    pub open spec fn start(self) -> State {
        State { running: true, video: self.video }
    }

    /// The state after a request for shutdown.
    pub open spec fn shutdown(self) -> State {
        State { running: false, video: self.video }
    }

    /// The state and the step after a tick that ended in `result`: another
    /// tick while the runtime is running and the callback succeeded, the
    /// end of the loop otherwise. The loop leaves the runtime not running.
    pub open spec fn settle<E>(self, result: Result<(), E>) -> (State, Step<E>) {
        if self.running && result is Ok {
            (
                self,
                if self.video {
                    Step::BeginFrame
                } else {
                    Step::Invoke { framed: false }
                },
            )
        } else {
            (self.shutdown(), Step::Finish { result })
        }
    }

    /// The state and the step after `event`.
    pub open spec fn next<E>(self, event: Event<E>) -> (State, Step<E>) {
        match event {
            Event::FrameBegun => (self, Step::Invoke { framed: true }),
            Event::Returned { framed, result } => if framed {
                (self, Step::EndFrame { result })
            } else {
                self.settle(result)
            },
            Event::FrameEnded { result } => self.settle(result),
        }
    }
}

impl Runtime {
    /// A runtime without video that is not running.
    pub fn new() -> (rt: Runtime)
        ensures
            rt@ == (State { running: false, video: false }),
    {
        Runtime { running: false, video: false }
    }

    /// Whether the loop is active.
    pub fn is_running(&self) -> (running: bool)
        ensures
            running == self@.running,
    {
        self.running
    }

    /// Whether the runtime was built with video.
    pub fn has_video(&self) -> (video: bool)
        ensures
            video == self@.video,
    {
        self.video
    }

    /// Enters the loop: the runtime is running from here on, whatever it was
    /// before, and the first step is a call of the callback with no frame
    /// around it.
    pub fn start<E>(&mut self) -> (step: Step<E>)
        ensures
            final(self)@ == old(self)@.start(),
            step == (Step::<E>::Invoke { framed: false }),
    {
        self.running = true;
        Step::Invoke { framed: false }
    }

    /// Takes the report of the step that the host has carried out and
    /// answers with the next one.
    pub fn advance<E>(&mut self, event: Event<E>) -> (step: Step<E>)
        ensures
            (final(self)@, step) == old(self)@.next(event),
    {
        match event {
            Event::FrameBegun => Step::Invoke { framed: true },
            Event::Returned { framed, result } => if framed {
                Step::EndFrame { result }
            } else {
                self.settle(result)
            },
            Event::FrameEnded { result } => self.settle(result),
        }
    }

    fn settle<E>(&mut self, result: Result<(), E>) -> (step: Step<E>)
        ensures
            (final(self)@, step) == old(self)@.settle(result),
    {
        if self.running && result.is_ok() {
            if self.video {
                Step::BeginFrame
            } else {
                Step::Invoke { framed: false }
            }
        } else {
            self.running = false;
            Step::Finish { result }
        }
    }

    /// Asks the loop to end. The tick in which this is called runs to its
    /// end, the frame around it included; no further tick begins.
    pub fn shutdown(&mut self)
        ensures
            final(self)@ == old(self)@.shutdown(),
    {
        self.running = false;
    }

    /// Ends the runtime's life. `live` is the driver's answer to the
    /// question whether it is ready, asked now. The result says whether the
    /// host has to close the driver: it has to exactly if the driver is
    /// live.
    pub fn teardown(self, live: bool) -> (close: bool)
        ensures
            close == closes(live),
    {
        live
    }
}

/// Only entering the loop makes a runtime running: no report does, and
/// none changes whether the runtime has video. The loop ends only on a
/// runtime that is not running, and with the result of the last call of the
/// callback as it was reported. A frame that was opened around a call is
/// closed after it, whatever the call did.
pub proof fn law_steps_keep_the_runtime<E>(state: State, event: Event<E>)
    ensures
        state.next(event).0.video == state.video,
        state.next(event).0.running ==> state.running,
        state.next(event).1 is Finish ==> !state.next(event).0.running,
        state.next(event).1 matches Step::Finish { result } ==> (event matches Event::Returned {
            result: last,
            ..
        } && last == result) || (event matches Event::FrameEnded { result: last } && last
            == result),
        event matches Event::Returned { framed: true, result } ==> state.next(event) == (
            state,
            Step::EndFrame { result },
        ),
{
}

} // verus!
