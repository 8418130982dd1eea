//! The context and its loop, one step at a time.
//!
//! The loop of a context has no callback but a delegate with two hooks,
//! `update` and `render`, which it calls in this order once per tick until
//! one of them asks for shutdown. Where the context has video, every tick
//! runs inside a frame of the driver. The host performs each step and
//! reports it back; the context answers with the step that comes next.

use vstd::prelude::*;
use crate::video::{closes, outcome, startup, BuildError, Config, Startup, StartupRequest};

pub mod trace;

verus! {

/// The hooks that the loop of a context calls in every tick. Both do
/// nothing unless they are overridden.
pub trait Delegate {
    /// Called first in every tick.
    fn update(&mut self, context: &mut Context) {
    }

    /// Called in every tick after `update`.
    fn render(&mut self, context: &mut Context) {
    }
}

/// Gathers the settings for a context.
pub struct Builder {
    title: String,
    enable_video: bool,
}

impl View for Builder {
    type V = Config;

    closed spec fn view(&self) -> Config {
        Config { title: self.title@, enable_video: self.enable_video }
    }
}

impl Builder {
    /// A builder with an empty title and video switched off.
    pub fn new() -> (builder: Builder)
        ensures
            builder@ == (Config { title: Seq::empty(), enable_video: false }),
    {
        Builder { title: String::new(), enable_video: false }
    }

    /// Sets the title. Any text is taken here: whether it can be handed to
    /// the driver is found out when the context is built.
    pub fn title(&mut self, title: &str) -> (builder: &mut Builder)
        ensures
            builder@ == (Config { title: title@, enable_video: old(self)@.enable_video }),
            *final(self) == *final(builder),
    {
        self.title = title.to_owned();
        self
    }

    /// Asks for the video driver to be brought up.
    pub fn enable_video(&mut self) -> (builder: &mut Builder)
        ensures
            builder@ == (Config { title: old(self)@.title, enable_video: true }),
            *final(self) == *final(builder),
    {
        self.enable_video = true;
        self
    }

    /// What the host has to do to the driver before `build`. An error here
    /// is the error that `build` returns, and the driver is then not to be
    /// touched.
    pub fn startup(&self) -> (out: Result<Startup, BuildError>)
        ensures
            match out {
                Ok(request) => self@.startup() == Ok::<StartupRequest, BuildError>(request@),
                Err(error) => self@.startup() == Err::<StartupRequest, BuildError>(error),
            },
    {
        startup(self.title.as_str(), self.enable_video)
    }

    /// Builds the context. `ready` is the driver's answer to the question
    /// whether it is ready, asked after the startup request was carried out;
    /// it counts only where that request started the driver.
    ///
    /// Without video the build succeeds whatever `ready` says. With video, a
    /// title that holds a null character ends in `InvalidConfiguration`, and
    /// a driver that is not ready in `InitializationFailure`. A context that
    /// comes out is not running.
    pub fn build(&mut self, ready: bool) -> (out: Result<Context, BuildError>)
        ensures
            *final(self) == *old(self),
            match old(self)@.outcome(ready) {
                Ok(video) => out matches Ok(context) && context@ == (State {
                    running: false,
                    video,
                }),
                Err(error) => out == Err::<Context, BuildError>(error),
            },
    {
        match outcome(self.title.as_str(), self.enable_video, ready) {
            Ok(video) => Ok(Context { running: false, video }),
            Err(error) => Err(error),
        }
    }
}

/// Drives the loop and owns the video driver for as long as it lives.
pub struct Context {
    running: bool,
    video: bool,
}

/// A context as the contracts see it.
pub struct State {
    /// Whether the loop is active.
    pub running: bool,
    /// Whether the context was built with video, so that its ticks run
    /// inside frames.
    pub video: bool,
}

impl View for Context {
    type V = State;

    closed spec fn view(&self) -> State {
        State { running: self.running, video: self.video }
    }
}

/// What the host does next. `framed` says whether a frame is open around
/// the call.
#[derive(Debug, Clone, Copy, PartialEq, Eq)]
pub enum Step {
    /// Open a frame on the driver.
    BeginFrame,
    /// Call `update` on the delegate, with the context.
    Update { framed: bool },
    /// Call `render` on the delegate, with the context.
    Render { framed: bool },
    /// Close the frame on the driver.
    EndFrame,
    /// Leave the loop.
    Finish,
}

/// What the host reports once it has carried a step out. `framed` is taken
/// from the step that asked for the call.
#[derive(Debug, Clone, Copy, PartialEq, Eq)]
pub enum Event {
    /// The driver has opened a frame.
    FrameBegun,
    /// `update` has returned.
    Updated { framed: bool },
    /// `render` has returned.
    Rendered { framed: bool },
    /// The driver has closed the frame.
    FrameEnded,
}

impl State {
    /// The state and the step on entering the loop: the context is running,
    /// whatever it was before, and the first tick begins.
    pub open spec fn start(self) -> (State, Step) {
        let state = State { running: true, video: self.video };
        (state, state.tick())
    }

    /// The state after a request for shutdown.
    pub open spec fn shutdown(self) -> State {
        State { running: false, video: self.video }
    }

    /// The first step of a tick.
    pub open spec fn tick(self) -> Step {
        if self.video {
            Step::BeginFrame
        } else {
            Step::Update { framed: false }
        }
    }

    /// The step after a tick: another tick while the context is running,
    /// the end of the loop otherwise.
    pub open spec fn settle(self) -> Step {
        if self.running {
            self.tick()
        } else {
            Step::Finish
        }
    }

    /// The step after `event`.
    pub open spec fn next(self, event: Event) -> Step {
        match event {
            Event::FrameBegun => Step::Update { framed: true },
            Event::Updated { framed } => Step::Render { framed },
            Event::Rendered { framed } => if framed {
                Step::EndFrame
            } else {
                self.settle()
            },
            Event::FrameEnded => self.settle(),
        }
    }
}

impl Context {
    /// A context without video that is not running.
    pub fn new() -> (context: Context)
        ensures
            context@ == (State { running: false, video: false }),
    {
        Context { running: false, video: false }
    }

    /// Whether the loop is active.
    pub fn is_running(&self) -> (running: bool)
        ensures
            running == self@.running,
    {
        self.running
    }

    /// Whether the context was built with video.
    pub fn has_video(&self) -> (video: bool)
        ensures
            video == self@.video,
    {
        self.video
    }

    /// Enters the loop: the context is running from here on, whatever it was
    /// before, and the first tick begins, with the opening of a frame where
    /// the context has video.
    pub fn start(&mut self) -> (step: Step)
        ensures
            (final(self)@, step) == old(self)@.start(),
    {
        self.running = true;
        self.tick()
    }

    /// Takes the report of the step that the host has carried out and
    /// answers with the next one. The context itself stays as it is.
    pub fn advance(&self, event: Event) -> (step: Step)
        ensures
            step == self@.next(event),
    {
        match event {
            Event::FrameBegun => Step::Update { framed: true },
            Event::Updated { framed } => Step::Render { framed },
            Event::Rendered { framed } => if framed {
                Step::EndFrame
            } else {
                self.settle()
            },
            Event::FrameEnded => self.settle(),
        }
    }

    fn tick(&self) -> (step: Step)
        ensures
            step == self@.tick(),
    {
        if self.video {
            Step::BeginFrame
        } else {
            Step::Update { framed: false }
        }
    }

    fn settle(&self) -> (step: Step)
        ensures
            step == self@.settle(),
    {
        if self.running {
            self.tick()
        } else {
            Step::Finish
        }
    }

    /// Asks the loop to end. The tick in which this is called runs to its
    /// end, the frame around it included; no further tick begins.
    pub fn shutdown(&mut self)
        ensures
            final(self)@ == old(self)@.shutdown(),
    {
        self.running = false;
    }

    /// Ends the context's life. `live` is the driver's answer to the
    /// question whether it is ready, asked now. The result says whether the
    /// host has to close the driver: it has to exactly if the driver is
    /// live.
    pub fn teardown(self, live: bool) -> (close: bool)
        ensures
            close == closes(live),
    {
        live
    }
}

} // verus!
