//! Bringing the video driver up: what the host is asked to do, and what
//! follows from the driver's answer.

use vstd::prelude::*;
use crate::sys::{c_string, has_nul, terminated};

verus! {

pub type Color = crate::sys::Color;

/// The width handed to the driver at startup. Zero leaves the choice to the
/// driver.
pub const DEFAULT_WIDTH: i32 = 0;

/// The height handed to the driver at startup. Zero leaves the choice to the
/// driver.
pub const DEFAULT_HEIGHT: i32 = 0;

/// Why a build gave no runtime.
#[derive(Debug, Clone, Copy, PartialEq, Eq)]
pub enum BuildError {
    /// The title holds a null character, so it has no null-terminated form.
    InvalidConfiguration,
    /// The driver was started and then said that it is not ready.
    InitializationFailure,
}

impl BuildError {
    /// The text of each error.
    pub open spec fn text(self) -> Seq<char> {
        match self {
            BuildError::InvalidConfiguration => "data provided contains a nul byte"@,
            BuildError::InitializationFailure => "Unable to initialize video driver"@,
        }
    }

    /// The error in words.
    pub fn message(&self) -> (text: String)
        ensures
            text@ == self.text(),
    {
        match self {
            BuildError::InvalidConfiguration => "data provided contains a nul byte".to_owned(),
            BuildError::InitializationFailure => "Unable to initialize video driver".to_owned(),
        }
    }
}

/// The settings that a builder gathers.
pub struct Config {
    /// The display title. It may be empty.
    pub title: Seq<char>,
    /// Whether the driver must be brought up.
    pub enable_video: bool,
}

/// What the host has to do to the driver before a build can be decided.
#[derive(Debug, PartialEq, Eq)]
pub enum Startup {
    /// Nothing. Video is not enabled and the driver stays untouched.
    Headless,
    /// Initialise the driver with this size and this null-terminated title,
    /// then ask it whether it is ready.
    Video { width: i32, height: i32, title: Vec<u8> },
}

/// A startup request with its title as a sequence of bytes.
pub enum StartupRequest {
    Headless,
    Video { width: int, height: int, title: Seq<u8> },
}

impl View for Startup {
    type V = StartupRequest;

    open spec fn view(&self) -> StartupRequest {
        match self {
            Startup::Headless => StartupRequest::Headless,
            Startup::Video { width, height, title } => StartupRequest::Video {
                width: *width as int,
                height: *height as int,
                title: title@,
            },
        }
    }
}

impl StartupRequest {
    /// Whether the driver is live once the host has carried this request
    /// out. `live` says whether it was live before, `ready` is its answer
    /// after it was started. A driver that was left alone is as live as it
    /// was.
    pub open spec fn liveness(self, live: bool, ready: bool) -> bool {
        match self {
            StartupRequest::Headless => live,
            StartupRequest::Video { .. } => ready,
        }
    }
}

/// Whether the host has to close the driver at the end of a runtime's life,
/// where `live` is the driver's answer to the question whether it is ready:
/// a live driver is closed, and no other.
pub open spec fn closes(live: bool) -> bool {
    live
}

impl Config {
    /// Whether the title can be handed to the driver: it holds no null
    /// character.
    pub open spec fn title_fits(self) -> bool {
        !has_nul(self.title)
    }

    /// The request that these settings lead to, or the error that they end
    /// in before the driver is touched.
    pub open spec fn startup(self) -> Result<StartupRequest, BuildError> {
        if !self.enable_video {
            Ok(StartupRequest::Headless)
        } else if self.title_fits() {
            Ok(
                StartupRequest::Video {
                    width: DEFAULT_WIDTH as int,
                    height: DEFAULT_HEIGHT as int,
                    title: terminated(self.title),
                },
            )
        } else {
            Err(BuildError::InvalidConfiguration)
        }
    }

    /// How a build ends, where `ready` is the driver's answer after the
    /// startup request was carried out: with an error, or with a runtime
    /// that has video (`true`) or has none (`false`). The answer counts
    /// only where a request to start the driver was made.
    pub open spec fn outcome(self, ready: bool) -> Result<bool, BuildError> {
        match self.startup() {
            Err(e) => Err(e),
            Ok(StartupRequest::Headless) => Ok(false),
            Ok(StartupRequest::Video { .. }) => if ready {
                Ok(true)
            } else {
                Err(BuildError::InitializationFailure)
            },
        }
    }
}

/// The startup request for a title and the video switch.
pub(crate) fn startup(title: &str, enable_video: bool) -> (out: Result<Startup, BuildError>)
    ensures
        match out {
            Ok(request) => (Config { title: title@, enable_video }).startup() == Ok::<
                StartupRequest,
                BuildError,
            >(request@),
            Err(error) => (Config { title: title@, enable_video }).startup() == Err::<
                StartupRequest,
                BuildError,
            >(error),
        },
{
    if !enable_video {
        return Ok(Startup::Headless);
    }
    match c_string(title) {
        Some(bytes) => Ok(
            Startup::Video { width: DEFAULT_WIDTH, height: DEFAULT_HEIGHT, title: bytes },
        ),
        None => Err(BuildError::InvalidConfiguration),
    }
}

/// Decides a build once the host has carried out the startup request and
/// holds the driver's answer. `Ok(true)` stands for a runtime with video,
/// `Ok(false)` for one without.
pub(crate) fn outcome(title: &str, enable_video: bool, ready: bool) -> (out: Result<
    bool,
    BuildError,
>)
    ensures
        out == (Config { title: title@, enable_video }).outcome(ready),
{
    match startup(title, enable_video) {
        Err(error) => Err(error),
        Ok(Startup::Headless) => Ok(false),
        Ok(Startup::Video { .. }) => if ready {
            Ok(true)
        } else {
            Err(BuildError::InitializationFailure)
        },
    }
}

/// A build without video succeeds, whatever the title is and whatever the
/// driver would say. It asks nothing of the driver, and what it builds has
/// no video.
pub proof fn law_build_without_video(config: Config, ready: bool)
    requires
        !config.enable_video,
    ensures
        config.startup() == Ok::<StartupRequest, BuildError>(StartupRequest::Headless),
        config.outcome(ready) == Ok::<bool, BuildError>(false),
{
}

/// A build with video and a title that holds a null character fails with
/// `InvalidConfiguration`, whatever the driver would say, and no request to
/// start the driver is ever made.
pub proof fn law_title_with_nul_is_refused(config: Config, ready: bool)
    requires
        config.enable_video,
        has_nul(config.title),
    ensures
        config.startup() == Err::<StartupRequest, BuildError>(BuildError::InvalidConfiguration),
        config.outcome(ready) == Err::<bool, BuildError>(BuildError::InvalidConfiguration),
{
}

/// A build with video gives a runtime exactly if the title holds no null
/// character and the driver, once started, says that it is ready. The
/// driver is then live, and the runtime has video.
pub proof fn law_build_with_video(config: Config, ready: bool)
    requires
        config.enable_video,
    ensures
        config.outcome(ready) is Ok <==> !has_nul(config.title) && ready,
        config.outcome(ready) is Ok ==> config.outcome(ready) == Ok::<bool, BuildError>(true)
            && config.startup() is Ok && config.startup()->Ok_0.liveness(false, ready),
        !has_nul(config.title) && !ready ==> config.outcome(ready) == Err::<bool, BuildError>(
            BuildError::InitializationFailure,
        ),
{
}

/// The end of a runtime that was built without video closes nothing,
/// provided that the driver was not live before the build: the build has
/// left the driver alone, so it is still not live.
pub proof fn law_teardown_without_video(config: Config, ready: bool)
    requires
        !config.enable_video,
    ensures
        config.startup() is Ok,
        !closes(config.startup()->Ok_0.liveness(false, ready)),
{
}

} // verus!
