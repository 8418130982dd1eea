use kioto::runtime::{Builder, Event, Runtime, Step};
use kioto::video::{BuildError, Startup};
use std::cell::Cell;

/// A host without a driver: it carries the steps out, writes each one down,
/// and returns what the loop returns.
fn drive<E, F>(runtime: &mut Runtime, log: &mut Vec<&'static str>, callback: F) -> Result<(), E>
where
    F: Fn(&mut Runtime) -> Result<(), E>,
{
    let mut step: Step<E> = runtime.start();
    loop {
        step = match step {
            Step::BeginFrame => {
                log.push("begin");
                runtime.advance(Event::FrameBegun)
            }
            Step::Invoke { framed } => {
                log.push("call");
                let result = callback(runtime);
                runtime.advance(Event::Returned { framed, result })
            }
            Step::EndFrame { result } => {
                log.push("end");
                runtime.advance(Event::FrameEnded { result })
            }
            Step::Finish { result } => return result,
        };
    }
}

fn with_video() -> Runtime {
    Builder::new().title("window").enable_video().build(true).unwrap()
}

#[test]
pub fn build_runtime() {
    let runtime = Builder::new().build(false);

    assert!(runtime.is_ok());
}

#[test]
pub fn run_with() {
    let mut runtime = Runtime::new();
    let mut log = Vec::new();
    let result: Result<(), String> = drive(&mut runtime, &mut log, |runtime| {
        runtime.shutdown();

        Ok(())
    });

    assert!(result.is_ok());
}

#[test]
fn new_runtime_is_idle_and_headless() {
    let runtime = Runtime::new();
    assert!(!runtime.is_running());
    assert!(!runtime.has_video());
}

#[test]
fn default_build_succeeds_whatever_the_driver_says() {
    for ready in [false, true] {
        let mut builder = Builder::new();
        assert_eq!(builder.startup(), Ok(Startup::Headless));
        let runtime = builder.build(ready).unwrap();
        assert!(!runtime.is_running());
        assert!(!runtime.has_video());
    }
}

#[test]
fn build_without_video_ignores_the_title() {
    let mut builder = Builder::new();
    builder.title("bad\0title");
    assert_eq!(builder.startup(), Ok(Startup::Headless));
    let runtime = builder.build(false).unwrap();
    assert!(!runtime.is_running());
    assert!(!runtime.has_video());
}

#[test]
fn build_with_video_asks_for_the_driver() {
    let mut builder = Builder::new();
    builder.title("Hello, world!").enable_video();
    assert_eq!(
        builder.startup(),
        Ok(Startup::Video { width: 0, height: 0, title: b"Hello, world!\0".to_vec() })
    );
    let runtime = builder.build(true).unwrap();
    assert!(!runtime.is_running());
    assert!(runtime.has_video());
}

#[test]
fn build_with_video_and_empty_title() {
    let mut builder = Builder::new();
    builder.enable_video();
    assert_eq!(builder.startup(), Ok(Startup::Video { width: 0, height: 0, title: vec![0] }));
    assert!(builder.build(true).is_ok());
}

#[test]
fn title_with_null_byte_is_refused() {
    for ready in [false, true] {
        let mut builder = Builder::new();
        builder.title("Hello\0world").enable_video();
        assert_eq!(builder.startup(), Err(BuildError::InvalidConfiguration));
        assert_eq!(builder.build(ready).err(), Some(BuildError::InvalidConfiguration));
    }
}

#[test]
fn title_is_replaced_by_a_later_one() {
    let mut builder = Builder::new();
    builder.title("bad\0title").title("good").enable_video();
    assert_eq!(
        builder.startup(),
        Ok(Startup::Video { width: 0, height: 0, title: b"good\0".to_vec() })
    );
}

#[test]
fn driver_that_is_not_ready_fails_the_build() {
    let mut builder = Builder::new();
    builder.title("window").enable_video();
    let error = builder.build(false).err();
    assert_eq!(error, Some(BuildError::InitializationFailure));
    assert_eq!(error.unwrap().message(), "Unable to initialize video driver");
}

#[test]
fn build_error_messages() {
    assert_eq!(BuildError::InvalidConfiguration.message(), "data provided contains a nul byte");
    assert_eq!(BuildError::InitializationFailure.message(), "Unable to initialize video driver");
}

#[test]
fn builder_can_build_twice() {
    let mut builder = Builder::new();
    builder.title("twice").enable_video();
    assert!(builder.build(true).is_ok());
    assert_eq!(builder.build(false).err(), Some(BuildError::InitializationFailure));
    assert!(builder.build(true).unwrap().has_video());
}

#[test]
fn immediate_shutdown_calls_once() {
    for mut runtime in [Runtime::new(), with_video()] {
        let calls = Cell::new(0u32);
        let mut log = Vec::new();
        let result: Result<(), String> = drive(&mut runtime, &mut log, |runtime| {
            calls.set(calls.get() + 1);
            runtime.shutdown();
            Ok(())
        });
        assert_eq!(result, Ok(()));
        assert_eq!(calls.get(), 1);
        assert_eq!(log, vec!["call"]);
        assert!(!runtime.is_running());
    }
}

#[test]
fn failure_in_first_call_halts_the_loop() {
    for mut runtime in [Runtime::new(), with_video()] {
        let calls = Cell::new(0u32);
        let mut log = Vec::new();
        let result = drive(&mut runtime, &mut log, |_| {
            calls.set(calls.get() + 1);
            Err(String::from("boom"))
        });
        assert_eq!(result, Err(String::from("boom")));
        assert_eq!(calls.get(), 1);
        assert_eq!(log, vec!["call"]);
        assert!(!runtime.is_running());
    }
}

#[test]
fn failure_in_a_later_call_closes_its_frame() {
    let mut runtime = with_video();
    let calls = Cell::new(0u32);
    let mut log = Vec::new();
    let result = drive(&mut runtime, &mut log, |_| {
        calls.set(calls.get() + 1);
        if calls.get() == 3 {
            Err(42u8)
        } else {
            Ok(())
        }
    });
    assert_eq!(result, Err(42));
    assert_eq!(calls.get(), 3);
    assert_eq!(log, vec!["call", "begin", "call", "end", "begin", "call", "end"]);
    assert!(!runtime.is_running());
}

#[test]
fn failure_wins_over_running() {
    let mut runtime = Runtime::new();
    let mut log = Vec::new();
    let result = drive(&mut runtime, &mut log, |runtime| {
        assert!(runtime.is_running());
        Err(7i32)
    });
    assert_eq!(result, Err(7));
    assert!(!runtime.is_running());
}

#[test]
fn countdown_calls_n_times_without_video() {
    for n in 1u32..=6 {
        let mut runtime = Runtime::new();
        let left = Cell::new(n);
        let calls = Cell::new(0u32);
        let mut log = Vec::new();
        let result: Result<(), String> = drive(&mut runtime, &mut log, |runtime| {
            calls.set(calls.get() + 1);
            left.set(left.get() - 1);
            if left.get() == 0 {
                runtime.shutdown();
            }
            Ok(())
        });
        assert_eq!(result, Ok(()));
        assert_eq!(calls.get(), n);
        assert_eq!(log, vec!["call"; n as usize]);
        assert!(!runtime.is_running());
    }
}

#[test]
fn countdown_calls_n_times_with_video() {
    for n in 1u32..=6 {
        let mut runtime = with_video();
        let left = Cell::new(n);
        let calls = Cell::new(0u32);
        let mut log = Vec::new();
        let result: Result<(), String> = drive(&mut runtime, &mut log, |runtime| {
            calls.set(calls.get() + 1);
            left.set(left.get() - 1);
            if left.get() == 0 {
                runtime.shutdown();
            }
            Ok(())
        });
        assert_eq!(result, Ok(()));
        assert_eq!(calls.get(), n);
        let mut expected = vec!["call"];
        for _ in 1..n {
            expected.extend(["begin", "call", "end"]);
        }
        assert_eq!(log, expected);
        assert!(!runtime.is_running());
    }
}

#[test]
fn three_ticks_with_video_give_seven_actions() {
    let mut runtime = with_video();
    let left = Cell::new(3u32);
    let mut log = Vec::new();
    let result: Result<(), String> = drive(&mut runtime, &mut log, |runtime| {
        left.set(left.get() - 1);
        if left.get() == 0 {
            runtime.shutdown();
        }
        Ok(())
    });
    assert_eq!(result, Ok(()));
    assert_eq!(log.len(), 7);
    assert_eq!(log, vec!["call", "begin", "call", "end", "begin", "call", "end"]);
}

#[test]
fn shutdown_lets_the_tick_finish() {
    let mut runtime = with_video();
    let calls = Cell::new(0u32);
    let mut log = Vec::new();
    let result: Result<(), String> = drive(&mut runtime, &mut log, |runtime| {
        calls.set(calls.get() + 1);
        if calls.get() == 2 {
            runtime.shutdown();
            assert!(!runtime.is_running());
        }
        Ok(())
    });
    assert_eq!(result, Ok(()));
    assert_eq!(log, vec!["call", "begin", "call", "end"]);
}

#[test]
fn runtime_runs_again_after_shutdown() {
    for mut runtime in [Runtime::new(), with_video()] {
        let mut logs = Vec::new();
        for _ in 0..2 {
            assert!(!runtime.is_running());
            let left = Cell::new(2u32);
            let mut log = Vec::new();
            let result: Result<(), String> = drive(&mut runtime, &mut log, |runtime| {
                assert!(runtime.is_running());
                left.set(left.get() - 1);
                if left.get() == 0 {
                    runtime.shutdown();
                }
                Ok(())
            });
            assert_eq!(result, Ok(()));
            assert!(!runtime.is_running());
            logs.push(log);
        }
        assert_eq!(logs[0], logs[1]);
        assert_eq!(logs[0].iter().filter(|action| **action == "call").count(), 2);
    }
}

#[test]
fn runtime_runs_again_after_failure() {
    let mut runtime = Runtime::new();
    let mut log = Vec::new();
    assert_eq!(drive(&mut runtime, &mut log, |_| Err(1u8)), Err(1));
    assert!(!runtime.is_running());
    log.clear();
    let result: Result<(), u8> = drive(&mut runtime, &mut log, |runtime| {
        runtime.shutdown();
        Ok(())
    });
    assert_eq!(result, Ok(()));
    assert_eq!(log, vec!["call"]);
}

#[test]
fn shutdown_before_the_loop_does_not_stop_it() {
    let mut runtime = Runtime::new();
    runtime.shutdown();
    assert!(!runtime.is_running());
    let step: Step<String> = runtime.start();
    assert_eq!(step, Step::Invoke { framed: false });
    assert!(runtime.is_running());
}

#[test]
fn steps_of_a_runtime_without_video() {
    let mut runtime = Runtime::new();
    assert_eq!(runtime.start::<u8>(), Step::Invoke { framed: false });
    assert_eq!(
        runtime.advance(Event::Returned { framed: false, result: Ok::<(), u8>(()) }),
        Step::Invoke { framed: false }
    );
    assert!(runtime.is_running());
    runtime.shutdown();
    assert_eq!(
        runtime.advance(Event::Returned { framed: false, result: Ok::<(), u8>(()) }),
        Step::Finish { result: Ok(()) }
    );
    assert!(!runtime.is_running());
}

#[test]
fn steps_of_a_runtime_with_video() {
    let mut runtime = with_video();
    assert_eq!(runtime.start::<u8>(), Step::Invoke { framed: false });
    assert_eq!(
        runtime.advance(Event::Returned { framed: false, result: Ok::<(), u8>(()) }),
        Step::BeginFrame
    );
    assert_eq!(runtime.advance(Event::<u8>::FrameBegun), Step::Invoke { framed: true });
    assert_eq!(
        runtime.advance(Event::Returned { framed: true, result: Err(9u8) }),
        Step::EndFrame { result: Err(9) }
    );
    assert!(runtime.is_running());
    assert_eq!(
        runtime.advance(Event::FrameEnded { result: Err(9u8) }),
        Step::Finish { result: Err(9) }
    );
    assert!(!runtime.is_running());
}

#[test]
fn teardown_closes_a_live_driver_only() {
    assert!(!Runtime::new().teardown(false));
    assert!(Runtime::new().teardown(true));
    assert!(with_video().teardown(true));
    assert!(!with_video().teardown(false));
}

#[test]
fn teardown_without_video_closes_nothing() {
    let mut builder = Builder::new();
    let mut live = false;
    if let Ok(Startup::Video { .. }) = builder.startup() {
        live = true;
    }
    let runtime = builder.build(live).unwrap();
    assert!(!runtime.teardown(live));
}

#[test]
fn teardown_after_a_failed_run() {
    let mut runtime = with_video();
    let mut log = Vec::new();
    assert_eq!(drive(&mut runtime, &mut log, |_| Err("failed")), Err("failed"));
    assert!(runtime.teardown(true));
}

#[test]
fn default_size_leaves_the_choice_to_the_driver() {
    assert_eq!(kioto::video::DEFAULT_WIDTH, 0);
    assert_eq!(kioto::video::DEFAULT_HEIGHT, 0);
}
