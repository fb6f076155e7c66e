use pressure::wait::{finish_drain, plan_wait, BLOCKING_DRAIN_LEN, SUSPENDING_DRAIN_LEN};
use pressure::{
    init_monitor, Armed, Engine, Errno, Error, FileType, MonitorConfig, MonitorType,
    PressureMonitor, Readiness, SetupStep, SourceKind, Wait, WaitAction, WaitPlan, WaitStep,
};

const KINDS: [SourceKind; 3] =
    [SourceKind::RegularFile, SourceKind::NamedPipe, SourceKind::StreamSocket];
const ENGINES: [Engine; 2] = [Engine::Blocking, Engine::Suspending];

/// Carries the setup of a source of this kind to its end.
fn armed(kind: SourceKind) -> Armed {
    let file_type = FileType {
        is_file: kind == SourceKind::RegularFile,
        is_fifo: kind == SourceKind::NamedPipe,
        is_socket: kind == SourceKind::StreamSocket,
    };
    let config = MonitorConfig { path: "/run/pressure".to_string(), arm: Vec::new() };
    let mut setup = init_monitor(config, Ok(file_type)).unwrap();
    loop {
        match setup.advance(Ok(())) {
            SetupStep::Next(next) => setup = next,
            SetupStep::Finished(done) => return done.unwrap(),
        }
    }
}

fn monitor(kind: SourceKind, engine: Engine) -> PressureMonitor<i32> {
    PressureMonitor::new(armed(kind), 7, engine)
}

fn errno(e: nix::errno::Errno) -> Errno {
    Errno { raw: e as i32 }
}

fn would_block() -> Error {
    Error::Nix(errno(nix::errno::Errno::EWOULDBLOCK))
}

#[test]
fn drain_buffers_have_their_sizes() {
    assert_eq!(BLOCKING_DRAIN_LEN, 1024);
    assert_eq!(SUSPENDING_DRAIN_LEN, 512);
}

#[test]
fn regular_file_plan_awaits_priority_and_reads_nothing() {
    assert_eq!(
        plan_wait(SourceKind::RegularFile, Engine::Blocking),
        WaitPlan { readiness: Readiness::Priority, clear: false, drain: None }
    );
    assert_eq!(
        plan_wait(SourceKind::RegularFile, Engine::Suspending),
        WaitPlan { readiness: Readiness::Priority, clear: true, drain: None }
    );
}

#[test]
fn pipe_and_socket_plans_await_readability_and_drain() {
    for kind in [SourceKind::NamedPipe, SourceKind::StreamSocket] {
        assert_eq!(
            plan_wait(kind, Engine::Blocking),
            WaitPlan { readiness: Readiness::Readable, clear: false, drain: Some(1024) }
        );
        assert_eq!(
            plan_wait(kind, Engine::Suspending),
            WaitPlan { readiness: Readiness::Readable, clear: true, drain: Some(512) }
        );
    }
}

#[test]
fn every_wait_starts_by_awaiting_readiness() {
    for kind in KINDS {
        for engine in ENGINES {
            let wait = Wait::begin(kind, engine);
            assert_eq!(wait, Wait::AwaitingReadiness(plan_wait(kind, engine)));
            assert!(matches!(wait.action(), WaitAction::AwaitReadiness { .. }));
        }
    }
}

#[test]
fn regular_file_wait_is_over_once_ready() {
    for engine in ENGINES {
        let wait = Wait::begin(SourceKind::RegularFile, engine);
        assert_eq!(
            wait.action(),
            WaitAction::AwaitReadiness {
                readiness: Readiness::Priority,
                clear: engine == Engine::Suspending
            }
        );
        assert!(matches!(wait.resume(Ok(1)), WaitStep::Finished(Ok(()))));
    }
}

#[test]
fn pipe_wait_drains_once_with_the_buffer_of_its_engine() {
    for kind in [SourceKind::NamedPipe, SourceKind::StreamSocket] {
        for (engine, len) in [(Engine::Blocking, 1024), (Engine::Suspending, 512)] {
            let wait = Wait::begin(kind, engine);
            assert_eq!(
                wait.action(),
                WaitAction::AwaitReadiness {
                    readiness: Readiness::Readable,
                    clear: engine == Engine::Suspending
                }
            );
            let draining = match wait.resume(Ok(1)) {
                WaitStep::Next(next) => next,
                other => panic!("unexpected: {:?}", other),
            };
            assert_eq!(draining, Wait::Draining(len));
            assert_eq!(draining.action(), WaitAction::Drain { len });
            assert!(matches!(draining.resume(Ok(17)), WaitStep::Finished(Ok(()))));
        }
    }
}

#[test]
fn drain_that_reads_nothing_is_a_success() {
    assert!(matches!(Wait::Draining(1024).resume(Ok(0)), WaitStep::Finished(Ok(()))));
}

#[test]
fn drain_that_would_block_is_a_success() {
    assert!(matches!(Wait::Draining(1024).resume(Err(would_block())), WaitStep::Finished(Ok(()))));
    let again = Error::Nix(errno(nix::errno::Errno::EAGAIN));
    assert!(matches!(Wait::Draining(512).resume(Err(again)), WaitStep::Finished(Ok(()))));
}

#[test]
fn drain_that_fails_otherwise_fails_the_wait() {
    let failed = Wait::Draining(1024).resume(Err(Error::Nix(errno(nix::errno::Errno::EIO))));
    match failed {
        WaitStep::Finished(Err(Error::Nix(e))) => assert_eq!(e, errno(nix::errno::Errno::EIO)),
        other => panic!("unexpected: {:?}", other),
    }
    let bad = Wait::Draining(1024).resume(Err(Error::Nix(errno(nix::errno::Errno::EBADF))));
    match bad {
        WaitStep::Finished(Err(Error::Nix(e))) => assert_eq!(e, errno(nix::errno::Errno::EBADF)),
        other => panic!("unexpected: {:?}", other),
    }
}

#[test]
fn drain_failure_of_the_standard_library_fails_the_wait() {
    let io = std::io::Error::new(std::io::ErrorKind::WouldBlock, "not an error number");
    match Wait::Draining(512).resume(Err(Error::Io(io))) {
        WaitStep::Finished(Err(Error::Io(e))) => {
            assert_eq!(e.kind(), std::io::ErrorKind::WouldBlock)
        }
        other => panic!("unexpected: {:?}", other),
    }
}

#[test]
fn failed_readiness_fails_the_wait_before_any_read() {
    for kind in KINDS {
        let interrupted = Error::Nix(errno(nix::errno::Errno::EINTR));
        match Wait::begin(kind, Engine::Blocking).resume(Err(interrupted)) {
            WaitStep::Finished(Err(Error::Nix(e))) => {
                assert_eq!(e, errno(nix::errno::Errno::EINTR))
            }
            other => panic!("unexpected: {:?}", other),
        }
        let io = std::io::Error::new(std::io::ErrorKind::Other, "reactor gone");
        match Wait::begin(kind, Engine::Suspending).resume(Err(Error::Io(io))) {
            WaitStep::Finished(Err(Error::Io(e))) => {
                assert_eq!(e.kind(), std::io::ErrorKind::Other)
            }
            other => panic!("unexpected: {:?}", other),
        }
    }
}

#[test]
fn would_block_while_awaiting_readiness_is_a_failure() {
    for kind in KINDS {
        let step = Wait::begin(kind, Engine::Blocking).resume(Err(would_block()));
        assert!(matches!(step, WaitStep::Finished(Err(Error::Nix(_)))));
    }
}

#[test]
fn errno_knows_would_block() {
    assert!(errno(nix::errno::Errno::EWOULDBLOCK).is_would_block());
    assert!(errno(nix::errno::Errno::EAGAIN).is_would_block());
    assert!(!errno(nix::errno::Errno::EIO).is_would_block());
    assert!(!errno(nix::errno::Errno::EINTR).is_would_block());
    assert!(!Errno { raw: 0 }.is_would_block());
    assert!(!Errno { raw: -1 }.is_would_block());
}

#[test]
fn finish_drain_follows_its_arguments() {
    assert!(matches!(finish_drain(Ok(3), false), Ok(())));
    assert!(matches!(finish_drain(Ok(3), true), Ok(())));
    assert!(matches!(finish_drain(Err(Error::UnexpectedFileType), true), Ok(())));
    assert!(matches!(
        finish_drain(Err(Error::UnexpectedFileType), false),
        Err(Error::UnexpectedFileType)
    ));
}

#[test]
fn tagged_handle_keeps_kind_and_handle() {
    let file = MonitorType::new(SourceKind::RegularFile, 3);
    assert!(matches!(file, MonitorType::File(3)));
    assert_eq!(file.kind(), SourceKind::RegularFile);
    assert_eq!(*file.as_fd(), 3);

    let fifo = MonitorType::new(SourceKind::NamedPipe, "pipe");
    assert!(matches!(fifo, MonitorType::Fifo("pipe")));
    assert_eq!(fifo.kind(), SourceKind::NamedPipe);
    assert_eq!(*fifo.as_fd(), "pipe");

    let socket = MonitorType::new(SourceKind::StreamSocket, 5u8);
    assert!(matches!(socket, MonitorType::Socket(5)));
    assert_eq!(socket.kind(), SourceKind::StreamSocket);
    assert_eq!(*socket.as_fd(), 5);
}

#[test]
fn monitor_owns_the_handle_it_was_given() {
    let monitor = PressureMonitor::new(armed(SourceKind::StreamSocket), vec![4u8, 2], Engine::Blocking);
    assert_eq!(monitor.kind(), SourceKind::StreamSocket);
    assert_eq!(*monitor.as_fd(), vec![4u8, 2]);
}

#[test]
fn monitor_starts_the_wait_of_its_kind_and_engine() {
    for kind in KINDS {
        for engine in ENGINES {
            let monitor = monitor(kind, engine);
            assert_eq!(monitor.kind(), kind);
            assert_eq!(monitor.engine(), engine);
            assert_eq!(*monitor.as_fd(), 7);
            assert_eq!(monitor.wait(), Wait::begin(kind, engine));
        }
    }
}

/// Performs a whole wait on a source that is always ready and whose reads
/// end as `drained` says, and counts the reads.
fn wait_once(monitor: &PressureMonitor<i32>, drained: fn() -> Result<usize, Error>) -> (Result<(), Error>, usize) {
    let mut reads = 0;
    let mut wait = monitor.wait();
    loop {
        let outcome = match wait.action() {
            WaitAction::AwaitReadiness { .. } => Ok(1),
            WaitAction::Drain { .. } => {
                reads += 1;
                drained()
            }
        };
        match wait.resume(outcome) {
            WaitStep::Next(next) => wait = next,
            WaitStep::Finished(result) => return (result, reads),
        }
    }
}

#[test]
fn repeated_waits_under_pressure_never_fail() {
    for kind in KINDS {
        for engine in ENGINES {
            let monitor = monitor(kind, engine);
            let expected_reads = if kind == SourceKind::RegularFile { 0 } else { 1 };
            for round in 0..100 {
                let drained: fn() -> Result<usize, Error> =
                    if round % 2 == 0 { || Ok(64) } else { || Err(would_block()) };
                let (result, reads) = wait_once(&monitor, drained);
                assert!(result.is_ok());
                assert_eq!(reads, expected_reads);
            }
        }
    }
}

#[test]
fn abandoned_wait_leaves_the_monitor_usable() {
    for kind in KINDS {
        let monitor = monitor(kind, Engine::Suspending);
        let abandoned = monitor.wait();
        assert!(matches!(abandoned.action(), WaitAction::AwaitReadiness { .. }));
        drop(abandoned);
        assert_eq!(monitor.wait(), Wait::begin(kind, Engine::Suspending));
        let (result, _) = wait_once(&monitor, || Ok(1));
        assert!(result.is_ok());
    }
}

#[test]
fn wait_abandoned_before_its_read_can_be_followed_by_another() {
    let monitor = monitor(SourceKind::NamedPipe, Engine::Suspending);
    let draining = match monitor.wait().resume(Ok(1)) {
        WaitStep::Next(next) => next,
        other => panic!("unexpected: {:?}", other),
    };
    assert_eq!(draining.action(), WaitAction::Drain { len: 512 });
    drop(draining);
    let (result, reads) = wait_once(&monitor, || Err(would_block()));
    assert!(result.is_ok());
    assert_eq!(reads, 1);
}
