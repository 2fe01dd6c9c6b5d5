use std::sync::Arc;

use spooler::logic::channel::PollError;
use spooler::logic::error::LogicError;
use spooler::logic::instance::{Runtime, RuntimeStatus};
use spooler::logic::loader::ModuleResolver;
use spooler::logic::module::LogicModule;
use spooler::logic::module_url::ModuleUrl;
use spooler::logic::startup::{Startup, StartupStep};
use spooler::logic::func::Double;
use spooler::logic::runtime::{LogicInputEvent, LogicOutputEvent};
use spooler::logic::time::Timestamp;
use spooler::logic::worker::{
    connect, control_for, Action, Control, Worker, WorkerImpl, WorkerInputEvent,
};
use spooler::logic::{FeatureId, Logic, LogicArgs, Manager, RuntimeConnection};

fn script(src: &str, features: Vec<FeatureId>) -> Logic {
    Logic::new(
        LogicModule::Direct {
            src: src.to_owned(),
        },
        ModuleUrl::builtin_main(),
        features,
    )
}

fn args(src: &str) -> Arc<LogicArgs> {
    Arc::new(LogicArgs {
        source: LogicModule::Direct {
            src: src.to_owned(),
        },
        main_url: ModuleUrl::builtin_main(),
        features: Vec::new(),
    })
}

fn failure(text: &str) -> LogicError {
    LogicError::Script(text.to_owned())
}

/// A worker with a request under way, and what is made of that request.
fn requested(src: &str) -> (RuntimeConnection, WorkerInputEvent, WorkerImpl) {
    let (mut worker, mut backend) = Worker::new(&Arc::new(ModuleResolver::default()));
    let connection = worker.create_runtime(args(src)).unwrap();
    match backend.poll() {
        Control::Create(args, end) => (connection, WorkerInputEvent::Create(args, end), backend),
        _ => panic!("a request was sent"),
    }
}

fn started(logic: &Logic) -> Runtime {
    let (_, WorkerInputEvent::Create(_, end), _) = requested("s");
    let mut startup = Startup::of_runtime(&logic.args().features);
    while startup.next_step().is_some() {
        startup.advance(Ok(()));
    }
    Runtime::new(logic.args(), end, startup).unwrap()
}

#[test]
fn startup_takes_all_steps_in_order() {
    let features = vec![FeatureId { id: 4 }, FeatureId { id: 2 }];
    let logic = script("s", features);
    let mut startup = Startup::of_runtime(&logic.args().features);
    let mut steps = Vec::new();
    while let Some(step) = startup.next_step() {
        steps.push(step);
        startup.advance(Ok(()));
    }
    assert_eq!(
        steps,
        vec![
            StartupStep::InitFeature(FeatureId { id: 4 }),
            StartupStep::InitFeature(FeatureId { id: 2 }),
            StartupStep::LoadMain,
            StartupStep::RunEventLoop,
            StartupStep::AwaitEvaluation,
        ]
    );
    let (_, WorkerInputEvent::Create(_, end), _) = requested("s");
    let runtime = Runtime::new(logic.args(), end, startup).unwrap();
    assert_eq!(runtime.status(), RuntimeStatus::Running);
}

#[test]
fn startup_stops_at_the_first_failure() {
    let logic = script("s", vec![FeatureId { id: 1 }]);
    let mut startup = Startup::of_runtime(&logic.args().features);
    startup.advance(Ok(()));
    startup.advance(Err(failure("no such module")));
    assert!(startup.next_step().is_none());
    startup.advance(Err(failure("later")));
    startup.advance(Ok(()));
    let (_, WorkerInputEvent::Create(_, end), _) = requested("s");
    match Runtime::new(logic.args(), end, startup) {
        Err(LogicError::Script(text)) => assert_eq!(text, "no such module"),
        _ => panic!("the startup failed"),
    }
}

#[test]
fn proxy_startup_has_its_own_steps() {
    let mut startup = Startup::of_proxy();
    let mut steps = Vec::new();
    while let Some(step) = startup.next_step() {
        steps.push(step);
        startup.advance(Ok(()));
    }
    assert_eq!(
        steps,
        vec![
            StartupStep::LoadMain,
            StartupStep::RunEventLoop,
            StartupStep::AwaitEvaluation,
            StartupStep::GetNamespace,
            StartupStep::BindHandles,
        ]
    );
    assert!(startup.finish().is_ok());
}

#[test]
fn status_decides_on_turns() {
    assert!(RuntimeStatus::Running.should_update());
    assert!(!RuntimeStatus::Faulted.should_update());
}

#[test]
fn a_faulted_runtime_stays_faulted() {
    let mut runtime = started(&script("s", Vec::new()));
    runtime.run_event_loop(Ok(()));
    assert_eq!(runtime.status(), RuntimeStatus::Running);
    runtime.run_event_loop(Err(failure("thrown")));
    assert_eq!(runtime.status(), RuntimeStatus::Faulted);
    runtime.run_event_loop(Ok(()));
    assert_eq!(runtime.status(), RuntimeStatus::Faulted);
}

#[test]
fn requests_reach_the_backend_in_order() {
    let (mut worker, mut backend) = Worker::new(&Arc::new(ModuleResolver::default()));
    assert!(matches!(backend.poll(), Control::Idle));
    assert!(worker.create_runtime(args("a")).is_ok());
    assert!(worker.create_runtime(args("b")).is_ok());
    for expected in ["a", "b"] {
        match backend.poll() {
            Control::Create(args, _) => assert_eq!(args.source.source().unwrap(), expected),
            _ => panic!("a request was sent"),
        }
    }
    assert!(matches!(backend.poll(), Control::Idle));
    drop(worker);
    assert!(matches!(backend.poll(), Control::Shutdown));
}

#[test]
fn a_worker_without_backend_refuses_requests() {
    let (mut worker, backend) = Worker::new(&Arc::new(ModuleResolver::default()));
    drop(backend);
    let refused = worker.create_runtime(args("a"));
    assert!(matches!(refused, Err(LogicError::ChannelClosed)));
    assert_eq!(
        LogicError::ChannelClosed.message(),
        tokio::sync::mpsc::error::SendError(()).to_string()
    );
}

#[test]
fn outcomes_of_sends_and_polls_are_read() {
    let (connection, request, _) = requested("a");
    assert!(connect(Ok(()), connection.inst).is_ok());
    let (connection, _, _) = requested("a");
    assert!(matches!(
        connect(Err(request), connection.inst),
        Err(LogicError::ChannelClosed)
    ));
    assert!(matches!(
        control_for(Err(PollError::Empty)),
        Control::Idle
    ));
    assert!(matches!(
        control_for(Err(PollError::Disconnected)),
        Control::Shutdown
    ));
    assert!(matches!(
        control_for(Ok(requested("a").1)),
        Control::Create(_, _)
    ));
}

#[test]
fn a_fault_leaves_other_runtimes_alone() {
    let (_worker, mut backend) = Worker::new(&Arc::new(ModuleResolver::default()));
    assert_eq!(backend.next_due(0), None);
    for name in ["a", "b", "c"] {
        backend.take_in(Ok(started(&script(name, Vec::new()))));
    }
    backend.take_in(Err(failure("did not start")));
    assert_eq!(backend.next_due(0), Some(0));
    assert_eq!(backend.next_due(3), None);
    backend.record(0, Ok(()));
    backend.record(1, Err(failure("thrown")));
    backend.record(2, Ok(()));
    assert_eq!(backend.next_due(0), Some(0));
    assert_eq!(backend.next_due(1), Some(2));
    backend.record(1, Ok(()));
    assert_eq!(backend.next_due(1), Some(2));
}

#[test]
fn a_round_gives_each_running_runtime_a_turn() {
    let (_worker, mut backend) = Worker::new(&Arc::new(ModuleResolver::default()));
    assert_eq!(backend.next_turn(), None);
    for name in ["a", "b", "c"] {
        backend.take_in(Ok(started(&script(name, Vec::new()))));
    }
    for expected in [vec![0, 1, 2], vec![0, 2], vec![0, 2]] {
        let mut turns = Vec::new();
        while let Some(index) = backend.next_turn() {
            turns.push(index);
            backend.record(
                index,
                if index == 1 {
                    Err(failure("thrown"))
                } else {
                    Ok(())
                },
            );
        }
        assert_eq!(turns, expected);
    }
}

#[test]
fn a_look_follows_each_round() {
    let (mut worker, mut backend) = Worker::new(&Arc::new(ModuleResolver::default()));
    assert!(matches!(
        backend.next_action(),
        Action::Control(Control::Idle)
    ));
    for name in ["a", "b"] {
        backend.take_in(Ok(started(&script(name, Vec::new()))));
    }
    worker.create_runtime(args("c")).unwrap();
    for index in [0, 1] {
        assert!(matches!(backend.next_action(), Action::Turn(due) if due == index));
        backend.record(index, Ok(()));
    }
    match backend.next_action() {
        Action::Control(Control::Create(args, _)) => {
            assert_eq!(args.source.source().unwrap(), "c")
        }
        _ => panic!("a request was sent"),
    }
    backend.take_in(Ok(started(&script("c", Vec::new()))));
    drop(worker);
    for index in [0, 1, 2] {
        assert!(matches!(backend.next_action(), Action::Turn(due) if due == index));
        backend.record(index, Ok(()));
    }
    assert!(matches!(
        backend.next_action(),
        Action::Control(Control::Shutdown)
    ));
}

#[test]
fn requests_are_taken_up_before_the_shutdown() {
    let (mut worker, mut backend) = Worker::new(&Arc::new(ModuleResolver::default()));
    worker.create_runtime(args("a")).unwrap();
    drop(worker);
    assert!(matches!(backend.poll(), Control::Create(_, _)));
    assert!(matches!(backend.poll(), Control::Shutdown));
}

#[test]
fn a_connection_carries_events_both_ways() {
    let (mut connection, WorkerInputEvent::Create(args, end), mut backend) = requested("s");
    let mut startup = Startup::of_runtime(&args.features);
    while startup.next_step().is_some() {
        startup.advance(Ok(()));
    }
    backend.take_in(Runtime::new(&args, end, startup));
    let update = LogicInputEvent::Update(Double { bits: 7 });
    let sent_at = Timestamp { nanos: 3 };
    assert_eq!(backend.connection(0).try_recv(), Err(PollError::Empty));
    connection.inst.send(update, sent_at).unwrap();
    let event = backend.connection(0).try_recv().unwrap();
    assert_eq!(event.input, update);
    assert_eq!(event.send_time, sent_at);
    assert!(connection.inst.try_recv().is_none());
    backend
        .connection(0)
        .send(LogicOutputEvent::Failed(failure("seen")))
        .unwrap();
    match connection.inst.try_recv() {
        Some(LogicOutputEvent::Failed(error)) => assert_eq!(error.message(), "seen"),
        None => panic!("an event was sent"),
    }
    drop(backend);
    assert!(connection.inst.send(update, sent_at).is_err());
}

#[test]
fn manager_keeps_to_one_worker() {
    let mut manager = Manager::default();
    let first = manager.load_runtime(&script("a", Vec::new()));
    let mut backend = first.started.unwrap();
    assert!(first.connection.is_ok());
    let second = manager.load_runtime(&script("b", Vec::new()));
    assert!(second.started.is_none());
    assert!(second.connection.is_ok());
    for expected in ["a", "b"] {
        match backend.poll() {
            Control::Create(args, _) => assert_eq!(args.source.source().unwrap(), expected),
            _ => panic!("a request was sent"),
        }
    }
    drop(backend);
    let third = manager.load_runtime(&script("c", Vec::new()));
    assert!(third.started.is_none());
    assert!(matches!(third.connection, Err(LogicError::ChannelClosed)));
}
