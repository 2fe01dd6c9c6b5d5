use spooler::dom::{Dom, DomInst};
use spooler::logic::channel::PollError;
use spooler::logic::error::LogicError;
use spooler::logic::func::{Double, ReturnValue};
use spooler::logic::module::{LogicModule, ModuleCode, ModuleTable};
use spooler::logic::module_url::ModuleUrl;
use spooler::logic::proxy::{delivery, message_for, Logic, LogicInstEvent, Next, Spawned};
use spooler::logic::runtime::{
    DeltaTime, InvocationInfo, LogicInputEvent, LogicOutputEvent, LogicRuntime, Received,
};
use spooler::logic::startup::Startup;
use spooler::logic::time::{Span, Timestamp};
use spooler::manifest::{
    manifest_spawner, read_messages, update_dt, LogicComponent, Manifest, ManifestSpawnEvent,
};

fn double(value: f64) -> Double {
    Double {
        bits: value.to_bits(),
    }
}

fn at(nanos: u64) -> Timestamp {
    Timestamp { nanos }
}

fn logic(code: &str) -> Logic {
    let mut modules = ModuleTable::new();
    modules.insert(
        ModuleUrl::local_main(),
        LogicModule::Direct {
            src: code.to_owned(),
        },
    );
    Logic { modules }
}

fn main_code(spawned: &Spawned) -> String {
    match spawned.module_loader.load(&spawned.url).unwrap().code {
        ModuleCode::JavaScript(text) => text,
        ModuleCode::Wasm(_) => panic!("the script is JavaScript"),
    }
}

fn spawned() -> Spawned {
    logic("main").spawn()
}

fn failure(text: &str) -> LogicError {
    LogicError::Script(text.to_owned())
}

fn text_of(event: &LogicOutputEvent) -> String {
    match event {
        LogicOutputEvent::Failed(error) => error.message(),
    }
}

fn running(on_update: bool) -> LogicRuntime {
    let mut startup = Startup::of_proxy();
    while startup.next_step().is_some() {
        startup.advance(Ok(()));
    }
    LogicRuntime::spawn_runtime(startup, on_update).unwrap()
}

#[test]
fn spawned_script_starts_at_its_main_module() {
    let spawned = spawned();
    assert_eq!(spawned.url.as_str(), "local://main");
    assert_eq!(main_code(&spawned), "main");
}

#[test]
fn messages_are_taken_up_in_order() {
    let Spawned {
        mut inst, mut root, ..
    } = spawned();
    assert!(matches!(
        root.poll_runtime_proxy(Ok(())),
        Next::RunEventLoop
    ));
    assert!(matches!(root.after_event_loop(Ok(())), Next::RunEventLoop));
    inst.send(LogicInputEvent::Update(double(0.5)), at(10))
        .unwrap();
    inst.send(LogicInputEvent::Update(double(0.25)), at(20))
        .unwrap();
    for (value, time) in [(0.5, 10), (0.25, 20)] {
        match root.after_event_loop(Ok(())) {
            Next::Process(event) => {
                assert_eq!(event.input, LogicInputEvent::Update(double(value)));
                assert_eq!(event.send_time, at(time));
            }
            _ => panic!("a message was sent"),
        }
        assert!(matches!(root.after_message(Ok(())), Next::RunEventLoop));
    }
    assert!(matches!(root.after_event_loop(Ok(())), Next::RunEventLoop));
    assert!(inst.try_recv().is_none());
}

#[test]
fn a_failed_startup_is_reported_and_messages_are_refused() {
    let Spawned {
        mut inst, mut root, ..
    } = spawned();
    assert!(matches!(
        root.poll_runtime_proxy(Err(failure("syntax error"))),
        Next::Stop
    ));
    let refused = inst.send(LogicInputEvent::Update(double(1.0)), at(0));
    assert!(matches!(refused, Err(LogicError::ChannelClosed)));
    assert_eq!(text_of(&inst.try_recv().unwrap()), "syntax error");
    assert!(inst.try_recv().is_none());
}

#[test]
fn a_failing_event_loop_ends_the_script() {
    let Spawned {
        mut inst, mut root, ..
    } = spawned();
    inst.send(LogicInputEvent::Update(double(1.0)), at(0))
        .unwrap();
    assert!(matches!(
        root.after_event_loop(Err(failure("thrown"))),
        Next::Stop
    ));
    assert!(inst
        .send(LogicInputEvent::Update(double(1.0)), at(0))
        .is_err());
    assert_eq!(text_of(&inst.try_recv().unwrap()), "thrown");
}

#[test]
fn a_failing_message_ends_the_script() {
    let Spawned {
        mut inst, mut root, ..
    } = spawned();
    inst.send(LogicInputEvent::Update(double(1.0)), at(0))
        .unwrap();
    assert!(matches!(root.after_event_loop(Ok(())), Next::Process(_)));
    assert!(matches!(
        root.after_message(Err(failure("bad message"))),
        Next::Stop
    ));
    assert_eq!(text_of(&inst.try_recv().unwrap()), "bad message");
}

#[test]
fn a_script_without_frontend_ends() {
    let Spawned { inst, mut root, .. } = spawned();
    drop(inst);
    assert!(matches!(root.after_event_loop(Ok(())), Next::Stop));
    root.fail(failure("nobody is told"));
    assert_eq!(
        LogicError::Disconnected.message(),
        tokio::sync::mpsc::error::TryRecvError::Disconnected.to_string()
    );
}

#[test]
fn messages_are_taken_up_before_the_script_ends() {
    let Spawned {
        mut inst, mut root, ..
    } = spawned();
    inst.send(LogicInputEvent::Update(double(1.0)), at(0))
        .unwrap();
    drop(inst);
    assert!(matches!(root.after_event_loop(Ok(())), Next::Process(_)));
    assert!(matches!(root.after_event_loop(Ok(())), Next::Stop));
}

#[test]
fn outcomes_of_a_poll_are_read() {
    let event = LogicInstEvent {
        input: LogicInputEvent::Update(double(2.0)),
        send_time: at(1),
    };
    assert_eq!(message_for(Ok(event)).unwrap(), Some(event));
    assert_eq!(message_for(Err(PollError::Empty)).unwrap(), None);
    assert!(matches!(
        message_for(Err(PollError::Disconnected)),
        Err(LogicError::Disconnected)
    ));
    assert!(delivery::<LogicInstEvent>(Ok(())).is_ok());
    assert!(matches!(
        delivery(Err(event)),
        Err(LogicError::ChannelClosed)
    ));
}

#[test]
fn updates_show_the_latest_frame() {
    let mut script = running(true);
    assert_eq!(script.update_counter(), 0);
    assert_eq!(script.handles().delta_t, double(0.0));
    for (count, value) in [(1, 0.016), (2, 0.033)] {
        let event = LogicInstEvent {
            input: LogicInputEvent::Update(double(value)),
            send_time: at(100),
        };
        let received = script.process_message(&event, at(150));
        assert_eq!(
            received,
            Received {
                message_delay: Span { nanos: 50 },
                invoke: true
            }
        );
        let mut rv: ReturnValue<()> = ReturnValue::Undefined;
        DeltaTime::read(Some(script.handles()), &mut rv);
        match rv {
            ReturnValue::Double(shown) => assert_eq!(f64::from_bits(shown.bits), value),
            _ => panic!("a number is handed back"),
        }
        let info = script.finish_update(at(150), at(153), at(160));
        assert_eq!(
            info,
            InvocationInfo {
                binding_delay: Span { nanos: 3 },
                function_invocation: Span { nanos: 7 },
            }
        );
        assert_eq!(script.update_counter(), count);
    }
}

#[test]
fn a_script_without_on_update_is_not_called() {
    let mut script = running(false);
    let event = LogicInstEvent {
        input: LogicInputEvent::Update(double(0.5)),
        send_time: at(7),
    };
    let received = script.process_message(&event, at(5));
    assert!(!received.invoke);
    assert_eq!(received.message_delay, Span { nanos: 0 });
    assert_eq!(script.handles().delta_t, double(0.0));
    assert!(!script.on_update(double(0.5)));
    assert_eq!(script.update_counter(), 0);
}

#[test]
fn delta_time_goes_by_its_name() {
    assert_eq!(DeltaTime::name(), "deltaTime");
    let mut rv: ReturnValue<()> = ReturnValue::Null;
    DeltaTime::read(None, &mut rv);
    assert!(matches!(rv, ReturnValue::Null));
}

#[test]
fn a_failed_proxy_startup_gives_no_script() {
    let mut startup = Startup::of_proxy();
    startup.advance(Err(LogicError::ModuleNotFound));
    assert!(matches!(
        LogicRuntime::spawn_runtime(startup, true),
        Err(LogicError::ModuleNotFound)
    ));
}

#[test]
fn times_do_not_go_backwards() {
    assert_eq!(at(12).duration_since(at(5)), Span { nanos: 7 });
    assert_eq!(at(5).duration_since(at(12)), Span { nanos: 0 });
}

#[test]
fn dom_spawns() {
    let DomInst {} = Dom {}.spawn();
    let DomInst {} = DomInst::default();
}

fn event(entity: u64, logic: Option<Logic>) -> ManifestSpawnEvent<Logic> {
    ManifestSpawnEvent {
        manifest: Manifest {
            dom: Some(Dom {}),
            logic,
        },
        entity,
    }
}

#[test]
fn manifests_spawn_for_items_that_are_alive() {
    let events = [
        event(1, Some(logic("one"))),
        event(2, Some(logic("two"))),
        event(3, None),
        event(4, Some(logic("four"))),
        event(1, Some(logic("again"))),
    ];
    let insertions = manifest_spawner(
        &events.iter().collect(),
        &vec![true, false, true, true, true],
    );
    let made: Vec<(u64, String)> = insertions
        .iter()
        .map(|insertion| (insertion.entity, main_code(&insertion.live)))
        .collect();
    assert_eq!(
        made,
        vec![
            (1, "one".to_owned()),
            (4, "four".to_owned()),
            (1, "again".to_owned())
        ]
    );
    assert!(event(5, None).manifest.spawn().is_none());
}

#[test]
fn components_pass_frames_and_messages_on() {
    let Spawned { inst, mut root, .. } = spawned();
    let mut component = LogicComponent { inst };
    update_dt(&mut component, double(0.125), at(9));
    match root.after_event_loop(Ok(())) {
        Next::Process(event) => {
            assert_eq!(event.input, LogicInputEvent::Update(double(0.125)));
            assert_eq!(event.send_time, at(9));
        }
        _ => panic!("a message was sent"),
    }
    assert!(read_messages(&mut component).is_empty());
    root.fail(failure("ended"));
    update_dt(&mut component, double(0.125), at(10));
    let messages = read_messages(&mut component);
    assert_eq!(messages.len(), 1);
    assert_eq!(text_of(&messages[0]), "ended");
    assert!(read_messages(&mut component).is_empty());
}

#[test]
fn errors_have_words() {
    assert_eq!(LogicError::InvalidUrl.message(), "invalid URL");
    assert_eq!(failure("words").message(), "words");
}
