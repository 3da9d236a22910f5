use xenon::env::EnvData;
use xenon::error::{Error, PollRequest};
use xenon::executor::{poll, wait, Action, Event, Phase, RunState, Suspension};
use xenon::registration::{Interest, Registration, RegistrationKind, RegistrationQueue, WakerFunc};
use xenon::syscall::{schedule_io, schedule_timer};

fn recorder() -> (wasmi::Store<Vec<u32>>, WakerFunc) {
    let engine = wasmi::Engine::default();
    let mut store = wasmi::Store::new(&engine, Vec::new());
    let func = wasmi::Func::wrap(&mut store, |mut caller: wasmi::Caller<'_, Vec<u32>>, data: u32| {
        caller.data_mut().push(data);
    });
    let typed = func.typed::<u32, ()>(&store).unwrap();
    (store, typed)
}

#[test]
fn wait_suspends_until_notified() {
    let mut env = EnvData::new();
    assert_eq!(wait(&mut env), Err(PollRequest::Wait));
    assert_eq!(poll(&mut env), Err(PollRequest::Poll));
    env.set_notified(true);
    assert_eq!(wait(&mut env), Ok(()));
    assert!(!env.notified());
    env.set_notified(true);
    assert_eq!(poll(&mut env), Ok(()));
    assert!(!env.notified());
}

#[test]
fn single_wait_resumes_once() {
    let (mut store, waker) = recorder();
    let mut env = EnvData::new();
    let mut queue = RegistrationQueue::new();
    let mut run = RunState::new();

    queue.push(Registration::new_timer(10, 7, waker));
    let request = wait(&mut env).unwrap_err();
    let action = run.step(Event::Suspended(Suspension::Request(request)), &mut queue, &mut env);
    assert!(matches!(action, Action::AwaitSignal));
    let action = run.step(Event::Signaled, &mut queue, &mut env);
    let reg = match action {
        Action::Wake(reg) => reg,
        _ => panic!("expected a wake"),
    };
    reg.wake.call(&mut store, reg.data).unwrap();
    let action = run.step(Event::Woken, &mut queue, &mut env);
    assert!(matches!(action, Action::Resume));
    assert_eq!(run.phase(), Phase::Running);
    assert_eq!(wait(&mut env), Ok(()));
    let action = run.step(Event::Completed, &mut queue, &mut env);
    assert!(matches!(action, Action::Finish(Ok(()))));
    assert_eq!(store.data(), &vec![7]);
}

#[test]
fn wakes_in_push_order() {
    let (mut store, waker) = recorder();
    let mut env = EnvData::new();
    let mut queue = RegistrationQueue::new();
    let mut run = RunState::new();
    queue.push(Registration::new_timer(1, 0xA, waker));
    queue.push(Registration::new_io(3, Interest { read: true, write: false }, 0xB, waker));
    assert_eq!(queue.len(), 2);

    let mut action = run.step(Event::Suspended(Suspension::Request(PollRequest::Poll)), &mut queue, &mut env);
    let mut kinds = Vec::new();
    while let Action::Wake(reg) = action {
        reg.wake.call(&mut store, reg.data).unwrap();
        kinds.push(reg.kind);
        action = run.step(Event::Woken, &mut queue, &mut env);
    }
    assert!(matches!(action, Action::Resume));
    assert_eq!(store.data(), &vec![0xA, 0xB]);
    assert_eq!(kinds[0], RegistrationKind::Timer(1));
    assert_eq!(kinds[1], RegistrationKind::Io { id: 3, interest: Interest { read: true, write: false } });
    assert!(env.notified());
}

#[test]
fn poll_with_nothing_ready_waits_for_signal() {
    let (_store, waker) = recorder();
    let mut env = EnvData::new();
    let mut queue = RegistrationQueue::new();
    let mut run = RunState::new();
    let action = run.step(Event::Suspended(Suspension::Request(PollRequest::Poll)), &mut queue, &mut env);
    assert!(matches!(action, Action::AwaitSignal));
    assert_eq!(run.phase(), Phase::Waiting);
    queue.push(Registration::new_timer(5, 1, waker));
    let action = run.step(Event::Signaled, &mut queue, &mut env);
    assert!(matches!(action, Action::Wake(reg) if reg.data == 1));
    assert!(!env.notified());
}

#[test]
fn host_error_ends_the_run() {
    let mut env = EnvData::new();
    let mut queue = RegistrationQueue::new();
    let mut run = RunState::new();
    let action = run.step(Event::Suspended(Suspension::Failure(Error::InvalidId(4))), &mut queue, &mut env);
    assert!(matches!(action, Action::Finish(Err(Error::InvalidId(4)))));
    assert_eq!(run.phase(), Phase::Done);
}

#[test]
fn timer_scheduled_then_waited_on_runs_to_completion() {
    let (mut store, waker) = recorder();
    let mut env = EnvData::new();
    let mut queue = RegistrationQueue::new();
    let mut run = RunState::new();

    // The guest schedules a timer for 1000 us with payload 0xAB, then waits.
    let reg = schedule_timer(Some(waker), 0xAB, 0, 1000).unwrap();
    assert_eq!(reg.kind, RegistrationKind::Timer(1000));
    let request = wait(&mut env).unwrap_err();
    let mut action = run.step(Event::Suspended(Suspension::Request(request)), &mut queue, &mut env);
    assert!(matches!(action, Action::AwaitSignal));

    // Virtual time passes the deadline: the timer task queues the registration.
    let now: u64 = 1001;
    if let RegistrationKind::Timer(deadline) = reg.kind {
        assert!(now >= deadline);
        queue.push(reg);
    }
    action = run.step(Event::Signaled, &mut queue, &mut env);
    let mut woken = 0;
    while let Action::Wake(r) = action {
        r.wake.call(&mut store, r.data).unwrap();
        woken += 1;
        action = run.step(Event::Woken, &mut queue, &mut env);
    }
    assert_eq!(woken, 1);
    assert!(matches!(action, Action::Resume));
    assert_eq!(wait(&mut env), Ok(()));
    action = run.step(Event::Completed, &mut queue, &mut env);
    assert!(matches!(action, Action::Finish(Ok(()))));
    assert_eq!(store.data(), &vec![0xAB]);
}

#[test]
fn timer_deadline_saturates_and_null_slot_is_refused() {
    let (_store, waker) = recorder();
    let reg = schedule_timer(Some(waker), 1, u64::MAX - 5, 10).unwrap();
    assert_eq!(reg.kind, RegistrationKind::Timer(u64::MAX));
    assert!(matches!(schedule_timer(None, 1, 0, 10), Err(Error::NullFunction)));
}

#[test]
fn registrations_arriving_during_drain_wait_for_next_suspension() {
    let (mut store, waker) = recorder();
    let mut env = EnvData::new();
    let mut queue = RegistrationQueue::new();
    let mut run = RunState::new();
    queue.push(Registration::new_timer(1, 1, waker));
    let action = run.step(Event::Suspended(Suspension::Request(PollRequest::Poll)), &mut queue, &mut env);
    let reg = match action {
        Action::Wake(reg) => reg,
        _ => panic!("expected a wake"),
    };
    reg.wake.call(&mut store, reg.data).unwrap();
    queue.push(Registration::new_timer(2, 2, waker));
    let action = run.step(Event::Woken, &mut queue, &mut env);
    assert!(matches!(action, Action::Resume));
    assert_eq!(queue.len(), 1);
    assert_eq!(store.data(), &vec![1]);
}

#[test]
fn schedule_io_refuses_unknown_sources() {
    let (_store, waker) = recorder();
    assert!(matches!(schedule_io(Some(waker), 3), Err(Error::InvalidId(3))));
    assert!(matches!(schedule_io(None, 3), Err(Error::NullFunction)));
}
