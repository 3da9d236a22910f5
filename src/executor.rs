//! The decisions of the executor's resumable-call loop. The loop itself (the
//! guest call, its resumption, invoking wakers, awaiting the queue's signal)
//! is driven from outside: it reports each outcome here as an [`Event`] and
//! performs the [`Action`] it gets back.
use vstd::prelude::*;
use crate::env::{EnvData, EnvDataView};
use crate::error::{Error, PollRequest};
use crate::registration::{Registration, RegistrationQueue};

verus! {

/// Why the guest call stopped without finishing.
#[derive(Clone, Copy, Debug)]
pub enum Suspension {
    /// A syscall asked to suspend until registrations are woken.
    Request(PollRequest),
    /// A syscall failed with a host error, which ends the run.
    Failure(Error),
}

/// What happened since the last action.
#[derive(Clone, Copy, Debug)]
pub enum Event {
    /// The guest call stopped on a host call.
    Suspended(Suspension),
    /// The guest call returned.
    Completed,
    /// The waker of the registration last handed out returned.
    Woken,
    /// The registration queue's signal fired.
    Signaled,
}

/// What to do next.
#[derive(Clone, Copy)]
pub enum Action {
    /// Call the registration's waker with its payload word, then report `Woken`.
    Wake(Registration),
    /// Wait for the registration queue's signal, then report `Signaled`.
    AwaitSignal,
    /// Resume the suspended guest call.
    Resume,
    /// The run is over, with this result.
    Finish(Result<(), Error>),
}

/// Where the loop stands.
#[derive(Clone, Copy, Debug, PartialEq, Eq, Structural)]
pub enum Phase {
    /// The guest call is executing.
    Running,
    /// Waiting for the queue's signal, no waker having run yet in this
    /// suspension.
    Waiting,
    /// A waker is running; `left` more registrations of those queued when
    /// the drain began are still to be woken.
    Draining { left: usize },
    /// The run is over.
    Done,
}

/// Whether `event` can happen in `phase`.
pub open spec fn expects(phase: Phase, event: Event) -> bool {
    match phase {
        Phase::Running => event is Suspended || event is Completed,
        Phase::Waiting => event is Signaled,
        Phase::Draining { .. } => event is Woken,
        Phase::Done => false,
    }
}

/// One step of draining, with `left` registrations still to wake of those
/// queued when the drain began: hand out the one at the front of the queue;
/// with none left, resume the guest if a waker ran in this suspension
/// (noting that for the guest), else wait for the signal. Registrations
/// queued after the drain began wait for the next one.
pub open spec fn drain(woke: bool, left: usize, queue: Seq<Registration>, env: EnvDataView) -> (
    Phase,
    Action,
    Seq<Registration>,
    EnvDataView,
) {
    if left > 0 && queue.len() > 0 {
        (Phase::Draining { left: (left - 1) as usize }, Action::Wake(queue[0]), queue.drop_first(), env)
    } else if woke {
        (Phase::Running, Action::Resume, queue, EnvDataView { notified: true, ..env })
    } else {
        (Phase::Waiting, Action::AwaitSignal, queue, env)
    }
}

/// The loop's transition: the next phase, the action, and the queue and
/// shared state afterwards.
pub open spec fn step_spec(
    phase: Phase,
    event: Event,
    queue: Seq<Registration>,
    env: EnvDataView,
) -> (Phase, Action, Seq<Registration>, EnvDataView) {
    match event {
        Event::Completed => (Phase::Done, Action::Finish(Ok(())), queue, env),
        Event::Suspended(Suspension::Failure(e)) => (Phase::Done, Action::Finish(Err(e)), queue, env),
        Event::Suspended(Suspension::Request(PollRequest::Wait)) => (
            Phase::Waiting,
            Action::AwaitSignal,
            queue,
            env,
        ),
        Event::Suspended(Suspension::Request(PollRequest::Poll)) => drain(false, queue.len() as usize, queue, env),
        Event::Signaled => drain(false, queue.len() as usize, queue, env),
        Event::Woken => match phase {
            Phase::Draining { left } => drain(true, left, queue, env),
            _ => drain(true, 0, queue, env),
        },
    }
}

/// What the `wait` and `poll` syscalls do with the flag: if a wake happened
/// since the guest suspended, clear the flag and let the guest go on; else
/// suspend with `request`.
pub open spec fn check_notified(notified: bool, request: PollRequest) -> (Result<(), PollRequest>, bool) {
    if notified {
        (Ok(()), false)
    } else {
        (Err(request), false)
    }
}

/// The state of one run of the guest's entry point.
pub struct RunState {
    phase: Phase,
}

impl RunState {
    /// The current phase.
    pub closed spec fn spec_phase(&self) -> Phase {
        self.phase
    }

    /// A run whose guest call has just been started.
    pub fn new() -> (r: Self)
        ensures
            r.spec_phase() == Phase::Running,
    {
        RunState { phase: Phase::Running }
    }

    /// The current phase.
    pub fn phase(&self) -> (r: Phase)
        ensures
            r == self.spec_phase(),
    {
        self.phase
    }

    fn drain(&mut self, woke: bool, left: usize, queue: &mut RegistrationQueue, env: &mut EnvData) -> (r: Action)
        requires
            old(env).wf(),
        ensures
            final(env).wf(),
            (final(self).spec_phase(), r, final(queue)@, final(env)@) == drain(woke, left, old(queue)@, old(env)@),
    {
        let popped = if left > 0 {
            queue.try_pop()
        } else {
            None
        };
        match popped {
            Some(registration) => {
                self.phase = Phase::Draining { left: left - 1 };
                Action::Wake(registration)
            },
            None => {
                if woke {
                    env.set_notified(true);
                    self.phase = Phase::Running;
                    Action::Resume
                } else {
                    self.phase = Phase::Waiting;
                    Action::AwaitSignal
                }
            },
        }
    }

    /// Takes the next decision of the loop.
    pub fn step(&mut self, event: Event, queue: &mut RegistrationQueue, env: &mut EnvData) -> (r: Action)
        requires
            old(env).wf(),
            expects(old(self).spec_phase(), event),
        ensures
            final(env).wf(),
            (final(self).spec_phase(), r, final(queue)@, final(env)@) == step_spec(
                old(self).spec_phase(),
                event,
                old(queue)@,
                old(env)@,
            ),
    {
        match event {
            Event::Completed => {
                self.phase = Phase::Done;
                Action::Finish(Ok(()))
            },
            Event::Suspended(Suspension::Failure(e)) => {
                self.phase = Phase::Done;
                Action::Finish(Err(e))
            },
            Event::Suspended(Suspension::Request(PollRequest::Wait)) => {
                self.phase = Phase::Waiting;
                Action::AwaitSignal
            },
            Event::Suspended(Suspension::Request(PollRequest::Poll)) => {
                let ready = queue.len();
                self.drain(false, ready, queue, env)
            },
            Event::Signaled => {
                let ready = queue.len();
                self.drain(false, ready, queue, env)
            },
            Event::Woken => {
                let left = match self.phase {
                    Phase::Draining { left } => left,
                    _ => 0,
                };
                self.drain(true, left, queue, env)
            },
        }
    }
}

/// The `wait` syscall: lets the guest go on if a wake happened since it
/// suspended, else asks the executor to suspend it until one does.
pub fn wait(env: &mut EnvData) -> (r: Result<(), PollRequest>)
    requires
        old(env).wf(),
    ensures
        final(env).wf(),
        (r, final(env)@.notified) == check_notified(old(env)@.notified, PollRequest::Wait),
        final(env)@.table == old(env)@.table,
{
    if env.notified() {
        env.set_notified(false);
        Ok(())
    } else {
        Err(PollRequest::Wait)
    }
}

/// The `poll` syscall: lets the guest go on if a wake happened since it
/// suspended, else asks the executor to wake what is ready.
pub fn poll(env: &mut EnvData) -> (r: Result<(), PollRequest>)
    requires
        old(env).wf(),
    ensures
        final(env).wf(),
        (r, final(env)@.notified) == check_notified(old(env)@.notified, PollRequest::Poll),
        final(env)@.table == old(env)@.table,
{
    if env.notified() {
        env.set_notified(false);
        Ok(())
    } else {
        Err(PollRequest::Poll)
    }
}

/// The loop only resumes the guest after a waker has run, and with the flag
/// set; so the `wait` or `poll` that suspended the guest, entered again,
/// lets it go on instead of suspending once more.
pub proof fn lemma_resume_only_after_wake(
    phase: Phase,
    event: Event,
    queue: Seq<Registration>,
    env: EnvDataView,
    request: PollRequest,
)
    requires
        expects(phase, event),
        step_spec(phase, event, queue, env).1 is Resume,
    ensures
        step_spec(phase, event, queue, env).3.notified,
        check_notified(step_spec(phase, event, queue, env).3.notified, request).0 == Ok::<(), PollRequest>(()),
        event is Woken,
{
}

/// A guest that calls `wait` once, with one registration queued before the
/// drain: the call suspends, the executor awaits the signal, wakes that
/// registration once, resumes, and the re-entered `wait` lets the guest go on.
pub proof fn lemma_single_wait_resumes_once(reg: Registration, env: EnvDataView)
    requires
        !env.notified,
    ensures
        check_notified(env.notified, PollRequest::Wait) == (Err::<(), PollRequest>(PollRequest::Wait), false),
        ({
            let s1 = step_spec(Phase::Running, Event::Suspended(Suspension::Request(PollRequest::Wait)), seq![reg], env);
            let s2 = step_spec(s1.0, Event::Signaled, s1.2, s1.3);
            let s3 = step_spec(s2.0, Event::Woken, s2.2, s2.3);
            &&& s1.1 is AwaitSignal
            &&& s2.1 == Action::Wake(reg)
            &&& s3.1 is Resume
            &&& s3.2.len() == 0
            &&& check_notified(s3.3.notified, PollRequest::Wait).0 == Ok::<(), PollRequest>(())
            &&& s3.3.table == env.table
        }),
{
    let s1 = step_spec(Phase::Running, Event::Suspended(Suspension::Request(PollRequest::Wait)), seq![reg], env);
    assert(s1.2 == seq![reg]);
    assert(s1.2.len() == 1);
    assert(s1.2.drop_first() =~= Seq::<Registration>::empty());
}

/// Registrations pushed as `a` then `b` onto an empty queue are woken in that
/// order, and the guest is resumed only after both.
pub proof fn lemma_wakes_in_push_order(a: Registration, b: Registration, env: EnvDataView)
    ensures
        ({
            let q = Seq::<Registration>::empty().push(a).push(b);
            let s1 = step_spec(Phase::Running, Event::Suspended(Suspension::Request(PollRequest::Poll)), q, env);
            let s2 = step_spec(s1.0, Event::Woken, s1.2, s1.3);
            let s3 = step_spec(s2.0, Event::Woken, s2.2, s2.3);
            &&& s1.1 == Action::Wake(a)
            &&& s2.1 == Action::Wake(b)
            &&& s3.1 is Resume
        }),
{
    let q = Seq::<Registration>::empty().push(a).push(b);
    assert(q.len() == 2);
    assert(q[0] == a);
    assert(q.drop_first()[0] == b);
    assert(q.drop_first().drop_first() =~= Seq::<Registration>::empty());
}

/// A drain wakes only what was queued when it began: once those are woken,
/// the guest is resumed even if more registrations have arrived meanwhile;
/// they stay queued for the next suspension.
pub proof fn lemma_late_arrivals_wait(queue: Seq<Registration>, env: EnvDataView)
    ensures
        step_spec(Phase::Draining { left: 0 }, Event::Woken, queue, env).1 is Resume,
        step_spec(Phase::Draining { left: 0 }, Event::Woken, queue, env).2 == queue,
{
}

} // verus!
