//! Pending wake events and the FIFO queue that holds them until the executor
//! drains it.
use vstd::prelude::*;

verus! {

/// wasmi's typed guest function handle, carried opaque in a registration.
#[verifier::external_type_specification]
#[verifier::external_body]
#[verifier::reject_recursive_types(Params)]
#[verifier::reject_recursive_types(Results)]
pub struct ExTypedFunc<Params, Results>(wasmi::TypedFunc<Params, Results>);

/// A guest function that takes the registration's payload word.
pub type WakerFunc = wasmi::TypedFunc<u32, ()>;

/// What a guest waits for on an I/O source.
#[derive(Clone, Copy, Debug, PartialEq, Eq, Structural)]
pub struct Interest {
    pub read: bool,
    pub write: bool,
}

/// What a registration waits for.
#[derive(Clone, Copy, Debug, PartialEq, Eq, Structural)]
pub enum RegistrationKind {
    /// A deadline, in microseconds of the monotonic clock.
    Timer(u64),
    /// An I/O source and the readiness it waits for.
    Io { id: i32, interest: Interest },
}

/// One pending wake event: what it waits for, the guest's payload word, and
/// the guest function to call with that word.
#[derive(Clone, Copy)]
pub struct Registration {
    pub kind: RegistrationKind,
    pub data: u32,
    pub wake: WakerFunc,
}

impl Registration {
    /// A registration that fires at `deadline`.
    pub fn new_timer(deadline: u64, data: u32, wake: WakerFunc) -> (r: Self)
        ensures
            r.kind == RegistrationKind::Timer(deadline),
            r.data == data,
            r.wake == wake,
    {
        Self::new_internal(RegistrationKind::Timer(deadline), data, wake)
    }

    /// A registration that fires when source `id` is ready as `interest` asks.
    pub fn new_io(id: i32, interest: Interest, data: u32, wake: WakerFunc) -> (r: Self)
        ensures
            r.kind == (RegistrationKind::Io { id, interest }),
            r.data == data,
            r.wake == wake,
    {
        Self::new_internal(RegistrationKind::Io { id, interest }, data, wake)
    }

    fn new_internal(kind: RegistrationKind, data: u32, wake: WakerFunc) -> (r: Self)
        ensures
            r == (Registration { kind, data, wake }),
    {
        Registration { kind, data, wake }
    }
}

/// A first-in, first-out queue of pending registrations.
pub struct RegistrationQueue {
    queue: std::collections::VecDeque<Registration>,
}

impl View for RegistrationQueue {
    type V = Seq<Registration>;

    closed spec fn view(&self) -> Seq<Registration> {
        self.queue@
    }
}

impl RegistrationQueue {
    /// An empty queue.
    pub fn new() -> (r: Self)
        ensures
            r@ == Seq::<Registration>::empty(),
    {
        RegistrationQueue { queue: std::collections::VecDeque::new() }
    }

    /// Appends a registration at the back.
    pub fn push(&mut self, registration: Registration)
        ensures
            final(self)@ == old(self)@.push(registration),
    {
        self.queue.push_back(registration);
    }

    /// Removes the registration at the front, if any.
    pub fn try_pop(&mut self) -> (r: Option<Registration>)
        ensures
            old(self)@.len() == 0 ==> r is None && final(self)@ == old(self)@,
            old(self)@.len() > 0 ==> r == Some(old(self)@[0]) && final(self)@ == old(self)@.drop_first(),
    {
        let r = self.queue.pop_front();
        proof {
            if old(self)@.len() > 0 {
                assert(self@ =~= old(self)@.drop_first());
            }
        }
        r
    }

    /// The number of pending registrations.
    pub fn len(&self) -> (r: usize)
        ensures
            r == self@.len(),
    {
        self.queue.len()
    }
}

} // verus!
