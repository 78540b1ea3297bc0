//! A mutex that lends its value to one holder at a time and parks the other
//! lock requests, in arrival order, until the value comes back.
//!
//! The mutex is driven from outside: a lock request is a `LockFuture` that is
//! polled with the mutex and the identifier of the task that polls it; the
//! value comes back through an `Unlock` notification, which names the parked
//! task to wake next.
use vstd::prelude::*;
use crate::synchronization::waiter_queue::{WaiterId, WaiterQueue, WAITER_CAPACITY};

verus! {

/// The address at which a mounted actor receives its messages.
pub type ActorAddress = u64;

/// The request that asks a mutex for its value.
pub struct Lock;

/// The notification that hands a value back to its mutex.
pub struct Unlock<T>(T);

impl<T> View for Unlock<T> {
    type V = T;

    closed spec fn view(&self) -> T {
        self.0
    }
}

/// What a mutex holds: its value, unless it is lent out, and the parked
/// lock requests, front first.
#[verifier::ext_equal]
pub struct MutexView<T> {
    pub value: Option<T>,
    pub waiters: Seq<WaiterId>,
}

impl<T> MutexView<T> {
    /// The parked requests fit in the waiter queue.
    pub open spec fn wf(self) -> bool {
        self.waiters.len() <= WAITER_CAPACITY
    }
}

/// The outcome of one poll of a lock request.
pub enum LockPoll<T> {
    /// The value was free and is now lent to the request.
    Ready(T),
    /// The value is lent out; the request is parked.
    Pending,
}

/// A poll may go ahead unless it would park one request too many.
pub open spec fn can_poll_spec<T>(m: MutexView<T>, waiting: bool) -> bool {
    m.value is Some || waiting || m.waiters.len() < WAITER_CAPACITY
}

/// One poll of a lock request whose parked flag is `waiting`, by the task
/// `waker`: the new state of the mutex, the new parked flag, the outcome.
///
/// A free value is taken. Otherwise a request that is not parked yet parks
/// its task at the back of the queue; a parked one leaves the queue alone.
pub open spec fn poll_step<T>(m: MutexView<T>, waiting: bool, waker: WaiterId) -> (
    MutexView<T>,
    bool,
    LockPoll<T>,
) {
    match m.value {
        Some(v) => (MutexView { value: None, waiters: m.waiters }, waiting, LockPoll::Ready(v)),
        None => if waiting {
            (m, true, LockPoll::Pending)
        } else {
            (MutexView { value: None, waiters: m.waiters.push(waker) }, true, LockPoll::Pending)
        },
    }
}

/// Handing `val` back: the new state of the mutex and the task to wake, the
/// front of the queue if there is one.
pub open spec fn unlock_step<T>(m: MutexView<T>, val: T) -> (MutexView<T>, Option<WaiterId>) {
    if m.waiters.len() > 0 {
        (MutexView { value: Some(val), waiters: m.waiters.drop_first() }, Some(m.waiters[0]))
    } else {
        (MutexView { value: Some(val), waiters: m.waiters }, None)
    }
}

/// A mutex over a value of type `T`, an actor once it is mounted at an
/// address.
pub struct Mutex<T> {
    address: Option<ActorAddress>,
    val: Option<T>,
    waiters: WaiterQueue,
}

impl<T> View for Mutex<T> {
    type V = MutexView<T>;

    closed spec fn view(&self) -> MutexView<T> {
        MutexView { value: self.val, waiters: self.waiters.contents() }
    }
}

impl<T> Mutex<T> {
    /// The parked requests fit in the waiter queue.
    #[verifier::type_invariant]
    spec fn queue_fits(self) -> bool {
        self.waiters.contents().len() <= WAITER_CAPACITY
    }

    /// The parked requests fit in the waiter queue.
    pub open spec fn wf(&self) -> bool {
        self@.wf()
    }

    /// The address the mutex is mounted at, if it is.
    pub closed spec fn mounted_at(&self) -> Option<ActorAddress> {
        self.address
    }

    /// A mutex that holds `val`, has no parked request and is not mounted.
    pub fn new(val: T) -> (m: Self)
        ensures
            m.wf(),
            m@ == (MutexView { value: Some(val), waiters: Seq::<WaiterId>::empty() }),
            m.mounted_at() is None,
    {
        Mutex { address: None, val: Some(val), waiters: WaiterQueue::new() }
    }

    /// Mounts the mutex at `addr`, in place of any address it had.
    pub fn mount(&mut self, addr: ActorAddress)
        ensures
            final(self).mounted_at() == Some(addr),
            final(self)@ == old(self)@,
    {
        proof {
            use_type_invariant(&*self);
        }
        self.address = Some(addr);
    }

    /// The address the mutex is mounted at, if it is.
    pub fn address(&self) -> (a: Option<ActorAddress>)
        ensures
            a == self.mounted_at(),
    {
        self.address
    }

    /// A new lock request for this mutex, not parked yet.
    pub fn lock(&self) -> (f: LockFuture)
        ensures
            !f@,
    {
        LockFuture::new()
    }

    /// Handles a `Lock` request to the mounted mutex: the address that the
    /// value, once granted, is to be handed back to, and a new lock request,
    /// not parked yet, to be polled until it is granted the value.
    pub fn on_request(&self, message: Lock) -> (r: (ActorAddress, LockFuture))
        requires
            self.mounted_at() is Some,
        ensures
            Some(r.0) == self.mounted_at(),
            !r.1@,
    {
        let address = match self.address {
            Some(a) => a,
            None => {
                proof {
                    assert(false);
                }
                0
            },
        };
        (address, LockFuture::new())
    }

    /// Whether the value is lent out.
    pub fn is_locked(&self) -> (r: bool)
        ensures
            r == (self@.value is None),
    {
        self.val.is_none()
    }

    /// How many lock requests are parked.
    pub fn waiter_count(&self) -> (n: usize)
        ensures
            n == self@.waiters.len(),
    {
        self.waiters.len()
    }

    /// Takes `val` back and hands out the task to wake: the one parked
    /// longest, if any, which is no longer parked.
    pub fn unlock(&mut self, val: T) -> (woken: Option<WaiterId>)
        ensures
            final(self).wf(),
            (final(self)@, woken) == unlock_step(old(self)@, val),
            final(self).mounted_at() == old(self).mounted_at(),
    {
        proof {
            use_type_invariant(&*self);
        }
        self.val = Some(val);
        let woken = self.waiters.dequeue();
        proof {
            let (after, w) = unlock_step(old(self)@, val);
            assert(self@ =~= after);
        }
        woken
    }

    /// Handles an `Unlock` notification: the value it carries comes back, as
    /// by `unlock`.
    pub fn on_notification(&mut self, message: Unlock<T>) -> (woken: Option<WaiterId>)
        ensures
            final(self).wf(),
            (final(self)@, woken) == unlock_step(old(self)@, message@),
            final(self).mounted_at() == old(self).mounted_at(),
    {
        let Unlock(val) = message;
        self.unlock(val)
    }
}

/// One lock request: whether its task is parked in the mutex's queue.
pub struct LockFuture {
    waiting: bool,
}

impl View for LockFuture {
    type V = bool;

    closed spec fn view(&self) -> bool {
        self.waiting
    }
}

impl LockFuture {
    /// A request that is not parked.
    pub fn new() -> (f: Self)
        ensures
            !f@,
    {
        LockFuture { waiting: false }
    }

    /// Whether the request's task is parked.
    pub fn is_waiting(&self) -> (r: bool)
        ensures
            r == self@,
    {
        self.waiting
    }

    /// Whether `poll` may go ahead: it would not park one request too many.
    pub fn can_poll<T>(&self, mutex: &Mutex<T>) -> (r: bool)
        ensures
            r == can_poll_spec(mutex@, self@),
            mutex@.value is Some ==> r,
            self@ ==> r,
            mutex@.waiters.len() < WAITER_CAPACITY ==> r,
            !r ==> mutex@.value is None && !self@ && mutex@.waiters.len() >= WAITER_CAPACITY,
    {
        mutex.val.is_some() || self.waiting || mutex.waiters.len() < WAITER_CAPACITY
    }

    /// Polls the request on behalf of the task `waker`: takes the value if it
    /// is free, else parks the task unless it is parked already.
    pub fn poll<T>(&mut self, mutex: &mut Mutex<T>, waker: WaiterId) -> (r: LockPoll<T>)
        requires
            can_poll_spec(old(mutex)@, old(self)@),
        ensures
            final(mutex).wf(),
            (final(mutex)@, final(self)@, r) == poll_step(old(mutex)@, old(self)@, waker),
            final(mutex).mounted_at() == old(mutex).mounted_at(),
    {
        proof {
            use_type_invariant(&*mutex);
        }
        let mut taken: Option<T> = None;
        core::mem::swap(&mut taken, &mut mutex.val);
        if let Some(val) = taken {
            proof {
                assert(mutex@ =~= poll_step(old(mutex)@, old(self)@, waker).0);
            }
            LockPoll::Ready(val)
        } else {
            if !self.waiting {
                self.waiting = true;
                match mutex.waiters.enqueue(waker) {
                    Ok(()) => {},
                    Err(_) => {
                        proof {
                            assert(false);
                        }
                    },
                }
            }
            proof {
                assert(mutex@ =~= poll_step(old(mutex)@, old(self)@, waker).0);
            }
            LockPoll::Pending
        }
    }
}

/// The value of a mutex, lent to the request that was granted it, with the
/// address of the mutex to hand it back to.
pub struct Exclusive<T> {
    val: T,
    address: ActorAddress,
}

impl<T> View for Exclusive<T> {
    type V = T;

    closed spec fn view(&self) -> T {
        self.val
    }
}

impl<T> Exclusive<T> {
    /// The address of the mutex the value belongs to.
    pub closed spec fn owner(&self) -> ActorAddress {
        self.address
    }

    /// Holds the value `val` that a lock request to the mutex at `address`
    /// was granted.
    pub fn new(address: ActorAddress, val: T) -> (e: Self)
        ensures
            e@ == val,
            e.owner() == address,
    {
        Exclusive { val, address }
    }

    /// The address of the mutex the value belongs to.
    pub fn address(&self) -> (a: ActorAddress)
        ensures
            a == self.owner(),
    {
        self.address
    }

    /// The value held.
    pub fn deref(&self) -> (r: &T)
        ensures
            *r == self@,
    {
        &self.val
    }

    /// The value held, to change in place.
    pub fn deref_mut(&mut self) -> (r: &mut T)
        ensures
            *r == old(self)@,
            final(self)@ == *final(r),
            final(self).owner() == old(self).owner(),
    {
        &mut self.val
    }

    /// Gives the value up: the `Unlock` notification that carries it back to
    /// its mutex, the one at `self.owner()`.
    pub fn release(self) -> (u: Unlock<T>)
        ensures
            u@ == self@,
    {
        Unlock(self.val)
    }
}

/// The mutex after the requests of the tasks `wakers`, none of them parked
/// yet, have each polled once, in order.
pub open spec fn register_all<T>(m: MutexView<T>, wakers: Seq<WaiterId>) -> MutexView<T>
    decreases wakers.len(),
{
    if wakers.len() == 0 {
        m
    } else {
        poll_step(register_all(m, wakers.drop_last()), false, wakers.last()).0
    }
}

/// Once a request has been granted the value, no request, parked or not and
/// whatever task polls it, is granted anything until the value comes back.
pub proof fn lemma_lock_is_exclusive<T>(
    m: MutexView<T>,
    waiting: bool,
    waker: WaiterId,
    other_waiting: bool,
    other_waker: WaiterId,
)
    requires
        poll_step(m, waiting, waker).2 is Ready,
    ensures
        poll_step(poll_step(m, waiting, waker).0, other_waiting, other_waker).2 is Pending,
{
}

/// A request granted the value gets the very value the mutex held, and the
/// mutex is then locked with its queue untouched.
pub proof fn lemma_grant_takes_the_value<T>(m: MutexView<T>, waiting: bool, waker: WaiterId)
    requires
        m.value is Some,
    ensures
        poll_step(m, waiting, waker).2 == LockPoll::Ready(m.value->0),
        poll_step(m, waiting, waker).0 == (MutexView { value: None::<T>, waiters: m.waiters }),
{
}

/// The next request to poll after a value was handed back is granted that
/// value.
pub proof fn lemma_unlock_then_lock<T>(m: MutexView<T>, val: T, waiting: bool, waker: WaiterId)
    ensures
        poll_step(unlock_step(m, val).0, waiting, waker).2 == LockPoll::Ready(val),
{
}

/// A request parks its task once: a parked request leaves the queue as it is,
/// and a request that comes out pending is parked.
pub proof fn lemma_parks_once<T>(m: MutexView<T>, waiting: bool, waker: WaiterId)
    ensures
        poll_step(m, true, waker).0.waiters == m.waiters,
        poll_step(m, waiting, waker).2 is Pending ==> poll_step(m, waiting, waker).1,
        poll_step(m, waiting, waker).2 is Pending && !waiting ==> poll_step(m, waiting, waker).0.waiters
            == m.waiters.push(waker),
{
}

/// While the value is lent out, requests park in the order in which they
/// first poll.
pub proof fn lemma_register_in_order<T>(m: MutexView<T>, wakers: Seq<WaiterId>)
    requires
        m.value is None,
    ensures
        register_all(m, wakers).value is None,
        register_all(m, wakers).waiters == m.waiters + wakers,
    decreases wakers.len(),
{
    if wakers.len() > 0 {
        lemma_register_in_order(m, wakers.drop_last());
        assert(m.waiters + wakers =~= (m.waiters + wakers.drop_last()).push(wakers.last()));
    }
}

/// The value goes to the requests in the order in which they parked: handing
/// it back wakes the task parked longest, whose request, polled again, is
/// granted the value, leaving the rest of the queue in order.
pub proof fn lemma_handoff_in_order<T>(m: MutexView<T>, val: T)
    requires
        m.value is None,
        m.waiters.len() > 0,
    ensures
        unlock_step(m, val).1 == Some(m.waiters[0]),
        poll_step(unlock_step(m, val).0, true, m.waiters[0]).2 == LockPoll::Ready(val),
        poll_step(unlock_step(m, val).0, true, m.waiters[0]).0 == (MutexView {
            value: None::<T>,
            waiters: m.waiters.drop_first(),
        }),
{
}

/// Handing the value back with nobody parked wakes nobody.
pub proof fn lemma_unlock_idle<T>(m: MutexView<T>, val: T)
    requires
        m.waiters.len() == 0,
    ensures
        unlock_step(m, val).1 is None,
        unlock_step(m, val).0 == (MutexView { value: Some(val), waiters: m.waiters }),
{
}

/// A poll may go ahead exactly when it would leave no more requests parked
/// than the queue holds: always while the value is free, whatever the
/// request's parked flag, always for a request that is parked already, and
/// always while the queue has room; it is refused only to a new request that
/// would park into a full queue.
pub proof fn lemma_can_poll_exactly_when_poll_fits<T>(m: MutexView<T>, waiting: bool, waker: WaiterId)
    requires
        m.wf(),
    ensures
        m.value is Some ==> can_poll_spec(m, waiting),
        waiting ==> can_poll_spec(m, waiting),
        m.waiters.len() < WAITER_CAPACITY ==> can_poll_spec(m, waiting),
        !can_poll_spec(m, waiting) ==> m.value is None && !waiting && m.waiters.len() == WAITER_CAPACITY,
        can_poll_spec(m, waiting) <==> poll_step(m, waiting, waker).0.waiters.len() <= WAITER_CAPACITY,
{
}

/// A request woken by a hand-back may always poll again, and its poll is
/// granted the value that was handed back.
pub proof fn lemma_woken_request_may_poll<T>(m: MutexView<T>, val: T, waker: WaiterId)
    requires
        m.wf(),
    ensures
        can_poll_spec(unlock_step(m, val).0, true),
        poll_step(unlock_step(m, val).0, true, waker).2 == LockPoll::Ready(val),
{
}

/// No step parks more requests than the queue holds.
pub proof fn lemma_steps_keep_capacity<T>(m: MutexView<T>, waiting: bool, waker: WaiterId, val: T)
    requires
        m.wf(),
    ensures
        can_poll_spec(m, waiting) ==> poll_step(m, waiting, waker).0.wf(),
        unlock_step(m, val).0.wf(),
{
}

/// One event in the life of a mutex: a poll by a request with the given
/// parked flag on behalf of a task, or a holder handing a value back.
pub enum MutexEvent<T> {
    Poll(bool, WaiterId),
    HandBack(T),
}

/// A mutex together with what happened to it so far: how many values are
/// lent out, the tasks in the order they parked, the tasks in the order they
/// were woken.
#[verifier::ext_equal]
pub struct MutexRun<T> {
    pub state: MutexView<T>,
    pub lent: int,
    pub parked: Seq<WaiterId>,
    pub woken: Seq<WaiterId>,
}

/// A new mutex holding `val`, with nothing done to it yet.
pub open spec fn fresh_run<T>(val: T) -> MutexRun<T> {
    MutexRun {
        state: MutexView { value: Some(val), waiters: Seq::empty() },
        lent: 0,
        parked: Seq::empty(),
        woken: Seq::empty(),
    }
}

/// The run after one more event. A task parks when its request, not parked
/// yet, polls while the value is lent out.
pub open spec fn run_step<T>(r: MutexRun<T>, e: MutexEvent<T>) -> MutexRun<T> {
    match e {
        MutexEvent::Poll(waiting, waker) => {
            let (m, _, outcome) = poll_step(r.state, waiting, waker);
            MutexRun {
                state: m,
                lent: if outcome is Ready { r.lent + 1 } else { r.lent },
                parked: if r.state.value is None && !waiting { r.parked.push(waker) } else { r.parked },
                woken: r.woken,
            }
        },
        MutexEvent::HandBack(val) => {
            let (m, w) = unlock_step(r.state, val);
            MutexRun {
                state: m,
                lent: r.lent - 1,
                parked: r.parked,
                woken: match w {
                    Some(id) => r.woken.push(id),
                    None => r.woken,
                },
            }
        },
    }
}

/// The run after `events`, in order.
pub open spec fn run_events<T>(r: MutexRun<T>, events: Seq<MutexEvent<T>>) -> MutexRun<T>
    decreases events.len(),
{
    if events.len() == 0 {
        r
    } else {
        run_events(run_step(r, events[0]), events.drop_first())
    }
}

/// Every hand-back in `events` comes while some value is lent out.
pub open spec fn hand_backs_by_holders<T>(r: MutexRun<T>, events: Seq<MutexEvent<T>>) -> bool
    decreases events.len(),
{
    events.len() == 0 || ((events[0] is HandBack ==> r.lent > 0) && hand_backs_by_holders(
        run_step(r, events[0]),
        events.drop_first(),
    ))
}

/// At most one value is lent out, and the mutex holds its value exactly when
/// none is.
pub open spec fn exclusive_run<T>(r: MutexRun<T>) -> bool {
    0 <= r.lent <= 1 && (r.lent == 0 <==> r.state.value is Some)
}

proof fn lemma_exclusion_kept<T>(r: MutexRun<T>, events: Seq<MutexEvent<T>>)
    requires
        exclusive_run(r),
        hand_backs_by_holders(r, events),
    ensures
        exclusive_run(run_events(r, events)),
    decreases events.len(),
{
    if events.len() > 0 {
        lemma_exclusion_kept(run_step(r, events[0]), events.drop_first());
    }
}

/// From a new mutex, over any sequence of polls and of hand-backs by holders,
/// at most one value is ever lent out, and the mutex holds its value exactly
/// when none is.
pub proof fn lemma_lock_is_exclusive_over_runs<T>(val: T, events: Seq<MutexEvent<T>>)
    requires
        hand_backs_by_holders(fresh_run(val), events),
    ensures
        exclusive_run(run_events(fresh_run(val), events)),
{
    lemma_exclusion_kept(fresh_run(val), events);
}

proof fn lemma_order_kept<T>(r: MutexRun<T>, events: Seq<MutexEvent<T>>)
    requires
        r.parked == r.woken + r.state.waiters,
    ensures
        run_events(r, events).parked == run_events(r, events).woken + run_events(r, events).state.waiters,
    decreases events.len(),
{
    if events.len() > 0 {
        let next = run_step(r, events[0]);
        match events[0] {
            MutexEvent::Poll(waiting, waker) => {
                if r.state.value is None && !waiting {
                    assert(next.parked =~= next.woken + next.state.waiters);
                }
            },
            MutexEvent::HandBack(val) => {
                if r.state.waiters.len() > 0 {
                    assert(next.parked =~= next.woken + next.state.waiters);
                }
            },
        }
        lemma_order_kept(next, events.drop_first());
    }
}

/// From a new mutex, over any sequence of polls and hand-backs, the tasks
/// woken so far are the tasks that parked, in the order they parked, up to
/// those still parked: hand-backs name parked tasks first come, first served.
pub proof fn lemma_woken_in_parking_order<T>(val: T, events: Seq<MutexEvent<T>>)
    ensures
        run_events(fresh_run(val), events).parked == run_events(fresh_run(val), events).woken
            + run_events(fresh_run(val), events).state.waiters,
        run_events(fresh_run(val), events).woken.is_prefix_of(run_events(fresh_run(val), events).parked),
{
    assert(fresh_run(val).parked =~= fresh_run(val).woken + fresh_run(val).state.waiters);
    lemma_order_kept(fresh_run(val), events);
    let r = run_events(fresh_run(val), events);
    assert(r.woken.is_prefix_of(r.parked)) by {
        assert(r.parked.subrange(0, r.woken.len() as int) =~= r.woken);
    }
}

} // verus!
