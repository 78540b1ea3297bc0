//! The bounded FIFO of parked lock requests, kept in a `heapless` SPSC queue.
use vstd::prelude::*;

verus! {

/// An identifier that stands for one parked task (its waker).
pub type WaiterId = u64;

/// How many parked lock requests the queue can hold.
pub const WAITER_CAPACITY: usize = 16;

/// A `heapless::spsc::Queue<WaiterId, U16>`.
///
/// The queue type carries bounds on sealed traits of `heapless` that cannot be
/// named from here, so it is held in this opaque struct; what it holds is
/// given by `waiter_queue_contents`.
#[verifier::external_body]
pub struct WaiterQueue {
    queue: heapless::spsc::Queue<WaiterId, heapless::consts::U16>,
}

/// The items of the queue, front first.
pub uninterp spec fn waiter_queue_contents(queue: WaiterQueue) -> Seq<WaiterId>;

impl WaiterQueue {
    /// The items of the queue, front first.
    pub open spec fn contents(self) -> Seq<WaiterId> {
        waiter_queue_contents(self)
    }

    /// Calls `heapless::spsc::Queue::new`, which builds a queue with both
    /// indices at zero: it holds nothing.
    #[verifier::external_body]
    pub(crate) fn new() -> (queue: WaiterQueue)
        ensures
            waiter_queue_contents(queue) == Seq::<WaiterId>::empty(),
    {
        WaiterQueue { queue: heapless::spsc::Queue::new() }
    }

    /// Calls `heapless::spsc::Queue::len`: the number of items held.
    #[verifier::external_body]
    pub(crate) fn len(&self) -> (n: usize)
        ensures
            n == waiter_queue_contents(*self).len(),
    {
        self.queue.len()
    }

    /// Calls `heapless::spsc::Queue::enqueue`: with fewer than `WAITER_CAPACITY`
    /// items the item goes to the back and `Ok` comes back; otherwise the
    /// queue is left as it was and the item comes back in `Err`. The call does
    /// not panic: it only compares and wraps indices and takes them modulo the
    /// fixed capacity.
    #[verifier::external_body]
    pub(crate) fn enqueue(&mut self, item: WaiterId) -> (r: Result<(), WaiterId>)
        ensures
            waiter_queue_contents(*old(self)).len() < WAITER_CAPACITY ==> r is Ok,
            waiter_queue_contents(*old(self)).len() < WAITER_CAPACITY
                ==> waiter_queue_contents(*final(self)) == waiter_queue_contents(*old(self)).push(item),
            waiter_queue_contents(*old(self)).len() >= WAITER_CAPACITY ==> (r matches Err(e) && e == item),
            waiter_queue_contents(*old(self)).len() >= WAITER_CAPACITY
                ==> waiter_queue_contents(*final(self)) == waiter_queue_contents(*old(self)),
        no_unwind
    {
        self.queue.enqueue(item)
    }

    /// Calls `heapless::spsc::Queue::dequeue`: the front item is removed and
    /// returned, or `None` comes back from an empty queue, which is left as it
    /// was. The call does not panic, as `enqueue` does not.
    #[verifier::external_body]
    pub(crate) fn dequeue(&mut self) -> (r: Option<WaiterId>)
        ensures
            waiter_queue_contents(*old(self)).len() == 0 ==> r is None,
            waiter_queue_contents(*old(self)).len() == 0
                ==> waiter_queue_contents(*final(self)) == waiter_queue_contents(*old(self)),
            waiter_queue_contents(*old(self)).len() > 0 ==> r == Some(waiter_queue_contents(*old(self))[0]),
            waiter_queue_contents(*old(self)).len() > 0
                ==> waiter_queue_contents(*final(self)) == waiter_queue_contents(*old(self)).drop_first(),
        no_unwind
    {
        self.queue.dequeue()
    }
}

} // verus!
