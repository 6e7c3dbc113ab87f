//! An unbounded first-in first-out mailbox with many producers and one
//! consumer. It closes for the consumer once every producer is gone, and for
//! the producers once the consumer is gone.
use std::collections::VecDeque;
use vstd::prelude::*;

verus! {

pub struct Mailbox<T> {
    items: VecDeque<T>,
    senders: usize,
    receiver_alive: bool,
}

impl<T> Mailbox<T> {
    /// The queued items, oldest first.
    pub closed spec fn queue(&self) -> Seq<T> {
        self.items@
    }

    /// How many producer handles are live.
    pub closed spec fn sender_count(&self) -> nat {
        self.senders as nat
    }

    /// Whether the consumer end still exists.
    pub closed spec fn receiver_alive(&self) -> bool {
        self.receiver_alive
    }

    /// Closed for the consumer: no producer is live.
    pub open spec fn spec_is_closed(&self) -> bool {
        self.sender_count() == 0
    }

    /// A fresh mailbox: empty, no producer yet, consumer present.
    pub fn new() -> (r: Mailbox<T>)
        ensures
            r.queue() == Seq::<T>::empty(),
            r.sender_count() == 0,
            r.receiver_alive(),
    {
        Mailbox { items: VecDeque::new(), senders: 0, receiver_alive: true }
    }

    pub fn len(&self) -> (r: usize)
        ensures
            r == self.queue().len(),
    {
        self.items.len()
    }

    pub fn sender_count_exec(&self) -> (r: usize)
        ensures
            r == self.sender_count(),
    {
        self.senders
    }

    /// Whether every producer is gone.
    pub fn is_closed(&self) -> (r: bool)
        ensures
            r == self.spec_is_closed(),
    {
        self.senders == 0
    }

    /// Whether the consumer end still exists.
    pub fn has_receiver(&self) -> (r: bool)
        ensures
            r == self.receiver_alive(),
    {
        self.receiver_alive
    }

    /// Registers one more producer handle.
    pub fn add_sender(&mut self)
        requires
            old(self).sender_count() < usize::MAX,
        ensures
            final(self).sender_count() == old(self).sender_count() + 1,
            final(self).queue() == old(self).queue(),
            final(self).receiver_alive() == old(self).receiver_alive(),
    {
        self.senders = self.senders + 1;
    }

    /// Forgets one producer handle; the last one closes the mailbox.
    pub fn release_sender(&mut self)
        requires
            old(self).sender_count() > 0,
        ensures
            final(self).sender_count() == old(self).sender_count() - 1,
            final(self).queue() == old(self).queue(),
            final(self).receiver_alive() == old(self).receiver_alive(),
    {
        self.senders = self.senders - 1;
    }

    /// Enqueues `item` at the back. Without a consumer the item is handed back.
    pub fn push(&mut self, item: T) -> (r: Result<(), T>)
        ensures
            final(self).sender_count() == old(self).sender_count(),
            final(self).receiver_alive() == old(self).receiver_alive(),
            old(self).receiver_alive() ==> r is Ok && final(self).queue() == old(self).queue().push(item),
            !old(self).receiver_alive() ==> r == Err::<(), T>(item) && final(self).queue() == old(self).queue(),
    {
        if self.receiver_alive {
            self.items.push_back(item);
            Ok(())
        } else {
            Err(item)
        }
    }

    /// Takes the oldest item out, if any.
    pub fn pop(&mut self) -> (r: Option<T>)
        ensures
            final(self).sender_count() == old(self).sender_count(),
            final(self).receiver_alive() == old(self).receiver_alive(),
            old(self).queue().len() == 0 ==> r is None && final(self).queue() == old(self).queue(),
            old(self).queue().len() > 0 ==> r == Some(old(self).queue()[0]) && final(self).queue()
                == old(self).queue().drop_first(),
    {
        let r = self.items.pop_front();
        proof {
            if old(self).queue().len() > 0 {
                assert(old(self).queue().drop_first() =~= old(self).queue().subrange(1, old(self).queue().len() as int));
            }
        }
        r
    }

    /// Drops the consumer end: what is queued is discarded and later pushes fail.
    pub fn close_receiver(&mut self)
        ensures
            final(self).sender_count() == old(self).sender_count(),
            !final(self).receiver_alive(),
            final(self).queue() == Seq::<T>::empty(),
    {
        self.items.clear();
        self.receiver_alive = false;
    }
}

/// The queue reached by pushing each item of `s`, in order, onto `q`.
pub open spec fn pushed<T>(q: Seq<T>, s: Seq<T>) -> Seq<T>
    decreases s.len(),
{
    if s.len() == 0 {
        q
    } else {
        pushed(q.push(s[0]), s.drop_first())
    }
}

/// The items that popping `q` until it is empty yields, in the order they come.
pub open spec fn popped<T>(q: Seq<T>) -> Seq<T>
    decreases q.len(),
{
    if q.len() == 0 {
        Seq::empty()
    } else {
        seq![q[0]] + popped(q.drop_first())
    }
}

proof fn lemma_pushed_appends<T>(q: Seq<T>, s: Seq<T>)
    ensures
        pushed(q, s) == q + s,
    decreases s.len(),
{
    if s.len() > 0 {
        lemma_pushed_appends(q.push(s[0]), s.drop_first());
        assert(q.push(s[0]) + s.drop_first() =~= q + s);
    } else {
        assert(q + s =~= q);
    }
}

/// Popping a queue until it is empty yields its items in order.
pub proof fn lemma_popped_is<T>(q: Seq<T>)
    ensures
        popped(q) == q,
{
    lemma_popped_is_queue(q);
}

proof fn lemma_popped_is_queue<T>(q: Seq<T>)
    ensures
        popped(q) == q,
    decreases q.len(),
{
    if q.len() > 0 {
        lemma_popped_is_queue(q.drop_first());
        assert(seq![q[0]] + q.drop_first() =~= q);
    } else {
        assert(q =~= Seq::<T>::empty());
    }
}

/// Items that one producer pushes onto a mailbox come out in the order they
/// were pushed, after whatever was queued before them.
pub proof fn lemma_fifo<T>(before: Seq<T>, sent: Seq<T>)
    ensures
        popped(pushed(before, sent)) == before + sent,
        popped(pushed(Seq::<T>::empty(), sent)) == sent,
{
    lemma_pushed_appends(before, sent);
    lemma_popped_is_queue(before + sent);
    lemma_pushed_appends(Seq::<T>::empty(), sent);
    lemma_popped_is_queue(Seq::<T>::empty() + sent);
    assert(Seq::<T>::empty() + sent =~= sent);
}

} // verus!
