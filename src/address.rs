//! The same-thread address of an actor, and the narrow capability views
//! through which code that does not know the actor can reach it.
use vstd::prelude::*;

use crate::context::{dispatched, Context, ContextProtocol, Delivery, Envelope};
use crate::mailbox::{lemma_popped_is, popped};
use crate::reply::{LocalReceiver, SharedReceiver};
use crate::sync_address::{CallResult, SyncAddress};

verus! {

/// The queue that results from offering `item` to a mailbox holding `q`:
/// a mailbox whose consumer is gone leaves the queue as it was.
pub open spec fn enqueued<X>(q: Seq<X>, alive: bool, item: X) -> Seq<X> {
    if alive {
        q.push(item)
    } else {
        q
    }
}

/// An envelope that carries `msg` and no reply sink.
pub open spec fn plain_envelope<M, T>(msg: M) -> Envelope<M, T> {
    Envelope { msg: Some(msg), reply: None }
}

/// The context went from `c0` to `c1` by a plain send of `msg` onto its
/// same-thread mailbox.
pub open spec fn local_sent<M, T>(c0: Context<M, T>, c1: Context<M, T>, msg: M) -> bool {
    &&& c1.wf()
    &&& c1.same_core(&c0)
    &&& c1.local_senders() == c0.local_senders()
    &&& c1.shared_senders() == c0.shared_senders()
    &&& c1.shared_queue() == c0.shared_queue()
    &&& c1.local_queue() == enqueued(
        c0.local_queue(),
        c0.receivers_alive(),
        ContextProtocol::Envelope(plain_envelope::<M, T>(msg)),
    )
}

/// The context went from `c0` to `c1` by a call carrying `msg` onto its
/// same-thread mailbox, answered on a channel numbered `id`.
pub open spec fn local_called<M, T>(c0: Context<M, T>, c1: Context<M, T>, msg: M, id: nat) -> bool {
    &&& c1.wf()
    &&& c1.same_core(&c0)
    &&& c1.local_senders() == c0.local_senders()
    &&& c1.shared_senders() == c0.shared_senders()
    &&& c1.shared_queue() == c0.shared_queue()
    &&& id == c0.channel_count()
    &&& !c0.receivers_alive() ==> c1.local_queue() == c0.local_queue()
    &&& c0.receivers_alive() ==> {
        &&& c1.local_queue().len() == c0.local_queue().len() + 1
        &&& c1.local_queue().drop_last() == c0.local_queue()
        &&& c1.local_queue().last() is Envelope
        &&& c1.local_queue().last()->Envelope_0.msg == Some(msg)
        &&& c1.local_queue().last()->Envelope_0.reply is Some
        &&& c1.local_queue().last()->Envelope_0.reply.unwrap().id() == id
        &&& c1.local_queue().last()->Envelope_0.reply.unwrap().is_local()
    }
}

/// Address of an actor on the same worker thread. Each live address keeps
/// the actor's same-thread mailbox open.
pub struct Address {
    id: u64,
}

/// A view of an address that can only send messages of type `M`.
pub trait Subscriber<M, T> {
    /// The context that the view routes to.
    spec fn routes_to(&self) -> u64;

    /// What a send of `msg` through this view does to its context.
    spec fn sent(&self, c0: Context<M, T>, c1: Context<M, T>, msg: M) -> bool;

    /// Buffered send; fire and forget.
    fn send(&mut self, ctx: &mut Context<M, T>, msg: M)
        requires
            old(ctx).wf(),
            old(self).routes_to() == old(ctx).id(),
        ensures
            old(self).sent(*old(ctx), *final(ctx), msg),
            final(ctx).wf(),
            final(self).routes_to() == old(self).routes_to(),
    ;

    /// Unbuffered send: the message comes back when the mailbox cannot take
    /// it now. The mailboxes here are unbounded, so it always takes it, and
    /// the effect is that of `send`.
    fn unbuffered_send(&mut self, ctx: &mut Context<M, T>, msg: M) -> (r: Result<(), M>)
        requires
            old(ctx).wf(),
            old(self).routes_to() == old(ctx).id(),
        ensures
            r is Ok,
            old(self).sent(*old(ctx), *final(ctx), msg),
            final(ctx).wf(),
            final(self).routes_to() == old(self).routes_to(),
    ;
}

/// A view of an address that can send messages of type `M` and wait for
/// the reply.
pub trait AsyncSubscriber<M, T> {
    spec fn routes_to(&self) -> u64;

    /// What a call of `msg` through this view, answered on the channel
    /// numbered `id`, does to its context.
    spec fn called(&self, c0: Context<M, T>, c1: Context<M, T>, msg: M, id: nat) -> bool;

    /// Sends and returns the future on which the reply comes.
    fn call(&mut self, ctx: &mut Context<M, T>, msg: M) -> (r: CallResult<T>)
        requires
            old(ctx).wf(),
            old(self).routes_to() == old(ctx).id(),
        ensures
            old(self).called(*old(ctx), *final(ctx), msg, r.id()),
            final(ctx).wf(),
            final(self).routes_to() == old(self).routes_to(),
    ;

    /// Like `call`; the message would come back if the mailbox could not
    /// take it now, which an unbounded mailbox always can.
    fn unbuffered_call(&mut self, ctx: &mut Context<M, T>, msg: M) -> (r: Result<CallResult<T>, M>)
        requires
            old(ctx).wf(),
            old(self).routes_to() == old(ctx).id(),
        ensures
            r is Ok,
            old(self).called(*old(ctx), *final(ctx), msg, r->Ok_0.id()),
            final(ctx).wf(),
            final(self).routes_to() == old(self).routes_to(),
    ;
}

impl Address {
    /// The number of the context that this address routes to.
    pub closed spec fn context_id(&self) -> u64 {
        self.id
    }

    /// Mints a new same-thread address of the actor that `ctx` runs.
    pub fn new<M, T>(ctx: &mut Context<M, T>) -> (r: Address)
        requires
            old(ctx).wf(),
            old(ctx).local_senders() < usize::MAX,
        ensures
            r.context_id() == old(ctx).id(),
            final(ctx).wf(),
            final(ctx).same_core(old(ctx)),
            final(ctx).local_senders() == old(ctx).local_senders() + 1,
            final(ctx).shared_senders() == old(ctx).shared_senders(),
            final(ctx).local_queue() == old(ctx).local_queue(),
            final(ctx).shared_queue() == old(ctx).shared_queue(),
    {
        ctx.add_local_sender();
        Address { id: ctx.id_number() }
    }

    /// Another handle onto the same mailbox; the queue is not touched.
    pub fn clone_in<M, T>(&self, ctx: &mut Context<M, T>) -> (r: Address)
        requires
            old(ctx).wf(),
            self.context_id() == old(ctx).id(),
            old(ctx).local_senders() < usize::MAX,
        ensures
            r.context_id() == self.context_id(),
            final(ctx).wf(),
            final(ctx).same_core(old(ctx)),
            final(ctx).local_senders() == old(ctx).local_senders() + 1,
            final(ctx).shared_senders() == old(ctx).shared_senders(),
            final(ctx).local_queue() == old(ctx).local_queue(),
            final(ctx).shared_queue() == old(ctx).shared_queue(),
    {
        Address::new(ctx)
    }

    /// A handle that offers only `Subscriber`: a clone of this address.
    pub fn subscriber<M, T>(&self, ctx: &mut Context<M, T>) -> (r: Address)
        requires
            old(ctx).wf(),
            self.context_id() == old(ctx).id(),
            old(ctx).local_senders() < usize::MAX,
        ensures
            r.context_id() == self.context_id(),
            final(ctx).wf(),
            final(ctx).same_core(old(ctx)),
            final(ctx).local_senders() == old(ctx).local_senders() + 1,
            final(ctx).shared_senders() == old(ctx).shared_senders(),
            final(ctx).local_queue() == old(ctx).local_queue(),
            final(ctx).shared_queue() == old(ctx).shared_queue(),
    {
        self.clone_in(ctx)
    }

    /// Gives the address up. The last address of either kind to go closes
    /// the mailboxes, and the actor then stops.
    pub fn release<M, T>(self, ctx: &mut Context<M, T>)
        requires
            old(ctx).wf(),
            self.context_id() == old(ctx).id(),
            old(ctx).local_senders() > 0,
        ensures
            final(ctx).wf(),
            final(ctx).same_core(old(ctx)),
            final(ctx).local_senders() == old(ctx).local_senders() - 1,
            final(ctx).shared_senders() == old(ctx).shared_senders(),
            final(ctx).local_queue() == old(ctx).local_queue(),
            final(ctx).shared_queue() == old(ctx).shared_queue(),
    {
        ctx.release_local_sender();
    }

    /// Sends `msg` with no reply sink. A stopped actor drops it silently.
    pub fn send<M, T>(&self, ctx: &mut Context<M, T>, msg: M)
        requires
            old(ctx).wf(),
            self.context_id() == old(ctx).id(),
        ensures
            local_sent(*old(ctx), *final(ctx), msg),
    {
        let _ = ctx.post_local(ContextProtocol::Envelope(Envelope::new(msg, None)));
    }

    /// Sends `msg` with a same-thread reply sink and returns the receiver of
    /// that sink's channel: the handler's result comes there, or
    /// cancellation if the envelope is dropped first.
    pub fn call<M, T>(&self, ctx: &mut Context<M, T>, msg: M) -> (r: LocalReceiver<T>)
        requires
            old(ctx).wf(),
            self.context_id() == old(ctx).id(),
        ensures
            local_called(*old(ctx), *final(ctx), msg, r.id()),
    {
        let r = ctx.post_local_call(msg);
        proof {
            if old(ctx).receivers_alive() {
                assert(ctx.local_queue().drop_last() =~= old(ctx).local_queue());
            }
        }
        r
    }

    /// Sends `msg` and returns the bare reply receiver; the same as `call`.
    pub fn call_fut<M, T>(&self, ctx: &mut Context<M, T>, msg: M) -> (r: LocalReceiver<T>)
        requires
            old(ctx).wf(),
            self.context_id() == old(ctx).id(),
        ensures
            local_called(*old(ctx), *final(ctx), msg, r.id()),
    {
        self.call(ctx, msg)
    }

    /// Asks the context for a cross-thread address; it comes on the returned
    /// receiver once the context has run a dispatch step.
    pub fn upgrade<M, T>(&self, ctx: &mut Context<M, T>) -> (r: SharedReceiver<SyncAddress>)
        requires
            old(ctx).wf(),
            self.context_id() == old(ctx).id(),
        ensures
            final(ctx).wf(),
            final(ctx).same_core(old(ctx)),
            final(ctx).local_senders() == old(ctx).local_senders(),
            final(ctx).shared_senders() == old(ctx).shared_senders(),
            final(ctx).shared_queue() == old(ctx).shared_queue(),
            r.id() == old(ctx).channel_count(),
            !old(ctx).receivers_alive() ==> final(ctx).local_queue() == old(ctx).local_queue(),
            old(ctx).receivers_alive() ==> {
                &&& final(ctx).local_queue().len() == old(ctx).local_queue().len() + 1
                &&& final(ctx).local_queue().drop_last() == old(ctx).local_queue()
                &&& final(ctx).local_queue().last() is Upgrade
                &&& final(ctx).local_queue().last()->Upgrade_0.id() == r.id()
                &&& !final(ctx).local_queue().last()->Upgrade_0.is_local()
            },
    {
        ctx.post_upgrade()
    }
}

impl<M, T> Subscriber<M, T> for Address {
    open spec fn routes_to(&self) -> u64 {
        self.context_id()
    }

    open spec fn sent(&self, c0: Context<M, T>, c1: Context<M, T>, msg: M) -> bool {
        local_sent(c0, c1, msg)
    }

    fn send(&mut self, ctx: &mut Context<M, T>, msg: M) {
        Address::send(self, ctx, msg)
    }

    fn unbuffered_send(&mut self, ctx: &mut Context<M, T>, msg: M) -> (r: Result<(), M>) {
        Address::send(self, ctx, msg);
        Ok(())
    }
}

impl<M, T> AsyncSubscriber<M, T> for Address {
    open spec fn routes_to(&self) -> u64 {
        self.context_id()
    }

    open spec fn called(&self, c0: Context<M, T>, c1: Context<M, T>, msg: M, id: nat) -> bool {
        local_called(c0, c1, msg, id)
    }

    fn call(&mut self, ctx: &mut Context<M, T>, msg: M) -> (r: CallResult<T>) {
        CallResult::local(Address::call(self, ctx, msg))
    }

    fn unbuffered_call(&mut self, ctx: &mut Context<M, T>, msg: M) -> (r: Result<CallResult<T>, M>) {
        Ok(CallResult::local(Address::call(self, ctx, msg)))
    }
}

/// A clone routes where its original does: a context takes sends through
/// one exactly when it takes them through the other, and a send through
/// either changes the context in the same way, so the receiver cannot tell
/// them apart.
pub proof fn lemma_clone_routes_same<M, T>(a: Address, b: Address, c0: Context<M, T>, c1: Context<M, T>, msg: M)
    requires
        b.context_id() == a.context_id(),
    ensures
        (a.context_id() == c0.id()) == (b.context_id() == c0.id()),
        <Address as Subscriber<M, T>>::sent(&a, c0, c1, msg) == <Address as Subscriber<M, T>>::sent(&b, c0, c1, msg),
        <Address as Subscriber<M, T>>::sent(&a, c0, c1, msg) == local_sent(c0, c1, msg),
{
}

/// The same-thread queue entries that plain sends of `msgs` add, in order.
pub open spec fn plain_entries<M, T>(msgs: Seq<M>) -> Seq<ContextProtocol<M, T>> {
    msgs.map_values(|m: M| ContextProtocol::Envelope(plain_envelope::<M, T>(m)))
}

proof fn lemma_sends_prefix<M, T>(cs: Seq<Context<M, T>>, msgs: Seq<M>, k: int)
    requires
        cs.len() == msgs.len() + 1,
        cs[0].receivers_alive(),
        forall|j: int| 0 <= j < msgs.len() ==> local_sent(#[trigger] cs[j], cs[j + 1], msgs[j]),
        0 <= k <= msgs.len(),
    ensures
        cs[k].local_queue() == cs[0].local_queue() + plain_entries::<M, T>(msgs.take(k)),
        cs[k].receivers_alive(),
    decreases k,
{
    if k == 0 {
        assert(plain_entries::<M, T>(msgs.take(0)) =~= Seq::<ContextProtocol<M, T>>::empty());
        assert(cs[0].local_queue() + Seq::<ContextProtocol<M, T>>::empty() =~= cs[0].local_queue());
    } else {
        lemma_sends_prefix(cs, msgs, k - 1);
        assert(local_sent(cs[k - 1], cs[k], msgs[k - 1]));
        assert(plain_entries::<M, T>(msgs.take(k)) =~= plain_entries::<M, T>(msgs.take(k - 1)).push(
            ContextProtocol::Envelope(plain_envelope::<M, T>(msgs[k - 1])),
        ));
        assert(cs[k].local_queue() =~= cs[0].local_queue() + plain_entries::<M, T>(msgs.take(k)));
    }
}

/// Messages that one sender sends, one after another, through same-thread
/// addresses of a live actor (the same one or clones of it: a send has the
/// same effect through either) are queued in the order sent, after what was
/// queued before; dispatch takes them from the front, so the handler sees
/// them in that order.
pub proof fn lemma_sends_keep_order<M, T>(cs: Seq<Context<M, T>>, msgs: Seq<M>)
    requires
        cs.len() == msgs.len() + 1,
        cs[0].receivers_alive(),
        forall|j: int| 0 <= j < msgs.len() ==> local_sent(#[trigger] cs[j], cs[j + 1], msgs[j]),
    ensures
        cs.last().local_queue() == cs[0].local_queue() + plain_entries::<M, T>(msgs),
        popped(cs.last().local_queue()) == cs[0].local_queue() + plain_entries::<M, T>(msgs),
{
    lemma_sends_prefix(cs, msgs, msgs.len() as int);
    assert(msgs.take(msgs.len() as int) =~= msgs);
    lemma_popped_is(cs.last().local_queue());
}

/// The reply of a call reaches the caller's own receiver: when the
/// envelope that `call` queued (on channel `id`, the number of the receiver
/// it returned) is dispatched, the handler gets `msg`, and the new task holds
/// the sink of channel `id`. That sink is handed out once, by `finish` or
/// `complete`, with the task.
pub proof fn lemma_call_reply_reaches_caller<M, T>(
    c0: Context<M, T>,
    c1: Context<M, T>,
    c2: Context<M, T>,
    msg: M,
    id: nat,
    r: Delivery<M>,
)
    requires
        local_called(c0, c1, msg, id),
        c0.receivers_alive(),
        c0.local_queue().len() == 0,
        dispatched(c1.local_queue()[0]->Envelope_0, c1, c2, r),
    ensures
        c1.local_queue().len() == 1,
        r == Delivery::Message(msg, c1.next_task_id()),
        c2.tasks().last() == c1.next_task_id(),
        c2.sinks().last() is Some,
        c2.sinks().last().unwrap().id() == id,
        c2.sinks().last().unwrap().is_local(),
{
    assert(c1.local_queue()[0] == c1.local_queue().last());
}

} // verus!
