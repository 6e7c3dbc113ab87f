//! The cross-thread address of an actor, and the futures of its replies.
use vstd::prelude::*;

use crate::address::{enqueued, plain_envelope, AsyncSubscriber, Subscriber};
use crate::context::{Context, Envelope};
use crate::mailbox::{lemma_popped_is, popped};
use crate::reply::{LocalReceiver, ReplyState, SharedReceiver};

verus! {

/// Address of an actor that may be used from another worker thread. All
/// addresses of one context share one closed flag, kept by the context.
pub struct SyncAddress {
    id: u64,
}

/// The closed flag after a send: set once a send finds the consumer gone,
/// and never cleared.
pub open spec fn closed_after(closed: bool, receiver_alive: bool) -> bool {
    closed || !receiver_alive
}

/// The context went from `c0` to `c1` by a plain send of `msg` onto its
/// cross-thread mailbox.
pub open spec fn shared_sent<M, T>(c0: Context<M, T>, c1: Context<M, T>, msg: M) -> bool {
    &&& c1.wf()
    &&& c1.same_frame(&c0)
    &&& c1.closure_seen() == closed_after(c0.closure_seen(), c0.receivers_alive())
    &&& c1.local_senders() == c0.local_senders()
    &&& c1.shared_senders() == c0.shared_senders()
    &&& c1.local_queue() == c0.local_queue()
    &&& c1.shared_queue() == enqueued(c0.shared_queue(), c0.receivers_alive(), plain_envelope::<M, T>(msg))
}

/// The context went from `c0` to `c1` by a call carrying `msg` onto its
/// cross-thread mailbox, answered on a channel numbered `id`.
pub open spec fn shared_called<M, T>(c0: Context<M, T>, c1: Context<M, T>, msg: M, id: nat) -> bool {
    &&& c1.wf()
    &&& c1.same_frame(&c0)
    &&& c1.closure_seen() == closed_after(c0.closure_seen(), c0.receivers_alive())
    &&& c1.local_senders() == c0.local_senders()
    &&& c1.shared_senders() == c0.shared_senders()
    &&& c1.local_queue() == c0.local_queue()
    &&& id == c0.channel_count()
    &&& !c0.receivers_alive() ==> c1.shared_queue() == c0.shared_queue()
    &&& c0.receivers_alive() ==> {
        &&& c1.shared_queue().len() == c0.shared_queue().len() + 1
        &&& c1.shared_queue().drop_last() == c0.shared_queue()
        &&& c1.shared_queue().last().msg == Some(msg)
        &&& c1.shared_queue().last().reply is Some
        &&& c1.shared_queue().last().reply.unwrap().id() == id
        &&& !c1.shared_queue().last().reply.unwrap().is_local()
    }
}

impl SyncAddress {
    /// The number of the context that this address routes to.
    pub closed spec fn context_id(&self) -> u64 {
        self.id
    }

    /// Mints a new cross-thread address of the actor that `ctx` runs.
    pub fn new<M, T>(ctx: &mut Context<M, T>) -> (r: SyncAddress)
        requires
            old(ctx).wf(),
            old(ctx).shared_senders() < usize::MAX,
        ensures
            r.context_id() == old(ctx).id(),
            old(ctx).receivers_alive() ==> !final(ctx).closure_seen(),
            final(ctx).wf(),
            final(ctx).same_core(old(ctx)),
            final(ctx).local_senders() == old(ctx).local_senders(),
            final(ctx).shared_senders() == old(ctx).shared_senders() + 1,
            final(ctx).local_queue() == old(ctx).local_queue(),
            final(ctx).shared_queue() == old(ctx).shared_queue(),
    {
        ctx.add_shared_sender();
        proof {
            ctx.lemma_open_while_alive();
        }
        SyncAddress { id: ctx.id_number() }
    }

    /// Another handle onto the same mailbox, sharing this one's closed flag.
    pub fn clone_in<M, T>(&self, ctx: &mut Context<M, T>) -> (r: SyncAddress)
        requires
            old(ctx).wf(),
            self.context_id() == old(ctx).id(),
            old(ctx).shared_senders() < usize::MAX,
        ensures
            r.context_id() == self.context_id(),
            final(ctx).wf(),
            final(ctx).same_core(old(ctx)),
            final(ctx).local_senders() == old(ctx).local_senders(),
            final(ctx).shared_senders() == old(ctx).shared_senders() + 1,
            final(ctx).local_queue() == old(ctx).local_queue(),
            final(ctx).shared_queue() == old(ctx).shared_queue(),
    {
        SyncAddress::new(ctx)
    }

    /// A handle that offers only `Subscriber`: a clone of this address.
    pub fn subscriber<M, T>(&self, ctx: &mut Context<M, T>) -> (r: SyncAddress)
        requires
            old(ctx).wf(),
            self.context_id() == old(ctx).id(),
            old(ctx).shared_senders() < usize::MAX,
        ensures
            r.context_id() == self.context_id(),
            final(ctx).wf(),
            final(ctx).same_core(old(ctx)),
            final(ctx).local_senders() == old(ctx).local_senders(),
            final(ctx).shared_senders() == old(ctx).shared_senders() + 1,
            final(ctx).local_queue() == old(ctx).local_queue(),
            final(ctx).shared_queue() == old(ctx).shared_queue(),
    {
        self.clone_in(ctx)
    }

    /// A handle that offers only `AsyncSubscriber`: a clone of this address.
    pub fn async_subscriber<M, T>(&self, ctx: &mut Context<M, T>) -> (r: SyncAddress)
        requires
            old(ctx).wf(),
            self.context_id() == old(ctx).id(),
            old(ctx).shared_senders() < usize::MAX,
        ensures
            r.context_id() == self.context_id(),
            final(ctx).wf(),
            final(ctx).same_core(old(ctx)),
            final(ctx).local_senders() == old(ctx).local_senders(),
            final(ctx).shared_senders() == old(ctx).shared_senders() + 1,
            final(ctx).local_queue() == old(ctx).local_queue(),
            final(ctx).shared_queue() == old(ctx).shared_queue(),
    {
        self.clone_in(ctx)
    }

    /// Gives the address up. The last address of either kind to go closes
    /// the mailboxes, and the actor then stops.
    pub fn release<M, T>(self, ctx: &mut Context<M, T>)
        requires
            old(ctx).wf(),
            self.context_id() == old(ctx).id(),
            old(ctx).shared_senders() > 0,
        ensures
            final(ctx).wf(),
            final(ctx).same_core(old(ctx)),
            final(ctx).local_senders() == old(ctx).local_senders(),
            final(ctx).shared_senders() == old(ctx).shared_senders() - 1,
            final(ctx).local_queue() == old(ctx).local_queue(),
            final(ctx).shared_queue() == old(ctx).shared_queue(),
    {
        ctx.release_shared_sender();
    }

    /// Whether a send through this address, or any other cross-thread
    /// address of its context, has found the mailbox gone.
    pub fn is_closed<M, T>(&self, ctx: &Context<M, T>) -> (r: bool)
        requires
            self.context_id() == ctx.id(),
        ensures
            r == ctx.closure_seen(),
            ctx.wf() && ctx.receivers_alive() ==> !r,
    {
        proof {
            ctx.lemma_open_while_alive();
        }
        ctx.shared_closed()
    }

    /// Sends `msg` with no reply sink. If the actor is gone the message is
    /// dropped and the shared closed flag is set.
    pub fn send<M, T>(&self, ctx: &mut Context<M, T>, msg: M)
        requires
            old(ctx).wf(),
            self.context_id() == old(ctx).id(),
        ensures
            shared_sent(*old(ctx), *final(ctx), msg),
    {
        let _ = ctx.post_shared(Envelope::new(msg, None));
    }

    /// Sends `msg` and returns the future of the reply on the channel of the
    /// queued sink: the handler's result, or cancellation if the actor is
    /// gone or drops the envelope.
    pub fn call<M, T>(&self, ctx: &mut Context<M, T>, msg: M) -> (r: MessageResult<T>)
        requires
            old(ctx).wf(),
            self.context_id() == old(ctx).id(),
        ensures
            shared_called(*old(ctx), *final(ctx), msg, r.id()),
    {
        MessageResult { rx: ctx.post_shared_call(msg) }
    }

    /// Sends `msg` and returns the bare reply receiver.
    pub fn call_fut<M, T>(&self, ctx: &mut Context<M, T>, msg: M) -> (r: SharedReceiver<T>)
        requires
            old(ctx).wf(),
            self.context_id() == old(ctx).id(),
        ensures
            shared_called(*old(ctx), *final(ctx), msg, r.id()),
    {
        ctx.post_shared_call(msg)
    }
}

impl<M, T> Subscriber<M, T> for SyncAddress {
    open spec fn routes_to(&self) -> u64 {
        self.context_id()
    }

    open spec fn sent(&self, c0: Context<M, T>, c1: Context<M, T>, msg: M) -> bool {
        shared_sent(c0, c1, msg)
    }

    fn send(&mut self, ctx: &mut Context<M, T>, msg: M) {
        SyncAddress::send(self, ctx, msg)
    }

    fn unbuffered_send(&mut self, ctx: &mut Context<M, T>, msg: M) -> (r: Result<(), M>) {
        SyncAddress::send(self, ctx, msg);
        Ok(())
    }
}

impl<M, T> AsyncSubscriber<M, T> for SyncAddress {
    open spec fn routes_to(&self) -> u64 {
        self.context_id()
    }

    open spec fn called(&self, c0: Context<M, T>, c1: Context<M, T>, msg: M, id: nat) -> bool {
        shared_called(c0, c1, msg, id)
    }

    fn call(&mut self, ctx: &mut Context<M, T>, msg: M) -> (r: CallResult<T>) {
        CallResult::shared(ctx.post_shared_call(msg))
    }

    fn unbuffered_call(&mut self, ctx: &mut Context<M, T>, msg: M) -> (r: Result<CallResult<T>, M>) {
        Ok(CallResult::shared(ctx.post_shared_call(msg)))
    }
}

/// The shared closed flag never flips back, and a send after the actor's
/// mailboxes lost their consumer (the context reached `Stopped`) sets it.
/// Every address of the context reads that one flag, so a clone reports
/// closed exactly when its original does.
pub proof fn lemma_closed_is_monotonic<M, T>(a: SyncAddress, b: SyncAddress, c0: Context<M, T>, c1: Context<M, T>, msg: M)
    requires
        a.context_id() == c0.id(),
        b.context_id() == a.context_id(),
        shared_sent(c0, c1, msg),
    ensures
        c0.closure_seen() ==> c1.closure_seen(),
        !c0.receivers_alive() ==> c1.closure_seen(),
        c0.receivers_alive() ==> c1.closure_seen() == c0.closure_seen(),
        b.context_id() == c1.id(),
{
}

/// The future of a reply to a call through a cross-thread address.
#[verifier::reject_recursive_types(T)]
pub struct MessageResult<T> {
    rx: SharedReceiver<T>,
}

impl<T> MessageResult<T> {
    /// The number of the reply channel.
    pub closed spec fn id(&self) -> nat {
        self.rx.id()
    }

    /// Looks at the reply channel without waiting.
    pub fn try_reply(&mut self) -> (r: ReplyState<T>)
        ensures
            final(self).id() == old(self).id(),
    {
        self.rx.try_reply()
    }
}

/// The cross-thread queue entries that plain sends of `msgs` add, in order.
pub open spec fn plain_envelopes<M, T>(msgs: Seq<M>) -> Seq<Envelope<M, T>> {
    msgs.map_values(|m: M| plain_envelope::<M, T>(m))
}

proof fn lemma_shared_sends_prefix<M, T>(cs: Seq<Context<M, T>>, msgs: Seq<M>, k: int)
    requires
        cs.len() == msgs.len() + 1,
        cs[0].receivers_alive(),
        forall|j: int| 0 <= j < msgs.len() ==> shared_sent(#[trigger] cs[j], cs[j + 1], msgs[j]),
        0 <= k <= msgs.len(),
    ensures
        cs[k].shared_queue() == cs[0].shared_queue() + plain_envelopes::<M, T>(msgs.take(k)),
        cs[k].receivers_alive(),
    decreases k,
{
    if k == 0 {
        assert(plain_envelopes::<M, T>(msgs.take(0)) =~= Seq::<Envelope<M, T>>::empty());
        assert(cs[0].shared_queue() + Seq::<Envelope<M, T>>::empty() =~= cs[0].shared_queue());
    } else {
        lemma_shared_sends_prefix(cs, msgs, k - 1);
        assert(shared_sent(cs[k - 1], cs[k], msgs[k - 1]));
        assert(plain_envelopes::<M, T>(msgs.take(k)) =~= plain_envelopes::<M, T>(msgs.take(k - 1)).push(
            plain_envelope::<M, T>(msgs[k - 1]),
        ));
        assert(cs[k].shared_queue() =~= cs[0].shared_queue() + plain_envelopes::<M, T>(msgs.take(k)));
    }
}

/// Messages that one thread sends, one after another, through cross-thread
/// addresses of a live actor (the same one or clones of it: a send has the
/// same effect through either) are queued in the order sent, after what was
/// queued before; dispatch takes them from the front, so the handler sees
/// them in that order.
pub proof fn lemma_shared_sends_keep_order<M, T>(cs: Seq<Context<M, T>>, msgs: Seq<M>)
    requires
        cs.len() == msgs.len() + 1,
        cs[0].receivers_alive(),
        forall|j: int| 0 <= j < msgs.len() ==> shared_sent(#[trigger] cs[j], cs[j + 1], msgs[j]),
    ensures
        cs.last().shared_queue() == cs[0].shared_queue() + plain_envelopes::<M, T>(msgs),
        popped(cs.last().shared_queue()) == cs[0].shared_queue() + plain_envelopes::<M, T>(msgs),
        !cs[0].closure_seen() ==> !cs.last().closure_seen(),
{
    lemma_shared_sends_prefix(cs, msgs, msgs.len() as int);
    assert(msgs.take(msgs.len() as int) =~= msgs);
    lemma_popped_is(cs.last().shared_queue());
    lemma_shared_flag_stays(cs, msgs, msgs.len() as int);
}

proof fn lemma_shared_flag_stays<M, T>(cs: Seq<Context<M, T>>, msgs: Seq<M>, k: int)
    requires
        cs.len() == msgs.len() + 1,
        cs[0].receivers_alive(),
        forall|j: int| 0 <= j < msgs.len() ==> shared_sent(#[trigger] cs[j], cs[j + 1], msgs[j]),
        0 <= k <= msgs.len(),
    ensures
        cs[k].closure_seen() == cs[0].closure_seen(),
        cs[k].receivers_alive(),
    decreases k,
{
    if k > 0 {
        lemma_shared_flag_stays(cs, msgs, k - 1);
        assert(shared_sent(cs[k - 1], cs[k], msgs[k - 1]));
    }
}

/// Where the reply to a call through a capability view comes.
#[verifier::reject_recursive_types(T)]
pub enum CallReceiver<T> {
    Local(LocalReceiver<T>),
    Shared(SharedReceiver<T>),
}

/// The future of a reply to a call through a capability view.
#[verifier::reject_recursive_types(T)]
pub struct CallResult<T> {
    rx: CallReceiver<T>,
}

impl<T> CallResult<T> {
    /// The number of the reply channel.
    pub closed spec fn id(&self) -> nat {
        match self.rx {
            CallReceiver::Local(rx) => rx.id(),
            CallReceiver::Shared(rx) => rx.id(),
        }
    }

    /// The channel the reply comes on.
    pub closed spec fn receiver(&self) -> CallReceiver<T> {
        self.rx
    }

    /// Whether the reply comes on a same-thread channel, which only a task
    /// on this worker can wait on.
    pub closed spec fn is_local(&self) -> bool {
        self.rx is Local
    }

    pub(crate) fn local(rx: LocalReceiver<T>) -> (r: CallResult<T>)
        ensures
            r.id() == rx.id(),
            r.is_local(),
    {
        CallResult { rx: CallReceiver::Local(rx) }
    }

    pub(crate) fn shared(rx: SharedReceiver<T>) -> (r: CallResult<T>)
        ensures
            r.id() == rx.id(),
            !r.is_local(),
    {
        CallResult { rx: CallReceiver::Shared(rx) }
    }

    /// Looks at a cross-thread reply channel without waiting; `None` for a
    /// same-thread one, which is read through `into_receiver` inside a task.
    pub fn try_reply(&mut self) -> (r: Option<ReplyState<T>>)
        ensures
            final(self).id() == old(self).id(),
            final(self).is_local() == old(self).is_local(),
            r is None <==> old(self).is_local(),
    {
        match &mut self.rx {
            CallReceiver::Local(_) => None,
            CallReceiver::Shared(rx) => Some(rx.try_reply()),
        }
    }

    /// The channel the reply comes on.
    pub fn into_receiver(self) -> (r: CallReceiver<T>)
        ensures
            r == self.receiver(),
    {
        self.rx
    }
}

} // verus!
