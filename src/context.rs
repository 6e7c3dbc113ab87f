//! The per-actor execution context: it owns both mailboxes, the set of
//! in-flight actor-aware futures, and the actor's lifecycle phase.
use vstd::prelude::*;

use crate::lifecycle::{
    lemma_in_flight_defers_stop, lemma_open_mailbox_keeps_running, run, step, transition, ActorState,
    Hook,
};
use crate::mailbox::Mailbox;
use crate::fut::{Async, Poll};
use crate::reply::{deliver, local_channel, shared_channel, LocalReceiver, ReplySink, SharedReceiver};
use crate::address::{enqueued, local_called};
use crate::sync_address::{closed_after, shared_called, SyncAddress};

verus! {

/// A message on its way to the actor, with the sink that its reply goes to.
#[verifier::reject_recursive_types(T)]
pub struct Envelope<M, T> {
    pub msg: Option<M>,
    pub reply: Option<ReplySink<T>>,
}

impl<M, T> Envelope<M, T> {
    pub fn new(msg: M, reply: Option<ReplySink<T>>) -> (r: Envelope<M, T>)
        ensures
            r.msg == Some(msg),
            r.reply == reply,
    {
        Envelope { msg: Some(msg), reply }
    }

    /// Takes the message and its sink out. Only the first call finds them:
    /// an envelope dispatches once.
    pub fn take(&mut self) -> (r: Option<(M, Option<ReplySink<T>>)>)
        ensures
            final(self).msg is None,
            old(self).msg is None ==> r is None && final(self).reply == old(self).reply,
            old(self).msg is Some ==> r == Some((old(self).msg.unwrap(), old(self).reply))
                && final(self).reply is None,
    {
        match self.msg.take() {
            Some(m) => {
                let reply = self.reply.take();
                Some((m, reply))
            },
            None => None,
        }
    }
}

/// What the same-thread mailbox carries: an envelope, or a request for a
/// cross-thread address.
#[verifier::reject_recursive_types(T)]
pub enum ContextProtocol<M, T> {
    Envelope(Envelope<M, T>),
    Upgrade(ReplySink<SyncAddress>),
}

/// An actor-aware future that the context polls, known by its task number.
/// Futures that answer a message hold the caller's reply sink.
#[verifier::reject_recursive_types(T)]
pub struct InFlight<T> {
    pub task: u64,
    pub reply: Option<ReplySink<T>>,
}

/// Task numbers increase along `fs` and stay below `bound`.
pub open spec fn increasing_below<T>(fs: Seq<InFlight<T>>, bound: u64) -> bool {
    &&& forall|i: int, j: int| 0 <= i < j < fs.len() ==> fs[i].task < fs[j].task
    &&& forall|i: int| 0 <= i < fs.len() ==> fs[i].task < bound
}

/// What dispatching envelope `e` did to the context going from `c0` to `c1`
/// and returned as `r`: a message still inside starts a new task whose number
/// comes back with it; an empty envelope does nothing.
pub open spec fn dispatched<M, T>(e: Envelope<M, T>, c0: Context<M, T>, c1: Context<M, T>, r: Delivery<M>) -> bool {
    if e.msg is Some {
        &&& r == Delivery::Message(e.msg.unwrap(), c0.next_task_id())
        &&& c1.tasks() == c0.tasks().push(c0.next_task_id())
        &&& c1.sinks() == c0.sinks().push(e.reply)
        &&& c1.next_task_id() == c0.next_task_id() + 1
    } else {
        &&& r is Idle
        &&& c1.tasks() == c0.tasks()
        &&& c1.sinks() == c0.sinks()
        &&& c1.next_task_id() == c0.next_task_id()
    }
}

/// Whether `m` is the message of an envelope queued in either mailbox of `c`.
pub open spec fn was_queued<M, T>(c: Context<M, T>, m: M) -> bool {
    ||| exists|j: int| 0 <= j < c.shared_queue().len() && c.shared_queue()[j].msg == Some(m)
    ||| exists|j: int|
        0 <= j < c.local_queue().len() && c.local_queue()[j] is Envelope && c.local_queue()[j]->Envelope_0.msg
            == Some(m)
}

/// The log of handed values after a finished task with sink `sink` is
/// given `value`: a value reaching a sink is recorded under its channel.
pub open spec fn handed<T>(log: Seq<(nat, T)>, sink: Option<ReplySink<T>>, value: Option<T>) -> Seq<(nat, T)> {
    if sink is Some && value is Some {
        log.push((sink.unwrap().id(), value.unwrap()))
    } else {
        log
    }
}

/// The message, if any, that dispatching the same-thread entry `p` hands
/// to the handler.
pub open spec fn local_message<M, T>(p: ContextProtocol<M, T>) -> Seq<M> {
    match p {
        ContextProtocol::Envelope(e) => if e.msg is Some {
            seq![e.msg.unwrap()]
        } else {
            Seq::empty()
        },
        ContextProtocol::Upgrade(_) => Seq::empty(),
    }
}

/// The message, if any, that dispatching envelope `e` hands to the handler.
pub open spec fn envelope_message<M, T>(e: Envelope<M, T>) -> Seq<M> {
    if e.msg is Some {
        seq![e.msg.unwrap()]
    } else {
        Seq::empty()
    }
}

/// The messages that at most `limit` dispatch steps hand to the handler,
/// from a same-thread queue `lq` and a cross-thread queue `sq`, looking at
/// the cross-thread one first when `ps` holds and alternating after that.
pub open spec fn batch_messages<M, T>(
    lq: Seq<ContextProtocol<M, T>>,
    sq: Seq<Envelope<M, T>>,
    ps: bool,
    limit: nat,
) -> Seq<M>
    decreases limit,
{
    if limit == 0 || (lq.len() == 0 && sq.len() == 0) {
        Seq::empty()
    } else if lq.len() > 0 && (!ps || sq.len() == 0) {
        local_message(lq[0]) + batch_messages(lq.drop_first(), sq, true, (limit - 1) as nat)
    } else {
        envelope_message(sq[0]) + batch_messages(lq, sq.drop_first(), false, (limit - 1) as nat)
    }
}

/// The messages of a batch's result, in order.
pub open spec fn batch_firsts<M>(v: Seq<(M, u64)>) -> Seq<M> {
    v.map_values(|p: (M, u64)| p.0)
}

/// How many entries the two mailboxes hold together.
pub open spec fn queued_total<M, T>(c: Context<M, T>) -> nat {
    c.local_queue().len() + c.shared_queue().len()
}

/// What one dispatch step found.
pub enum Delivery<M> {
    /// Nothing was queued, or the envelope had been dispatched before.
    Idle,
    /// A request for a cross-thread address was served; whether the asker
    /// was still there to take the address.
    Upgraded(bool),
    /// A message for the handler, and the task that stands for its future.
    Message(M, u64),
}

#[verifier::reject_recursive_types(T)]
pub struct Context<M, T> {
    id: u64,
    state: ActorState,
    local: Mailbox<ContextProtocol<M, T>>,
    shared: Mailbox<Envelope<M, T>>,
    in_flight: Vec<InFlight<T>>,
    next_task: u64,
    prefer_shared: bool,
    closure_seen: bool,
    channels: Ghost<nat>,
    delivered: Ghost<Seq<(nat, T)>>,
    upgrades: Ghost<Seq<(nat, SyncAddress)>>,
}

impl<M, T> Context<M, T> {
    /// The number that the context's addresses carry.
    pub closed spec fn id(&self) -> u64 {
        self.id
    }

    pub closed spec fn actor_state(&self) -> ActorState {
        self.state
    }

    pub closed spec fn local_queue(&self) -> Seq<ContextProtocol<M, T>> {
        self.local.queue()
    }

    pub closed spec fn shared_queue(&self) -> Seq<Envelope<M, T>> {
        self.shared.queue()
    }

    /// Live same-thread addresses.
    pub closed spec fn local_senders(&self) -> nat {
        self.local.sender_count()
    }

    /// Live cross-thread addresses.
    pub closed spec fn shared_senders(&self) -> nat {
        self.shared.sender_count()
    }

    /// Whether the mailboxes still accept envelopes.
    pub closed spec fn receivers_alive(&self) -> bool {
        self.local.receiver_alive()
    }

    /// The task numbers of the futures in flight, oldest first.
    pub closed spec fn tasks(&self) -> Seq<u64> {
        Seq::new(self.in_flight@.len(), |i: int| self.in_flight@[i].task)
    }

    /// The reply sinks of the futures in flight, in the order of `tasks`.
    pub closed spec fn sinks(&self) -> Seq<Option<ReplySink<T>>> {
        Seq::new(self.in_flight@.len(), |i: int| self.in_flight@[i].reply)
    }

    /// Whether a send through a cross-thread address of this context has
    /// found the mailbox gone. All such addresses share this flag.
    pub closed spec fn closure_seen(&self) -> bool {
        self.closure_seen
    }

    /// Every value handed to a reply sink so far, with the number of the
    /// sink's channel, in the order handed.
    pub closed spec fn delivered(&self) -> Seq<(nat, T)> {
        self.delivered@
    }

    /// Every address handed to an upgrade request so far, with the number
    /// of the request's channel, in the order handed.
    pub closed spec fn upgrades(&self) -> Seq<(nat, SyncAddress)> {
        self.upgrades@
    }

    /// The number that the next reply channel gets.
    pub closed spec fn channel_count(&self) -> nat {
        self.channels@
    }

    /// The number the next task will get.
    pub closed spec fn next_task_id(&self) -> u64 {
        self.next_task
    }

    /// Whether the next dispatch step looks at the cross-thread mailbox first.
    pub closed spec fn prefers_shared(&self) -> bool {
        self.prefer_shared
    }

    /// A live context has never seen a cross-thread send fail.
    pub proof fn lemma_open_while_alive(&self)
        ensures
            self.wf() && self.receivers_alive() ==> !self.closure_seen(),
    {
    }

    /// Both mailboxes are closed: no address of either kind is live.
    pub open spec fn mailboxes_closed(&self) -> bool {
        self.local_senders() == 0 && self.shared_senders() == 0
    }

    /// The context's own invariant: task numbers are increasing and below
    /// the next one, both mailboxes lose their consumer together, and only
    /// a stopped actor has lost it.
    pub closed spec fn wf(&self) -> bool {
        &&& increasing_below(self.in_flight@, self.next_task)
        &&& self.local.receiver_alive() == self.shared.receiver_alive()
        &&& !self.local.receiver_alive() ==> self.state == ActorState::Stopped
        &&& self.closure_seen ==> !self.local.receiver_alive()
    }

    /// Everything but the mailboxes' queues and producer counts is as in `o`.
    pub open spec fn same_core(&self, o: &Self) -> bool {
        &&& self.same_frame(o)
        &&& self.closure_seen() == o.closure_seen()
    }

    /// As `same_core`, leaving out the shared closed flag.
    pub open spec fn same_frame(&self, o: &Self) -> bool {
        &&& self.id() == o.id()
        &&& self.sinks() == o.sinks()
        &&& self.delivered() == o.delivered()
        &&& self.upgrades() == o.upgrades()
        &&& self.actor_state() == o.actor_state()
        &&& self.receivers_alive() == o.receivers_alive()
        &&& self.tasks() == o.tasks()
        &&& self.next_task_id() == o.next_task_id()
        &&& self.prefers_shared() == o.prefers_shared()
    }

    /// The mailboxes' queues and producer counts are as in `o`.
    pub open spec fn same_mail(&self, o: &Self) -> bool {
        &&& self.local_queue() == o.local_queue()
        &&& self.shared_queue() == o.shared_queue()
        &&& self.local_senders() == o.local_senders()
        &&& self.shared_senders() == o.shared_senders()
    }

    /// Whether the next dispatch step takes from the same-thread mailbox.
    pub open spec fn takes_local(&self) -> bool {
        self.local_queue().len() > 0 && (!self.prefers_shared() || self.shared_queue().len() == 0)
    }

    /// A context for a new actor: `Starting`, nothing queued, no address yet.
    pub fn new(id: u64) -> (r: Context<M, T>)
        ensures
            r.wf(),
            r.id() == id,
            r.actor_state() == ActorState::Starting,
            r.local_queue() == Seq::<ContextProtocol<M, T>>::empty(),
            r.shared_queue() == Seq::<Envelope<M, T>>::empty(),
            r.local_senders() == 0,
            r.shared_senders() == 0,
            r.receivers_alive(),
            r.tasks() == Seq::<u64>::empty(),
            r.sinks() == Seq::<Option<ReplySink<T>>>::empty(),
            r.next_task_id() == 0,
            !r.prefers_shared(),
            !r.closure_seen(),
            r.delivered() == Seq::<(nat, T)>::empty(),
            r.upgrades() == Seq::<(nat, SyncAddress)>::empty(),
    {
        let r = Context {
            id,
            state: ActorState::Starting,
            local: Mailbox::new(),
            shared: Mailbox::new(),
            in_flight: Vec::new(),
            next_task: 0,
            prefer_shared: false,
            closure_seen: false,
            channels: Ghost(0),
            delivered: Ghost(Seq::empty()),
            upgrades: Ghost(Seq::empty()),
        };
        assert(r.sinks() =~= Seq::<Option<ReplySink<T>>>::empty());
        assert(r.tasks() =~= Seq::<u64>::empty());
        r
    }

    pub fn id_number(&self) -> (r: u64)
        ensures
            r == self.id(),
    {
        self.id
    }

    pub fn state(&self) -> (r: ActorState)
        ensures
            r == self.actor_state(),
    {
        self.state
    }

    pub fn in_flight_count(&self) -> (r: usize)
        ensures
            r == self.tasks().len(),
    {
        self.in_flight.len()
    }

    pub fn local_sender_count(&self) -> (r: usize)
        ensures
            r == self.local_senders(),
    {
        self.local.sender_count_exec()
    }

    pub fn shared_sender_count(&self) -> (r: usize)
        ensures
            r == self.shared_senders(),
    {
        self.shared.sender_count_exec()
    }

    pub fn is_alive(&self) -> (r: bool)
        ensures
            r == self.receivers_alive(),
    {
        self.local.has_receiver()
    }

    /// Whether a send through any cross-thread address of this context has
    /// found the mailbox gone.
    pub fn shared_closed(&self) -> (r: bool)
        ensures
            r == self.closure_seen(),
    {
        self.closure_seen
    }

    pub fn mailboxes_are_closed(&self) -> (r: bool)
        ensures
            r == self.mailboxes_closed(),
    {
        self.local.is_closed() && self.shared.is_closed()
    }

    pub(crate) fn add_local_sender(&mut self)
        requires
            old(self).wf(),
            old(self).local_senders() < usize::MAX,
        ensures
            final(self).wf(),
            final(self).same_core(old(self)),
            final(self).local_senders() == old(self).local_senders() + 1,
            final(self).shared_senders() == old(self).shared_senders(),
            final(self).local_queue() == old(self).local_queue(),
            final(self).shared_queue() == old(self).shared_queue(),
    {
        self.local.add_sender();
    }

    pub(crate) fn release_local_sender(&mut self)
        requires
            old(self).wf(),
            old(self).local_senders() > 0,
        ensures
            final(self).wf(),
            final(self).same_core(old(self)),
            final(self).local_senders() == old(self).local_senders() - 1,
            final(self).shared_senders() == old(self).shared_senders(),
            final(self).local_queue() == old(self).local_queue(),
            final(self).shared_queue() == old(self).shared_queue(),
    {
        self.local.release_sender();
    }

    pub(crate) fn add_shared_sender(&mut self)
        requires
            old(self).wf(),
            old(self).shared_senders() < usize::MAX,
        ensures
            final(self).wf(),
            final(self).same_core(old(self)),
            final(self).local_senders() == old(self).local_senders(),
            final(self).shared_senders() == old(self).shared_senders() + 1,
            final(self).local_queue() == old(self).local_queue(),
            final(self).shared_queue() == old(self).shared_queue(),
    {
        self.shared.add_sender();
    }

    pub(crate) fn release_shared_sender(&mut self)
        requires
            old(self).wf(),
            old(self).shared_senders() > 0,
        ensures
            final(self).wf(),
            final(self).same_core(old(self)),
            final(self).local_senders() == old(self).local_senders(),
            final(self).shared_senders() == old(self).shared_senders() - 1,
            final(self).local_queue() == old(self).local_queue(),
            final(self).shared_queue() == old(self).shared_queue(),
    {
        self.shared.release_sender();
    }

    /// Enqueues onto the same-thread mailbox; a stopped context hands it back.
    pub(crate) fn post_local(&mut self, p: ContextProtocol<M, T>) -> (r: Result<(), ContextProtocol<M, T>>)
        requires
            old(self).wf(),
        ensures
            final(self).wf(),
            final(self).same_core(old(self)),
            final(self).local_senders() == old(self).local_senders(),
            final(self).shared_senders() == old(self).shared_senders(),
            final(self).shared_queue() == old(self).shared_queue(),
            old(self).receivers_alive() ==> r is Ok && final(self).local_queue() == old(self).local_queue().push(p),
            !old(self).receivers_alive() ==> r == Err::<(), ContextProtocol<M, T>>(p)
                && final(self).local_queue() == old(self).local_queue(),
    {
        self.local.push(p)
    }

    /// Enqueues onto the cross-thread mailbox. A stopped context hands the
    /// envelope back, and the shared closed flag is set.
    pub(crate) fn post_shared(&mut self, e: Envelope<M, T>) -> (r: Result<(), Envelope<M, T>>)
        requires
            old(self).wf(),
        ensures
            final(self).wf(),
            final(self).same_frame(old(self)),
            final(self).closure_seen() == closed_after(old(self).closure_seen(), old(self).receivers_alive()),
            final(self).channel_count() == old(self).channel_count(),
            final(self).local_senders() == old(self).local_senders(),
            final(self).shared_senders() == old(self).shared_senders(),
            final(self).local_queue() == old(self).local_queue(),
            final(self).shared_queue() == enqueued(old(self).shared_queue(), old(self).receivers_alive(), e),
            r is Ok <==> old(self).receivers_alive(),
    {
        let r = self.shared.push(e);
        if r.is_err() {
            self.closure_seen = true;
        }
        r
    }

    /// Takes a fresh channel number.
    fn next_channel(&mut self) -> (r: Ghost<nat>)
        ensures
            r@ == old(self).channel_count(),
            final(self).channel_count() == old(self).channel_count() + 1,
            final(self).wf() == old(self).wf(),
            final(self).same_core(old(self)),
            final(self).same_mail(old(self)),
    {
        let r = Ghost(self.channels@);
        self.channels = Ghost(self.channels@ + 1);
        r
    }

    /// Posts a call carrying `msg` onto the same-thread mailbox, with a
    /// same-thread sink whose channel the returned receiver shares.
    pub(crate) fn post_local_call(&mut self, msg: M) -> (r: LocalReceiver<T>)
        requires
            old(self).wf(),
        ensures
            local_called(*old(self), *final(self), msg, r.id()),
    {
        let id = self.next_channel();
        let (tx, rx) = local_channel(id);
        let _ = self.local.push(ContextProtocol::Envelope(Envelope::new(msg, Some(tx))));
        proof {
            if old(self).receivers_alive() {
                assert(self.local_queue().drop_last() =~= old(self).local_queue());
            }
        }
        rx
    }

    /// Posts a request for a cross-thread address onto the same-thread
    /// mailbox; the address comes on the returned receiver.
    pub(crate) fn post_upgrade(&mut self) -> (r: SharedReceiver<SyncAddress>)
        requires
            old(self).wf(),
        ensures
            final(self).wf(),
            final(self).same_core(old(self)),
            final(self).local_senders() == old(self).local_senders(),
            final(self).shared_senders() == old(self).shared_senders(),
            final(self).shared_queue() == old(self).shared_queue(),
            r.id() == old(self).channel_count(),
            !old(self).receivers_alive() ==> final(self).local_queue() == old(self).local_queue(),
            old(self).receivers_alive() ==> {
                &&& final(self).local_queue().len() == old(self).local_queue().len() + 1
                &&& final(self).local_queue().drop_last() == old(self).local_queue()
                &&& final(self).local_queue().last() is Upgrade
                &&& final(self).local_queue().last()->Upgrade_0.id() == r.id()
                &&& !final(self).local_queue().last()->Upgrade_0.is_local()
            },
    {
        let id = self.next_channel();
        let (tx, rx) = shared_channel(id);
        let _ = self.local.push(ContextProtocol::Upgrade(tx));
        proof {
            if old(self).receivers_alive() {
                assert(self.local_queue().drop_last() =~= old(self).local_queue());
            }
        }
        rx
    }

    /// Posts a call carrying `msg` onto the cross-thread mailbox, with a
    /// cross-thread sink whose channel the returned receiver shares. A
    /// stopped context sets the shared closed flag.
    pub(crate) fn post_shared_call(&mut self, msg: M) -> (r: SharedReceiver<T>)
        requires
            old(self).wf(),
        ensures
            shared_called(*old(self), *final(self), msg, r.id()),
    {
        let id = self.next_channel();
        let (tx, rx) = shared_channel(id);
        let _ = self.post_shared(Envelope::new(msg, Some(tx)));
        proof {
            if old(self).receivers_alive() {
                assert(self.shared_queue().drop_last() =~= old(self).shared_queue());
            }
        }
        rx
    }

    /// Registers a future in flight under the next task number.
    fn register(&mut self, reply: Option<ReplySink<T>>) -> (r: u64)
        requires
            old(self).wf(),
            old(self).next_task_id() < u64::MAX,
        ensures
            final(self).wf(),
            r == old(self).next_task_id(),
            final(self).tasks() == old(self).tasks().push(r),
            final(self).sinks() == old(self).sinks().push(reply),
            final(self).next_task_id() == r + 1,
            final(self).id() == old(self).id(),
            final(self).actor_state() == old(self).actor_state(),
            final(self).receivers_alive() == old(self).receivers_alive(),
            final(self).prefers_shared() == old(self).prefers_shared(),
            final(self).closure_seen() == old(self).closure_seen(),
            final(self).delivered() == old(self).delivered(),
            final(self).upgrades() == old(self).upgrades(),
            final(self).same_mail(old(self)),
    {
        let t = self.next_task;
        self.in_flight.push(InFlight { task: t, reply });
        self.next_task = t + 1;
        assert(self.tasks() =~= old(self).tasks().push(t));
        assert(self.sinks() =~= old(self).sinks().push(reply));
        t
    }

    /// Registers an actor-aware future that answers no caller, such as one
    /// that a lifecycle callback starts; returns its task number.
    pub fn spawn(&mut self) -> (r: u64)
        requires
            old(self).wf(),
            old(self).next_task_id() < u64::MAX,
        ensures
            final(self).wf(),
            r == old(self).next_task_id(),
            final(self).tasks() == old(self).tasks().push(r),
            final(self).sinks() == old(self).sinks().push(None),
            final(self).next_task_id() == r + 1,
            final(self).id() == old(self).id(),
            final(self).actor_state() == old(self).actor_state(),
            final(self).receivers_alive() == old(self).receivers_alive(),
            final(self).prefers_shared() == old(self).prefers_shared(),
            final(self).closure_seen() == old(self).closure_seen(),
            final(self).delivered() == old(self).delivered(),
            final(self).upgrades() == old(self).upgrades(),
            final(self).same_mail(old(self)),
    {
        self.register(None)
    }

    /// Takes `task` out of flight and returns its reply sink, if it was in
    /// flight: `Some(None)` for a future that answers no caller.
    pub fn finish(&mut self, task: u64) -> (r: Option<Option<ReplySink<T>>>)
        requires
            old(self).wf(),
        ensures
            final(self).wf(),
            r is Some == old(self).tasks().contains(task),
            r is Some ==> exists|i: int|
                0 <= i < old(self).tasks().len() && old(self).tasks()[i] == task
                    && final(self).tasks() == old(self).tasks().remove(i)
                    && final(self).sinks() == old(self).sinks().remove(i)
                    && r == Some(old(self).sinks()[i]),
            r is None ==> final(self).tasks() == old(self).tasks() && final(self).sinks() == old(self).sinks(),
            final(self).next_task_id() == old(self).next_task_id(),
            final(self).id() == old(self).id(),
            final(self).actor_state() == old(self).actor_state(),
            final(self).receivers_alive() == old(self).receivers_alive(),
            final(self).prefers_shared() == old(self).prefers_shared(),
            final(self).closure_seen() == old(self).closure_seen(),
            final(self).delivered() == old(self).delivered(),
            final(self).upgrades() == old(self).upgrades(),
            final(self).same_mail(old(self)),
    {
        let mut i: usize = 0;
        while i < self.in_flight.len()
            invariant
                i <= self.in_flight@.len(),
                forall|j: int| 0 <= j < i ==> self.in_flight@[j].task != task,
            ensures
                i <= self.in_flight@.len(),
                forall|j: int| 0 <= j < i ==> self.in_flight@[j].task != task,
                i < self.in_flight@.len() ==> self.in_flight@[i as int].task == task,
            decreases self.in_flight@.len() - i,
        {
            if self.in_flight[i].task == task {
                break;
            }
            i = i + 1;
        }
        if i == self.in_flight.len() {
            assert(!old(self).tasks().contains(task)) by {
                if old(self).tasks().contains(task) {
                    let k = choose|k: int| 0 <= k < old(self).tasks().len() && old(self).tasks()[k] == task;
                    assert(self.in_flight@[k].task == task);
                }
            }
            return None;
        }
        let f = self.in_flight.remove(i);
        assert(self.tasks() =~= old(self).tasks().remove(i as int));
        assert(self.sinks() =~= old(self).sinks().remove(i as int));
        assert(old(self).tasks()[i as int] == task);
        assert(old(self).tasks().contains(task));
        let InFlight { task: _, reply } = f;
        Some(reply)
    }

    /// Records that the future of `task` has finished: takes it out of
    /// flight with `finish`, and hands `value` to its reply sink. Without a
    /// value the sink is dropped, and the caller sees the call cancelled.
    /// Returns whether `task` was in flight.
    pub fn complete(&mut self, task: u64, value: Option<T>) -> (found: bool)
        requires
            old(self).wf(),
        ensures
            final(self).wf(),
            found == old(self).tasks().contains(task),
            found ==> exists|i: int|
                0 <= i < old(self).tasks().len() && old(self).tasks()[i] == task
                    && final(self).tasks() == old(self).tasks().remove(i)
                    && final(self).sinks() == old(self).sinks().remove(i)
                    && final(self).delivered() == handed(old(self).delivered(), old(self).sinks()[i], value),
            !found ==> final(self).tasks() == old(self).tasks() && final(self).sinks() == old(self).sinks()
                && final(self).delivered() == old(self).delivered(),
            final(self).next_task_id() == old(self).next_task_id(),
            final(self).id() == old(self).id(),
            final(self).actor_state() == old(self).actor_state(),
            final(self).receivers_alive() == old(self).receivers_alive(),
            final(self).prefers_shared() == old(self).prefers_shared(),
            final(self).closure_seen() == old(self).closure_seen(),
            final(self).upgrades() == old(self).upgrades(),
            final(self).same_mail(old(self)),
    {
        match self.finish(task) {
            Some(Some(sink)) => {
                if let Some(v) = value {
                    self.delivered = Ghost(self.delivered@.push((sink.id(), v)));
                    let _ = deliver(sink, v);
                }
                true
            },
            Some(None) => true,
            None => false,
        }
    }

    /// Starts the future that answers envelope `e`, if it still holds its message.
    fn dispatch_envelope(&mut self, e: Envelope<M, T>) -> (r: Delivery<M>)
        requires
            old(self).wf(),
            old(self).next_task_id() < u64::MAX,
        ensures
            final(self).wf(),
            final(self).id() == old(self).id(),
            final(self).actor_state() == old(self).actor_state(),
            final(self).receivers_alive() == old(self).receivers_alive(),
            final(self).prefers_shared() == old(self).prefers_shared(),
            final(self).closure_seen() == old(self).closure_seen(),
            final(self).delivered() == old(self).delivered(),
            final(self).upgrades() == old(self).upgrades(),
            final(self).same_mail(old(self)),
            dispatched(e, *old(self), *final(self), r),
    {
        let mut e = e;
        match e.take() {
            Some((m, reply)) => {
                let t = self.register(reply);
                Delivery::Message(m, t)
            },
            None => Delivery::Idle,
        }
    }

    /// Mints a cross-thread address of this context and hands it to `sink`.
    /// If the asker is gone, the address comes back and is released again.
    fn serve_upgrade(&mut self, sink: ReplySink<SyncAddress>) -> (sent: bool)
        requires
            old(self).wf(),
            old(self).shared_senders() < usize::MAX,
        ensures
            final(self).wf(),
            final(self).same_core(&Context { upgrades: final(self).upgrades, ..*old(self) }),
            final(self).upgrades() == old(self).upgrades().push((sink.id(), final(self).upgrades().last().1)),
            final(self).upgrades().last().1.context_id() == old(self).id(),
            final(self).local_senders() == old(self).local_senders(),
            sent ==> final(self).shared_senders() == old(self).shared_senders() + 1,
            !sent ==> final(self).shared_senders() == old(self).shared_senders(),
            final(self).local_queue() == old(self).local_queue(),
            final(self).shared_queue() == old(self).shared_queue(),
    {
        let addr = SyncAddress::new(self);
        self.upgrades = Ghost(self.upgrades@.push((sink.id(), addr)));
        match deliver(sink, addr) {
            Some(back) => {
                back.release(self);
                false
            },
            None => true,
        }
    }

    /// One dispatch step: takes the oldest envelope from one mailbox,
    /// alternating between the two while both hold some, and starts the
    /// future that answers it.
    pub fn dispatch_one(&mut self) -> (r: Delivery<M>)
        requires
            old(self).wf(),
            old(self).next_task_id() < u64::MAX,
            old(self).shared_senders() < usize::MAX,
        ensures
            final(self).wf(),
            final(self).id() == old(self).id(),
            final(self).actor_state() == old(self).actor_state(),
            final(self).receivers_alive() == old(self).receivers_alive(),
            final(self).closure_seen() == old(self).closure_seen(),
            final(self).delivered() == old(self).delivered(),
            final(self).local_senders() == old(self).local_senders(),
            old(self).local_queue().len() == 0 && old(self).shared_queue().len() == 0 ==> {
                &&& r is Idle
                &&& final(self).same_core(old(self))
                &&& final(self).same_mail(old(self))
            },
            old(self).takes_local() ==> {
                &&& final(self).local_queue() == old(self).local_queue().drop_first()
                &&& final(self).shared_queue() == old(self).shared_queue()
                &&& final(self).prefers_shared()
                &&& match old(self).local_queue()[0] {
                    ContextProtocol::Envelope(e) => {
                        &&& dispatched(e, *old(self), *final(self), r)
                        &&& final(self).upgrades() == old(self).upgrades()
                        &&& final(self).shared_senders() == old(self).shared_senders()
                    },
                    ContextProtocol::Upgrade(sink) => {
                        &&& r is Upgraded
                        &&& final(self).upgrades().len() == old(self).upgrades().len() + 1
                        &&& final(self).upgrades().drop_last() == old(self).upgrades()
                        &&& final(self).upgrades().last().0 == sink.id()
                        &&& final(self).upgrades().last().1.context_id() == old(self).id()
                        &&& final(self).tasks() == old(self).tasks()
                        &&& final(self).sinks() == old(self).sinks()
                        &&& final(self).next_task_id() == old(self).next_task_id()
                        &&& r->Upgraded_0 ==> final(self).shared_senders() == old(self).shared_senders() + 1
                        &&& !r->Upgraded_0 ==> final(self).shared_senders() == old(self).shared_senders()
                    },
                }
            },
            !old(self).takes_local() && old(self).shared_queue().len() > 0 ==> {
                &&& final(self).shared_queue() == old(self).shared_queue().drop_first()
                &&& final(self).local_queue() == old(self).local_queue()
                &&& !final(self).prefers_shared()
                &&& final(self).upgrades() == old(self).upgrades()
                &&& final(self).shared_senders() == old(self).shared_senders()
                &&& dispatched(old(self).shared_queue()[0], *old(self), *final(self), r)
            },
    {
        let take_local = self.local.len() > 0 && (!self.prefer_shared || self.shared.len() == 0);
        if take_local {
            self.prefer_shared = true;
            match self.local.pop() {
                Some(ContextProtocol::Envelope(e)) => self.dispatch_envelope(e),
                Some(ContextProtocol::Upgrade(tx)) => {
                    let sent = self.serve_upgrade(tx);
                    assert(self.upgrades().drop_last() =~= old(self).upgrades());
                    Delivery::Upgraded(sent)
                },
                None => Delivery::Idle,
            }
        } else if self.shared.len() > 0 {
            self.prefer_shared = false;
            match self.shared.pop() {
                Some(e) => self.dispatch_envelope(e),
                None => Delivery::Idle,
            }
        } else {
            Delivery::Idle
        }
    }

    /// Runs dispatch steps until both mailboxes are empty or `limit` steps
    /// have run, and returns the messages found with their task numbers, in
    /// the order they were taken.
    pub fn dispatch_batch(&mut self, limit: usize) -> (r: Vec<(M, u64)>)
        requires
            old(self).wf(),
            old(self).next_task_id() + limit <= u64::MAX,
            old(self).shared_senders() + limit <= usize::MAX,
        ensures
            final(self).wf(),
            final(self).id() == old(self).id(),
            final(self).actor_state() == old(self).actor_state(),
            final(self).receivers_alive() == old(self).receivers_alive(),
            final(self).local_senders() == old(self).local_senders(),
            final(self).closure_seen() == old(self).closure_seen(),
            r@.len() <= limit,
            final(self).next_task_id() == old(self).next_task_id() + r@.len(),
            final(self).tasks() == old(self).tasks() + Seq::new(r@.len(), |k: int| (old(self).next_task_id() + k) as u64),
            forall|k: int| 0 <= k < r@.len() ==> r@[k].1 == old(self).next_task_id() + k,
            queued_total(*final(self)) <= queued_total(*old(self)),
            queued_total(*old(self)) - queued_total(*final(self)) <= limit,
            queued_total(*old(self)) - queued_total(*final(self)) < limit ==> queued_total(*final(self)) == 0,
            forall|k: int| 0 <= k < r@.len() ==> was_queued(*old(self), #[trigger] r@[k].0),
            batch_firsts(r@) == batch_messages(
                old(self).local_queue(),
                old(self).shared_queue(),
                old(self).prefers_shared(),
                limit as nat,
            ),
    {
        let mut out: Vec<(M, u64)> = Vec::new();
        let mut steps: usize = 0;
        let ghost mut li: int = 0;
        let ghost mut si: int = 0;
        while steps < limit && (self.local.len() > 0 || self.shared.len() > 0)
            invariant
                self.wf(),
                steps <= limit,
                out@.len() <= steps,
                self.id() == old(self).id(),
                self.actor_state() == old(self).actor_state(),
                self.receivers_alive() == old(self).receivers_alive(),
                self.local_senders() == old(self).local_senders(),
                self.closure_seen() == old(self).closure_seen(),
                self.shared_senders() <= old(self).shared_senders() + steps,
                self.next_task_id() == old(self).next_task_id() + out@.len(),
                self.tasks() == old(self).tasks() + Seq::new(out@.len(), |k: int| (old(self).next_task_id() + k) as u64),
                forall|k: int| 0 <= k < out@.len() ==> out@[k].1 == old(self).next_task_id() + k,
                queued_total(*self) + steps == queued_total(*old(self)),
                0 <= li <= old(self).local_queue().len(),
                0 <= si <= old(self).shared_queue().len(),
                self.local_queue() == old(self).local_queue().subrange(li, old(self).local_queue().len() as int),
                self.shared_queue() == old(self).shared_queue().subrange(si, old(self).shared_queue().len() as int),
                forall|k: int| 0 <= k < out@.len() ==> was_queued(*old(self), #[trigger] out@[k].0),
                batch_firsts(out@) + batch_messages(
                    self.local_queue(),
                    self.shared_queue(),
                    self.prefers_shared(),
                    (limit - steps) as nat,
                ) == batch_messages(
                    old(self).local_queue(),
                    old(self).shared_queue(),
                    old(self).prefers_shared(),
                    limit as nat,
                ),
                old(self).next_task_id() + limit <= u64::MAX,
                old(self).shared_senders() + limit <= usize::MAX,
            decreases limit - steps,
        {
            let ghost pre = *self;
            let ghost pre_out = out@;
            let d = self.dispatch_one();
            steps = steps + 1;
            let ghost rest = batch_messages(
                self.local_queue(),
                self.shared_queue(),
                self.prefers_shared(),
                (limit - steps) as nat,
            );
            let ghost head = if d is Message {
                seq![d->Message_0]
            } else {
                Seq::<M>::empty()
            };
            proof {
                if pre.takes_local() {
                    assert(head == local_message(pre.local_queue()[0]));
                } else {
                    assert(head == envelope_message(pre.shared_queue()[0]));
                }
                assert(batch_messages(pre.local_queue(), pre.shared_queue(), pre.prefers_shared(), (limit - steps + 1) as nat)
                    == head + rest);
            }
            proof {
                if pre.takes_local() {
                    if d is Message {
                        assert(pre.local_queue()[0] == old(self).local_queue()[li]);
                        assert(was_queued(*old(self), d->Message_0));
                    }
                    assert(self.local_queue() =~= old(self).local_queue().subrange(li + 1, old(self).local_queue().len() as int));
                    li = li + 1;
                } else {
                    if d is Message {
                        assert(pre.shared_queue()[0] == old(self).shared_queue()[si]);
                        assert(was_queued(*old(self), d->Message_0));
                    }
                    assert(self.shared_queue() =~= old(self).shared_queue().subrange(si + 1, old(self).shared_queue().len() as int));
                    si = si + 1;
                }
            }
            match d {
                Delivery::Message(m, t) => {
                    out.push((m, t));
                    assert(batch_firsts(out@) =~= batch_firsts(pre_out) + head);
                    assert(self.tasks() =~= old(self).tasks() + Seq::new(out@.len(), |k: int| (old(self).next_task_id() + k) as u64));
                },
                _ => {
                    assert(self.tasks() =~= old(self).tasks() + Seq::new(out@.len(), |k: int| (old(self).next_task_id() + k) as u64));
                    assert(head =~= Seq::<M>::empty());
                    assert(batch_firsts(out@) =~= batch_firsts(pre_out) + head);
                },
            }
            assert((batch_firsts(pre_out) + head) + rest =~= batch_firsts(pre_out) + (head + rest));
        }
        proof {
            assert(batch_messages(self.local_queue(), self.shared_queue(), self.prefers_shared(), (limit - steps) as nat)
                =~= Seq::<M>::empty());
            assert(batch_firsts(out@) + Seq::<M>::empty() =~= batch_firsts(out@));
        }
        out
    }

    /// One lifecycle step. It returns the callback that the caller must run
    /// on the actor now. On reaching `Stopped` both mailboxes lose their
    /// consumer: what was queued is dropped, cancelling its callers.
    pub fn tick(&mut self) -> (r: Hook)
        requires
            old(self).wf(),
        ensures
            final(self).wf(),
            (final(self).actor_state(), r) == step(
                old(self).actor_state(),
                old(self).mailboxes_closed(),
                old(self).tasks().len(),
            ),
            final(self).id() == old(self).id(),
            final(self).tasks() == old(self).tasks(),
            final(self).sinks() == old(self).sinks(),
            final(self).closure_seen() == old(self).closure_seen(),
            final(self).next_task_id() == old(self).next_task_id(),
            final(self).prefers_shared() == old(self).prefers_shared(),
            final(self).local_senders() == old(self).local_senders(),
            final(self).shared_senders() == old(self).shared_senders(),
            final(self).actor_state() == ActorState::Stopped ==> {
                &&& !final(self).receivers_alive()
                &&& final(self).local_queue().len() == 0
                &&& final(self).shared_queue().len() == 0
            },
            final(self).actor_state() != ActorState::Stopped ==> {
                &&& final(self).receivers_alive() == old(self).receivers_alive()
                &&& final(self).local_queue() == old(self).local_queue()
                &&& final(self).shared_queue() == old(self).shared_queue()
            },
    {
        let closed = self.local.is_closed() && self.shared.is_closed();
        let (next, hook) = transition(self.state, closed, self.in_flight.len());
        self.state = next;
        if next == ActorState::Stopped {
            self.local.close_receiver();
            self.shared.close_receiver();
        }
        hook
    }
}

/// What the reply driver hands to the caller's sink for one poll of the
/// handler's future: the item as `Ok`, the error as `Err`, nothing yet.
pub open spec fn reply_value<I, E>(p: Poll<I, E>) -> Option<Result<I, E>> {
    match p {
        Ok(Async::Ready(v)) => Some(Ok(v)),
        Ok(Async::NotReady) => None,
        Err(e) => Some(Err(e)),
    }
}

/// The value that a poll of a handler's future settles its reply with.
pub fn reply_for<I, E>(p: Poll<I, E>) -> (r: Option<Result<I, E>>)
    ensures
        r == reply_value(p),
{
    match p {
        Ok(Async::Ready(v)) => Some(Ok(v)),
        Ok(Async::NotReady) => None,
        Err(e) => Some(Err(e)),
    }
}

impl<M, I, E> Context<M, Result<I, E>> {
    /// One poll of the future that answers `task`, given what the poll of
    /// the handler's future returned. Not ready: nothing changes. Ready with
    /// `v`: `Ok(v)` goes to the caller and the driver is ready. Failed with
    /// `e`: `Err(e)` goes to the caller and the driver fails. In both last
    /// cases the task leaves flight through `complete`.
    pub fn drive_reply(&mut self, task: u64, p: Poll<I, E>) -> (r: Poll<(), ()>)
        requires
            old(self).wf(),
        ensures
            final(self).wf(),
            p matches Ok(Async::NotReady) ==> r matches Ok(Async::NotReady) && final(self).same_core(old(self))
                && final(self).same_mail(old(self)),
            p matches Ok(Async::Ready(_)) ==> r matches Ok(Async::Ready(_)),
            p is Err ==> r is Err,
            !(p matches Ok(Async::NotReady)) ==> {
                &&& old(self).tasks().contains(task) ==> exists|i: int|
                    0 <= i < old(self).tasks().len() && old(self).tasks()[i] == task
                        && final(self).tasks() == old(self).tasks().remove(i)
                        && final(self).sinks() == old(self).sinks().remove(i)
                        && final(self).delivered() == handed(old(self).delivered(), old(self).sinks()[i], reply_value(p))
                &&& !old(self).tasks().contains(task) ==> final(self).tasks() == old(self).tasks()
                    && final(self).sinks() == old(self).sinks() && final(self).delivered() == old(self).delivered()
                &&& final(self).upgrades() == old(self).upgrades()
                &&& final(self).next_task_id() == old(self).next_task_id()
                &&& final(self).id() == old(self).id()
                &&& final(self).actor_state() == old(self).actor_state()
                &&& final(self).receivers_alive() == old(self).receivers_alive()
                &&& final(self).closure_seen() == old(self).closure_seen()
                &&& final(self).same_mail(old(self))
            },
    {
        match reply_for(p) {
            None => Ok(Async::NotReady),
            Some(value) => {
                let failed = value.is_err();
                self.complete(task, Some(value));
                if failed {
                    Err(())
                } else {
                    Ok(Async::Ready(()))
                }
            },
        }
    }
}

/// An actor that has not begun to stop and still has a live address of
/// either kind does not enter `Stopping`, however many ticks pass while that
/// address is held.
pub proof fn lemma_live_address_blocks_stopping<M, T>(c: Context<M, T>, k: nat)
    requires
        c.local_senders() > 0 || c.shared_senders() > 0,
        c.actor_state() == ActorState::Starting || c.actor_state() == ActorState::Running,
    ensures
        !c.mailboxes_closed(),
        step(c.actor_state(), c.mailboxes_closed(), c.tasks().len()).0 != ActorState::Stopping,
        run(c.actor_state(), c.mailboxes_closed(), c.tasks().len(), k) != ActorState::Stopping,
{
    lemma_open_mailbox_keeps_running(c.actor_state(), c.tasks().len(), k);
    lemma_open_mailbox_keeps_running(c.actor_state(), c.tasks().len(), 1);
    assert(run(step(c.actor_state(), false, c.tasks().len()).0, false, c.tasks().len(), 0)
        == step(c.actor_state(), false, c.tasks().len()).0);
}

/// An actor with a future in flight does not reach `Stopped` while that
/// future is pending: a stopping actor whose `stopping` callback spawned one
/// goes back to `Running` on the next tick instead.
pub proof fn lemma_pending_work_defers_stopped<M, T>(c: Context<M, T>, k: nat)
    requires
        c.actor_state() != ActorState::Stopped,
        c.tasks().len() > 0,
    ensures
        run(c.actor_state(), c.mailboxes_closed(), c.tasks().len(), k) != ActorState::Stopped,
        c.actor_state() == ActorState::Stopping ==> step(c.actor_state(), c.mailboxes_closed(), c.tasks().len()).0
            == ActorState::Running,
{
    lemma_in_flight_defers_stop(c.actor_state(), c.mailboxes_closed(), c.tasks().len(), k);
}

/// A reply sink is signalled at most once: once `complete` has taken a
/// task out of flight, that task number is gone for good, so a second
/// completion of it finds nothing and delivers nothing.
pub proof fn lemma_task_resolves_once<M, T>(c0: Context<M, T>, c1: Context<M, T>, task: u64, i: int)
    requires
        c0.wf(),
        0 <= i < c0.tasks().len(),
        c0.tasks()[i] == task,
        c1.tasks() == c0.tasks().remove(i),
    ensures
        !c1.tasks().contains(task),
        c1.tasks().len() == c0.tasks().len() - 1,
{
    if c1.tasks().contains(task) {
        let k = choose|k: int| 0 <= k < c1.tasks().len() && c1.tasks()[k] == task;
        if k < i {
            assert(c0.in_flight@[k].task < c0.in_flight@[i].task);
        } else {
            assert(c0.in_flight@[i].task < c0.in_flight@[k + 1].task);
        }
    }
}

} // verus!
