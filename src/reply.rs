//! One-shot reply channels: a sink that an envelope carries to the actor and
//! a receiver that the caller keeps. Both flavours come from `futures`.
use futures::sync::oneshot as shared_oneshot;
use futures::unsync::oneshot as local_oneshot;
use vstd::prelude::*;

verus! {

#[verifier::external_type_specification]
#[verifier::external_body]
#[verifier::reject_recursive_types(T)]
pub struct ExLocalSender<T>(local_oneshot::Sender<T>);

#[verifier::external_type_specification]
#[verifier::external_body]
#[verifier::reject_recursive_types(T)]
pub struct ExLocalReceiver<T>(local_oneshot::Receiver<T>);

#[verifier::external_type_specification]
#[verifier::external_body]
#[verifier::reject_recursive_types(T)]
pub struct ExSharedSender<T>(shared_oneshot::Sender<T>);

#[verifier::external_type_specification]
#[verifier::external_body]
#[verifier::reject_recursive_types(T)]
pub struct ExSharedReceiver<T>(shared_oneshot::Receiver<T>);

#[verifier::external_type_specification]
#[verifier::external_body]
pub struct ExCanceled(shared_oneshot::Canceled);

/// Relies on futures::unsync::oneshot::channel: a fresh same-thread pair.
pub assume_specification<T>[ local_oneshot::channel::<T> ]() -> (r: (
    local_oneshot::Sender<T>,
    local_oneshot::Receiver<T>,
));

/// Relies on futures::sync::oneshot::channel: a fresh cross-thread pair.
pub assume_specification<T>[ shared_oneshot::channel::<T> ]() -> (r: (
    shared_oneshot::Sender<T>,
    shared_oneshot::Receiver<T>,
));

/// Relies on futures::unsync::oneshot::Sender::send: an `Err` hands back the
/// value that was offered, when the receiver is gone.
#[verifier::external_body]
fn send_local<T>(tx: local_oneshot::Sender<T>, value: T) -> (r: Option<T>)
    ensures
        r == None::<T> || r == Some(value),
{
    tx.send(value).err()
}

/// Relies on futures::sync::oneshot::Sender::send: an `Err` hands back the
/// value that was offered, when the receiver is gone.
#[verifier::external_body]
fn send_shared<T>(tx: shared_oneshot::Sender<T>, value: T) -> (r: Option<T>)
    ensures
        r == None::<T> || r == Some(value),
{
    tx.send(value).err()
}

/// Relies on futures::sync::oneshot::Receiver::try_recv: looks for a value
/// without a task; what it finds depends on the sender's side.
pub assume_specification<T>[ shared_oneshot::Receiver::<T>::try_recv ](
    rx: &mut shared_oneshot::Receiver<T>,
) -> (r: Result<Option<T>, shared_oneshot::Canceled>);

/// The sending end of a reply channel: to a caller on this worker, or on any worker.
#[verifier::reject_recursive_types(T)]
pub enum SinkEnd<T> {
    Local(local_oneshot::Sender<T>),
    Shared(shared_oneshot::Sender<T>),
}

/// A reply sink, with the number of the channel it belongs to. The caller's
/// receiver carries the same number.
#[verifier::reject_recursive_types(T)]
pub struct ReplySink<T> {
    end: SinkEnd<T>,
    channel: Ghost<nat>,
}

impl<T> ReplySink<T> {
    /// The number of the channel that this sink belongs to.
    pub closed spec fn id(&self) -> nat {
        self.channel@
    }

    /// Whether the caller waits on the same worker thread.
    pub closed spec fn is_local(&self) -> bool {
        self.end is Local
    }
}

/// The receiving end of a same-thread reply channel.
#[verifier::reject_recursive_types(T)]
pub struct LocalReceiver<T> {
    rx: local_oneshot::Receiver<T>,
    channel: Ghost<nat>,
}

impl<T> LocalReceiver<T> {
    /// The number of the channel that this receiver belongs to.
    pub closed spec fn id(&self) -> nat {
        self.channel@
    }

    /// The `futures` receiver, to be polled inside a task.
    pub fn into_inner(self) -> local_oneshot::Receiver<T> {
        self.rx
    }
}

/// The receiving end of a cross-thread reply channel.
#[verifier::reject_recursive_types(T)]
pub struct SharedReceiver<T> {
    rx: shared_oneshot::Receiver<T>,
    channel: Ghost<nat>,
}

impl<T> SharedReceiver<T> {
    /// The number of the channel that this receiver belongs to.
    pub closed spec fn id(&self) -> nat {
        self.channel@
    }

    /// The `futures` receiver, to be polled inside a task.
    pub fn into_inner(self) -> shared_oneshot::Receiver<T> {
        self.rx
    }

    /// Looks at the reply channel without waiting.
    pub fn try_reply(&mut self) -> (r: ReplyState<T>)
        ensures
            final(self).id() == old(self).id(),
    {
        reply_state(self.rx.try_recv())
    }
}

/// A fresh same-thread channel whose two ends carry the number `id`.
pub(crate) fn local_channel<T>(id: Ghost<nat>) -> (r: (ReplySink<T>, LocalReceiver<T>))
    ensures
        r.0.id() == id@,
        r.1.id() == id@,
        r.0.is_local(),
{
    let (tx, rx) = local_oneshot::channel();
    (ReplySink { end: SinkEnd::Local(tx), channel: id }, LocalReceiver { rx, channel: id })
}

/// A fresh cross-thread channel whose two ends carry the number `id`.
pub(crate) fn shared_channel<T>(id: Ghost<nat>) -> (r: (ReplySink<T>, SharedReceiver<T>))
    ensures
        r.0.id() == id@,
        r.1.id() == id@,
        !r.0.is_local(),
{
    let (tx, rx) = shared_oneshot::channel();
    (ReplySink { end: SinkEnd::Shared(tx), channel: id }, SharedReceiver { rx, channel: id })
}

/// Delivers `value` through `sink`. A receiver that is gone leaves the value
/// undelivered, and it comes back as `Some`.
pub fn deliver<T>(sink: ReplySink<T>, value: T) -> (r: Option<T>)
    ensures
        r == None::<T> || r == Some(value),
{
    match sink.end {
        SinkEnd::Local(tx) => send_local(tx, value),
        SinkEnd::Shared(tx) => send_shared(tx, value),
    }
}

/// What a caller learns when it looks at its reply channel.
#[derive(Debug)]
pub enum ReplyState<T> {
    /// The handler has not finished yet.
    Pending,
    /// The handler finished and its result arrived.
    Ready(T),
    /// The envelope or its reply sink was dropped without a result.
    Cancelled,
}

/// Reads the outcome of a non-blocking look at a reply channel.
pub fn reply_state<T>(r: Result<Option<T>, shared_oneshot::Canceled>) -> (s: ReplyState<T>)
    ensures
        r is Err <==> s is Cancelled,
        r == Ok::<Option<T>, shared_oneshot::Canceled>(None) <==> s is Pending,
        forall|v: T| r == Ok::<Option<T>, shared_oneshot::Canceled>(Some(v)) <==> s == ReplyState::Ready(v),
{
    match r {
        Ok(Some(v)) => ReplyState::Ready(v),
        Ok(None) => ReplyState::Pending,
        Err(_) => ReplyState::Cancelled,
    }
}

/// How a finished call ended: the handler's item, the handler's error, or a
/// cancelled reply channel.
#[derive(Debug)]
pub enum CallOutcome<I, E> {
    Item(I),
    Failed(E),
    Cancelled,
}

/// The outcome that a settled reply channel carrying a handler's result
/// reports; `None` while the reply is still pending.
pub open spec fn outcome_of<I, E>(s: ReplyState<Result<I, E>>) -> Option<CallOutcome<I, E>> {
    match s {
        ReplyState::Pending => None,
        ReplyState::Ready(Ok(v)) => Some(CallOutcome::Item(v)),
        ReplyState::Ready(Err(e)) => Some(CallOutcome::Failed(e)),
        ReplyState::Cancelled => Some(CallOutcome::Cancelled),
    }
}

/// Turns a settled reply into the outcome of the call.
pub fn call_outcome<I, E>(s: ReplyState<Result<I, E>>) -> (r: Option<CallOutcome<I, E>>)
    ensures
        r == outcome_of(s),
{
    match s {
        ReplyState::Pending => None,
        ReplyState::Ready(Ok(v)) => Some(CallOutcome::Item(v)),
        ReplyState::Ready(Err(e)) => Some(CallOutcome::Failed(e)),
        ReplyState::Cancelled => Some(CallOutcome::Cancelled),
    }
}

/// Every settled reply of a call is exactly one of: the handler's item, the
/// handler's error, or cancellation; and which one it is follows from what
/// reached the channel.
pub proof fn lemma_reply_settles_once<I, E>(s: ReplyState<Result<I, E>>)
    requires
        !(s is Pending),
    ensures
        outcome_of(s) is Some,
        (outcome_of(s).unwrap() is Item) as int + (outcome_of(s).unwrap() is Failed) as int
            + (outcome_of(s).unwrap() is Cancelled) as int == 1,
        outcome_of(s).unwrap() is Cancelled <==> s is Cancelled,
        forall|v: I| s == ReplyState::<Result<I, E>>::Ready(Ok(v)) <==> outcome_of(s) == Some(CallOutcome::<I, E>::Item(v)),
        forall|e: E| s == ReplyState::<Result<I, E>>::Ready(Err(e)) <==> outcome_of(s) == Some(CallOutcome::<I, E>::Failed(e)),
{
}

} // verus!
