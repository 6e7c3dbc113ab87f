use actix::address::{Address, Subscriber};
use actix::context::{reply_for, Context, Delivery, Envelope};
use actix::fut::Async;
use actix::lifecycle::{transition, ActorState, Hook};
use actix::mailbox::Mailbox;
use actix::reply::{call_outcome, CallOutcome, ReplyState};
use actix::sync_address::{CallReceiver, SyncAddress};
use actix::address::AsyncSubscriber;
use futures::Future;

type Ctx = Context<u32, Result<u32, String>>;

#[test]
fn transition_table() {
    assert_eq!(transition(ActorState::Starting, false, 0), (ActorState::Running, Hook::Started));
    assert_eq!(transition(ActorState::Running, false, 0), (ActorState::Running, Hook::Nothing));
    assert_eq!(transition(ActorState::Running, true, 1), (ActorState::Running, Hook::Nothing));
    assert_eq!(transition(ActorState::Running, true, 0), (ActorState::Stopping, Hook::Stopping));
    assert_eq!(transition(ActorState::Stopping, true, 2), (ActorState::Running, Hook::Nothing));
    assert_eq!(transition(ActorState::Stopping, true, 0), (ActorState::Stopped, Hook::Stopped));
    assert_eq!(transition(ActorState::Stopped, false, 3), (ActorState::Stopped, Hook::Nothing));
}

#[test]
fn mailbox_is_fifo() {
    let mut m: Mailbox<u32> = Mailbox::new();
    assert!(m.is_closed());
    m.add_sender();
    assert!(!m.is_closed());
    for i in 1..=5u32 {
        assert_eq!(m.push(i), Ok(()));
    }
    assert_eq!(m.len(), 5);
    let mut out = Vec::new();
    while let Some(x) = m.pop() {
        out.push(x);
    }
    assert_eq!(out, vec![1, 2, 3, 4, 5]);
    assert_eq!(m.pop(), None);
    m.release_sender();
    assert!(m.is_closed());
}

#[test]
fn mailbox_without_receiver_hands_item_back() {
    let mut m: Mailbox<u32> = Mailbox::new();
    m.push(7).unwrap();
    m.close_receiver();
    assert_eq!(m.len(), 0);
    assert!(!m.has_receiver());
    assert_eq!(m.push(8), Err(8));
}

#[test]
fn envelope_dispatches_once() {
    let mut e: Envelope<u32, ()> = Envelope::new(9, None);
    let first = e.take();
    assert!(matches!(first, Some((9, None))));
    assert!(e.take().is_none());
}

#[test]
fn sends_from_one_address_arrive_in_order() {
    let mut ctx: Ctx = Context::new(1);
    let a = Address::new(&mut ctx);
    let b = a.clone_in(&mut ctx);
    assert_eq!(ctx.local_sender_count(), 2);
    a.send(&mut ctx, 10);
    b.send(&mut ctx, 11);
    a.send(&mut ctx, 12);
    let mut seen = Vec::new();
    for expected_task in 0..3u64 {
        match ctx.dispatch_one() {
            Delivery::Message(m, t) => {
                assert_eq!(t, expected_task);
                seen.push(m);
            }
            _ => panic!("expected a message"),
        }
    }
    assert_eq!(seen, vec![10, 11, 12]);
    assert!(matches!(ctx.dispatch_one(), Delivery::Idle));
    assert_eq!(ctx.in_flight_count(), 3);
}

#[test]
fn dispatch_alternates_between_mailboxes() {
    let mut ctx: Ctx = Context::new(1);
    let a = Address::new(&mut ctx);
    let mut s = SyncAddress::new(&mut ctx);
    a.send(&mut ctx, 1);
    a.send(&mut ctx, 2);
    s.send(&mut ctx, 100);
    s.send(&mut ctx, 200);
    let mut seen = Vec::new();
    while let Delivery::Message(m, _) = ctx.dispatch_one() {
        seen.push(m);
    }
    assert_eq!(seen, vec![1, 100, 2, 200]);
}

#[test]
fn call_reply_item_and_error() {
    let mut ctx: Ctx = Context::new(1);
    let a = Address::new(&mut ctx);
    let rx_ok = a.call(&mut ctx, 5);
    let rx_err = a.call_fut(&mut ctx, 6);
    let t1 = match ctx.dispatch_one() {
        Delivery::Message(5, t) => t,
        _ => panic!("expected message 5"),
    };
    let t2 = match ctx.dispatch_one() {
        Delivery::Message(6, t) => t,
        _ => panic!("expected message 6"),
    };
    assert!(ctx.complete(t1, Some(Ok(50))));
    assert!(ctx.complete(t2, Some(Err("bad".to_string()))));
    assert!(!ctx.complete(t1, Some(Ok(51))));
    assert_eq!(rx_ok.into_inner().wait(), Ok(Ok(50)));
    assert_eq!(rx_err.into_inner().wait(), Ok(Err("bad".to_string())));
    assert_eq!(ctx.in_flight_count(), 0);
}

#[test]
fn call_without_value_is_cancelled() {
    let mut ctx: Ctx = Context::new(1);
    let a = Address::new(&mut ctx);
    let rx = a.call(&mut ctx, 5);
    let t = match ctx.dispatch_one() {
        Delivery::Message(_, t) => t,
        _ => panic!("expected a message"),
    };
    assert!(ctx.complete(t, None));
    assert!(rx.into_inner().wait().is_err());
}

#[test]
fn shared_call_outcomes() {
    let mut ctx: Ctx = Context::new(1);
    let mut s = SyncAddress::new(&mut ctx);
    let mut r = s.call(&mut ctx, 3);
    assert!(matches!(r.try_reply(), ReplyState::Pending));
    let t = match ctx.dispatch_one() {
        Delivery::Message(3, t) => t,
        _ => panic!("expected message 3"),
    };
    ctx.complete(t, Some(Ok(30)));
    let got = r.try_reply();
    assert!(matches!(got, ReplyState::Ready(Ok(30))));
    assert!(matches!(call_outcome(got), Some(CallOutcome::Item(30))));

    let mut c = AsyncSubscriber::call(&mut s, &mut ctx, 4);
    let t = match ctx.dispatch_one() {
        Delivery::Message(4, t) => t,
        _ => panic!("expected message 4"),
    };
    ctx.complete(t, Some(Err("no".to_string())));
    let got = c.try_reply().unwrap();
    assert!(matches!(call_outcome(got), Some(CallOutcome::Failed(ref e)) if e == "no"));
}

#[test]
fn stopped_actor_cancels_and_closes_shared_address() {
    let mut ctx: Ctx = Context::new(1);
    let mut s = SyncAddress::new(&mut ctx);
    let mut pending = s.call(&mut ctx, 1);
    let keep = s.clone_in(&mut ctx);
    s.release(&mut ctx);
    keep.release(&mut ctx);
    assert!(ctx.mailboxes_are_closed());
    // Starting, Running -> Stopping, Stopping -> Stopped
    assert_eq!(ctx.tick(), Hook::Started);
    assert_eq!(ctx.tick(), Hook::Stopping);
    assert_eq!(ctx.tick(), Hook::Stopped);
    assert!(!ctx.is_alive());
    assert!(matches!(call_outcome(pending.try_reply()), Some(CallOutcome::Cancelled)));

    let late = SyncAddress::new(&mut ctx);
    let twin = late.clone_in(&mut ctx);
    assert!(!late.is_closed(&ctx));
    late.send(&mut ctx, 2);
    assert!(late.is_closed(&ctx));
    assert!(twin.is_closed(&ctx));
    late.send(&mut ctx, 3);
    assert!(late.is_closed(&ctx));
}

#[test]
fn live_address_keeps_actor_running() {
    let mut ctx: Ctx = Context::new(1);
    let a = Address::new(&mut ctx);
    for _ in 0..10 {
        let h = ctx.tick();
        assert_ne!(h, Hook::Stopping);
    }
    assert_eq!(ctx.state(), ActorState::Running);
    a.release(&mut ctx);
    assert_eq!(ctx.tick(), Hook::Stopping);
    assert_eq!(ctx.state(), ActorState::Stopping);
}

#[test]
fn upgrade_delivers_shared_address() {
    let mut ctx: Ctx = Context::new(9);
    let a = Address::new(&mut ctx);
    let rx = a.upgrade(&mut ctx);
    assert!(matches!(ctx.dispatch_one(), Delivery::Upgraded(true)));
    assert_eq!(ctx.shared_sender_count(), 1);
    let s = rx.into_inner().wait().unwrap();
    s.send(&mut ctx, 42);
    assert!(matches!(ctx.dispatch_one(), Delivery::Message(42, 0)));
}

#[test]
fn upgrade_with_gone_asker_mints_nothing() {
    let mut ctx: Ctx = Context::new(9);
    let a = Address::new(&mut ctx);
    let rx = a.upgrade(&mut ctx);
    drop(rx);
    assert!(matches!(ctx.dispatch_one(), Delivery::Upgraded(false)));
    assert_eq!(ctx.shared_sender_count(), 0);
}

#[test]
fn subscribers_always_accept() {
    let mut ctx: Ctx = Context::new(1);
    let mut a = Address::new(&mut ctx);
    let mut s = SyncAddress::new(&mut ctx);
    assert_eq!(Subscriber::unbuffered_send(&mut a, &mut ctx, 1), Ok(()));
    assert_eq!(Subscriber::unbuffered_send(&mut s, &mut ctx, 2), Ok(()));
    Subscriber::send(&mut a, &mut ctx, 3);
    assert!(AsyncSubscriber::unbuffered_call(&mut s, &mut ctx, 4).is_ok());
    let mut seen = Vec::new();
    while let Delivery::Message(m, _) = ctx.dispatch_one() {
        seen.push(m);
    }
    assert_eq!(seen, vec![1, 2, 3, 4]);
}

#[test]
fn map_applies_function_once() {
    let mut m = actix::fut::map::new(|x: u32| x * 2);
    let r: Result<Async<u32>, ()> = m.poll(Ok(Async::NotReady));
    assert!(matches!(r, Ok(Async::NotReady)));
    let r: Result<Async<u32>, ()> = m.poll(Ok(Async::Ready(21)));
    assert!(matches!(r, Ok(Async::Ready(42))));
}

#[test]
fn map_passes_errors() {
    let mut m = actix::fut::map::new(|x: u32| x + 1);
    let r: Result<Async<u32>, &str> = m.poll(Err("boom"));
    assert!(matches!(r, Err("boom")));
}

#[test]
fn batch_stops_at_limit_then_drains() {
    let mut ctx: Ctx = Context::new(1);
    let a = Address::new(&mut ctx);
    for i in 0..5u32 {
        a.send(&mut ctx, i);
    }
    let first = ctx.dispatch_batch(3);
    assert_eq!(first, vec![(0, 0), (1, 1), (2, 2)]);
    let rest = ctx.dispatch_batch(10);
    assert_eq!(rest, vec![(3, 3), (4, 4)]);
    assert!(ctx.dispatch_batch(10).is_empty());
    assert_eq!(ctx.in_flight_count(), 5);
}

#[test]
fn reply_driver_delivers_item_and_error() {
    let mut ctx: Ctx = Context::new(1);
    let a = Address::new(&mut ctx);
    let rx_ok = a.call(&mut ctx, 1);
    let rx_err = a.call(&mut ctx, 2);
    let batch = ctx.dispatch_batch(10);
    assert_eq!(batch, vec![(1, 0), (2, 1)]);
    let r = ctx.drive_reply(0, Ok(Async::NotReady));
    assert!(matches!(r, Ok(Async::NotReady)));
    assert_eq!(ctx.in_flight_count(), 2);
    let r = ctx.drive_reply(0, Ok(Async::Ready(10)));
    assert!(matches!(r, Ok(Async::Ready(()))));
    let r = ctx.drive_reply(1, Err("failed".to_string()));
    assert!(matches!(r, Err(())));
    assert_eq!(ctx.in_flight_count(), 0);
    assert_eq!(rx_ok.into_inner().wait(), Ok(Ok(10)));
    assert_eq!(rx_err.into_inner().wait(), Ok(Err("failed".to_string())));
}

#[test]
fn reply_for_maps_poll() {
    assert_eq!(reply_for::<u32, u32>(Ok(Async::Ready(4))), Some(Ok(4)));
    assert_eq!(reply_for::<u32, u32>(Err(5)), Some(Err(5)));
    assert_eq!(reply_for::<u32, u32>(Ok(Async::NotReady)), None);
}

#[test]
fn finish_hands_back_sink() {
    let mut ctx: Ctx = Context::new(1);
    let t = ctx.spawn();
    assert!(matches!(ctx.finish(t), Some(None)));
    assert!(ctx.finish(t).is_none());
}

#[test]
fn local_async_subscriber_call() {
    let mut ctx: Ctx = Context::new(1);
    let mut a = Address::new(&mut ctx);
    let mut c = AsyncSubscriber::call(&mut a, &mut ctx, 8);
    assert!(c.try_reply().is_none());
    let t = match ctx.dispatch_one() {
        Delivery::Message(8, t) => t,
        _ => panic!("expected message 8"),
    };
    ctx.drive_reply(t, Ok(Async::Ready(80)));
    match c.into_receiver() {
        CallReceiver::Local(rx) => assert_eq!(rx.into_inner().wait(), Ok(Ok(80))),
        CallReceiver::Shared(_) => panic!("expected a same-thread channel"),
    }
}
