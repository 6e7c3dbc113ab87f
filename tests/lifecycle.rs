use actix::address::Address;
use actix::context::Context;
use actix::lifecycle::{ActorState, Hook};
use actix::sync_address::SyncAddress;

struct MyActor {
    started: bool,
    stopping: bool,
    stopped: bool,
    restore_after_stop: bool,
    temp: Option<u64>,
}

impl MyActor {
    fn new(restore_after_stop: bool) -> MyActor {
        MyActor { started: false, stopping: false, stopped: false, restore_after_stop, temp: None }
    }

    fn run_hook(&mut self, hook: Hook, ctx: &mut Context<(), ()>) {
        match hook {
            Hook::Started => self.started = true,
            Hook::Stopping => {
                self.stopping = true;
                if self.restore_after_stop {
                    // a future that completes only when someone signals it
                    self.temp = Some(ctx.spawn());
                }
            }
            Hook::Stopped => self.stopped = true,
            Hook::Nothing => {}
        }
    }
}

// Drives the context for a fixed number of ticks, standing in for the short
// time the system runs before it is told to exit.
fn run_for(ctx: &mut Context<(), ()>, act: &mut MyActor, ticks: usize) {
    for _ in 0..ticks {
        if ctx.state() == ActorState::Stopped {
            break;
        }
        let hook = ctx.tick();
        act.run_hook(hook, ctx);
    }
}

const TICKS: usize = 100;

#[test]
fn test_active_address() {
    let mut ctx: Context<(), ()> = Context::new(1);
    let mut act = MyActor::new(false);
    let _addr = Address::new(&mut ctx);
    run_for(&mut ctx, &mut act, TICKS);
    assert!(act.started, "Not started");
    assert!(!act.stopping, "Stopping");
    assert!(!act.stopped, "Stopped");
}

#[test]
fn test_active_sync_address() {
    let mut ctx: Context<(), ()> = Context::new(2);
    let mut act = MyActor::new(false);
    let _addr = SyncAddress::new(&mut ctx);
    run_for(&mut ctx, &mut act, TICKS);
    assert!(act.started, "Not started");
    assert!(!act.stopping, "Stopping");
    assert!(!act.stopped, "Stopped");
}

#[test]
fn test_stop_after_drop_address() {
    let mut ctx: Context<(), ()> = Context::new(3);
    let mut act = MyActor::new(false);
    let addr = Address::new(&mut ctx);
    run_for(&mut ctx, &mut act, TICKS);
    assert!(act.started, "Not started");
    assert!(!act.stopping, "Stopping");
    assert!(!act.stopped, "Stopped");

    addr.release(&mut ctx);
    run_for(&mut ctx, &mut act, TICKS);
    assert!(act.started, "Not started");
    assert!(act.stopping, "Not stopping");
    assert!(act.stopped, "Not stopped");
}

#[test]
fn test_stop_after_drop_sync_address() {
    let mut ctx: Context<(), ()> = Context::new(4);
    let mut act = MyActor::new(false);
    let addr = SyncAddress::new(&mut ctx);
    run_for(&mut ctx, &mut act, TICKS);
    assert!(act.started, "Not started");
    assert!(!act.stopping, "Stopping");
    assert!(!act.stopped, "Stopped");

    addr.release(&mut ctx);
    run_for(&mut ctx, &mut act, TICKS);
    assert!(act.started, "Not started");
    assert!(act.stopping, "Not stopping");
    assert!(act.stopped, "Not stopped");
}

#[test]
fn test_stop() {
    let mut ctx: Context<(), ()> = Context::new(5);
    let mut act = MyActor::new(false);
    run_for(&mut ctx, &mut act, TICKS);
    assert!(act.started, "Not started");
    assert!(act.stopping, "Not stopping");
    assert!(act.stopped, "Not stopped");
}

#[test]
fn test_stop_restore_after_stopping() {
    let mut ctx: Context<(), ()> = Context::new(6);
    let mut act = MyActor::new(true);
    run_for(&mut ctx, &mut act, TICKS);
    assert!(act.started, "Not started");
    assert!(act.stopping, "Not stopping");
    assert!(!act.stopped, "Stopped");
}

#[test]
fn restored_actor_stops_once_its_future_completes() {
    let mut ctx: Context<(), ()> = Context::new(7);
    let mut act = MyActor::new(true);
    run_for(&mut ctx, &mut act, TICKS);
    assert_eq!(ctx.state(), ActorState::Running);
    let task = act.temp.take().unwrap();
    act.restore_after_stop = false;
    assert!(ctx.complete(task, None));
    run_for(&mut ctx, &mut act, TICKS);
    assert!(act.stopped);
    assert_eq!(ctx.state(), ActorState::Stopped);
}
