use actopts::{ActorEvent, Context, Delivery, LoopStep, Pid, PumpAction, PumpEvent, PumpStage, WeakPid};
use futures::channel::mpsc::{UnboundedReceiver, UnboundedSender};
use futures::future::AbortHandle;
use futures::FutureExt;
use std::sync::Arc;

fn fresh(pid: u64) -> (Context<u32>, UnboundedReceiver<ActorEvent<u32>>, Arc<UnboundedSender<ActorEvent<u32>>>) {
    let (ctx, rx, tx) = Context::<u32>::new(pid, None);
    (ctx, rx.into_inner(), tx)
}

#[test]
fn new_context_has_its_pid_and_no_listeners() {
    let (ctx, _rx, _tx) = fresh(7);
    assert_eq!(ctx.ctx_pid(), 7);
    assert_eq!(ctx.pid, 7);
    assert!(ctx.exit.is_none());
    assert_eq!(ctx.listeners.len(), 0);
}

#[test]
fn context_pid_exists_only_while_a_strong_handle_lives() {
    let (ctx, _rx, tx) = fresh(3);
    let pid = ctx.pid().expect("a strong handle is alive");
    assert_eq!(pid.pid, 3);
    drop(pid);
    drop(tx);
    assert!(ctx.pid().is_none());
}

#[test]
fn weak_pid_of_context_keeps_the_pid() {
    let (ctx, _rx, _tx) = fresh(11);
    let w: WeakPid<u32> = ctx.weak_pid();
    assert_eq!(w.pid(), 11);
    assert_eq!(w.upgrade().map(|p| p.pid), Some(11));
}

#[test]
fn registered_listeners_get_distinct_keys() {
    let (mut ctx, _rx, _tx) = fresh(1);
    let (h1, _r1) = AbortHandle::new_pair();
    let (h2, _r2) = AbortHandle::new_pair();
    let k1 = ctx.register_listener(h1).key;
    let k2 = ctx.register_listener(h2).key;
    assert_ne!(k1, k2);
    assert!(ctx.listeners.contains(k1));
    assert!(ctx.listeners.contains(k2));
    assert_eq!(ctx.listeners.len(), 2);
}

#[test]
fn drop_listener_removes_exactly_that_listener() {
    let (mut ctx, _rx, _tx) = fresh(1);
    let (h1, _r1) = AbortHandle::new_pair();
    let (h2, _r2) = AbortHandle::new_pair();
    let k1 = ctx.register_listener(h1).key;
    let k2 = ctx.register_listener(h2).key;
    let step = ctx.handle_event(ActorEvent::DropListener(k1));
    assert!(matches!(step, LoopStep::Continue));
    assert!(!ctx.listeners.contains(k1));
    assert!(ctx.listeners.contains(k2));
    assert_eq!(ctx.ctx_pid(), 1);
}

#[test]
fn drop_of_an_unknown_listener_changes_nothing() {
    let (mut ctx, _rx, _tx) = fresh(1);
    let (h1, _r1) = AbortHandle::new_pair();
    let k1 = ctx.register_listener(h1).key;
    let step = ctx.handle_event(ActorEvent::DropListener(k1 + 100));
    assert!(matches!(step, LoopStep::Continue));
    assert_eq!(ctx.listeners.len(), 1);
    assert!(ctx.listeners.contains(k1));
}

#[test]
fn register_then_drop_restores_the_table() {
    let (mut ctx, _rx, _tx) = fresh(1);
    let (h1, _r1) = AbortHandle::new_pair();
    let k0 = ctx.register_listener(h1).key;
    let (h2, _r2) = AbortHandle::new_pair();
    let k = ctx.register_listener(h2).key;
    let _ = ctx.handle_event(ActorEvent::DropListener(k));
    assert_eq!(ctx.listeners.len(), 1);
    assert!(ctx.listeners.contains(k0));
    assert!(!ctx.listeners.contains(k));
}

#[test]
fn exec_event_hands_out_its_job() {
    let (mut ctx, _rx, _tx) = fresh(1);
    match ctx.handle_event(ActorEvent::Exec(42)) {
        LoopStep::Run(job) => assert_eq!(job, 42),
        _ => panic!("expected the job to be run"),
    }
}

#[test]
fn stop_event_ends_the_loop() {
    let (mut ctx, _rx, _tx) = fresh(1);
    let (h1, _r1) = AbortHandle::new_pair();
    let k = ctx.register_listener(h1).key;
    assert!(matches!(ctx.handle_event(ActorEvent::Stop(None)), LoopStep::Stop));
    assert!(matches!(ctx.handle_event(ActorEvent::Stop(Some(anyhow::Error::msg("bye")))), LoopStep::Stop));
    assert!(ctx.listeners.contains(k));
}

#[test]
fn abort_listeners_aborts_every_listener() {
    let (mut ctx, _rx, _tx) = fresh(1);
    let (h1, _r1) = AbortHandle::new_pair();
    let (h2, _r2) = AbortHandle::new_pair();
    let (c1, c2) = (h1.clone(), h2.clone());
    ctx.register_listener(h1);
    ctx.register_listener(h2);
    assert!(!c1.is_aborted() && !c2.is_aborted());
    ctx.abort_listeners();
    assert!(c1.is_aborted());
    assert!(c2.is_aborted());
    assert_eq!(ctx.listeners.len(), 2);
}

#[test]
fn context_terminate_enqueues_a_stop_request() {
    let (ctx, mut rx, _tx) = fresh(5);
    ctx.terminate(None);
    match rx.try_next() {
        Ok(Some(ActorEvent::Stop(None))) => {}
        _ => panic!("expected a stop request"),
    }
}

#[test]
fn context_terminate_without_strong_handle_sends_nothing() {
    let (ctx, mut rx, tx) = fresh(5);
    drop(tx);
    ctx.terminate(None);
    assert!(matches!(rx.try_next(), Ok(None)));
}

#[test]
fn context_pid_gives_a_pid_whose_jobs_reach_the_mailbox() {
    let (ctx, mut rx, _tx) = fresh(9);
    let pid: Pid<u32> = ctx.pid().unwrap();
    pid.post_job(17).unwrap();
    match rx.try_next() {
        Ok(Some(ActorEvent::Exec(17))) => {}
        _ => panic!("expected the job"),
    }
}

#[test]
fn new_context_ends_belong_to_one_mailbox() {
    let (ctx, mut rx, tx) = fresh(6);
    assert_eq!(Arc::strong_count(&tx), 1);
    let pid = ctx.pid().expect("the returned sender is alive");
    assert_eq!(pid.pid, ctx.ctx_pid());
    assert!(Arc::ptr_eq(&pid.tx, &tx));
    tx.unbounded_send(ActorEvent::Exec(4)).unwrap();
    assert!(matches!(rx.try_next(), Ok(Some(ActorEvent::Exec(4)))));
}

#[test]
fn new_context_keeps_the_exit_signal() {
    let (_etx, erx) = futures::channel::oneshot::channel::<()>();
    let (ctx, _rx, _tx) = Context::<u32>::new(2, Some(erx.shared()));
    assert!(ctx.exit.is_some());
}

#[test]
fn first_listener_of_a_fresh_context_gets_key_zero() {
    let (mut ctx, _rx, _tx) = fresh(1);
    let (h, _r) = AbortHandle::new_pair();
    let pump = ctx.register_listener(h);
    assert_eq!(pump.key, 0);
    assert_eq!(pump.stage, PumpStage::Connecting);
    assert_eq!(pump.action(), PumpAction::SendConnected);
    assert_eq!(ctx.listeners.len(), 1);
    assert!(ctx.listeners.contains(0));
    assert_eq!(ctx.ctx_pid(), 1);
}

#[test]
fn a_dropped_key_is_handed_out_next() {
    let (mut ctx, _rx, _tx) = fresh(1);
    let (h1, _r1) = AbortHandle::new_pair();
    let (h2, _r2) = AbortHandle::new_pair();
    let (h3, _r3) = AbortHandle::new_pair();
    let k1 = ctx.register_listener(h1).key;
    let k2 = ctx.register_listener(h2).key;
    assert_eq!((k1, k2), (0, 1));
    let _ = ctx.handle_event(ActorEvent::DropListener(k1));
    assert_eq!(ctx.register_listener(h3).key, k1);
    assert_eq!(ctx.listeners.len(), 2);
}

/// Drives a forwarding task over the items `items`, delivering through the
/// context's weak handle: the connected notice is job 100, each item is its
/// own number, the disconnected notice is job 200.
fn forward(ctx: &mut Context<u32>, items: Vec<u32>) {
    let (h, _r) = AbortHandle::new_pair();
    let target = ctx.weak_pid();
    let mut pump = ctx.register_listener(h);
    let mut stream = items.into_iter();
    let mut item: Option<u32> = None;
    let mut action = pump.action();
    loop {
        let event = match action {
            PumpAction::SendConnected => PumpEvent::Delivered(target.deliver(ActorEvent::Exec(100))),
            PumpAction::AwaitItem => match stream.next() {
                Some(n) => {
                    item = Some(n);
                    PumpEvent::ItemArrived
                }
                None => PumpEvent::StreamEnded,
            },
            PumpAction::SendItem => PumpEvent::Delivered(target.deliver(ActorEvent::Exec(item.take().unwrap()))),
            PumpAction::SendDisconnected => PumpEvent::Delivered(target.deliver(ActorEvent::Exec(200))),
            PumpAction::SendDrop(key) => PumpEvent::Delivered(target.deliver(ActorEvent::DropListener(key))),
            PumpAction::Stop => break,
        };
        action = pump.step(event);
    }
}

#[test]
fn forwarding_a_stream_sends_notices_items_and_the_drop() {
    let (mut ctx, mut rx, _tx) = fresh(1);
    forward(&mut ctx, vec![1, 2]);
    assert_eq!(ctx.listeners.len(), 1);
    assert!(ctx.listeners.contains(0));
    assert!(matches!(rx.try_next(), Ok(Some(ActorEvent::Exec(100)))));
    assert!(matches!(rx.try_next(), Ok(Some(ActorEvent::Exec(1)))));
    assert!(matches!(rx.try_next(), Ok(Some(ActorEvent::Exec(2)))));
    assert!(matches!(rx.try_next(), Ok(Some(ActorEvent::Exec(200)))));
    let drop_event = rx.try_next().unwrap().unwrap();
    assert!(matches!(drop_event, ActorEvent::DropListener(0)));
    assert!(rx.try_next().is_err());
    assert!(matches!(ctx.handle_event(drop_event), LoopStep::Continue));
    assert_eq!(ctx.listeners.len(), 0);
}

#[test]
fn forwarding_to_a_vanished_actor_sends_nothing() {
    let (mut ctx, mut rx, tx) = fresh(1);
    drop(tx);
    forward(&mut ctx, vec![1, 2]);
    assert!(matches!(rx.try_next(), Ok(None)));
}

#[test]
fn pump_actions_for_a_two_item_stream() {
    let (mut ctx, _rx, _tx) = fresh(1);
    let (h, _r) = AbortHandle::new_pair();
    let mut pump = ctx.register_listener(h);
    let sent = PumpEvent::Delivered(Delivery::Sent);
    assert_eq!(pump.action(), PumpAction::SendConnected);
    assert_eq!(pump.step(sent), PumpAction::AwaitItem);
    assert_eq!(pump.step(PumpEvent::ItemArrived), PumpAction::SendItem);
    assert_eq!(pump.step(sent), PumpAction::AwaitItem);
    assert_eq!(pump.step(PumpEvent::ItemArrived), PumpAction::SendItem);
    assert_eq!(pump.step(sent), PumpAction::AwaitItem);
    assert_eq!(pump.step(PumpEvent::StreamEnded), PumpAction::SendDisconnected);
    assert_eq!(pump.step(sent), PumpAction::SendDrop(0));
    assert_eq!(pump.step(sent), PumpAction::Stop);
    assert_eq!(pump.stage, PumpStage::Finished);
}

#[test]
fn context_weak_pid_reaches_the_same_mailbox() {
    let (ctx, _rx, tx) = fresh(11);
    let w = ctx.weak_pid();
    let p = w.upgrade().expect("the sender is alive");
    assert!(Arc::ptr_eq(&p.tx, &tx));
}
