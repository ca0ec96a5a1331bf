use bronzeflow::event_loop::{
    completion_action, std_event_channel, EventReceiver, EventSender, TaskEvent,
};
use bronzeflow::executor::{DefaultExecutor, Executor, ThreadExecutor, TriggerCaller};
use bronzeflow::runtime::{
    AsyncFn, BronzeRuntime, Runnable, RuntimeJoinHandle, SyncFn, ThreadRuntime,
};
use bronzeflow::BronzeError;
use std::sync::atomic::{AtomicU32, Ordering};
use std::sync::Arc;

#[test]
fn create_async_fn() {
    let _ = AsyncFn(|| async { println!("I am an async function") });
    let _ = AsyncFn(|| async { 0 });
}

#[test]
#[allow(unused_assignments)]
fn create_async_fn_mut() {
    let t = String::from("test");
    let _ = AsyncFn(move || {
        let mut nt = t.clone();
        println!("{}", nt);
        async move {
            nt = String::from("new string");
            println!("Nt: {:?}", nt);
            nt.push_str("hx");
            let _ = nt;
        }
    });
}

#[test]
#[allow(unused_assignments)]
fn async_fn_from_closure() {
    let _ = AsyncFn::from(|| async {
        println!("new function");
    });
    let t = String::new();
    let _ = AsyncFn::from(move || {
        let mut t = t.clone();
        async move {
            t = String::new();
            println!("{}", t);
        }
    });
}

#[test]
fn create_sync_fn() {
    let _ = SyncFn(|| println!("I am a sync function"));
    let _ = SyncFn(|| {
        println!("This function could not return data");
    });
    let _ = SyncFn::from(|| println!("I am a sync function"));
}

fn check_run_result<T>(handle: RuntimeJoinHandle<T>, is_async: bool) {
    match handle {
        RuntimeJoinHandle::SyncJobHandle if !is_async => (),
        RuntimeJoinHandle::AsyncTicket(_) if is_async => (),
        _ => panic!("Run sync function failed"),
    }
}

#[test]
fn sync_fn_run() {
    let f = SyncFn(|| println!("I am a sync function"));
    check_run_result(f.run(), false);
    check_run_result(f.run_async(), false);
}

fn test_basic_runnable<F>(runnable: impl Runnable, is_async: bool, validator: F)
where
    F: Fn(RuntimeJoinHandle<()>, bool),
{
    assert_eq!(is_async, runnable.is_async());
    validator(runnable.run(), is_async);
    validator(runnable.run_async(), is_async);
}

#[test]
fn run_runnable() {
    let sync_fn = SyncFn(|| println!("I am a sync function"));
    test_basic_runnable(sync_fn, false, check_run_result);
}

#[test]
fn bronze_runtime_run_safe() {
    let sync_fn = SyncFn(|| println!("I am a sync function"));
    let rt = ThreadRuntime::default();
    rt.run_safe(sync_fn, false).unwrap();
}

#[test]
fn bronze_runtime_run_is_refused() {
    // The non-reentrant path of the dedicated-thread runtime fails loudly
    // with an unsupported-operation error; use the safe path instead.
    let sync_fn = SyncFn(|| println!("I am a sync function"));
    let rt = ThreadRuntime::default();
    assert_eq!(rt.run(&sync_fn, false), Err(BronzeError::Unsupported));
}

#[test]
fn default_executor_runs_inline() {
    let counter = Arc::new(AtomicU32::new(0));
    let c = Arc::clone(&counter);
    let work = SyncFn(move || {
        c.fetch_add(1, Ordering::SeqCst);
    });
    let exec = DefaultExecutor::new();
    exec.submit(&work, false).unwrap();
    exec.submit(&work, true).unwrap();
    assert_eq!(counter.load(Ordering::SeqCst), 2);
}

#[test]
fn thread_executor_refuses_non_reentrant_submit() {
    let exec = ThreadExecutor::default();
    let work = SyncFn(|| println!("never through this path"));
    assert_eq!(exec.submit(&work, false), Err(BronzeError::Unsupported));
}

#[test]
fn thread_executor_safe_path_completes_work() {
    let exec = ThreadExecutor::default();
    let work = SyncFn(|| println!("through the safe path"));
    exec.submit_safe(work, false).unwrap();
}

#[test]
fn executors_do_not_support_async() {
    assert!(!DefaultExecutor::new().support_async());
    assert!(!ThreadExecutor::default().support_async());
}

#[test]
fn trigger_checks_capability_then_submits() {
    let counter = Arc::new(AtomicU32::new(0));
    let c = Arc::clone(&counter);
    let work = SyncFn(move || {
        c.fetch_add(1, Ordering::SeqCst);
    });
    let exec = DefaultExecutor::new();
    exec.trigger(&work, true).unwrap();
    assert_eq!(counter.load(Ordering::SeqCst), 1);
}

#[test]
fn async_fn_reports_async() {
    let f = AsyncFn(|| async {});
    assert!(f.is_async());
}

#[test]
fn plain_closure_is_runnable() {
    let h = (|| println!("bare closure")).run();
    check_run_result(h, false);
}

#[test]
fn completion_loop_awaits_only_async_tickets() {
    let (tx, mut rx) = std_event_channel::<TaskEvent>();
    let tx2 = tx.clone_new();
    tx.send(TaskEvent::TaskPending).unwrap();
    tx2.send(TaskEvent::TaskRunning(RuntimeJoinHandle::AsyncTicket(42)))
        .unwrap();
    tx.send(TaskEvent::TaskRunning(RuntimeJoinHandle::SyncJobHandle))
        .unwrap();
    tx.send(TaskEvent::TaskFinished).unwrap();
    drop(tx);
    drop(tx2);
    let mut tickets = Vec::new();
    while let Some(event) = rx.recv() {
        if let Some(t) = completion_action(&event) {
            tickets.push(t);
        }
    }
    assert_eq!(tickets, vec![42]);
}

#[test]
fn send_into_closed_channel_fails() {
    let (tx, rx) = std_event_channel::<TaskEvent>();
    drop(rx);
    assert_eq!(
        tx.send(TaskEvent::TaskFinished),
        Err(BronzeError::ChannelClosed)
    );
}
