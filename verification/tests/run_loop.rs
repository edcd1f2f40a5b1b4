use monoio::context::Context;
use monoio::runtime::{
    park_choice, preempt_us, BlockOn, FusionRuntime, LoopDo, LoopSeen, Runtime,
};
use monoio::scheduler::{TaskPriority, TaskQueue};
use monoio::stall::{
    register_stall_callback, stall_event, unregister_stall_callback, StallEvent, StallHook,
};

const HIGH: TaskPriority = TaskPriority::High;
const BACKGROUND: TaskPriority = TaskPriority::Background;

#[test]
fn preempt_setting_falls_back_to_five_milliseconds() {
    assert_eq!(preempt_us(None), 5_000);
    assert_eq!(preempt_us(Some("250")), 250);
    assert_eq!(preempt_us(Some("0")), 0);
    for bad in ["", "fast", "-1", "99999999999999999999"] {
        assert_eq!(preempt_us(Some(bad)), 5_000, "{bad:?}");
    }
}

#[test]
fn high_tasks_are_drained_then_one_background_task() {
    let mut q: TaskQueue<u32> = TaskQueue::new();
    q.push(10, BACKGROUND);
    q.push(11, BACKGROUND);
    q.push(1, HIGH);
    q.push(2, HIGH);
    let mut run = BlockOn::new(5_000);
    assert_eq!(run.advance(&mut q, LoopSeen::Ack), LoopDo::StartClock);
    assert_eq!(run.advance(&mut q, LoopSeen::Ack), LoopDo::Run(1));
    assert_eq!(run.advance(&mut q, LoopSeen::Ack), LoopDo::ReadClock);
    assert_eq!(run.advance(&mut q, LoopSeen::Elapsed(4_999_999)), LoopDo::Run(2));
    assert_eq!(run.advance(&mut q, LoopSeen::Ack), LoopDo::ReadClock);
    // No high-priority task is left: one background task, then the main future.
    assert_eq!(run.advance(&mut q, LoopSeen::Elapsed(0)), LoopDo::Run(10));
    assert_eq!(run.advance(&mut q, LoopSeen::Ack), LoopDo::AskMain);
    assert_eq!(run.advance(&mut q, LoopSeen::MainWoken(true)), LoopDo::PollMain);
    assert_eq!(run.advance(&mut q, LoopSeen::MainReady(false)), LoopDo::AskMain);
    // Tasks are left: I/O only in passing.
    assert_eq!(run.advance(&mut q, LoopSeen::MainWoken(false)), LoopDo::Submit);
    assert_eq!(run.advance(&mut q, LoopSeen::Ack), LoopDo::StartClock);
    assert_eq!(run.advance(&mut q, LoopSeen::Ack), LoopDo::Run(11));
    assert_eq!(run.advance(&mut q, LoopSeen::Ack), LoopDo::AskMain);
    assert_eq!(run.advance(&mut q, LoopSeen::MainWoken(false)), LoopDo::Park);
    assert_eq!(run.advance(&mut q, LoopSeen::Ack), LoopDo::StartClock);
    assert_eq!(run.advance(&mut q, LoopSeen::Ack), LoopDo::AskMain);
    assert_eq!(run.advance(&mut q, LoopSeen::MainWoken(true)), LoopDo::PollMain);
    assert_eq!(run.advance(&mut q, LoopSeen::MainReady(true)), LoopDo::Return);
}

#[test]
fn spent_budget_turns_to_io() {
    let mut q: TaskQueue<u32> = TaskQueue::new();
    q.push(1, HIGH);
    q.push(2, HIGH);
    q.push(10, BACKGROUND);
    let mut run = BlockOn::new(5_000);
    assert_eq!(run.advance(&mut q, LoopSeen::Ack), LoopDo::StartClock);
    assert_eq!(run.advance(&mut q, LoopSeen::Ack), LoopDo::Run(1));
    assert_eq!(run.advance(&mut q, LoopSeen::Ack), LoopDo::ReadClock);
    // Exactly five milliseconds: preempted. A high-priority task is queued, so no
    // background task runs either.
    assert_eq!(run.advance(&mut q, LoopSeen::Elapsed(5_000_000)), LoopDo::AskMain);
    assert_eq!(run.advance(&mut q, LoopSeen::MainWoken(false)), LoopDo::Submit);
    assert_eq!(run.advance(&mut q, LoopSeen::Ack), LoopDo::StartClock);
    assert_eq!(run.advance(&mut q, LoopSeen::Ack), LoopDo::Run(2));
    assert_eq!(run.advance(&mut q, LoopSeen::Ack), LoopDo::ReadClock);
    // Preempted with the high tier empty: one background task.
    assert_eq!(run.advance(&mut q, LoopSeen::Elapsed(u128::MAX)), LoopDo::Run(10));
    assert_eq!(run.advance(&mut q, LoopSeen::Ack), LoopDo::AskMain);
}

#[test]
fn parking_waits_only_without_high_tasks() {
    let mut q: TaskQueue<u32> = TaskQueue::new();
    assert_eq!(park_choice(&q), LoopDo::Park);
    q.push(10, BACKGROUND);
    assert_eq!(park_choice(&q), LoopDo::Park);
    q.push(1, HIGH);
    assert_eq!(park_choice(&q), LoopDo::ParkZero);
}

#[test]
fn main_future_is_spawned_where_it_is_a_task() {
    let mut rt: Runtime<&str, u32, ()> = Runtime::new(Context::new(2), "driver");
    rt.context.tasks.push(
        monoio::context::new_task(2, 8, Default::default()),
        HIGH,
    );
    let mut run = rt.block_on(Some(9), Some("1"));
    assert!(matches!(run.advance(&mut rt.context.tasks, LoopSeen::Ack), LoopDo::StartClock));
    let a = run.advance(&mut rt.context.tasks, LoopSeen::Ack);
    assert!(matches!(a, LoopDo::Run(t) if t.future == 8));
    assert!(matches!(run.advance(&mut rt.context.tasks, LoopSeen::Ack), LoopDo::ReadClock));
    let a = run.advance(&mut rt.context.tasks, LoopSeen::Elapsed(999));
    assert!(matches!(a, LoopDo::Run(t) if t.future == 9 && t.thread_id == 2));

    let rt: Runtime<&str, u32, ()> = Runtime::new(Context::new(2), "ring");
    let mut fusion: FusionRuntime<&str, u8, u32, ()> = FusionRuntime::from_uring(rt);
    let _ = fusion.block_on(Some(3), None);
    match fusion {
        FusionRuntime::Uring(rt) => {
            assert_eq!(rt.driver, "ring");
            assert_eq!(rt.context.tasks.len(), 1);
        }
        FusionRuntime::Legacy(_) => unreachable!(),
    }
    let rt: Runtime<u8, u32, ()> = Runtime::new(Context::new(2), 6);
    let mut fusion: FusionRuntime<&str, u8, u32, ()> = FusionRuntime::from_legacy(rt);
    let _ = fusion.block_on(None, None);
    match fusion {
        FusionRuntime::Legacy(rt) => {
            assert_eq!(rt.driver, 6);
            assert!(rt.context.tasks.is_empty());
        }
        FusionRuntime::Uring(_) => unreachable!(),
    }
}

#[test]
fn stalls_are_told_from_the_threshold_on() {
    let mut hook: StallHook<u8> = StallHook::new();
    assert_eq!(hook.armed(), None);
    register_stall_callback(&mut hook, 20, 1);
    assert_eq!(hook.armed(), Some((20, 1)));
    register_stall_callback(&mut hook, 30, 2);
    assert_eq!(hook.armed(), Some((30, 2)));
    register_stall_callback(&mut hook, 0, 3);
    assert_eq!(hook.armed(), None);
    register_stall_callback(&mut hook, 1, 4);
    unregister_stall_callback(&mut hook);
    assert_eq!(hook.armed(), None);

    assert_eq!(stall_event(20, 19), None);
    assert_eq!(stall_event(20, 20), Some(StallEvent { duration_ms: 20 }));
    assert_eq!(stall_event(20, 512), Some(StallEvent { duration_ms: 512 }));
    assert_eq!(stall_event(20, (1u128 << 64) + 3), None);
}

#[test]
fn tiers_keep_their_order_while_tasks_arrive() {
    let mut q: TaskQueue<u32> = TaskQueue::new();
    q.push(1, HIGH);
    q.push(10, BACKGROUND);
    let mut run = BlockOn::new(1_000_000);
    let mut ran = vec![];
    let mut seen = LoopSeen::Ack;
    for _ in 0..40 {
        seen = match run.advance(&mut q, seen) {
            LoopDo::Run(task) => {
                ran.push(task);
                // Tasks that run spawn others, up to a point.
                if task < 4 {
                    q.push(task + 1, HIGH);
                    q.push(10 + task, BACKGROUND);
                }
                LoopSeen::Ack
            }
            LoopDo::ReadClock => LoopSeen::Elapsed(0),
            LoopDo::AskMain => LoopSeen::MainWoken(false),
            _ => LoopSeen::Ack,
        };
    }
    assert_eq!(ran, [1, 2, 3, 4, 10, 11, 12, 13]);
}

#[test]
fn unwoken_main_future_is_polled_before_io() {
    let mut q: TaskQueue<u32> = TaskQueue::new();
    let mut run = BlockOn::new(5_000);
    // The host marks the main future before it tells the loop so.
    let mut marked = true;
    assert_eq!(run.advance(&mut q, LoopSeen::Ack), LoopDo::StartClock);
    assert_eq!(run.advance(&mut q, LoopSeen::Ack), LoopDo::AskMain);
    let woken = std::mem::replace(&mut marked, false);
    assert_eq!(run.advance(&mut q, LoopSeen::MainWoken(woken)), LoopDo::PollMain);
    assert_eq!(run.advance(&mut q, LoopSeen::MainReady(false)), LoopDo::AskMain);
    assert_eq!(run.advance(&mut q, LoopSeen::MainWoken(marked)), LoopDo::Park);
}
