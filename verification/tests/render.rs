use ultralightui::render::{
    can_drain, drain, renderer_pending, renderer_run, run_tasks, tasks_fit, Mailbox, Pause, Phase,
    RenderLoop, Task, TaskResult, Turn, FRAME_INTERVAL_MS,
};
use ultralightui::view::{MouseButton, MouseEventType, ViewAction, ViewOp, ViewRegistry};

fn create() -> ViewOp {
    ViewOp::CreateView { url: "about:blank".to_string(), width: 800, height: 600, transparent: 0 }
}

#[test]
fn a_closed_mailbox_accepts_nothing() {
    let mut mailbox = Mailbox::new();
    assert!(!mailbox.is_open());
    assert!(!renderer_pending(&mut mailbox, create()));
    assert_eq!(renderer_run(&mut mailbox, create()), None);
    assert!(!mailbox.submit(Task { op: create(), signal: None, keep_scheduled: true }));
    assert!(!mailbox.is_open());
    assert_eq!(mailbox.pending(), 0);
}

#[test]
fn tasks_run_in_submission_order_and_signals_follow() {
    let mut mailbox = Mailbox::new();
    let mut views = ViewRegistry::new();
    RenderLoop::new().start(&mut mailbox, 0);
    assert!(mailbox.has_signal());
    assert_eq!(mailbox.issued(), 0);
    assert_eq!(renderer_run(&mut mailbox, create()), Some(0));
    assert_eq!(mailbox.issued(), 1);
    assert!(renderer_pending(&mut mailbox, ViewOp::MouseMove { view_id: 0, x: 1, y: 2 }));
    assert!(renderer_pending(&mut mailbox, ViewOp::MouseMove { view_id: 1, x: 1, y: 2 }));
    assert_eq!(renderer_run(&mut mailbox, create()), Some(1));
    let batch = drain(&mut mailbox, &mut views, 100);
    assert_eq!(
        batch.results,
        vec![
            TaskResult {
                action: ViewAction::CreateView { view_id: 0, url: "about:blank".to_string(), width: 800, height: 600, transparent: false },
                signal: Some(0),
            },
            TaskResult {
                action: ViewAction::Mouse { view_id: 0, event: MouseEventType::MouseMoved, x: 1, y: 2, button: MouseButton::NoButton },
                signal: None,
            },
            TaskResult { action: ViewAction::Nothing, signal: None },
            TaskResult {
                action: ViewAction::CreateView { view_id: 1, url: "about:blank".to_string(), width: 800, height: 600, transparent: false },
                signal: Some(1),
            },
        ]
    );
    assert!(!batch.force_redraw);
    assert_eq!(views.len(), 2);
    assert!(mailbox.is_open());
    assert_eq!(mailbox.take_all(), vec![]);
    assert_eq!(renderer_run(&mut mailbox, ViewOp::RemoveView { view_id: 0 }), Some(2));
    assert_eq!(
        mailbox.take_all(),
        vec![Task { op: ViewOp::RemoveView { view_id: 0 }, signal: Some(2), keep_scheduled: false }]
    );
}

#[test]
fn a_task_that_stays_scheduled_runs_again_before_later_ones() {
    let mut mailbox = Mailbox::new();
    let mut views = ViewRegistry::new();
    RenderLoop::new().start(&mut mailbox, 0);
    views.apply(&create(), 0);
    let signal = renderer_run(&mut mailbox, ViewOp::Focus { view_id: 0, focused: 0 });
    assert_eq!(signal, Some(0));
    assert_eq!(drain(&mut mailbox, &mut views, 1).results.len(), 1);
    let recurring = Task { op: ViewOp::Scroll { view_id: 0, x: 0, y: 1 }, signal, keep_scheduled: true };
    assert!(mailbox.submit(recurring.clone()));
    assert!(renderer_pending(&mut mailbox, ViewOp::RemoveView { view_id: 9 }));
    let batch = drain(&mut mailbox, &mut views, 10);
    assert_eq!(batch.results.len(), 2);
    assert_eq!(batch.results[0].signal, Some(0));
    assert!(renderer_pending(&mut mailbox, ViewOp::Focus { view_id: 0, focused: 1 }));
    let pending = mailbox.take_all();
    assert_eq!(
        pending,
        vec![recurring.clone(), Task { op: ViewOp::Focus { view_id: 0, focused: 1 }, signal: None, keep_scheduled: false }]
    );
    mailbox.put_back(vec![recurring.clone()]);
    let batch = drain(&mut mailbox, &mut views, 20);
    assert_eq!(batch.results, vec![TaskResult { action: ViewAction::Scroll { view_id: 0, x: 0, y: 1 }, signal: Some(0) }]);
    assert_eq!(views.last_activity(0), Some(20));
    assert_eq!(mailbox.take_all(), vec![recurring]);
}

#[test]
fn run_tasks_keeps_what_stays_scheduled() {
    let mut views = ViewRegistry::new();
    let tasks = vec![
        Task { op: create(), signal: None, keep_scheduled: false },
        Task { op: ViewOp::SetSize { view_id: 0, width: 3, height: 4 }, signal: Some(1), keep_scheduled: true },
        Task { op: ViewOp::RemoveView { view_id: 0 }, signal: None, keep_scheduled: false },
        Task { op: ViewOp::SetSize { view_id: 0, width: 3, height: 4 }, signal: None, keep_scheduled: true },
    ];
    let (batch, kept) = run_tasks(&tasks, &mut views, 50);
    assert!(batch.force_redraw);
    assert_eq!(batch.results[1].action, ViewAction::Resize { view_id: 0, width: 3, height: 4 });
    assert_eq!(batch.results[2].action, ViewAction::RemoveView { view_id: 0 });
    assert_eq!(batch.results[3].action, ViewAction::Nothing);
    assert_eq!(kept, vec![tasks[1].clone(), tasks[3].clone()]);
    assert_eq!(views.len(), 0);
    let (batch, kept) = run_tasks(&vec![], &mut views, 51);
    assert!(!batch.force_redraw);
    assert_eq!(batch.results, vec![]);
    assert_eq!(kept, vec![]);
}

#[test]
fn take_all_leaves_room_for_new_tasks() {
    let mut mailbox = Mailbox::new();
    RenderLoop::new().start(&mut mailbox, 0);
    assert!(renderer_pending(&mut mailbox, create()));
    assert_eq!(mailbox.pending(), 1);
    let taken = mailbox.take_all();
    assert_eq!(taken.len(), 1);
    assert_eq!(mailbox.pending(), 0);
    assert!(mailbox.is_open());
    assert!(renderer_pending(&mut mailbox, ViewOp::RemoveView { view_id: 0 }));
    assert_eq!(
        mailbox.take_all(),
        vec![Task { op: ViewOp::RemoveView { view_id: 0 }, signal: None, keep_scheduled: false }]
    );
    let mut scheduler = RenderLoop::new();
    let mut closed = Mailbox::new();
    scheduler.start(&mut closed, 0);
    assert_eq!(scheduler.begin_iteration(true, 1), Turn::Stop);
    assert!(renderer_pending(&mut closed, ViewOp::RemoveView { view_id: 3 }));
    let last = scheduler.finish(&mut closed, &mut ViewRegistry::new(), 2);
    assert_eq!(last.results, vec![TaskResult { action: ViewAction::Nothing, signal: None }]);
    assert!(!closed.is_open());
    assert_eq!(closed.pending(), 0);
}

#[test]
fn force_redraw_paints_at_once_whatever_the_deadline() {
    let mut mailbox = Mailbox::new();
    let mut scheduler = RenderLoop::new();
    assert_eq!(scheduler.phase, Phase::Uninitialized);
    assert!(scheduler.can_start(&mailbox));
    scheduler.start(&mut mailbox, 1000);
    assert!(!scheduler.can_start(&mailbox));
    scheduler.next_frame_time = 1_000_000_000;
    assert_eq!(scheduler.begin_iteration(false, 1001), Turn::Tasks);
    assert_eq!(scheduler.after_tasks(true, 0, false), Pause::Immediately);
    assert_eq!(scheduler.begin_iteration(false, 1002), Turn::Paint);
    assert_eq!(scheduler.next_frame_time, 1002 + FRAME_INTERVAL_MS);
    assert_eq!(scheduler.next_frame_time, 1035);
}

#[test]
fn the_loop_waits_until_the_next_frame_and_paints_after_a_timeout() {
    let mut mailbox = Mailbox::new();
    let mut scheduler = RenderLoop::new();
    scheduler.start(&mut mailbox, 500);
    assert_eq!(scheduler, RenderLoop { phase: Phase::Running, next_frame_time: 500, wakeup_by_timeout: false });
    assert!(mailbox.is_open());
    assert_eq!(scheduler.begin_iteration(false, 500), Turn::Tasks);
    assert_eq!(scheduler.after_tasks(false, 0, false), Pause::Until(500));
    scheduler.after_wait(true);
    assert_eq!(scheduler.begin_iteration(false, 501), Turn::Paint);
    assert_eq!(scheduler.after_tasks(false, 0, false), Pause::Until(534));
    scheduler.after_wait(false);
    assert_eq!(scheduler.begin_iteration(false, 510), Turn::Tasks);
    assert_eq!(scheduler.after_tasks(false, 0, false), Pause::Until(534));
}

#[test]
fn the_loop_does_not_wait_while_tasks_wait_or_shutdown_is_asked() {
    let mut mailbox = Mailbox::new();
    let mut scheduler = RenderLoop::new();
    scheduler.start(&mut mailbox, 500);
    scheduler.after_wait(true);
    assert_eq!(scheduler.after_tasks(false, 2, false), Pause::Immediately);
    assert!(!scheduler.wakeup_by_timeout);
    assert_eq!(scheduler.begin_iteration(false, 501), Turn::Tasks);
    scheduler.after_wait(true);
    assert_eq!(scheduler.after_tasks(false, 0, true), Pause::Immediately);
    assert!(!scheduler.wakeup_by_timeout);
    assert_eq!(scheduler.begin_iteration(true, 502), Turn::Stop);
    let mut other = RenderLoop::new();
    other.start(&mut Mailbox::new(), 0);
    assert_eq!(other.after_tasks(true, 5, true), Pause::Immediately);
    assert!(other.wakeup_by_timeout);
}

#[test]
fn a_batch_fits_while_ids_are_left_for_its_views() {
    let mut mailbox = Mailbox::new();
    let views = ViewRegistry::new();
    assert!(!can_drain(&mailbox, &views));
    RenderLoop::new().start(&mut mailbox, 0);
    assert!(can_drain(&mailbox, &views));
    assert!(renderer_pending(&mut mailbox, create()));
    assert!(can_drain(&mailbox, &views));
    let tasks = vec![
        Task { op: create(), signal: None, keep_scheduled: false },
        Task { op: ViewOp::RemoveView { view_id: 0 }, signal: None, keep_scheduled: false },
        Task { op: create(), signal: None, keep_scheduled: false },
    ];
    assert!(tasks_fit(&tasks, &views));
    assert!(tasks_fit(&vec![], &views));
}

#[test]
fn shutdown_drains_and_stops_and_the_loop_can_start_again() {
    let mut mailbox = Mailbox::new();
    let mut views = ViewRegistry::new();
    let mut scheduler = RenderLoop::new();
    scheduler.start(&mut mailbox, 0);
    assert_eq!(renderer_run(&mut mailbox, create()), Some(0));
    scheduler.after_wait(true);
    assert!(renderer_pending(&mut mailbox, ViewOp::MouseMove { view_id: 0, x: 1, y: 1 }));
    assert!(mailbox.submit(Task { op: ViewOp::RemoveView { view_id: 4 }, signal: None, keep_scheduled: true }));
    assert_eq!(scheduler.begin_iteration(true, 40), Turn::Stop);
    assert_eq!(scheduler.phase, Phase::Draining);
    assert!(can_drain(&mailbox, &views));
    let batch = scheduler.finish(&mut mailbox, &mut views, 40);
    assert_eq!(batch.results.len(), 3);
    assert_eq!(
        batch.results[0],
        TaskResult {
            action: ViewAction::CreateView { view_id: 0, url: "about:blank".to_string(), width: 800, height: 600, transparent: false },
            signal: Some(0),
        }
    );
    assert_eq!(
        batch.results[1].action,
        ViewAction::Mouse { view_id: 0, event: MouseEventType::MouseMoved, x: 1, y: 1, button: MouseButton::NoButton }
    );
    assert_eq!(batch.results[2], TaskResult { action: ViewAction::Nothing, signal: None });
    assert_eq!(views.len(), 1);
    assert_eq!(mailbox.pending(), 0);
    assert_eq!(scheduler.phase, Phase::Stopped);
    assert!(!mailbox.is_open());
    assert!(!renderer_pending(&mut mailbox, create()));
    assert!(scheduler.can_start(&mailbox));
    scheduler.start(&mut mailbox, 90);
    assert_eq!(scheduler, RenderLoop { phase: Phase::Running, next_frame_time: 90, wakeup_by_timeout: false });
    assert_eq!(mailbox.take_all(), vec![]);
    assert_eq!(renderer_run(&mut mailbox, create()), Some(1));
}
