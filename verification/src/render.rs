//! The task mailbox and the frame-paced scheduler of the owner thread.
//!
//! Any thread hands operations on the views to the mailbox. The owner thread
//! runs the loop: it asks the scheduler what the next turn is, paints where
//! that is due, drains the mailbox, and waits as the scheduler says. Locks,
//! signals and the clock belong to the caller; the time is passed in as
//! milliseconds on a clock that does not go back.

use crate::view::{lemma_step_keeps_ids, ViewAction, ViewOp, ViewRegistry, ViewState};
use vstd::prelude::*;

verus! {

/// Milliseconds between two frames: about 30 frames a second.
pub const FRAME_INTERVAL_MS: u64 = 33;

/// An operation waiting for the owner thread.
#[derive(Clone, Debug, PartialEq, Eq)]
pub struct Task {
    pub op: ViewOp,
    /// The completion signal to fire once the task has run, for a caller
    /// that waits.
    pub signal: Option<u64>,
    /// Whether the task stays scheduled: it then runs again in every cycle.
    pub keep_scheduled: bool,
}

/// Whether every signal among `tasks` was handed out before `next`.
pub open spec fn signals_below(tasks: Seq<Task>, next: u64) -> bool {
    forall|i: int| 0 <= i < tasks.len() ==> ((#[trigger] tasks[i]).signal matches Some(s) ==> s < next)
}

/// The shared slot of pending tasks. It holds a list while the loop runs and
/// none before and after. It numbers the completion signals: every signal in
/// it was handed out by it.
pub struct Mailbox {
    tasks: Option<Vec<Task>>,
    next_signal: u64,
}

impl Mailbox {
    /// Every signal in the mailbox was handed out by it.
    pub closed spec fn wf(&self) -> bool {
        match self.tasks {
            Some(tasks) => signals_below(tasks@, self.next_signal),
            None => true,
        }
    }

    /// The pending tasks in submission order; `None` while no loop runs.
    pub closed spec fn view(&self) -> Option<Seq<Task>> {
        match self.tasks {
            Some(tasks) => Some(tasks@),
            None => None,
        }
    }

    /// The signal that the next waiting caller gets.
    pub closed spec fn next_signal(&self) -> u64 {
        self.next_signal
    }

    /// A mailbox that accepts nothing yet.
    pub fn new() -> (r: Self)
        ensures
            r@ is None,
            r.next_signal() == 0,
            r.wf(),
    {
        Mailbox { tasks: None, next_signal: 0 }
    }

    /// Whether the mailbox accepts work.
    pub fn is_open(&self) -> (r: bool)
        ensures
            r == (self@ is Some),
    {
        self.tasks.is_some()
    }

    /// The number of signals handed out so far, which is the next signal.
    pub fn issued(&self) -> (r: u64)
        ensures
            r == self.next_signal(),
    {
        self.next_signal
    }

    /// Whether a signal is left to hand out.
    pub fn has_signal(&self) -> (r: bool)
        ensures
            r == (self.next_signal() < u64::MAX),
    {
        self.next_signal < u64::MAX
    }

    /// The number of tasks that wait; none while the mailbox is closed.
    pub fn pending(&self) -> (r: usize)
        ensures
            r == match self@ {
                Some(tasks) => tasks.len(),
                None => 0,
            },
    {
        match &self.tasks {
            Some(tasks) => tasks.len(),
            None => 0,
        }
    }

    /// Installs an empty list: from now on the mailbox accepts work.
    fn open(&mut self)
        requires
            old(self)@ is None,
        ensures
            final(self).wf(),
            final(self)@ == Some(Seq::<Task>::empty()),
            final(self).next_signal() == old(self).next_signal(),
    {
        self.tasks = Some(Vec::new());
    }

    /// Clears the mailbox to no list: from now on it accepts nothing. Tasks
    /// still in it are dropped.
    fn close(&mut self)
        requires
            old(self)@ is Some,
        ensures
            final(self).wf(),
            final(self)@ is None,
            final(self).next_signal() == old(self).next_signal(),
    {
        self.tasks = None;
    }

    /// Appends a task, if the mailbox accepts work, and says whether it did.
    /// A signal on the task must be one that the mailbox handed out.
    pub fn submit(&mut self, task: Task) -> (r: bool)
        requires
            old(self).wf(),
            task.signal matches Some(s) ==> s < old(self).next_signal(),
        ensures
            final(self).wf(),
            r == (old(self)@ is Some),
            final(self)@ == match old(self)@ {
                Some(tasks) => Some(tasks.push(task)),
                None => None,
            },
            final(self).next_signal() == old(self).next_signal(),
    {
        match self.tasks.take() {
            Some(mut tasks) => {
                tasks.push(task);
                self.tasks = Some(tasks);
                true
            },
            None => false,
        }
    }

    /// Appends a task with the next signal, if the mailbox accepts work, and
    /// returns the signal: one that no task in the mailbox carries.
    pub fn submit_signalled(&mut self, op: ViewOp) -> (r: Option<u64>)
        requires
            old(self).wf(),
            old(self).next_signal() < u64::MAX,
        ensures
            final(self).wf(),
            r is Some == (old(self)@ is Some),
            match old(self)@ {
                Some(tasks) => {
                    &&& r == Some(old(self).next_signal())
                    &&& final(self)@ == Some(
                        tasks.push(
                            Task { op, signal: Some(old(self).next_signal()), keep_scheduled: false },
                        ),
                    )
                    &&& final(self).next_signal() == old(self).next_signal() + 1
                    &&& forall|i: int|
                        0 <= i < tasks.len() ==> (#[trigger] tasks[i]).signal != Some(
                            old(self).next_signal(),
                        )
                },
                None => final(self)@ is None && final(self).next_signal() == old(self).next_signal(),
            },
    {
        match self.tasks.take() {
            Some(mut tasks) => {
                let signal = self.next_signal;
                tasks.push(Task { op, signal: Some(signal), keep_scheduled: false });
                self.next_signal = signal + 1;
                self.tasks = Some(tasks);
                Some(signal)
            },
            None => None,
        }
    }

    /// Takes the whole list and leaves an empty one, so that tasks submitted
    /// from now on wait for the next cycle.
    pub fn take_all(&mut self) -> (r: Vec<Task>)
        requires
            old(self).wf(),
            old(self)@ is Some,
        ensures
            final(self).wf(),
            r@ == old(self)@->0,
            signals_below(r@, old(self).next_signal()),
            final(self)@ == Some(Seq::<Task>::empty()),
            final(self).next_signal() == old(self).next_signal(),
    {
        let taken = self.tasks.take();
        self.tasks = Some(Vec::new());
        match taken {
            Some(tasks) => tasks,
            None => Vec::new(),
        }
    }

    /// Puts the tasks that stay scheduled back, in front of those that were
    /// submitted in the meantime.
    pub fn put_back(&mut self, kept: Vec<Task>)
        requires
            old(self).wf(),
            old(self)@ is Some,
            signals_below(kept@, old(self).next_signal()),
        ensures
            final(self).wf(),
            final(self)@ == Some(kept@ + old(self)@->0),
            final(self).next_signal() == old(self).next_signal(),
    {
        let mut kept = kept;
        match self.tasks.take() {
            Some(mut tasks) => {
                kept.append(&mut tasks);
                self.tasks = Some(kept);
            },
            None => {},
        }
    }
}

/// Submits an operation without waiting for it. Returns whether the mailbox
/// accepted it; it does not while no loop runs.
pub fn renderer_pending(mailbox: &mut Mailbox, op: ViewOp) -> (r: bool)
    requires
        old(mailbox).wf(),
    ensures
        final(mailbox).wf(),
        r == (old(mailbox)@ is Some),
        final(mailbox)@ == match old(mailbox)@ {
            Some(tasks) => Some(tasks.push(Task { op, signal: None, keep_scheduled: false })),
            None => None,
        },
        final(mailbox).next_signal() == old(mailbox).next_signal(),
{
    mailbox.submit(Task { op, signal: None, keep_scheduled: false })
}

/// Submits an operation whose caller waits until it has run. Returns the
/// fresh completion signal on which the caller waits, after it has woken the
/// loop; or `None` where the mailbox did not accept the operation, which it
/// does not while no loop runs.
pub fn renderer_run(mailbox: &mut Mailbox, op: ViewOp) -> (r: Option<u64>)
    requires
        old(mailbox).wf(),
        old(mailbox).next_signal() < u64::MAX,
    ensures
        final(mailbox).wf(),
        r is Some == (old(mailbox)@ is Some),
        match old(mailbox)@ {
            Some(tasks) => {
                &&& r == Some(old(mailbox).next_signal())
                &&& final(mailbox)@ == Some(
                    tasks.push(
                        Task { op, signal: Some(old(mailbox).next_signal()), keep_scheduled: false },
                    ),
                )
                &&& final(mailbox).next_signal() == old(mailbox).next_signal() + 1
                &&& forall|i: int|
                    0 <= i < tasks.len() ==> (#[trigger] tasks[i]).signal != Some(
                        old(mailbox).next_signal(),
                    )
            },
            None => final(mailbox)@ is None && final(mailbox).next_signal() == old(mailbox).next_signal(),
        },
{
    mailbox.submit_signalled(op)
}

/// What one task came to: the engine call to make, then the signal to fire.
#[derive(Clone, Debug, PartialEq, Eq)]
pub struct TaskResult {
    pub action: ViewAction,
    pub signal: Option<u64>,
}

/// What a drained batch came to.
#[derive(Clone, Debug, PartialEq, Eq)]
pub struct Batch {
    /// One result for each task, in the order of the tasks.
    pub results: Vec<TaskResult>,
    /// Whether a task asked for a repaint at once.
    pub force_redraw: bool,
}

/// The registry after the first `n` of `tasks` have run at time `now`.
pub open spec fn state_after(state: ViewState, tasks: Seq<Task>, now: u64, n: int) -> ViewState
    decreases n,
{
    if n <= 0 {
        state
    } else {
        state_after(state, tasks, now, n - 1).step(tasks[n - 1].op, now)
    }
}

/// The tasks of `tasks` that stay scheduled, in order.
pub open spec fn kept_of(tasks: Seq<Task>) -> Seq<Task>
    decreases tasks.len(),
{
    if tasks.len() == 0 {
        Seq::empty()
    } else if tasks.last().keep_scheduled {
        kept_of(tasks.drop_last()).push(tasks.last())
    } else {
        kept_of(tasks.drop_last())
    }
}

/// How many of the first `n` of `tasks` create a view.
pub open spec fn creates(tasks: Seq<Task>, n: int) -> nat
    decreases n,
{
    if n <= 0 {
        0
    } else {
        creates(tasks, n - 1) + if tasks[n - 1].op is CreateView {
            1nat
        } else {
            0nat
        }
    }
}

/// Whether ids are left for every view that `tasks` create.
pub open spec fn creates_fit(state: ViewState, tasks: Seq<Task>) -> bool {
    state.created + creates(tasks, tasks.len() as int) <= u32::MAX
}

/// The first `m` tasks create no more views than the first `n`, for `m` up
/// to `n`.
pub proof fn lemma_creates_grow(tasks: Seq<Task>, m: int, n: int)
    requires
        m <= n,
    ensures
        creates(tasks, m) <= creates(tasks, n),
    decreases n - m,
{
    if m < n {
        lemma_creates_grow(tasks, m, n - 1);
    }
}

/// While ids are left, a batch moves the number of views ever created on by
/// the views it creates, and every live view stays below that number.
pub proof fn lemma_tasks_keep_ids(state: ViewState, tasks: Seq<Task>, now: u64, n: int)
    requires
        0 <= n <= tasks.len(),
        creates_fit(state, tasks),
    ensures
        state_after(state, tasks, now, n).created == state.created + creates(tasks, n),
        state.wf() ==> state_after(state, tasks, now, n).wf(),
    decreases n,
{
    lemma_creates_grow(tasks, n, tasks.len() as int);
    if n > 0 {
        lemma_tasks_keep_ids(state, tasks, now, n - 1);
        if state.wf() {
            lemma_step_keeps_ids(state_after(state, tasks, now, n - 1), tasks[n - 1].op, now);
        }
    }
}

/// Whether one of the first `n` of `tasks` asks for a repaint at once.
pub open spec fn any_forces_redraw(tasks: Seq<Task>, n: int) -> bool {
    exists|i: int| 0 <= i < n && (#[trigger] tasks[i]).op.forces_redraw()
}

/// Runs the tasks in order against the registry at time `now`. Returns the
/// result of each and the tasks that stay scheduled.
pub fn run_tasks(tasks: &Vec<Task>, views: &mut ViewRegistry, now: u64) -> (r: (Batch, Vec<Task>))
    requires
        creates_fit(old(views).state(), tasks@),
    ensures
        final(views).state() == state_after(old(views).state(), tasks@, now, tasks@.len() as int),
        old(views).state().wf() ==> final(views).state().wf(),
        r.0.results@.len() == tasks@.len(),
        forall|i: int|
            0 <= i < tasks@.len() ==> {
                &&& (#[trigger] r.0.results@[i]).action == state_after(
                    old(views).state(),
                    tasks@,
                    now,
                    i,
                ).action(tasks@[i].op)
                &&& r.0.results@[i].signal == tasks@[i].signal
            },
        r.0.force_redraw == any_forces_redraw(tasks@, tasks@.len() as int),
        r.1@ == kept_of(tasks@),
{
    let mut results: Vec<TaskResult> = Vec::new();
    let mut kept: Vec<Task> = Vec::new();
    let mut force_redraw = false;
    let n = tasks.len();
    let mut i: usize = 0;
    while i < n
        invariant
            i <= n,
            n == tasks@.len(),
            creates_fit(old(views).state(), tasks@),
            views.state() == state_after(old(views).state(), tasks@, now, i as int),
            results@.len() == i,
            forall|j: int|
                0 <= j < i ==> {
                    &&& (#[trigger] results@[j]).action == state_after(
                        old(views).state(),
                        tasks@,
                        now,
                        j,
                    ).action(tasks@[j].op)
                    &&& results@[j].signal == tasks@[j].signal
                },
            force_redraw == any_forces_redraw(tasks@, i as int),
            kept@ == kept_of(tasks@.take(i as int)),
        decreases n - i,
    {
        let task = &tasks[i];
        proof {
            lemma_tasks_keep_ids(old(views).state(), tasks@, now, i as int);
            lemma_creates_grow(tasks@, i + 1, tasks@.len() as int);
        }
        let (action, force) = views.apply(&task.op, now);
        assert(tasks@.take(i + 1).drop_last() =~= tasks@.take(i as int));
        if force {
            force_redraw = true;
        }
        if task.keep_scheduled {
            kept.push(Task { op: task.op.duplicate(), signal: task.signal, keep_scheduled: true });
        }
        results.push(TaskResult { action, signal: task.signal });
        i += 1;
    }
    proof {
        lemma_tasks_keep_ids(old(views).state(), tasks@, now, n as int);
    }
    assert(tasks@.take(n as int) =~= tasks@);
    (Batch { results, force_redraw }, kept)
}

/// The tasks that stay scheduled carry no signal that the batch did not.
pub proof fn lemma_kept_signals(tasks: Seq<Task>, next: u64)
    requires
        signals_below(tasks, next),
    ensures
        signals_below(kept_of(tasks), next),
    decreases tasks.len(),
{
    if tasks.len() > 0 {
        let head = tasks.drop_last();
        assert forall|i: int| 0 <= i < head.len() implies ((#[trigger] head[i]).signal matches Some(s)
            ==> s < next) by {}
        lemma_kept_signals(head, next);
    }
}

/// Whether ids are left for every view that the tasks create.
pub fn tasks_fit(tasks: &Vec<Task>, views: &ViewRegistry) -> (r: bool)
    ensures
        r == creates_fit(views.state(), tasks@),
{
    let left: u32 = u32::MAX - views.created();
    let n = tasks.len();
    let mut needed: u32 = 0;
    let mut i: usize = 0;
    while i < n
        invariant
            i <= n,
            n == tasks@.len(),
            needed == creates(tasks@, i as int),
            needed <= left,
            left == u32::MAX - views.state().created,
        decreases n - i,
    {
        let creates_one = match &tasks[i].op {
            ViewOp::CreateView { .. } => true,
            _ => false,
        };
        if creates_one {
            if needed == left {
                proof {
                    lemma_creates_grow(tasks@, i + 1, n as int);
                }
                return false;
            }
            needed += 1;
        }
        i += 1;
    }
    true
}

/// Whether the mailbox can be drained: it holds a list, and ids are left for
/// every view that its tasks create.
pub fn can_drain(mailbox: &Mailbox, views: &ViewRegistry) -> (r: bool)
    ensures
        r == (mailbox@ is Some && creates_fit(views.state(), mailbox@->0)),
{
    match &mailbox.tasks {
        Some(tasks) => tasks_fit(tasks, views),
        None => false,
    }
}

/// Drains the mailbox at time `now`: takes the whole list, runs it against
/// the registry, and puts the tasks that stay scheduled back. Tasks submitted
/// while the batch runs are not part of it.
pub fn drain(mailbox: &mut Mailbox, views: &mut ViewRegistry, now: u64) -> (r: Batch)
    requires
        old(mailbox).wf(),
        old(mailbox)@ is Some,
        creates_fit(old(views).state(), old(mailbox)@->0),
    ensures
        final(mailbox).wf(),
        ({
            let tasks = old(mailbox)@->0;
            &&& final(mailbox)@ == Some(kept_of(tasks))
            &&& final(views).state() == state_after(old(views).state(), tasks, now, tasks.len() as int)
            &&& old(views).state().wf() ==> final(views).state().wf()
            &&& r.results@.len() == tasks.len()
            &&& forall|i: int|
                0 <= i < tasks.len() ==> {
                    &&& (#[trigger] r.results@[i]).action == state_after(
                        old(views).state(),
                        tasks,
                        now,
                        i,
                    ).action(tasks[i].op)
                    &&& r.results@[i].signal == tasks[i].signal
                }
            &&& r.force_redraw == any_forces_redraw(tasks, tasks.len() as int)
        }),
        final(mailbox).next_signal() == old(mailbox).next_signal(),
{
    let tasks = mailbox.take_all();
    let (batch, kept) = run_tasks(&tasks, views, now);
    proof {
        lemma_kept_signals(tasks@, mailbox.next_signal());
    }
    mailbox.put_back(kept);
    batch
}

/// Where the loop stands in its life.
#[derive(Clone, Copy, Debug, PartialEq, Eq, Structural)]
pub enum Phase {
    Uninitialized,
    Running,
    Draining,
    Stopped,
}

/// What the loop does next.
#[derive(Clone, Copy, Debug, PartialEq, Eq, Structural)]
pub enum Turn {
    /// Sweep the activity of the views, let the engine update and paint,
    /// execute the GPU commands that are there, then drain the mailbox.
    Paint,
    /// Drain the mailbox without painting.
    Tasks,
    /// Shutdown was asked for: drain the mailbox a last time and finish.
    Stop,
}

/// How the loop goes on after a batch.
#[derive(Clone, Copy, Debug, PartialEq, Eq, Structural)]
pub enum Pause {
    /// Go on at once.
    Immediately,
    /// Wait for a task to arrive, at the longest until that time.
    Until(u64),
}

/// The scheduler of the loop.
#[derive(Clone, Copy, Debug, PartialEq, Eq, Structural)]
pub struct RenderLoop {
    pub phase: Phase,
    /// When the next frame is due.
    pub next_frame_time: u64,
    /// Whether the next turn paints: the last wait ran to its deadline, or a
    /// task asked for a repaint.
    pub wakeup_by_timeout: bool,
}

impl RenderLoop {
    /// The scheduler and the turn after the top of an iteration at time
    /// `now`.
    pub open spec fn begun(self, exit_requested: bool, now: u64) -> (RenderLoop, Turn) {
        if exit_requested {
            (RenderLoop { phase: Phase::Draining, ..self }, Turn::Stop)
        } else if self.wakeup_by_timeout {
            (RenderLoop { next_frame_time: (now + FRAME_INTERVAL_MS) as u64, ..self }, Turn::Paint)
        } else {
            (self, Turn::Tasks)
        }
    }

    /// The scheduler and the pause after a batch, with `pending` tasks
    /// submitted in the meantime. A repaint asked for comes first; then work
    /// that is there already, or shutdown, which count as a wait cut short at
    /// once; else the loop waits.
    pub open spec fn batch_done(self, force_redraw: bool, pending: usize, exit_requested: bool) -> (
        RenderLoop,
        Pause,
    ) {
        if force_redraw {
            (RenderLoop { wakeup_by_timeout: true, ..self }, Pause::Immediately)
        } else if pending > 0 || exit_requested {
            (RenderLoop { wakeup_by_timeout: false, ..self }, Pause::Immediately)
        } else {
            (self, Pause::Until(self.next_frame_time))
        }
    }

    /// The scheduler after a wait.
    pub open spec fn waited(self, timed_out: bool) -> RenderLoop {
        RenderLoop { wakeup_by_timeout: timed_out, ..self }
    }

    /// A scheduler of a loop that has not started.
    pub fn new() -> (r: Self)
        ensures
            r == (RenderLoop { phase: Phase::Uninitialized, next_frame_time: 0, wakeup_by_timeout: false }),
    {
        RenderLoop { phase: Phase::Uninitialized, next_frame_time: 0, wakeup_by_timeout: false }
    }

    /// Whether the loop can start: it has not started yet, or has stopped.
    pub fn can_start(&self, mailbox: &Mailbox) -> (r: bool)
        ensures
            r == ((self.phase is Uninitialized || self.phase is Stopped) && mailbox@ is None),
    {
        let idle = match self.phase {
            Phase::Uninitialized => true,
            Phase::Stopped => true,
            _ => false,
        };
        idle && !mailbox.is_open()
    }

    /// Starts the loop at time `now`, once the graphics context, the engine
    /// and the executor exist: the mailbox accepts work from here on, and the
    /// first frame is due at once.
    pub fn start(&mut self, mailbox: &mut Mailbox, now: u64)
        requires
            old(self).phase is Uninitialized || old(self).phase is Stopped,
            old(mailbox)@ is None,
        ensures
            final(mailbox).wf(),
            *final(self) == (RenderLoop {
                phase: Phase::Running,
                next_frame_time: now,
                wakeup_by_timeout: false,
            }),
            final(mailbox)@ == Some(Seq::<Task>::empty()),
            final(mailbox).next_signal() == old(mailbox).next_signal(),
    {
        mailbox.open();
        self.phase = Phase::Running;
        self.next_frame_time = now;
        self.wakeup_by_timeout = false;
    }

    /// The top of an iteration at time `now`. With shutdown asked for, the
    /// loop goes over to draining. Else, where the last wait ran to its
    /// deadline or a task asked for a repaint, the turn paints and the next
    /// frame is due one frame interval from now.
    pub fn begin_iteration(&mut self, exit_requested: bool, now: u64) -> (r: Turn)
        requires
            old(self).phase is Running,
            now + FRAME_INTERVAL_MS <= u64::MAX,
        ensures
            (*final(self), r) == old(self).begun(exit_requested, now),
    {
        if exit_requested {
            self.phase = Phase::Draining;
            Turn::Stop
        } else if self.wakeup_by_timeout {
            self.next_frame_time = now + FRAME_INTERVAL_MS;
            Turn::Paint
        } else {
            Turn::Tasks
        }
    }

    /// After a batch, with `pending` tasks submitted while it ran: where a
    /// task asked for a repaint, the loop goes on at once and the next turn
    /// paints, however far off the next frame is. Else, where tasks wait
    /// already or shutdown is asked for, it goes on at once without painting.
    /// Else it waits for a task until the next frame is due.
    pub fn after_tasks(&mut self, force_redraw: bool, pending: usize, exit_requested: bool) -> (r:
        Pause)
        requires
            old(self).phase is Running,
        ensures
            (*final(self), r) == old(self).batch_done(force_redraw, pending, exit_requested),
    {
        if force_redraw {
            self.wakeup_by_timeout = true;
            Pause::Immediately
        } else if pending > 0 || exit_requested {
            self.wakeup_by_timeout = false;
            Pause::Immediately
        } else {
            Pause::Until(self.next_frame_time)
        }
    }

    /// After a wait: the next turn paints if the wait ran to its deadline,
    /// and does not if a submission cut it short.
    pub fn after_wait(&mut self, timed_out: bool)
        requires
            old(self).phase is Running,
        ensures
            *final(self) == old(self).waited(timed_out),
    {
        self.wakeup_by_timeout = timed_out;
    }

    /// The end of the loop at time `now`: the last drain and the closing of
    /// the mailbox, in one. Every task that waits is run and gets its result,
    /// with its signal, in the batch returned; then the mailbox accepts
    /// nothing any more, and the loop has stopped. Tasks that would stay
    /// scheduled are dropped after this last run.
    pub fn finish(&mut self, mailbox: &mut Mailbox, views: &mut ViewRegistry, now: u64) -> (r: Batch)
        requires
            old(self).phase is Draining,
            old(mailbox).wf(),
            old(mailbox)@ is Some,
            creates_fit(old(views).state(), old(mailbox)@->0),
        ensures
            final(mailbox).wf(),
            *final(self) == (RenderLoop { phase: Phase::Stopped, ..*old(self) }),
            final(mailbox)@ is None,
            final(mailbox).next_signal() == old(mailbox).next_signal(),
            ({
                let tasks = old(mailbox)@->0;
                &&& final(views).state() == state_after(old(views).state(), tasks, now, tasks.len() as int)
                &&& old(views).state().wf() ==> final(views).state().wf()
                &&& r.results@.len() == tasks.len()
                &&& forall|i: int|
                    0 <= i < tasks.len() ==> {
                        &&& (#[trigger] r.results@[i]).action == state_after(
                            old(views).state(),
                            tasks,
                            now,
                            i,
                        ).action(tasks[i].op)
                        &&& r.results@[i].signal == tasks[i].signal
                    }
                &&& r.force_redraw == any_forces_redraw(tasks, tasks.len() as int)
            }),
    {
        let batch = drain(mailbox, views, now);
        mailbox.close();
        self.phase = Phase::Stopped;
        batch
    }
}

/// A task that asks for a repaint makes the loop go on without waiting and
/// paint in its next turn, wherever the next frame's deadline lies, unless
/// shutdown is asked for in between.
pub proof fn lemma_force_redraw_paints(state: RenderLoop, pending: usize, exit_requested: bool, now: u64)
    ensures
        state.batch_done(true, pending, exit_requested).1 == Pause::Immediately,
        state.batch_done(true, pending, exit_requested).0.begun(false, now).1 == Turn::Paint,
{
}

/// A batch in which a resize runs asks for a repaint, whether or not the view
/// of the resize exists.
pub proof fn lemma_resize_forces_redraw(tasks: Seq<Task>, i: int)
    requires
        0 <= i < tasks.len(),
        tasks[i].op is SetSize,
    ensures
        any_forces_redraw(tasks, tasks.len() as int),
{
}

} // verus!
