//! The task queue and its controller: at most one active task, an ordered
//! FIFO pending list, single concurrent execution, and failure reporting
//! that never destabilizes the rest of the queue.
//!
//! All I/O stays outside: the owner of the real updaters probes the active
//! task's updater between refreshes and hands the outcome in as a plain
//! [`ProbeReport`] value, so every transition below is verified for every
//! possible report.

use vstd::prelude::*;
use std::collections::VecDeque;
use crate::fifo::{
    QueueEvent, run_order, enqueued_ids, completed_count, lemma_fifo_order,
    lemma_run_order_enqueue, lemma_run_order_finish,
};
use crate::progress::Progress;
use crate::status::{GenshinDiffStatus, spec_status_title, spec_map_genshin_status, status_title};
use crate::task::Task;

verus! {

/// What one probe of the active task's updater observed.
pub enum ProbeReport {
    /// The updater signalled terminal completion or unrecoverable failure:
    /// the active task is done and must leave the queue.
    Finished,
    /// The updater is still working: its completion fraction, and its native
    /// status or the fault message the status query failed with.
    Running { progress: Progress, status: Result<GenshinDiffStatus, String> },
}

/// Messages into the queue controller.
pub enum TasksQueueComponentInput {
    /// A user requested an install/update: enqueue the carried task.
    AddTask(Task),
    /// The periodic refresh trigger fired: refresh the active task.
    UpdateCurrentTask,
}

/// Boundary notifications the controller emits toward the user interface.
#[derive(Debug, PartialEq, Eq)]
pub enum TasksQueueComponentOutput {
    ShowToast { title: String, message: Option<String> },
}

/// The queue state owned exclusively by the controller: an optional active
/// task, the display summary and fraction shown for it, and the ordered
/// pending list.
pub struct TasksQueueComponent {
    pub current_task: Option<Task>,
    pub current_task_status: String,
    pub current_task_progress: Progress,
    pub queued_tasks: VecDeque<Task>,
    /// Ghost record of every enqueue and terminal outcome since the queue
    /// was created, in order; the FIFO guarantee is stated over it.
    pub history: Ghost<Seq<QueueEvent>>,
}

/// Updater identities of a run of tasks, in order.
pub open spec fn ids_of(tasks: Seq<Task>) -> Seq<u64> {
    tasks.map_values(|t: Task| t.spec_updater_id())
}

impl TasksQueueComponent {
    /// Idle: no active task. The queue is Busy otherwise.
    pub open spec fn is_idle(&self) -> bool {
        self.current_task is None
    }

    /// Structural invariant of the state machine: when the active slot is
    /// empty the pending list is empty too, since any enqueue into an Idle
    /// queue activates the task at once and eviction promotes the head.
    pub open spec fn wf(&self) -> bool {
        self.current_task is None ==> self.queued_tasks@.len() == 0
    }

    /// Identities of all tasks in the queue, active first, then the pending
    /// list in FIFO order.
    pub open spec fn order_ids(&self) -> Seq<u64> {
        match self.current_task {
            Some(t) => seq![t.spec_updater_id()] + ids_of(self.queued_tasks@),
            None => Seq::<u64>::empty(),
        }
    }

    /// The ghost history is faithful: replaying it in the abstract model
    /// yields exactly the queue's present task order. Established by `new`
    /// and preserved by every transition, so it holds of every queue the
    /// controller can reach.
    pub open spec fn tracks_history(&self) -> bool {
        self.order_ids() == run_order(self.history@)
    }

    /// What enqueueing `task` does: into an Idle queue the task becomes
    /// active at once; into a Busy queue it is appended to the tail of the
    /// pending list. Never a preemption, never a reordering; the display
    /// fields do not move.
    pub open spec fn add_transition(o: Self, f: Self, task: Task) -> bool {
        &&& (o.current_task is None ==> {
            &&& f.current_task == Some(task)
            &&& f.queued_tasks@ == o.queued_tasks@
        })
        &&& (o.current_task is Some ==> {
            &&& f.current_task == o.current_task
            &&& f.queued_tasks@ == o.queued_tasks@.push(task)
        })
        &&& f.current_task_status@ == o.current_task_status@
        &&& f.current_task_progress@ == o.current_task_progress@
    }

    /// What one refresh does, as a relation between the state before (`o`),
    /// the state after (`f`), the probe report and the emitted notification.
    pub open spec fn refresh_transition(
        o: Self,
        f: Self,
        report: Option<ProbeReport>,
        out: Option<TasksQueueComponentOutput>,
    ) -> bool {
        &&& (o.current_task is None ==> Self::refresh_noop(o, f, out))
        &&& (o.current_task is Some ==> match report {
            None => Self::refresh_noop(o, f, out),
            Some(ProbeReport::Finished) => Self::refresh_promote(o, f, out),
            Some(ProbeReport::Running { progress, status }) => Self::refresh_running(
                o,
                f,
                progress,
                status,
                out,
            ),
        })
    }

    /// Nothing to refresh (no active task, or no probe report came):
    /// the state does not move and nothing is emitted.
    pub open spec fn refresh_noop(
        o: Self,
        f: Self,
        out: Option<TasksQueueComponentOutput>,
    ) -> bool {
        &&& f.current_task == o.current_task
        &&& f.queued_tasks@ == o.queued_tasks@
        &&& f.current_task_status@ == o.current_task_status@
        &&& f.current_task_progress@ == o.current_task_progress@
        &&& out is None
    }

    /// The active task reached its terminal outcome: it is evicted, the head
    /// of the pending list (if any) is promoted into the active slot, and
    /// the display is reset to the promoted task. Busy goes to Idle exactly
    /// when the pending list was empty.
    pub open spec fn refresh_promote(
        o: Self,
        f: Self,
        out: Option<TasksQueueComponentOutput>,
    ) -> bool {
        &&& (if o.queued_tasks@.len() > 0 {
            &&& f.current_task == Some(o.queued_tasks@[0])
            &&& f.queued_tasks@ == o.queued_tasks@.drop_first()
            &&& f.current_task_progress@ == o.queued_tasks@[0].spec_progress()
        } else {
            &&& f.current_task is None
            &&& f.queued_tasks@.len() == 0
            &&& f.current_task_progress@ == 0
        })
        &&& f.current_task_status@ == Seq::<char>::empty()
        &&& out is None
    }

    /// The active task is still running: its observed progress is recorded
    /// in the task and shown; on a successful status query the display
    /// summary becomes the unified status title, while a failed one leaves
    /// the summary alone and emits exactly one notification carrying the
    /// updater's message verbatim. The task itself stays active and the
    /// pending list does not move.
    pub open spec fn refresh_running(
        o: Self,
        f: Self,
        progress: Progress,
        status: Result<GenshinDiffStatus, String>,
        out: Option<TasksQueueComponentOutput>,
    ) -> bool {
        &&& f.queued_tasks@ == o.queued_tasks@
        &&& f.current_task matches Some(t2)
            && o.current_task matches Some(t1)
            && t2.spec_variant() == t1.spec_variant()
            && t2.spec_updater_id() == t1.spec_updater_id()
            && t2.spec_progress() == progress@
        &&& f.current_task_progress@ == progress@
        &&& (match status {
            Ok(native) => {
                &&& f.current_task_status@ == spec_status_title(spec_map_genshin_status(native))
                &&& out is None
            },
            Err(message) => {
                &&& f.current_task_status@ == o.current_task_status@
                &&& (out matches Some(TasksQueueComponentOutput::ShowToast { title, message: detail })
                    && (title@ == "Failed to update current tasks's status"@)
                    && (detail matches Some(d) && d@ == message@))
            },
        })
    }

    /// A fresh queue: Idle, nothing pending, nothing displayed, an empty
    /// history.
    pub fn new() -> (r: Self)
        ensures
            r.is_idle(),
            r.queued_tasks@.len() == 0,
            r.current_task_status@ == Seq::<char>::empty(),
            r.current_task_progress@ == 0,
            r.history@ == Seq::<QueueEvent>::empty(),
            r.wf(),
            r.tracks_history(),
    {
        TasksQueueComponent {
            current_task: None,
            current_task_status: String::new(),
            current_task_progress: Progress::zero(),
            queued_tasks: VecDeque::new(),
            history: Ghost(Seq::empty()),
        }
    }

    /// The active task, if any.
    pub fn get_current(&self) -> (r: Option<&Task>)
        ensures
            match self.current_task {
                Some(t) => r matches Some(p) && *p == t,
                None => r is None,
            },
    {
        self.current_task.as_ref()
    }

    /// Enqueue a task: activated at once when the queue is Idle, appended to
    /// the tail of the pending list when it is Busy. The running task is
    /// never preempted and the overall FIFO order gains exactly the new task at
    /// its end.
    pub fn add_task(&mut self, task: Task)
        requires
            old(self).wf(),
        ensures
            final(self).wf(),
            Self::add_transition(*old(self), *final(self), task),
            final(self).order_ids() == old(self).order_ids().push(task.spec_updater_id()),
            final(self).history@ == old(self).history@.push(
                QueueEvent::Enqueue(task.spec_updater_id()),
            ),
            old(self).tracks_history() ==> final(self).tracks_history(),
    {
        let ghost o = *self;
        let ghost tid = task.spec_updater_id();
        if self.current_task.is_none() {
            self.current_task = Some(task);
        } else {
            self.queued_tasks.push_back(task);
        }
        proof {
            self.history@ = o.history@.push(QueueEvent::Enqueue(tid));
            assert(self.order_ids() =~= o.order_ids().push(tid));
            lemma_run_order_enqueue(o.history@, tid);
        }
    }

    /// Process one refresh signal. The probe report is what the owner
    /// observed of the active task's updater since the last refresh; `None`
    /// when there was nothing to probe. Failures are isolated: a failed
    /// status query produces one notification and the queue keeps running.
    pub fn update_current_task(&mut self, report: Option<ProbeReport>) -> (out: Option<
        TasksQueueComponentOutput,
    >)
        requires
            old(self).wf(),
        ensures
            final(self).wf(),
            Self::refresh_transition(*old(self), *final(self), report, out),
            out is Some <==> (old(self).current_task is Some && (report matches Some(
                ProbeReport::Running { status: Err(_), .. },
            ))),
            (old(self).current_task is Some && (report matches Some(ProbeReport::Finished)))
                ==> final(self).order_ids() == old(self).order_ids().drop_first(),
            !(old(self).current_task is Some && (report matches Some(ProbeReport::Finished)))
                ==> final(self).order_ids() == old(self).order_ids(),
            (old(self).current_task is Some && (report matches Some(ProbeReport::Finished)))
                ==> final(self).history@ == old(self).history@.push(QueueEvent::Finish),
            !(old(self).current_task is Some && (report matches Some(ProbeReport::Finished)))
                ==> final(self).history@ == old(self).history@,
            old(self).tracks_history() ==> final(self).tracks_history(),
    {
        let ghost o = *self;
        if self.current_task.is_none() {
            return None;
        }
        match report {
            None => None,
            Some(ProbeReport::Finished) => {
                match self.queued_tasks.pop_front() {
                    Some(next) => {
                        self.current_task_progress = next.get_progress();
                        self.current_task = Some(next);
                    },
                    None => {
                        self.current_task = None;
                        self.current_task_progress = Progress::zero();
                    },
                }
                self.current_task_status = String::new();
                proof {
                    self.history@ = o.history@.push(QueueEvent::Finish);
                    assert(self.order_ids() =~= o.order_ids().drop_first());
                    if o.tracks_history() {
                        lemma_run_order_finish(o.history@);
                    }
                }
                None
            },
            Some(ProbeReport::Running { progress, status }) => {
                let mut task = self.current_task.take().unwrap();
                task.record_progress(progress);
                self.current_task_progress = progress;
                let unified = task.get_unified_status(status);
                self.current_task = Some(task);
                let out = match unified {
                    Ok(status) => {
                        self.current_task_status = status_title(status);
                        None
                    },
                    Err(err) => Some(TasksQueueComponentOutput::ShowToast {
                        title: String::from_str("Failed to update current tasks's status"),
                        message: Some(err.message),
                    }),
                };
                proof {
                    assert(self.order_ids() =~= o.order_ids());
                }
                out
            },
        }
    }

    /// Process one controller message, the single entry point of the owner's
    /// message loop: `AddTask` enqueues (and never emits anything),
    /// `UpdateCurrentTask` refreshes the active task against the probe
    /// report.
    pub fn update(&mut self, msg: TasksQueueComponentInput, report: Option<ProbeReport>) -> (out:
        Option<TasksQueueComponentOutput>)
        requires
            old(self).wf(),
        ensures
            final(self).wf(),
            (msg matches TasksQueueComponentInput::AddTask(task) ==> Self::add_transition(
                *old(self),
                *final(self),
                task,
            ) && out is None),
            (msg is UpdateCurrentTask ==> Self::refresh_transition(
                *old(self),
                *final(self),
                report,
                out,
            )),
            old(self).tracks_history() ==> final(self).tracks_history(),
    {
        match msg {
            TasksQueueComponentInput::AddTask(task) => {
                self.add_task(task);
                None
            },
            TasksQueueComponentInput::UpdateCurrentTask => self.update_current_task(report),
        }
    }
}

/// FIFO guarantee of the controller: in every state it can reach — one
/// whose ghost history it has tracked faithfully since `new` — the tasks
/// still in the queue are exactly the enqueued ones that have not reached
/// their terminal outcome, in enqueue order; and the active slot holds the
/// task enqueued right after the `completed_count` already-terminal ones.
/// So the k-th enqueued task becomes active only after the k tasks before
/// it have all reached their terminal outcome.
pub proof fn lemma_controller_fifo(q: TasksQueueComponent)
    requires
        q.tracks_history(),
    ensures
        completed_count(q.history@) <= enqueued_ids(q.history@).len(),
        q.order_ids() == enqueued_ids(q.history@).subrange(
            completed_count(q.history@) as int,
            enqueued_ids(q.history@).len() as int,
        ),
        q.current_task matches Some(t) ==> completed_count(q.history@) < enqueued_ids(
            q.history@,
        ).len() && t.spec_updater_id() == enqueued_ids(q.history@)[completed_count(
            q.history@,
        ) as int],
{
    lemma_fifo_order(q.history@);
    match q.current_task {
        Some(t) => {
            assert(q.order_ids() == seq![t.spec_updater_id()] + ids_of(q.queued_tasks@));
            assert(q.order_ids().len() > 0);
            assert(q.order_ids()[0] == t.spec_updater_id());
        },
        None => {},
    }
}

} // verus!
