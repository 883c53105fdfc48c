//! The queue's ordering guarantee: tasks reach their terminal outcome
//! strictly in the order they were enqueued.
//!
//! The guarantee is about whole histories, so it is stated over an abstract
//! event model: a history is a sequence of [`QueueEvent`]s, and
//! [`run_order`] folds it into the queue's task order (active task first).
//! The controller carries its history as a ghost field and each verified
//! transition extends it by the matching event, so the law proved here
//! holds of every queue the controller can ever reach.

use vstd::prelude::*;

verus! {

/// One abstract step of the queue's life, carrying the updater identity of
/// the task concerned.
#[derive(Debug, Clone, Copy, PartialEq, Eq, Structural)]
pub enum QueueEvent {
    /// A task with this updater identity was enqueued.
    Enqueue(u64),
    /// The active task reached its terminal outcome and left the queue.
    Finish,
}

/// Identities of the tasks enqueued over a history, in enqueue order.
pub open spec fn enqueued_ids(events: Seq<QueueEvent>) -> Seq<u64>
    decreases events.len(),
{
    if events.len() == 0 {
        Seq::<u64>::empty()
    } else {
        enqueued_ids(events.drop_last()) + (match events.last() {
            QueueEvent::Enqueue(id) => seq![id],
            QueueEvent::Finish => Seq::<u64>::empty(),
        })
    }
}

/// The queue's task order (active first, then pending in FIFO order) after
/// a history: an enqueue appends at the tail, a terminal outcome removes
/// the head, and a terminal signal on an empty queue moves nothing.
pub open spec fn run_order(events: Seq<QueueEvent>) -> Seq<u64>
    decreases events.len(),
{
    if events.len() == 0 {
        Seq::<u64>::empty()
    } else {
        let prev = run_order(events.drop_last());
        match events.last() {
            QueueEvent::Enqueue(id) => prev.push(id),
            QueueEvent::Finish => if prev.len() > 0 {
                prev.drop_first()
            } else {
                prev
            },
        }
    }
}

/// How many tasks have reached their terminal outcome over a history.
pub open spec fn completed_count(events: Seq<QueueEvent>) -> nat
    decreases events.len(),
{
    if events.len() == 0 {
        0
    } else {
        let c = completed_count(events.drop_last());
        match events.last() {
            QueueEvent::Enqueue(_) => c,
            QueueEvent::Finish => if run_order(events.drop_last()).len() > 0 {
                (c + 1) as nat
            } else {
                c
            },
        }
    }
}

/// FIFO law: after any history of enqueues and terminal outcomes, the tasks
/// that have completed are exactly the first `completed_count` ever
/// enqueued, and the queue holds exactly the rest, still in enqueue order.
/// In particular the k-th enqueued task occupies the active slot only once
/// the first k have all reached their terminal outcome.
pub proof fn lemma_fifo_order(events: Seq<QueueEvent>)
    ensures
        completed_count(events) <= enqueued_ids(events).len(),
        run_order(events) == enqueued_ids(events).subrange(
            completed_count(events) as int,
            enqueued_ids(events).len() as int,
        ),
    decreases events.len(),
{
    if events.len() == 0 {
        assert(run_order(events) =~= enqueued_ids(events).subrange(0, 0));
    } else {
        let prefix = events.drop_last();
        lemma_fifo_order(prefix);
        let enq_prev = enqueued_ids(prefix);
        let run_prev = run_order(prefix);
        let c_prev = completed_count(prefix);
        match events.last() {
            QueueEvent::Enqueue(id) => {
                assert(enqueued_ids(events) =~= enq_prev.push(id));
                assert(run_order(events) =~= enqueued_ids(events).subrange(
                    completed_count(events) as int,
                    enqueued_ids(events).len() as int,
                ));
            },
            QueueEvent::Finish => {
                assert(enqueued_ids(events) =~= enq_prev);
                if run_prev.len() > 0 {
                    assert(run_order(events) =~= enqueued_ids(events).subrange(
                        completed_count(events) as int,
                        enqueued_ids(events).len() as int,
                    ));
                } else {
                    assert(c_prev == enq_prev.len());
                    assert(run_order(events) =~= enqueued_ids(events).subrange(
                        completed_count(events) as int,
                        enqueued_ids(events).len() as int,
                    ));
                }
            },
        }
    }
}

/// The task at the head of the queue — the active one — is always the next
/// enqueued task that has not completed: the one enqueued right after the
/// `completed_count` tasks that came before it, all of which have already
/// reached their terminal outcome.
pub proof fn lemma_active_is_next_enqueued(events: Seq<QueueEvent>)
    requires
        run_order(events).len() > 0,
    ensures
        completed_count(events) < enqueued_ids(events).len(),
        run_order(events).first() == enqueued_ids(events)[completed_count(events) as int],
{
    lemma_fifo_order(events);
}

/// Extending a history by one enqueue appends that task at the tail of the
/// queue's order.
pub proof fn lemma_run_order_enqueue(events: Seq<QueueEvent>, id: u64)
    ensures
        run_order(events.push(QueueEvent::Enqueue(id))) == run_order(events).push(id),
{
    let extended = events.push(QueueEvent::Enqueue(id));
    assert(extended.drop_last() =~= events);
}

/// Extending a history by one terminal outcome removes the head of the
/// queue's order (and moves nothing on an already empty queue).
pub proof fn lemma_run_order_finish(events: Seq<QueueEvent>)
    ensures
        run_order(events).len() > 0 ==> run_order(events.push(QueueEvent::Finish))
            == run_order(events).drop_first(),
        run_order(events).len() == 0 ==> run_order(events.push(QueueEvent::Finish))
            == run_order(events),
{
    let extended = events.push(QueueEvent::Finish);
    assert(extended.drop_last() =~= events);
}

} // verus!
