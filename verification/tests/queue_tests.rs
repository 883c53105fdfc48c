use anime_games_launcher::games::GameVariant;
use anime_games_launcher::progress::Progress;
use anime_games_launcher::queue::{
    ProbeReport, TasksQueueComponent, TasksQueueComponentInput, TasksQueueComponentOutput,
};
use anime_games_launcher::status::GenshinDiffStatus;
use anime_games_launcher::task::{Task, UpdaterHandle};

fn genshin_task(id: u64) -> Task {
    Task::new(GameVariant::Genshin, UpdaterHandle::new(id)).unwrap()
}

#[test]
fn enqueue_into_idle_activates_immediately() {
    let mut queue = TasksQueueComponent::new();
    assert!(queue.current_task.is_none());

    queue.add_task(genshin_task(1));

    let active = queue.current_task.as_ref().expect("task must be active");
    assert_eq!(active.get_updater_id(), 1);
    assert_eq!(queue.queued_tasks.len(), 0);
}

#[test]
fn enqueue_while_busy_appends_in_fifo_order() {
    let mut queue = TasksQueueComponent::new();
    queue.add_task(genshin_task(1));
    queue.add_task(genshin_task(2));
    queue.add_task(genshin_task(3));

    assert_eq!(queue.current_task.as_ref().unwrap().get_updater_id(), 1);
    assert_eq!(queue.queued_tasks.len(), 2);
    assert_eq!(queue.queued_tasks[0].get_updater_id(), 2);
    assert_eq!(queue.queued_tasks[1].get_updater_id(), 3);
}

#[test]
fn tasks_reach_terminal_outcome_in_enqueue_order() {
    let mut queue = TasksQueueComponent::new();
    for id in 1..=3 {
        queue.add_task(genshin_task(id));
    }

    let mut outcomes = Vec::new();
    while let Some(active) = queue.current_task.as_ref() {
        outcomes.push(active.get_updater_id());
        let out = queue.update_current_task(Some(ProbeReport::Finished));
        assert!(out.is_none());
    }

    assert_eq!(outcomes, vec![1, 2, 3]);
    assert_eq!(queue.queued_tasks.len(), 0);
}

#[test]
fn refresh_on_idle_queue_is_a_no_op() {
    let mut queue = TasksQueueComponent::new();
    let out = queue.update_current_task(None);
    assert!(out.is_none());
    assert!(queue.current_task.is_none());
    assert_eq!(queue.current_task_status, "");
}

#[test]
fn refresh_without_report_changes_nothing() {
    let mut queue = TasksQueueComponent::new();
    queue.add_task(genshin_task(1));
    let out = queue.update_current_task(None);
    assert!(out.is_none());
    assert_eq!(queue.current_task.as_ref().unwrap().get_updater_id(), 1);
}

#[test]
fn successful_probe_updates_display_summary_and_progress() {
    let mut queue = TasksQueueComponent::new();
    queue.add_task(genshin_task(1));

    let report = ProbeReport::Running {
        progress: Progress::new(500_000),
        status: Ok(GenshinDiffStatus::Downloading),
    };
    let out = queue.update_current_task(Some(report));

    assert!(out.is_none());
    assert_eq!(queue.current_task_status, "Downloading...");
    assert_eq!(queue.current_task_progress.units(), 500_000);
    let active = queue.current_task.as_ref().unwrap();
    assert_eq!(active.get_progress().units(), 500_000);
}

#[test]
fn status_failure_emits_exactly_one_toast_and_queue_continues() {
    let mut queue = TasksQueueComponent::new();
    queue.add_task(genshin_task(1));

    let report = ProbeReport::Running {
        progress: Progress::new(100_000),
        status: Err(String::from("network unreachable")),
    };
    let out = queue.update_current_task(Some(report));

    match out {
        Some(TasksQueueComponentOutput::ShowToast { title, message }) => {
            assert_eq!(title, "Failed to update current tasks's status");
            assert_eq!(message.as_deref(), Some("network unreachable"));
        }
        None => panic!("a failed status query must produce a notification"),
    }

    // The failure is isolated: the task stays active and the next refresh
    // is processed normally.
    assert_eq!(queue.current_task.as_ref().unwrap().get_updater_id(), 1);
    let out2 = queue.update_current_task(Some(ProbeReport::Running {
        progress: Progress::new(200_000),
        status: Ok(GenshinDiffStatus::Unpacking),
    }));
    assert!(out2.is_none());
    assert_eq!(queue.current_task_status, "Unpacking...");
}

#[test]
fn end_to_end_enqueue_refresh_and_promotion() {
    let mut queue = TasksQueueComponent::new();

    // Enqueue task A: it becomes active at once, nothing pending.
    queue.add_task(genshin_task(1));
    assert_eq!(queue.current_task.as_ref().unwrap().get_updater_id(), 1);
    assert_eq!(queue.queued_tasks.len(), 0);

    // Enqueue task B while busy: A stays active, B waits.
    queue.add_task(genshin_task(2));
    assert_eq!(queue.current_task.as_ref().unwrap().get_updater_id(), 1);
    assert_eq!(queue.queued_tasks.len(), 1);
    assert_eq!(queue.queued_tasks[0].get_updater_id(), 2);

    // A refresh observes A downloading at 0.5.
    let out = queue.update_current_task(Some(ProbeReport::Running {
        progress: Progress::new(500_000),
        status: Ok(GenshinDiffStatus::Downloading),
    }));
    assert!(out.is_none());
    assert_eq!(queue.current_task_status, "Downloading...");
    assert_eq!(queue.current_task_progress.units(), 500_000);

    // A completes: B is promoted, the pending list empties.
    let out = queue.update_current_task(Some(ProbeReport::Finished));
    assert!(out.is_none());
    assert_eq!(queue.current_task.as_ref().unwrap().get_updater_id(), 2);
    assert_eq!(queue.queued_tasks.len(), 0);
    assert_eq!(queue.current_task_status, "");
}

#[test]
fn completion_with_empty_pending_list_goes_idle() {
    let mut queue = TasksQueueComponent::new();
    queue.add_task(genshin_task(1));
    let out = queue.update_current_task(Some(ProbeReport::Finished));
    assert!(out.is_none());
    assert!(queue.current_task.is_none());
    assert_eq!(queue.queued_tasks.len(), 0);
    assert_eq!(queue.current_task_progress.units(), 0);
}

#[test]
fn update_dispatches_both_message_kinds() {
    let mut queue = TasksQueueComponent::new();

    let out = queue.update(TasksQueueComponentInput::AddTask(genshin_task(1)), None);
    assert!(out.is_none());
    assert_eq!(queue.current_task.as_ref().unwrap().get_updater_id(), 1);

    let out = queue.update(
        TasksQueueComponentInput::UpdateCurrentTask,
        Some(ProbeReport::Running {
            progress: Progress::new(250_000),
            status: Ok(GenshinDiffStatus::PreparingTransition),
        }),
    );
    assert!(out.is_none());
    assert_eq!(queue.current_task_status, "Preparing transition...");
}

#[test]
fn get_current_reflects_the_active_slot() {
    let mut queue = TasksQueueComponent::new();
    assert!(queue.get_current().is_none());
    queue.add_task(genshin_task(9));
    assert_eq!(queue.get_current().unwrap().get_updater_id(), 9);
    assert_eq!(queue.get_current().unwrap().get_variant(), GameVariant::Genshin);
}
