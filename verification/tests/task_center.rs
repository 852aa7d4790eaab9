use cluster_core::identifiers::{PartitionId, TaskId};
use cluster_core::task_center::{
    CancellationToken, Poll, ShutdownError, Task, TaskCenter, TaskContext, TaskHandle, TaskKind,
    TaskLocal, TaskState,
};

fn spawn(
    center: &mut TaskCenter,
    name: &str,
    kind: TaskKind,
    partition: Option<u16>,
) -> (TaskContext, TaskHandle<u32>) {
    center.spawn::<u32>(name.to_string(), kind, partition.map(PartitionId))
}

#[test]
fn spawn_registers_a_running_task() {
    let mut center = TaskCenter::new();
    assert_eq!(center.len(), 0);
    assert!(center.has_room());
    let (context, handle) = spawn(&mut center, "reader", TaskKind::ConnectionReader, None);
    assert_eq!(context.id(), TaskId(0));
    assert_eq!(context.name(), "reader");
    assert_eq!(context.kind(), TaskKind::ConnectionReader);
    assert_eq!(context.partition_id(), None);
    assert_eq!(*context.cancellation_token(), CancellationToken { task: TaskId(0) });
    assert_eq!(handle.cancellation_token, CancellationToken { task: TaskId(0) });
    assert_eq!(center.len(), 1);
    let row = center.find(TaskId(0)).expect("registered");
    assert_eq!(row.id(), TaskId(0));
    assert_eq!(row.name(), "reader");
    assert_eq!(row.kind(), TaskKind::ConnectionReader);
    assert_eq!(row.partition_id(), None);
    assert_eq!(row.state, TaskState::Running);
    assert!(!row.cancellation_requested);
    assert!(!handle.is_finished(&center));
    assert!(!handle.is_cancellation_requested(&center));
}

#[test]
fn task_ids_are_given_in_order() {
    let mut center = TaskCenter::new();
    for expected in 0..5u64 {
        let (context, _) = spawn(&mut center, "t", TaskKind::BackgroundScan, None);
        assert_eq!(context.id(), TaskId(expected));
    }
    assert!(center.find(TaskId(5)).is_none());
}

#[test]
fn cancelling_twice_is_cancelling_once() {
    let mut center = TaskCenter::new();
    let (context, handle) = spawn(&mut center, "w", TaskKind::PartitionWorker, Some(1));
    context.cancel(&mut center);
    assert!(handle.is_cancellation_requested(&center));
    let once = format!("{:?}", center.find(context.id()));
    context.cancel(&mut center);
    handle.cancel(&mut center);
    assert_eq!(format!("{:?}", center.find(context.id())), once);
    assert!(handle.is_cancellation_requested(&center));
    assert!(!handle.is_finished(&center));
}

#[test]
fn cancelled_task_still_completes_with_its_result() {
    let mut center = TaskCenter::new();
    let (context, handle) = spawn(&mut center, "w", TaskKind::PartitionWorker, Some(1));
    handle.cancel(&mut center);
    assert!(center.complete_task(context.id()));
    assert!(handle.is_finished(&center));
    assert_eq!(center.find(context.id()).expect("registered").state, TaskState::Completed);
    let joined: Poll<Result<u32, ()>> = Poll::Ready(Ok(7));
    assert_eq!(handle.poll(joined), Poll::Ready(Ok(7)));
}

#[test]
fn aborted_task_is_torn_down() {
    let mut center = TaskCenter::new();
    let (context, handle) = spawn(&mut center, "w", TaskKind::BackgroundScan, None);
    handle.abort(&mut center);
    assert!(handle.is_finished(&center));
    assert_eq!(center.find(context.id()).expect("registered").state, TaskState::Aborted);
    assert!(center.complete_task(context.id()));
    assert_eq!(center.find(context.id()).expect("registered").state, TaskState::Aborted);
    let joined: Poll<Result<u32, &str>> = Poll::Ready(Err("cancelled"));
    assert_eq!(handle.poll(joined), Poll::Ready(Err(ShutdownError)));
}

#[test]
fn completed_task_is_not_aborted_later() {
    let mut center = TaskCenter::new();
    let (context, handle) = spawn(&mut center, "w", TaskKind::BackgroundScan, None);
    assert!(center.complete_task(context.id()));
    handle.abort(&mut center);
    assert_eq!(center.find(context.id()).expect("registered").state, TaskState::Completed);
}

#[test]
fn pending_task_stays_pending_for_the_awaiter() {
    let mut center = TaskCenter::new();
    let (_, handle) = spawn(&mut center, "w", TaskKind::BackgroundScan, None);
    let joined: Poll<Result<u32, ()>> = Poll::Pending;
    assert_eq!(handle.poll(joined), Poll::Pending);
}

#[test]
fn partition_cancellation_leaves_other_tasks_alone() {
    let mut center = TaskCenter::new();
    let mut spawned = Vec::new();
    for n in 0..12u16 {
        let partition = if n % 4 == 3 { None } else { Some(n % 3) };
        let kind = if n % 2 == 0 { TaskKind::PartitionWorker } else { TaskKind::BackgroundScan };
        spawned.push((spawn(&mut center, "p", kind, partition), partition));
    }
    center.cancel_partition(PartitionId(1));
    for ((context, handle), partition) in &spawned {
        let row = center.find(context.id()).expect("registered");
        assert_eq!(row.cancellation_requested, *partition == Some(1));
        assert_eq!(handle.is_cancellation_requested(&center), *partition == Some(1));
        assert_eq!(row.state, TaskState::Running);
        assert_eq!(row.context, *context);
    }
    center.cancel_partition(PartitionId(7));
    for ((context, _), partition) in &spawned {
        let row = center.find(context.id()).expect("registered");
        assert_eq!(row.cancellation_requested, *partition == Some(1));
    }
}

#[test]
fn kind_cancellation_asks_that_kind_only() {
    let mut center = TaskCenter::new();
    let (reader, _) = spawn(&mut center, "r", TaskKind::ConnectionReader, None);
    let (writer, _) = spawn(&mut center, "w", TaskKind::ConnectionWriter, None);
    let (worker, _) = spawn(&mut center, "p", TaskKind::PartitionWorker, Some(2));
    center.cancel_kind(TaskKind::ConnectionWriter);
    assert!(!center.find(reader.id()).expect("registered").cancellation_requested);
    assert!(center.find(writer.id()).expect("registered").cancellation_requested);
    assert!(!center.find(worker.id()).expect("registered").cancellation_requested);
}

#[test]
fn kind_and_partition_narrow_each_other() {
    let mut center = TaskCenter::new();
    let (a, _) = spawn(&mut center, "a", TaskKind::PartitionWorker, Some(1));
    let (b, _) = spawn(&mut center, "b", TaskKind::BackgroundScan, Some(1));
    let (c, _) = spawn(&mut center, "c", TaskKind::PartitionWorker, Some(2));
    center.cancel_tasks(Some(TaskKind::PartitionWorker), Some(PartitionId(1)));
    assert!(center.find(a.id()).expect("registered").cancellation_requested);
    assert!(!center.find(b.id()).expect("registered").cancellation_requested);
    assert!(!center.find(c.id()).expect("registered").cancellation_requested);
    center.cancel_tasks(None, None);
    assert!(center.find(b.id()).expect("registered").cancellation_requested);
    assert!(center.find(c.id()).expect("registered").cancellation_requested);
}

#[test]
fn unknown_task_is_reported() {
    let mut center = TaskCenter::new();
    let (context, _) = spawn(&mut center, "a", TaskKind::BackgroundScan, None);
    assert!(center.cancel_task(context.id()));
    assert!(!center.cancel_task(TaskId(40)));
    assert!(!center.complete_task(TaskId(40)));
    assert!(!center.end_task(TaskId(40), TaskState::Aborted));
    let stray: TaskHandle<u32> = TaskHandle {
        cancellation_token: CancellationToken { task: TaskId(40) },
        output: std::marker::PhantomData,
    };
    assert!(stray.is_finished(&center));
    assert!(!stray.is_cancellation_requested(&center));
}

#[test]
fn row_cancels_itself() {
    let mut center = TaskCenter::new();
    let (context, _) = spawn(&mut center, "a", TaskKind::BackgroundScan, Some(3));
    let mut row = Task {
        context: context.clone(),
        cancellation_requested: false,
        state: TaskState::Running,
    };
    row.cancel();
    assert!(row.cancellation_requested);
    row.cancel();
    assert!(row.cancellation_requested);
    assert_eq!(row.state, TaskState::Running);
    assert_eq!(row.partition_id(), Some(PartitionId(3)));
}

#[test]
fn current_context_is_read_from_the_slot() {
    let mut center = TaskCenter::new();
    let (context, _) = spawn(&mut center, "inside", TaskKind::ConnectionWriter, Some(5));
    let local = TaskLocal::inside(context.clone());
    assert_eq!(TaskContext::current(&local), context);
    assert_eq!(TaskContext::try_current(&local), Some(context.clone()));
    assert_eq!(TaskContext::with_current(&local, |c| c.id()), TaskId(0));
    assert_eq!(
        TaskContext::try_with_current(&local, |c| c.name().len()),
        Some("inside".len())
    );
}

#[test]
fn outside_a_task_there_is_no_context() {
    let local = TaskLocal::outside();
    assert_eq!(TaskContext::try_current(&local), None);
    assert_eq!(TaskContext::try_with_current(&local, |c| c.id()), None);
}

#[test]
fn shutdown_asks_every_task_and_clear_forgets_them() {
    let mut center = TaskCenter::new();
    let (a, _) = spawn(&mut center, "a", TaskKind::ConnectionReader, None);
    let (b, _) = spawn(&mut center, "b", TaskKind::PartitionWorker, Some(4));
    center.shutdown();
    assert!(center.find(a.id()).expect("registered").cancellation_requested);
    assert!(center.find(b.id()).expect("registered").cancellation_requested);
    center.clear();
    assert_eq!(center.len(), 0);
    assert!(center.find(a.id()).is_none());
    let (c, _) = spawn(&mut center, "c", TaskKind::BackgroundScan, None);
    assert_eq!(c.id(), TaskId(2));
}
