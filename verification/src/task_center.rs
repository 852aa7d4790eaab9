//! The table of managed tasks: every long-running piece of work is
//! registered here with its name, kind and partition, can be asked to stop
//! one by one or in bulk, and can be torn down.
//!
//! The table decides and remembers; it runs nothing. Whoever runs the tasks
//! tells it when a task has finished and asks it whether a task was asked
//! to stop. A task learns who it is from the slot that its runner fills
//! while the task runs.

use vstd::prelude::*;
use std::marker::PhantomData;
use crate::identifiers::{PartitionId, TaskId};

verus! {

/// What a task is for.
#[derive(Clone, Copy, Debug, PartialEq, Eq, Structural, Hash)]
pub enum TaskKind {
    /// Reads the frames of one connection.
    ConnectionReader,
    /// Writes the frames of one connection.
    ConnectionWriter,
    /// Walks stored data in the background.
    BackgroundScan,
    /// Works for one partition.
    PartitionWorker,
}

/// The task was torn down: it was aborted, or the runtime that ran it is gone.
#[derive(Clone, Copy, Debug, PartialEq, Eq, Structural, Hash)]
pub struct ShutdownError;

/// The handle by which a task is asked to stop. It names the task; the table
/// remembers whether the task was asked.
#[derive(Clone, Copy, Debug, PartialEq, Eq, Structural, Hash)]
pub struct CancellationToken {
    pub task: TaskId,
}

/// Who a task is: a light description that may be copied freely.
#[derive(Debug, PartialEq, Eq)]
pub struct TaskContext {
    pub id: TaskId,
    pub name: String,
    pub kind: TaskKind,
    /// Cancel through this token to ask the task to stop.
    pub cancellation_token: CancellationToken,
    /// Set on tasks that work for one partition, so that all tasks of a
    /// partition can be asked to stop together.
    pub partition_id: Option<PartitionId>,
}

impl Clone for TaskContext {
    fn clone(&self) -> (copy: Self)
        ensures
            copy == *self,
    {
        TaskContext {
            id: self.id,
            name: self.name.clone(),
            kind: self.kind,
            cancellation_token: self.cancellation_token,
            partition_id: self.partition_id,
        }
    }
}

/// How far a task has come.
#[derive(Clone, Copy, Debug, PartialEq, Eq, Structural, Hash)]
pub enum TaskState {
    /// Registered and not yet finished.
    Running,
    /// Ran to its end.
    Completed,
    /// Torn down before it ran to its end.
    Aborted,
}

/// One row of the table.
#[derive(Debug, PartialEq, Eq)]
pub struct Task {
    pub context: TaskContext,
    /// Whether the task was asked to stop. Once set, it stays set.
    pub cancellation_requested: bool,
    pub state: TaskState,
}

/// The slot in which a runner keeps the context of the task that it runs.
/// Outside a managed task the slot is empty.
#[derive(Debug, PartialEq, Eq)]
pub struct TaskLocal {
    pub context: Option<TaskContext>,
}

/// What an awaiter learns when it asks for a task's result.
#[derive(Debug, PartialEq, Eq)]
pub enum Poll<T> {
    Ready(T),
    Pending,
}

/// The spawner's handle to a task and to its result of type `T`.
#[derive(Debug)]
pub struct TaskHandle<T> {
    pub cancellation_token: CancellationToken,
    pub output: PhantomData<T>,
}

/// `task`, asked to stop.
pub open spec fn with_cancellation(task: Task) -> Task {
    Task { cancellation_requested: true, ..task }
}

/// `task` in `state`, if it still runs; a finished task keeps its state.
pub open spec fn with_end(task: Task, state: TaskState) -> Task {
    if task.state == TaskState::Running {
        Task { state, ..task }
    } else {
        task
    }
}

/// Whether a bulk cancellation for `kind` and `partition_id` means `task`:
/// each of the two narrows the choice where it is given.
pub open spec fn is_selected(
    task: Task,
    kind: Option<TaskKind>,
    partition_id: Option<PartitionId>,
) -> bool {
    &&& kind matches Some(k) ==> task.context.kind == k
    &&& partition_id matches Some(p) ==> task.context.partition_id == Some(p)
}

/// The table after the task named `id` was asked to stop.
pub open spec fn cancel_one(tasks: Seq<Task>, id: TaskId) -> Seq<Task> {
    tasks.map_values(
        |task: Task|
            if task.context.id == id {
                with_cancellation(task)
            } else {
                task
            },
    )
}

/// The table after every task of `kind` and `partition_id` was asked to stop.
pub open spec fn cancel_selected(
    tasks: Seq<Task>,
    kind: Option<TaskKind>,
    partition_id: Option<PartitionId>,
) -> Seq<Task> {
    tasks.map_values(
        |task: Task|
            if is_selected(task, kind, partition_id) {
                with_cancellation(task)
            } else {
                task
            },
    )
}

/// The table after the task named `id` ended in `state`.
pub open spec fn end_one(tasks: Seq<Task>, id: TaskId, state: TaskState) -> Seq<Task> {
    tasks.map_values(
        |task: Task|
            if task.context.id == id {
                with_end(task, state)
            } else {
                task
            },
    )
}

/// Whether the row at `i` is the one of the task named `id`.
pub open spec fn row_of(tasks: Seq<Task>, i: int, id: TaskId) -> bool {
    0 <= i < tasks.len() && tasks[i].context.id == id
}

/// Whether the table holds a task named `id`.
pub open spec fn is_registered(tasks: Seq<Task>, id: TaskId) -> bool {
    exists|i: int| row_of(tasks, i, id)
}

/// The row of the task named `id`, where the table holds one.
pub open spec fn row(tasks: Seq<Task>, id: TaskId) -> Task {
    tasks[choose|i: int| row_of(tasks, i, id)]
}

/// The rows stand in the order of their ids, each id below `next_id`, and
/// each task's token names the task.
pub open spec fn rows_in_order(tasks: Seq<Task>, next_id: nat) -> bool {
    &&& forall|i: int| 0 <= i < tasks.len() ==> (#[trigger] tasks[i]).context.id.0 < next_id
    &&& forall|i: int, j: int|
        0 <= i < j < tasks.len() ==> (#[trigger] tasks[i]).context.id.0 < (
        #[trigger] tasks[j]).context.id.0
    &&& forall|i: int|
        0 <= i < tasks.len() ==> (#[trigger] tasks[i]).context.cancellation_token.task
            == tasks[i].context.id
}

impl TaskLocal {
    /// The slot outside any managed task.
    pub fn outside() -> (local: Self)
        ensures
            local.context is None,
    {
        TaskLocal { context: None }
    }

    /// The slot while the task described by `context` runs.
    pub fn inside(context: TaskContext) -> (local: Self)
        ensures
            local.context == Some(context),
    {
        TaskLocal { context: Some(context) }
    }
}

impl TaskContext {
    /// The context of the running task. Outside a managed task there is
    /// none, and the call is a fault of the caller.
    pub fn current(local: &TaskLocal) -> (context: Self)
        requires
            local.context is Some,
        ensures
            Some(context) == local.context,
    {
        match &local.context {
            Some(context) => context.clone(),
            None => vstd::pervasive::unreached(),
        }
    }

    /// Runs `f` on the context of the running task. Outside a managed task
    /// there is none, and the call is a fault of the caller.
    pub fn with_current<F, R>(local: &TaskLocal, f: F) -> (result: R) where
        F: FnOnce(&TaskContext) -> R,

        requires
            local.context is Some,
            f.requires((&local.context->0,)),
        ensures
            f.ensures((&local.context->0,), result),
    {
        match &local.context {
            Some(context) => f(context),
            None => vstd::pervasive::unreached(),
        }
    }

    /// Runs `f` on the context of the running task, if there is one.
    pub fn try_with_current<F, R>(local: &TaskLocal, f: F) -> (result: Option<R>) where
        F: FnOnce(&TaskContext) -> R,

        requires
            local.context is Some ==> f.requires((&local.context->0,)),
        ensures
            local.context is None ==> result is None,
            local.context is Some ==> result is Some && f.ensures(
                (&local.context->0,),
                result->0,
            ),
    {
        match &local.context {
            Some(context) => Some(f(context)),
            None => None,
        }
    }

    /// The context of the running task, if there is one.
    pub fn try_current(local: &TaskLocal) -> (context: Option<Self>)
        ensures
            context == local.context,
    {
        match &local.context {
            Some(context) => Some(context.clone()),
            None => None,
        }
    }

    pub fn id(&self) -> (id: TaskId)
        ensures
            id == self.id,
    {
        self.id
    }

    pub fn name(&self) -> (name: &str)
        ensures
            name@ == self.name@,
    {
        self.name.as_str()
    }

    pub fn kind(&self) -> (kind: TaskKind)
        ensures
            kind == self.kind,
    {
        self.kind
    }

    pub fn partition_id(&self) -> (partition_id: Option<PartitionId>)
        ensures
            partition_id == self.partition_id,
    {
        self.partition_id
    }

    pub fn cancellation_token(&self) -> (token: &CancellationToken)
        ensures
            *token == self.cancellation_token,
    {
        &self.cancellation_token
    }

    /// Asks the task to stop. Asking again changes nothing.
    pub fn cancel(&self, center: &mut TaskCenter)
        requires
            old(center).wf(),
        ensures
            final(center).wf(),
            final(center)@ == cancel_one(old(center)@, self.cancellation_token.task),
            final(center).next_id() == old(center).next_id(),
    {
        center.cancel_task(self.cancellation_token.task);
    }
}

impl Task {
    pub fn id(&self) -> (id: TaskId)
        ensures
            id == self.context.id,
    {
        self.context.id
    }

    pub fn name(&self) -> (name: &str)
        ensures
            name@ == self.context.name@,
    {
        self.context.name.as_str()
    }

    pub fn kind(&self) -> (kind: TaskKind)
        ensures
            kind == self.context.kind,
    {
        self.context.kind
    }

    pub fn partition_id(&self) -> (partition_id: Option<PartitionId>)
        ensures
            partition_id == self.context.partition_id,
    {
        self.context.partition_id
    }

    /// Asks the task to stop. Asking again changes nothing.
    pub fn cancel(&mut self)
        ensures
            *final(self) == with_cancellation(*old(self)),
    {
        self.cancellation_requested = true;
    }
}

impl<T> TaskHandle<T> {
    /// Tears the task down. A task that has finished stays as it finished.
    pub fn abort(&self, center: &mut TaskCenter)
        requires
            old(center).wf(),
        ensures
            final(center).wf(),
            final(center)@ == end_one(
                old(center)@,
                self.cancellation_token.task,
                TaskState::Aborted,
            ),
            final(center).next_id() == old(center).next_id(),
    {
        center.end_task(self.cancellation_token.task, TaskState::Aborted);
    }

    /// Asks the task to stop in its own time. Asking again changes nothing.
    pub fn cancel(&self, center: &mut TaskCenter)
        requires
            old(center).wf(),
        ensures
            final(center).wf(),
            final(center)@ == cancel_one(old(center)@, self.cancellation_token.task),
            final(center).next_id() == old(center).next_id(),
    {
        center.cancel_task(self.cancellation_token.task);
    }

    /// Whether the task was asked to stop. That says nothing on whether it
    /// has finished. A task that the table does not hold was never asked.
    pub fn is_cancellation_requested(&self, center: &TaskCenter) -> (requested: bool)
        requires
            center.wf(),
        ensures
            requested == (is_registered(center@, self.cancellation_token.task) && row(
                center@,
                self.cancellation_token.task,
            ).cancellation_requested),
    {
        match center.find(self.cancellation_token.task) {
            Some(task) => task.cancellation_requested,
            None => false,
        }
    }

    /// Whether the task has finished, by running to its end or by being torn
    /// down. A task that the table does not hold counts as finished.
    pub fn is_finished(&self, center: &TaskCenter) -> (finished: bool)
        requires
            center.wf(),
        ensures
            finished == !(is_registered(center@, self.cancellation_token.task) && row(
                center@,
                self.cancellation_token.task,
            ).state == TaskState::Running),
    {
        match center.find(self.cancellation_token.task) {
            Some(task) => !matches!(task.state, TaskState::Running),
            None => true,
        }
    }

    /// What the awaiter of this handle learns from what the runtime says of
    /// the task: nothing while the runtime waits, the task's result when it
    /// ran to its end, and for every failure of the runtime the one error
    /// that the task was torn down.
    pub fn poll<E>(&self, inner: Poll<Result<T, E>>) -> (outcome: Poll<Result<T, ShutdownError>>)
        ensures
            outcome == awaited::<T, E>(inner),
    {
        match inner {
            Poll::Pending => Poll::Pending,
            Poll::Ready(Ok(value)) => Poll::Ready(Ok(value)),
            Poll::Ready(Err(_)) => Poll::Ready(Err(ShutdownError)),
        }
    }
}

/// What an awaiter learns from what the runtime says of a task.
pub open spec fn awaited<T, E>(inner: Poll<Result<T, E>>) -> Poll<Result<T, ShutdownError>> {
    match inner {
        Poll::Pending => Poll::Pending,
        Poll::Ready(Ok(value)) => Poll::Ready(Ok(value)),
        Poll::Ready(Err(_)) => Poll::Ready(Err(ShutdownError)),
    }
}

/// The table of the tasks of one process.
pub struct TaskCenter {
    tasks: Vec<Task>,
    next_id: u64,
}

impl View for TaskCenter {
    type V = Seq<Task>;

    closed spec fn view(&self) -> Seq<Task> {
        self.tasks@
    }
}

impl TaskCenter {
    /// The id that the next task gets.
    pub closed spec fn next_id(&self) -> nat {
        self.next_id as nat
    }

    /// The rows stand in the order in which the tasks were spawned, and no
    /// id is used twice.
    pub open spec fn wf(&self) -> bool {
        rows_in_order(self@, self.next_id())
    }

    /// A table without tasks.
    pub fn new() -> (center: Self)
        ensures
            center.wf(),
            center@ == Seq::<Task>::empty(),
            center.next_id() == 0,
    {
        TaskCenter { tasks: Vec::new(), next_id: 0 }
    }

    /// Whether the table can still name another task.
    pub fn has_room(&self) -> (room: bool)
        ensures
            room == (self.next_id() < u64::MAX),
    {
        self.next_id < u64::MAX
    }

    /// Registers a task. The task gets the next id and a token of its own;
    /// it runs, and was not asked to stop.
    pub fn spawn<T>(
        &mut self,
        name: String,
        kind: TaskKind,
        partition_id: Option<PartitionId>,
    ) -> (spawned: (TaskContext, TaskHandle<T>))
        requires
            old(self).wf(),
            old(self).next_id() < u64::MAX,
        ensures
            final(self).wf(),
            final(self).next_id() == old(self).next_id() + 1,
            spawned.0.id.0 == old(self).next_id(),
            spawned.0.name == name,
            spawned.0.kind == kind,
            spawned.0.partition_id == partition_id,
            spawned.0.cancellation_token.task == spawned.0.id,
            spawned.1.cancellation_token == spawned.0.cancellation_token,
            final(self)@ == old(self)@.push(
                Task {
                    context: spawned.0,
                    cancellation_requested: false,
                    state: TaskState::Running,
                },
            ),
    {
        let id = TaskId(self.next_id);
        let token = CancellationToken { task: id };
        let context = TaskContext { id, name, kind, cancellation_token: token, partition_id };
        let copy = context.clone();
        self.tasks.push(
            Task { context, cancellation_requested: false, state: TaskState::Running },
        );
        self.next_id = self.next_id + 1;
        (copy, TaskHandle { cancellation_token: token, output: PhantomData })
    }

    /// The place of the task named `id` in the table.
    fn position(&self, id: TaskId) -> (found: Option<usize>)
        ensures
            match found {
                Some(i) => row_of(self@, i as int, id),
                None => !is_registered(self@, id),
            },
    {
        let mut i: usize = 0;
        while i < self.tasks.len()
            invariant
                i <= self.tasks.len(),
                forall|j: int| 0 <= j < i ==> !row_of(self.tasks@, j, id),
            decreases self.tasks.len() - i,
        {
            if self.tasks[i].context.id.0 == id.0 {
                return Some(i);
            }
            i += 1;
        }
        None
    }

    /// The row of the task named `id`, if the table holds it.
    pub fn find(&self, id: TaskId) -> (task: Option<&Task>)
        requires
            self.wf(),
        ensures
            task is Some <==> is_registered(self@, id),
            task matches Some(t) ==> *t == row(self@, id),
    {
        match self.position(id) {
            Some(i) => {
                proof {
                    lemma_row_is_unique(self@, self.next_id(), i as int, id);
                }
                Some(&self.tasks[i])
            },
            None => None,
        }
    }

    /// How many tasks the table holds.
    pub fn len(&self) -> (count: usize)
        ensures
            count == self@.len(),
    {
        self.tasks.len()
    }

    /// Asks the task named `id` to stop. Says whether the table holds it.
    pub fn cancel_task(&mut self, id: TaskId) -> (known: bool)
        requires
            old(self).wf(),
        ensures
            final(self).wf(),
            known == is_registered(old(self)@, id),
            final(self)@ == cancel_one(old(self)@, id),
            final(self).next_id() == old(self).next_id(),
    {
        match self.position(id) {
            Some(i) => {
                self.tasks[i].cancellation_requested = true;
                proof {
                    lemma_row_is_unique(old(self)@, old(self).next_id(), i as int, id);
                    assert forall|j: int| 0 <= j < self@.len() implies self@[j] == cancel_one(
                        old(self)@,
                        id,
                    )[j] by {
                        if j != i {
                            assert(!row_of(old(self)@, j, id)) by {
                                if row_of(old(self)@, j, id) {
                                    lemma_row_is_unique(
                                        old(self)@,
                                        old(self).next_id(),
                                        j,
                                        id,
                                    );
                                }
                            }
                        }
                    }
                    assert(self@ =~= cancel_one(old(self)@, id));
                }
                true
            },
            None => {
                proof {
                    assert forall|j: int| 0 <= j < self@.len() implies self@[j] == cancel_one(
                        old(self)@,
                        id,
                    )[j] by {
                        assert(!row_of(old(self)@, j, id));
                    }
                    assert(self@ =~= cancel_one(old(self)@, id));
                }
                false
            },
        }
    }

    /// Records that the task named `id` ended in `state`, unless it has
    /// ended before. Says whether the table holds the task.
    pub fn end_task(&mut self, id: TaskId, state: TaskState) -> (known: bool)
        requires
            old(self).wf(),
        ensures
            final(self).wf(),
            known == is_registered(old(self)@, id),
            final(self)@ == end_one(old(self)@, id, state),
            final(self).next_id() == old(self).next_id(),
    {
        match self.position(id) {
            Some(i) => {
                if matches!(self.tasks[i].state, TaskState::Running) {
                    self.tasks[i].state = state;
                }
                proof {
                    assert forall|j: int| 0 <= j < self@.len() implies self@[j] == end_one(
                        old(self)@,
                        id,
                        state,
                    )[j] by {
                        if j != i {
                            assert(!row_of(old(self)@, j, id)) by {
                                if row_of(old(self)@, j, id) {
                                    lemma_row_is_unique(
                                        old(self)@,
                                        old(self).next_id(),
                                        j,
                                        id,
                                    );
                                    lemma_row_is_unique(
                                        old(self)@,
                                        old(self).next_id(),
                                        i as int,
                                        id,
                                    );
                                }
                            }
                        }
                    }
                    assert(self@ =~= end_one(old(self)@, id, state));
                }
                true
            },
            None => {
                proof {
                    assert forall|j: int| 0 <= j < self@.len() implies self@[j] == end_one(
                        old(self)@,
                        id,
                        state,
                    )[j] by {
                        assert(!row_of(old(self)@, j, id));
                    }
                    assert(self@ =~= end_one(old(self)@, id, state));
                }
                false
            },
        }
    }

    /// Records that the task named `id` ran to its end. A task that was
    /// torn down before stays torn down.
    pub fn complete_task(&mut self, id: TaskId) -> (known: bool)
        requires
            old(self).wf(),
        ensures
            final(self).wf(),
            known == is_registered(old(self)@, id),
            final(self)@ == end_one(old(self)@, id, TaskState::Completed),
            final(self).next_id() == old(self).next_id(),
    {
        self.end_task(id, TaskState::Completed)
    }

    /// Asks every task of `kind` and of `partition_id` to stop. Where one of
    /// the two is not given, it narrows nothing; where none is given, every
    /// task is asked. Tasks that are not meant stay as they are.
    pub fn cancel_tasks(&mut self, kind: Option<TaskKind>, partition_id: Option<PartitionId>)
        requires
            old(self).wf(),
        ensures
            final(self).wf(),
            final(self)@ == cancel_selected(old(self)@, kind, partition_id),
            final(self).next_id() == old(self).next_id(),
    {
        let mut i: usize = 0;
        while i < self.tasks.len()
            invariant
                i <= self.tasks.len(),
                self.next_id == old(self).next_id,
                self.tasks@.len() == old(self).tasks@.len(),
                forall|j: int|
                    0 <= j < i ==> self.tasks@[j] == cancel_selected(
                        old(self).tasks@,
                        kind,
                        partition_id,
                    )[j],
                forall|j: int| i <= j < self.tasks@.len() ==> self.tasks@[j] == old(self).tasks@[j],
            decreases self.tasks.len() - i,
        {
            let kind_fits = match kind {
                Some(k) => self.tasks[i].context.kind == k,
                None => true,
            };
            let partition_fits = match partition_id {
                Some(p) => match self.tasks[i].context.partition_id {
                    Some(q) => q.0 == p.0,
                    None => false,
                },
                None => true,
            };
            if kind_fits && partition_fits {
                self.tasks[i].cancellation_requested = true;
            }
            i += 1;
        }
        assert(self@ =~= cancel_selected(old(self)@, kind, partition_id));
    }

    /// Asks every task to stop, as a process does that shuts down.
    pub fn shutdown(&mut self)
        requires
            old(self).wf(),
        ensures
            final(self).wf(),
            final(self)@ == cancel_selected(old(self)@, None::<TaskKind>, None::<PartitionId>),
            forall|i: int| 0 <= i < final(self)@.len() ==> final(self)@[i].cancellation_requested,
            final(self).next_id() == old(self).next_id(),
    {
        self.cancel_tasks(None, None);
    }

    /// Forgets every task. Ids that were given are not given again.
    pub fn clear(&mut self)
        ensures
            final(self)@ == Seq::<Task>::empty(),
            final(self).next_id() == old(self).next_id(),
            old(self).wf() ==> final(self).wf(),
    {
        self.tasks.clear();
    }

    /// Asks every task of `kind` to stop.
    pub fn cancel_kind(&mut self, kind: TaskKind)
        requires
            old(self).wf(),
        ensures
            final(self).wf(),
            final(self)@ == cancel_selected(
                old(self)@,
                Some(kind),
                None::<PartitionId>,
            ),
            final(self).next_id() == old(self).next_id(),
    {
        self.cancel_tasks(Some(kind), None);
    }

    /// Asks every task that works for `partition_id` to stop.
    pub fn cancel_partition(&mut self, partition_id: PartitionId)
        requires
            old(self).wf(),
        ensures
            final(self).wf(),
            final(self)@ == cancel_selected(
                old(self)@,
                None::<TaskKind>,
                Some(partition_id),
            ),
            final(self).next_id() == old(self).next_id(),
    {
        self.cancel_tasks(None, Some(partition_id));
    }
}

/// In a table whose rows stand in order, a task has one row only.
pub proof fn lemma_row_is_unique(tasks: Seq<Task>, next_id: nat, i: int, id: TaskId)
    requires
        rows_in_order(tasks, next_id),
        row_of(tasks, i, id),
    ensures
        is_registered(tasks, id),
        row(tasks, id) == tasks[i],
        forall|j: int| row_of(tasks, j, id) ==> j == i,
{
    assert forall|j: int| row_of(tasks, j, id) implies j == i by {
        if j < i {
            assert(tasks[j].context.id.0 < tasks[i].context.id.0);
        } else if i < j {
            assert(tasks[i].context.id.0 < tasks[j].context.id.0);
        }
    }
}


/// Asking a task to stop twice is the same as asking once, through whichever
/// handle the task is asked.
pub proof fn lemma_cancel_is_idempotent(tasks: Seq<Task>, id: TaskId)
    ensures
        cancel_one(cancel_one(tasks, id), id) == cancel_one(tasks, id),
{
    assert(cancel_one(cancel_one(tasks, id), id) =~= cancel_one(tasks, id));
}

/// Asking the tasks of a kind and partition to stop twice is the same as
/// asking once.
pub proof fn lemma_bulk_cancel_is_idempotent(
    tasks: Seq<Task>,
    kind: Option<TaskKind>,
    partition_id: Option<PartitionId>,
)
    ensures
        cancel_selected(cancel_selected(tasks, kind, partition_id), kind, partition_id)
            == cancel_selected(tasks, kind, partition_id),
{
    assert(cancel_selected(cancel_selected(tasks, kind, partition_id), kind, partition_id)
        =~= cancel_selected(tasks, kind, partition_id));
}

/// Asking a task to stop changes nothing but the request itself: every row
/// keeps its context and its state, so a task that was asked to stop and
/// then ran to its end has completed, and its awaiter gets its result.
pub proof fn lemma_cancelled_task_may_complete<T, E>(tasks: Seq<Task>, id: TaskId, i: int, value: T)
    requires
        0 <= i < tasks.len(),
        tasks[i].context.id == id,
        tasks[i].state == TaskState::Running,
    ensures
        cancel_one(tasks, id)[i].context == tasks[i].context,
        cancel_one(tasks, id)[i].state == TaskState::Running,
        cancel_one(tasks, id)[i].cancellation_requested,
        end_one(cancel_one(tasks, id), id, TaskState::Completed)[i].state == TaskState::Completed,
        awaited::<T, E>(Poll::Ready(Ok(value))) == Poll::Ready(Ok::<T, ShutdownError>(value)),
{
}

/// A bulk cancellation by partition asks exactly the tasks of that partition
/// to stop. A task of another partition or of none stays as it is, and no
/// task changes its context or its state.
pub proof fn lemma_partition_cancellation_is_scoped(
    tasks: Seq<Task>,
    partition_id: PartitionId,
    i: int,
)
    requires
        0 <= i < tasks.len(),
    ensures
        cancel_selected(tasks, None, Some(partition_id)).len() == tasks.len(),
        tasks[i].context.partition_id == Some(partition_id) ==> cancel_selected(
            tasks,
            None,
            Some(partition_id),
        )[i] == with_cancellation(tasks[i]),
        tasks[i].context.partition_id != Some(partition_id) ==> cancel_selected(
            tasks,
            None,
            Some(partition_id),
        )[i] == tasks[i],
        cancel_selected(tasks, None, Some(partition_id))[i].context == tasks[i].context,
        cancel_selected(tasks, None, Some(partition_id))[i].state == tasks[i].state,
{
}

/// A bulk cancellation by kind asks exactly the tasks of that kind to stop.
pub proof fn lemma_kind_cancellation_is_scoped(tasks: Seq<Task>, kind: TaskKind, i: int)
    requires
        0 <= i < tasks.len(),
    ensures
        cancel_selected(tasks, Some(kind), None).len() == tasks.len(),
        tasks[i].context.kind == kind ==> cancel_selected(tasks, Some(kind), None)[i]
            == with_cancellation(tasks[i]),
        tasks[i].context.kind != kind ==> cancel_selected(tasks, Some(kind), None)[i] == tasks[i],
{
}

/// A request to stop is never taken back: whatever is done to the table, a
/// task that was asked to stop stays asked.
pub proof fn lemma_request_stays(
    tasks: Seq<Task>,
    id: TaskId,
    kind: Option<TaskKind>,
    partition_id: Option<PartitionId>,
    state: TaskState,
    i: int,
)
    requires
        0 <= i < tasks.len(),
        tasks[i].cancellation_requested,
    ensures
        cancel_one(tasks, id)[i].cancellation_requested,
        cancel_selected(tasks, kind, partition_id)[i].cancellation_requested,
        end_one(tasks, id, state)[i].cancellation_requested,
{
}

/// A task ends once: a task that was torn down does not complete later, and
/// a task that has completed is not torn down later.
pub proof fn lemma_task_ends_once(tasks: Seq<Task>, id: TaskId, first: TaskState, second: TaskState)
    requires
        first != TaskState::Running,
    ensures
        end_one(end_one(tasks, id, first), id, second) == end_one(tasks, id, first),
{
    assert(end_one(end_one(tasks, id, first), id, second) =~= end_one(tasks, id, first));
}

} // verus!
