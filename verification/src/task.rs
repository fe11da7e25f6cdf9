//! The detachment logic of detachable tasks.
//!
//! A detachable task keeps its pinned future in a slot.  Awaiting it takes
//! the future out of the slot for one poll and puts it back if the poll is
//! pending; dropping or detaching it hands whatever is still in the slot to
//! the spawner; reclaiming it gives the future back without spawning.
use vstd::prelude::*;
use core::pin::Pin;
use crate::outside::box_pin;

verus! {

/// Spawns a detached task produced by a detachable task.
///
/// Implement this trait to integrate with a runtime or custom executor.
pub trait TaskSpawner<Task> {
    /// Return type of the spawn operation.
    type Output;

    /// Whether this spawner may be given `task`: what `spawn` asks of its
    /// caller.  A spawner that asks nothing keeps this default.
    open spec fn spawn_allowed(&self, task: Pin<Box<Task>>) -> bool {
        true
    }

    /// What `spawn` gives back for `task`: `out` is an output this spawner
    /// may give.  A spawner that promises nothing keeps this default.
    open spec fn spawn_ensures(&self, task: Pin<Box<Task>>, out: Self::Output) -> bool {
        true
    }

    /// Consumes `self` and schedules `task` for background execution.
    fn spawn(self, task: Pin<Box<Task>>) -> (out: Self::Output) where Self: Sized
        requires
            self.spawn_allowed(task),
        ensures
            self.spawn_ensures(task, out),
    ;
}

/// The unit spawner schedules nothing: it hands the task back unchanged.
impl<Task> TaskSpawner<Task> for () {
    type Output = Pin<Box<Task>>;

    /// The task itself comes back.
    open spec fn spawn_ensures(&self, task: Pin<Box<Task>>, out: Pin<Box<Task>>) -> bool {
        out == task
    }

    fn spawn(self, task: Pin<Box<Task>>) -> (r: Pin<Box<Task>>)
        ensures
            r == task,
    {
        task
    }
}

/// A closure spawner is called with the task.
impl<F, Output, Task> TaskSpawner<Task> for F where F: FnOnce(Pin<Box<Task>>) -> Output {
    type Output = Output;

    /// The closure's own precondition on the task.
    open spec fn spawn_allowed(&self, task: Pin<Box<Task>>) -> bool {
        call_requires(*self, (task,))
    }

    /// An output of the closure on the task.
    open spec fn spawn_ensures(&self, task: Pin<Box<Task>>, out: Output) -> bool {
        call_ensures(*self, (task,), out)
    }

    fn spawn(self, task: Pin<Box<Task>>) -> (r: Output)
        ensures
            call_ensures(self, (task,), r),
    {
        self(task)
    }
}

// ---------------------------------------------------------------------------
// The life of a detachable task.
// ---------------------------------------------------------------------------

/// How one inline poll of the future ended.
#[derive(Clone, Copy, PartialEq, Eq, Debug, Structural)]
pub enum PollOutcome {
    /// The future completed.
    Ready,
    /// The future is not done yet.
    Pending,
    /// The future panicked; the panic propagates to the caller.
    Panicked,
}

/// What can happen to a detachable task.
#[derive(Clone, Copy, PartialEq, Eq, Debug, Structural)]
pub enum TaskEvent {
    /// The caller polled it inline.
    Poll(PollOutcome),
    /// It was detached explicitly.
    Detach,
    /// The caller took the future back.
    Reclaim,
    /// It (or the wait on it) was dropped.
    Drop,
}

/// Whether `e` may happen to a task whose slot holds the future (`held`):
/// polling or reclaiming an empty slot is a panic, so it never happens.
pub open spec fn event_allowed(held: bool, e: TaskEvent) -> bool {
    match e {
        TaskEvent::Poll(_) => held,
        TaskEvent::Reclaim => held,
        _ => true,
    }
}

/// Whether `e` ends the task's life.
pub open spec fn ends_life(e: TaskEvent) -> bool {
    !(e is Poll)
}

/// Whether the slot holds the future after `e`: only a pending poll puts it
/// back.
pub open spec fn held_after(held: bool, e: TaskEvent) -> bool {
    match e {
        TaskEvent::Poll(PollOutcome::Pending) => held,
        _ => false,
    }
}

/// Whether `e` hands the future to the spawner: detaching or dropping while
/// the slot still holds it.
pub open spec fn spawns(held: bool, e: TaskEvent) -> bool {
    match e {
        TaskEvent::Detach => held,
        TaskEvent::Drop => held,
        _ => false,
    }
}

/// A sequence of events that can happen to one task, from a slot state.
pub open spec fn valid_run(held: bool, es: Seq<TaskEvent>) -> bool
    decreases es.len(),
{
    es.len() == 0 || {
        &&& event_allowed(held, es[0])
        &&& (ends_life(es[0]) ==> es.len() == 1)
        &&& valid_run(held_after(held, es[0]), es.drop_first())
    }
}

/// How many times the future is handed to the spawner along `es`.
pub open spec fn spawn_count(held: bool, es: Seq<TaskEvent>) -> nat
    decreases es.len(),
{
    if es.len() == 0 {
        0
    } else {
        (if spawns(held, es[0]) {
            1nat
        } else {
            0nat
        }) + spawn_count(held_after(held, es[0]), es.drop_first())
    }
}

/// Once the slot is empty, nothing is ever spawned.
pub proof fn lemma_empty_never_spawns(es: Seq<TaskEvent>)
    ensures
        spawn_count(false, es) == 0,
    decreases es.len(),
{
    if es.len() > 0 {
        lemma_empty_never_spawns(es.drop_first());
    }
}

/// A task is handed to the spawner at most once, whatever happens to it.
pub proof fn law_spawned_at_most_once(es: Seq<TaskEvent>)
    requires
        valid_run(true, es),
    ensures
        spawn_count(true, es) <= 1,
    decreases es.len(),
{
    if es.len() > 0 {
        if held_after(true, es[0]) {
            law_spawned_at_most_once(es.drop_first());
            assert(!spawns(true, es[0]));
        } else {
            lemma_empty_never_spawns(es.drop_first());
        }
    }
}

/// Work that completes inline is never handed to the spawner: if some poll
/// returns ready, nothing is spawned.
pub proof fn law_completed_never_detached(es: Seq<TaskEvent>, k: int)
    requires
        valid_run(true, es),
        0 <= k < es.len(),
        es[k] == TaskEvent::Poll(PollOutcome::Ready),
    ensures
        spawn_count(true, es) == 0,
    decreases es.len(),
{
    if k == 0 {
        lemma_empty_never_spawns(es.drop_first());
    } else if held_after(true, es[0]) {
        law_completed_never_detached(es.drop_first(), k - 1);
    } else {
        lemma_empty_never_spawns(es.drop_first());
    }
}

/// A panic during an inline poll leaves nothing to detach.
pub proof fn law_panicked_poll_never_detached(es: Seq<TaskEvent>, k: int)
    requires
        valid_run(true, es),
        0 <= k < es.len(),
        es[k] == TaskEvent::Poll(PollOutcome::Panicked),
    ensures
        spawn_count(true, es) == 0,
    decreases es.len(),
{
    if k == 0 {
        lemma_empty_never_spawns(es.drop_first());
    } else if held_after(true, es[0]) {
        law_panicked_poll_never_detached(es.drop_first(), k - 1);
    } else {
        lemma_empty_never_spawns(es.drop_first());
    }
}

/// Reclaiming the future never spawns it.
pub proof fn law_reclaim_never_spawns(es: Seq<TaskEvent>, k: int)
    requires
        valid_run(true, es),
        0 <= k < es.len(),
        es[k] == TaskEvent::Reclaim,
    ensures
        spawn_count(true, es) == 0,
    decreases es.len(),
{
    if k == 0 {
        lemma_empty_never_spawns(es.drop_first());
    } else if held_after(true, es[0]) {
        law_reclaim_never_spawns(es.drop_first(), k - 1);
    } else {
        lemma_empty_never_spawns(es.drop_first());
    }
}

/// A task that is dropped or detached after any number of pending polls
/// (none included) is handed to the spawner exactly once.
pub proof fn law_unfinished_work_detached_once(es: Seq<TaskEvent>)
    requires
        es.len() > 0,
        forall|i: int| 0 <= i < es.len() - 1 ==> es[i] == TaskEvent::Poll(PollOutcome::Pending),
        es.last() == TaskEvent::Drop || es.last() == TaskEvent::Detach,
    ensures
        valid_run(true, es),
        spawn_count(true, es) == 1,
    decreases es.len(),
{
    if es.len() == 1 {
        assert(es[0] == es.last());
        assert(es.drop_first().len() == 0);
        assert(valid_run(held_after(true, es[0]), es.drop_first()));
        assert(spawn_count(held_after(true, es[0]), es.drop_first()) == 0);
    } else {
        let rest = es.drop_first();
        assert forall|i: int| 0 <= i < rest.len() - 1 implies rest[i] == TaskEvent::Poll(
            PollOutcome::Pending,
        ) by {
            assert(rest[i] == es[i + 1]);
        }
        assert(rest.last() == es.last());
        assert(es[0] == TaskEvent::Poll(PollOutcome::Pending));
        law_unfinished_work_detached_once(rest);
        assert(held_after(true, es[0]));
        assert(!spawns(true, es[0]));
    }
}

/// Whether the slot holds the future after the events `es`.
pub open spec fn held_after_run(held: bool, es: Seq<TaskEvent>) -> bool
    decreases es.len(),
{
    if es.len() == 0 {
        held
    } else {
        held_after_run(held_after(held, es[0]), es.drop_first())
    }
}

/// A poll after which the future is done: it completed or panicked.
pub open spec fn finishing_poll(e: TaskEvent) -> bool {
    e == TaskEvent::Poll(PollOutcome::Ready) || e == TaskEvent::Poll(PollOutcome::Panicked)
}

/// Over any run of polls of a fresh task, the wait on it is terminated (its
/// slot is empty, see `is_terminated`) exactly when some poll completed or
/// panicked; it is not terminated before the first poll, nor after polls
/// that were all pending.
pub proof fn law_terminated_after_finishing_poll(es: Seq<TaskEvent>)
    requires
        valid_run(true, es),
        forall|i: int| 0 <= i < es.len() ==> (#[trigger] es[i]) is Poll,
    ensures
        !held_after_run(true, es) <==> exists|k: int| 0 <= k < es.len() && finishing_poll(
            #[trigger] es[k],
        ),
    decreases es.len(),
{
    if es.len() > 0 {
        let rest = es.drop_first();
        assert(es[0] is Poll);
        if finishing_poll(es[0]) {
            assert(!held_after(true, es[0]));
            assert(valid_run(false, rest));
            if rest.len() > 0 {
                assert(rest[0] == es[1]);
                assert(es[1] is Poll);
                assert(!event_allowed(false, rest[0]));
            }
            assert(rest.len() == 0);
            assert(!held_after_run(false, rest));
        } else {
            assert(es[0] == TaskEvent::Poll(PollOutcome::Pending));
            assert forall|i: int| 0 <= i < rest.len() implies (#[trigger] rest[i]) is Poll by {
                assert(rest[i] == es[i + 1]);
            }
            law_terminated_after_finishing_poll(rest);
            if exists|k: int| 0 <= k < es.len() && finishing_poll(#[trigger] es[k]) {
                let k = choose|k: int| 0 <= k < es.len() && finishing_poll(#[trigger] es[k]);
                assert(k > 0);
                assert(rest[k - 1] == es[k]);
            }
            if exists|k: int| 0 <= k < rest.len() && finishing_poll(#[trigger] rest[k]) {
                let k = choose|k: int| 0 <= k < rest.len() && finishing_poll(#[trigger] rest[k]);
                assert(rest[k] == es[k + 1]);
            }
        }
    }
}

// ---------------------------------------------------------------------------
// The detachable context and its operations.
// ---------------------------------------------------------------------------

/// What a detachable task owns: its spawner and the slot for its future.
#[verifier::reject_recursive_types(Task)]
pub struct DetachableTaskContext<Spawner, Task> {
    pub spawner: Spawner,
    pub task: Option<Pin<Box<Task>>>,
}

/// A fresh context: the spawner, and the future pinned in the slot.
pub fn new_context<Spawner, Task>(spawner: Spawner, task: Task) -> (r: DetachableTaskContext<
    Spawner,
    Task,
>)
    ensures
        r.spawner == spawner,
        r.task is Some,
{
    DetachableTaskContext { spawner, task: Some(box_pin(task)) }
}

/// Ends the life of a context by detaching or dropping it: the future, if
/// the slot still holds it, goes to the spawner, whose output is returned.
pub fn detach_context<Spawner: TaskSpawner<Task>, Task>(
    context: DetachableTaskContext<Spawner, Task>,
) -> (r: Option<Spawner::Output>)
    requires
        context.task matches Some(t) ==> context.spawner.spawn_allowed(t),
    ensures
        r matches Some(o) ==> (context.task matches Some(t) && context.spawner.spawn_ensures(t, o)),
        r is Some <==> spawns(context.task is Some, TaskEvent::Drop),
        r is Some <==> spawns(context.task is Some, TaskEvent::Detach),
{
    match context.task {
        Some(task) => Some(context.spawner.spawn(task)),
        None => None,
    }
}

/// Takes the future back out of the context without spawning it.
pub fn reclaim_context<Spawner, Task>(context: DetachableTaskContext<Spawner, Task>) -> (r: Pin<
    Box<Task>,
>)
    requires
        event_allowed(context.task is Some, TaskEvent::Reclaim),
    ensures
        context.task == Some(r),
{
    context.task.unwrap()
}

/// Takes the future out of the slot for one inline poll.  If the poll
/// panics, the slot stays empty, so a later drop spawns nothing.
pub fn take_for_poll<Spawner, Task>(context: &mut DetachableTaskContext<Spawner, Task>) -> (r: Pin<
    Box<Task>,
>)
    requires
        event_allowed(old(context).task is Some, TaskEvent::Poll(PollOutcome::Pending)),
    ensures
        old(context).task == Some(r),
        final(context).spawner == old(context).spawner,
        final(context).task is None,
        (final(context).task is Some) == held_after(true, TaskEvent::Poll(PollOutcome::Panicked)),
{
    context.task.take().unwrap()
}

/// Ends an inline poll: a pending future goes back into the slot, a
/// completed one does not.
pub fn finish_poll<Spawner, Task>(
    context: &mut DetachableTaskContext<Spawner, Task>,
    task: Pin<Box<Task>>,
    pending: bool,
)
    requires
        old(context).task is None,
    ensures
        final(context).spawner == old(context).spawner,
        final(context).task == (if pending {
            Some(task)
        } else {
            None
        }),
        (final(context).task is Some) == held_after(
            true,
            TaskEvent::Poll(
                if pending {
                    PollOutcome::Pending
                } else {
                    PollOutcome::Ready
                },
            ),
        ),
{
    if pending {
        context.task = Some(task);
    }
}

/// Whether the future has completed (or was lost to a panic): the slot is
/// empty.
pub fn is_terminated<Spawner, Task>(context: &DetachableTaskContext<Spawner, Task>) -> (r: bool)
    ensures
        r == (context.task is None),
{
    context.task.is_none()
}

} // verus!
