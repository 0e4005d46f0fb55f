//! A task an orchestration awaits: completed by the executor, or by a value
//! that was already at hand.
use vstd::prelude::*;

verus! {

/// What the channel of a task gave when it was asked.
pub enum Delivery {
    /// Nothing yet.
    Pending,
    /// The sending side was dropped without a value.
    Closed,
    /// A value was sent.
    Delivered(Option<String>),
}

/// The outcome of asking a task for its result.
pub enum TaskPoll {
    Ready(String),
    Pending,
}

/// A task that can be completed with a result.
pub struct CompletableTask {
    completed: bool,
    result: Option<String>,
}

impl CompletableTask {
    pub closed spec fn spec_completed(&self) -> bool {
        self.completed
    }

    pub closed spec fn spec_result(&self) -> Option<String> {
        self.result
    }

    /// A task that is not complete yet.
    pub fn new() -> (res: Self)
        ensures
            !res.spec_completed(),
            res.spec_result() is None,
    {
        CompletableTask { completed: false, result: None }
    }

    /// Completes the task with `result`.
    pub fn complete(&mut self, result: String)
        ensures
            final(self).spec_completed(),
            final(self).spec_result() == Some(result),
    {
        self.result = Some(result);
        self.completed = true;
    }

    /// Completes the task with `result`, which tells how it failed.
    pub fn fail(&mut self, result: String)
        ensures
            final(self).spec_completed(),
            final(self).spec_result() == Some(result),
    {
        self.result = Some(result);
        self.completed = true;
    }

    /// Whether the task holds a result not taken yet.
    pub fn has_result(&self) -> (res: bool)
        ensures
            res == self.spec_result() is Some,
    {
        self.result.is_some()
    }

    pub fn is_completed(&self) -> (res: bool)
        ensures
            res == self.spec_completed(),
    {
        self.completed
    }

    /// The result of a completed task, taken out of it; `None` for a task
    /// that is not complete (its channel decides then).
    pub fn take_result(&mut self) -> (res: Option<String>)
        requires
            old(self).spec_completed() ==> old(self).spec_result() is Some,
        ensures
            takes_result(*old(self), *final(self), res),
    {
        if self.completed {
            let r = self.result.take();
            r
        } else {
            None
        }
    }

    /// What a task that is not complete gives for what its channel gave: the
    /// value sent, or pending while nothing was sent and when the sender was
    /// dropped.
    pub fn poll_delivery(delivery: Delivery) -> (res: TaskPoll)
        requires
            !(delivery matches Delivery::Delivered(None)),
        ensures
            delivery matches Delivery::Delivered(Some(v)) ==> res == TaskPoll::Ready(v),
            !(delivery is Delivered) ==> res is Pending,
    {
        match delivery {
            Delivery::Delivered(Some(v)) => TaskPoll::Ready(v),
            Delivery::Delivered(None) => TaskPoll::Pending,
            Delivery::Closed => TaskPoll::Pending,
            Delivery::Pending => TaskPoll::Pending,
        }
    }
}

/// Taking the result of `pre` gives `res` and leaves `post`.
pub open spec fn takes_result(pre: CompletableTask, post: CompletableTask, res: Option<String>) -> bool {
    if pre.spec_completed() {
        &&& res == pre.spec_result()
        &&& post.spec_result() is None
        &&& post.spec_completed()
    } else {
        res is None && post == pre
    }
}

/// A task completed with `result` (by `complete` or `fail`) gives that
/// result when asked, whatever its channel holds, and is asked no further.
pub proof fn law_completed_task_gives_its_result(
    t: CompletableTask,
    result: String,
    post: CompletableTask,
    res: Option<String>,
)
    requires
        t.spec_completed(),
        t.spec_result() == Some(result),
        takes_result(t, post, res),
    ensures
        res == Some(result),
        post.spec_completed(),
{
}

} // verus!
