use vstd::prelude::*;

verus! {

/// What a task asks for after a tick.
pub enum TaskStatus<T> {
    /// Keep running it.
    Continue,
    /// It is done: remove it.
    Finished,
    /// Run this new task on top of it.
    Push(T),
}

impl<T> TaskStatus<T> {
    pub fn is_finished(&self) -> (r: bool)
        ensures
            r == (self is Finished),
    {
        match self {
            TaskStatus::Finished => true,
            _ => false,
        }
    }
}

/// The stack that a tick's status makes of the stack `s` whose top task was ticked:
/// `Continue` keeps it, `Finished` removes the top, `Push` adds the new task on top.
pub open spec fn apply_status<T>(s: Seq<T>, status: TaskStatus<T>) -> Seq<T> {
    match status {
        TaskStatus::Continue => s,
        TaskStatus::Finished => if s.len() > 0 {
            s.drop_last()
        } else {
            s
        },
        TaskStatus::Push(t) => s.push(t),
    }
}

/// The bot's tasks: only the top one runs; the ones below wait for it.
pub struct TaskStack<T> {
    tasks: Vec<T>,
}

impl<T> View for TaskStack<T> {
    type V = Seq<T>;

    closed spec fn view(&self) -> Seq<T> {
        self.tasks@
    }
}

impl<T> TaskStack<T> {
    /// An empty stack.
    pub fn new() -> (r: Self)
        ensures
            r@ == Seq::<T>::empty(),
    {
        TaskStack { tasks: Vec::new() }
    }

    /// The number of tasks.
    pub fn len(&self) -> (r: usize)
        ensures
            r == self@.len(),
    {
        self.tasks.len()
    }

    /// Puts `task` on top; it is then the task to launch.
    pub fn push_task(&mut self, task: T)
        ensures
            final(self)@ == old(self)@.push(task),
    {
        self.tasks.push(task);
    }

    /// The top task, to launch or tick it; `None` when there is none.
    pub fn top_mut(&mut self) -> (r: Option<&mut T>)
        ensures
            old(self)@.len() == 0 ==> r is None && final(self)@ == old(self)@,
            old(self)@.len() != 0 ==> r is Some && *r.unwrap() == old(self)@.last() && final(self)@
                == old(self)@.update(old(self)@.len() - 1, *final(r.unwrap())),
    {
        self.tasks.as_mut_slice().last_mut()
    }

    /// Acts on the status that the top task's tick gave, as `apply_status`
    /// says. Returns whether a new task was pushed, which is then to be launched.
    pub fn apply_status(&mut self, status: TaskStatus<T>) -> (launch: bool)
        ensures
            final(self)@ == apply_status(old(self)@, status),
            launch == (status is Push),
    {
        match status {
            TaskStatus::Continue => false,
            TaskStatus::Finished => {
                let _ = self.tasks.pop();
                false
            },
            TaskStatus::Push(t) => {
                self.tasks.push(t);
                true
            },
        }
    }

    /// Removes every task and hands them out from bottom to top, to be cancelled.
    pub fn stop_all_tasks(&mut self) -> (r: Vec<T>)
        ensures
            r@ == old(self)@,
            final(self)@ == Seq::<T>::empty(),
    {
        let mut r: Vec<T> = Vec::new();
        std::mem::swap(&mut r, &mut self.tasks);
        r
    }
}

impl<T> Default for TaskStack<T> {
    fn default() -> (r: Self)
        ensures
            r@ == Seq::<T>::empty(),
    {
        TaskStack::new()
    }
}

/// A tick that continues leaves the stack as it was; a pushed task that
/// finishes leaves the stack as it was before the push; a tick changes the
/// number of tasks by at most one.
pub proof fn lemma_apply_status<T>(s: Seq<T>, t: T, status: TaskStatus<T>)
    ensures
        apply_status(s, TaskStatus::Continue) == s,
        apply_status(apply_status(s, TaskStatus::Push(t)), TaskStatus::Finished) == s,
        s.len() - 1 <= apply_status(s, status).len() <= s.len() + 1,
{
    assert(s.push(t).drop_last() =~= s);
}

/// A task that runs a future: launching it starts the future once, however
/// often it is launched.
pub struct AsyncTask<F, H> {
    factory: Option<F>,
    handle: Option<H>,
}

impl<F, H> AsyncTask<F, H> {
    /// The factory that has not yet been taken, if any.
    pub closed spec fn factory_view(&self) -> Option<F> {
        self.factory
    }

    /// The handle of the running future, if any.
    pub closed spec fn handle_view(&self) -> Option<H> {
        self.handle
    }

    /// A task that will start the future that `f` makes.
    pub fn new(f: F) -> (r: Self)
        ensures
            r.factory_view() == Some(f),
            r.handle_view() is None,
    {
        AsyncTask { factory: Some(f), handle: None }
    }

    /// Takes the factory to launch the task: `Some` only on the first launch.
    pub fn take_factory(&mut self) -> (r: Option<F>)
        ensures
            r == old(self).factory_view(),
            final(self).factory_view() is None,
            final(self).handle_view() == old(self).handle_view(),
    {
        let mut f: Option<F> = None;
        std::mem::swap(&mut f, &mut self.factory);
        f
    }

    /// Keeps the handle of the future that the launch started.
    pub fn set_handle(&mut self, h: H)
        ensures
            final(self).handle_view() == Some(h),
            final(self).factory_view() == old(self).factory_view(),
    {
        self.handle = Some(h);
    }

    /// The handle of the running future, if any.
    pub fn handle(&self) -> (r: Option<&H>)
        ensures
            r matches Some(h) ==> self.handle_view() == Some(*h),
            r is None <==> self.handle_view() is None,
    {
        match &self.handle {
            Some(h) => Some(h),
            None => None,
        }
    }

    /// The status of a tick: finished once the started future has finished
    /// (`handle_finished` tells whether it has), and running until then.
    pub fn tick<T>(&self, handle_finished: bool) -> (r: TaskStatus<T>)
        ensures
            r is Finished <==> self.handle_view() is Some && handle_finished,
            r is Continue <==> !(self.handle_view() is Some && handle_finished),
    {
        match &self.handle {
            Some(_) => if handle_finished {
                TaskStatus::Finished
            } else {
                TaskStatus::Continue
            },
            None => TaskStatus::Continue,
        }
    }

    /// Takes the handle of the running future, to abort it when the task is cancelled.
    pub fn take_handle(&mut self) -> (r: Option<H>)
        ensures
            r == old(self).handle_view(),
            final(self).handle_view() is None,
            final(self).factory_view() == old(self).factory_view(),
    {
        let mut h: Option<H> = None;
        std::mem::swap(&mut h, &mut self.handle);
        h
    }
}

} // verus!
