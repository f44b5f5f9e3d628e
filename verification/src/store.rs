//! The in-memory task store: an ordered collection of tasks with the
//! mutation primitives the local executor and the server-side request
//! handlers use.  Persistence of the collection is the caller's
//! concern; the store itself is plain data.

use vstd::prelude::*;

use crate::batch::pending_only;
use crate::task::Task;
use crate::task::TaskView;

verus! {

/// The ordered task collection of one process.
#[derive(Debug)]
pub struct SaveData {
    pub(crate) tasks: Vec<Task>,
}

impl View for SaveData {
    type V = Seq<TaskView>;

    closed spec fn view(&self) -> Seq<TaskView> {
        self.tasks.deep_view()
    }
}

/// What a store's value is: the views of the tasks it holds, in
/// order.
pub(crate) proof fn lemma_store_view(s: &SaveData)
    ensures
        s@ == s.tasks.deep_view(),
{
}

/// Drops every completed task of a collection, in place, keeping the
/// order of the rest.
pub(crate) fn retain_pending(tasks: &mut Vec<Task>)
    ensures
        final(tasks).deep_view() == pending_only(old(tasks).deep_view()),
{
    let ghost orig = tasks.deep_view();
    let mut kept: Vec<Task> = Vec::new();
    let mut i: usize = 0;
    proof {
        assert(orig.skip(0) =~= orig);
        assert(kept.deep_view() + pending_only(orig) =~= pending_only(orig));
    }
    while i < tasks.len()
        invariant
            0 <= i <= tasks.len(),
            orig == tasks.deep_view(),
            pending_only(orig) == kept.deep_view() + pending_only(orig.skip(i as int)),
        decreases tasks.len() - i,
    {
        let ghost kept_before = kept.deep_view();
        proof {
            assert(orig.skip(i as int).len() > 0);
            assert(orig.skip(i as int)[0] == orig[i as int]);
            assert(orig.skip(i as int).drop_first() =~= orig.skip(i as int + 1));
        }
        let t = &tasks[i];
        if !t.done {
            kept.push(t.clone());
            proof {
                assert(kept.deep_view() =~= kept_before.push(orig[i as int]));
                assert(kept_before + (seq![orig[i as int]] + pending_only(
                    orig.skip(i as int + 1),
                )) =~= kept_before.push(orig[i as int]) + pending_only(orig.skip(i as int + 1)));
            }
        }
        i += 1;
    }
    proof {
        assert(orig.skip(tasks.len() as int) =~= Seq::<TaskView>::empty());
        assert(kept.deep_view() + pending_only(Seq::<TaskView>::empty()) =~= kept.deep_view());
    }
    *tasks = kept;
}

impl SaveData {
    /// A store holding no tasks.
    pub fn new() -> (r: SaveData)
        ensures
            r@ == Seq::<TaskView>::empty(),
    {
        let tasks: Vec<Task> = Vec::new();
        proof {
            assert(tasks.deep_view() =~= Seq::<TaskView>::empty());
        }
        SaveData { tasks }
    }

    /// The tasks, in order.
    pub fn get_tasks(&self) -> (r: &Vec<Task>)
        ensures
            r.deep_view() == self@,
    {
        &self.tasks
    }

    /// Appends a task at the end.
    pub fn add_task(&mut self, task: Task)
        ensures
            final(self)@ == old(self)@.push(task@),
    {
        let ghost before = self.tasks.deep_view();
        let ghost tv = task@;
        self.tasks.push(task);
        proof {
            assert(self.tasks.deep_view() =~= before.push(tv));
        }
    }

    /// Removes the task at the given position.
    pub fn remove_task(&mut self, task_index: usize)
        requires
            task_index < old(self)@.len(),
        ensures
            final(self)@ == old(self)@.remove(task_index as int),
    {
        let ghost before = self.tasks.deep_view();
        self.tasks.remove(task_index);
        proof {
            assert(self.tasks.deep_view() =~= before.remove(task_index as int));
        }
    }

    /// Marks the task at the given position done, reporting whether it
    /// already was.
    pub fn mark_task_done(&mut self, task_index: usize) -> (was_done: bool)
        requires
            task_index < old(self)@.len(),
        ensures
            was_done == old(self)@[task_index as int].done,
            final(self)@ == old(self)@.update(
                task_index as int,
                TaskView { name: old(self)@[task_index as int].name, done: true },
            ),
    {
        let ghost before = self.tasks.deep_view();
        let was_done = self.tasks[task_index].done;
        let name = self.tasks[task_index].name.clone();
        self.tasks.set(task_index, Task { name, done: true });
        proof {
            assert(self.tasks.deep_view() =~= before.update(
                task_index as int,
                TaskView { name: before[task_index as int].name, done: true },
            ));
        }
        was_done
    }

    /// Marks the task at the given position not done, reporting whether
    /// it already was not.
    pub fn mark_task_undone(&mut self, task_index: usize) -> (was_undone: bool)
        requires
            task_index < old(self)@.len(),
        ensures
            was_undone == !old(self)@[task_index as int].done,
            final(self)@ == old(self)@.update(
                task_index as int,
                TaskView { name: old(self)@[task_index as int].name, done: false },
            ),
    {
        let ghost before = self.tasks.deep_view();
        let was_undone = !self.tasks[task_index].done;
        let name = self.tasks[task_index].name.clone();
        self.tasks.set(task_index, Task { name, done: false });
        proof {
            assert(self.tasks.deep_view() =~= before.update(
                task_index as int,
                TaskView { name: before[task_index as int].name, done: false },
            ));
        }
        was_undone
    }

    /// Drops every task.
    pub fn clear_tasks(&mut self)
        ensures
            final(self)@ == Seq::<TaskView>::empty(),
    {
        self.tasks.clear();
        proof {
            assert(self.tasks.deep_view() =~= Seq::<TaskView>::empty());
        }
    }

    /// Drops every completed task, keeping the order of the rest.
    pub fn clear_done_tasks(&mut self)
        ensures
            final(self)@ == pending_only(old(self)@),
    {
        retain_pending(&mut self.tasks);
    }
}

} // verus!
