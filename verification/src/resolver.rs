//! Task identity resolution: finding a task's position in an ordered
//! collection by exact, case-sensitive name match, first match winning.

use vstd::prelude::*;

use crate::task::Task;
use crate::task::TaskView;

verus! {

/// The position of the first task named `name` in `tasks`, if any.
pub open spec fn find_task(tasks: Seq<TaskView>, name: Seq<char>) -> Option<int>
    decreases tasks.len(),
{
    if tasks.len() == 0 {
        None
    } else if tasks[0].name == name {
        Some(0)
    } else {
        match find_task(tasks.drop_first(), name) {
            None => None,
            Some(i) => Some(i + 1),
        }
    }
}

/// What [`find_task`] returns is the first match: a position holds a
/// task of the sought name and no earlier position does; `None` means
/// no position does.
pub proof fn lemma_find_task_is_first_match(tasks: Seq<TaskView>, name: Seq<char>)
    ensures
        match find_task(tasks, name) {
            Some(i) => 0 <= i < tasks.len() && tasks[i].name == name && (forall|j: int|
                0 <= j < i ==> tasks[j].name != name),
            None => forall|j: int| 0 <= j < tasks.len() ==> tasks[j].name != name,
        },
    decreases tasks.len(),
{
    if tasks.len() > 0 && tasks[0].name != name {
        lemma_find_task_is_first_match(tasks.drop_first(), name);
        assert(forall|j: int|
            1 <= j < tasks.len() ==> tasks[j] == tasks.drop_first()[j - 1]);
    }
}

/// Whether `task` is the task named by `query_string`: exact,
/// case-sensitive equality against the task's name.
pub fn exactly_matches(task: &Task, query_string: &String) -> (r: bool)
    ensures
        r == (task@.name == query_string@),
{
    task.name == *query_string
}

/// Resolves a task name to its position in `tasks`: the first position
/// whose task has exactly that name, or `None` when no task does.
pub fn get_index(tasks: &Vec<Task>, query_string: &String) -> (r: Option<usize>)
    ensures
        match r {
            Some(i) => find_task(tasks.deep_view(), query_string@) == Some(i as int),
            None => find_task(tasks.deep_view(), query_string@) is None,
        },
{
    let ghost model = tasks.deep_view();
    let mut i: usize = 0;
    while i < tasks.len()
        invariant
            0 <= i <= tasks.len(),
            model == tasks.deep_view(),
            forall|j: int| 0 <= j < i ==> model[j].name != query_string@,
        decreases tasks.len() - i,
    {
        if exactly_matches(&tasks[i], query_string) {
            proof {
                assert(model[i as int].name == query_string@);
                lemma_find_task_is_first_match(model, query_string@);
                assert(find_task(model, query_string@) == Some(i as int));
            }
            return Some(i);
        }
        i += 1;
    }
    proof {
        lemma_find_task_is_first_match(model, query_string@);
    }
    None
}

} // verus!
