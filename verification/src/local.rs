//! The local executor: applies a batch request directly to the
//! in-memory task collection, validating the entire batch before any
//! mutation.  A request that fails validation leaves the collection
//! exactly as it was.

use vstd::prelude::*;

use crate::batch::add_all;
use crate::batch::added_task;
use crate::batch::clear_result;
use crate::batch::existence_error;
use crate::batch::existence_error_at;
use crate::batch::existence_error_from;
use crate::batch::lemma_existence_error_prefix;
use crate::batch::local_add_result;
use crate::batch::local_mark_result;
use crate::batch::local_remove_result;
use crate::batch::mark_all;
use crate::batch::mark_one;
use crate::batch::remove_all;
use crate::batch::remove_one;
use crate::batch::validate_task_names;
use crate::batch::OpKind;
use crate::errors::CommandError;
use crate::requests::ClearCommand;
use crate::requests::TasksCommand;
use crate::resolver::get_index;
use crate::resolver::lemma_find_task_is_first_match;
use crate::task::Task;
use crate::task::TaskView;

verus! {

/// Runs the existence pass of a batch: the position of the first name
/// that violates the operation's existence rule against the unmutated
/// collection, or the confirmation that every name passes.
fn existence_pass(kind: OpKind, names: &Vec<String>, data: &Vec<Task>) -> (r: Result<
    (),
    CommandError,
>)
    ensures
        match r {
            Ok(()) => existence_error(kind, data.deep_view(), names.deep_view()) is None,
            Err(e) => existence_error(kind, data.deep_view(), names.deep_view()) == Some(e@),
        },
{
    let ghost model = names.deep_view();
    let ghost tasks = data.deep_view();
    let mut i: usize = 0;
    while i < names.len()
        invariant
            0 <= i <= names.len(),
            model == names.deep_view(),
            tasks == data.deep_view(),
            forall|k: int| 0 <= k < i ==> existence_error_at(kind, tasks, model[k]) is None,
        decreases names.len() - i,
    {
        proof {
            assert(model[i as int] == names@[i as int]@);
        }
        let found = get_index(data, &names[i]).is_some();
        let exists_violated = match kind {
            OpKind::Add => found,
            _ => !found,
        };
        if exists_violated {
            proof {
                lemma_existence_error_prefix(kind, tasks, model, i as int);
                assert(existence_error_from(kind, tasks, model, i as int)
                    == existence_error_at(kind, tasks, model[i as int]));
            }
            let err = match kind {
                OpKind::Add => CommandError::TaskExists { name: names[i].clone() },
                _ => CommandError::TaskNotFound { name: names[i].clone() },
            };
            return Err(err);
        }
        i += 1;
    }
    proof {
        lemma_existence_error_prefix(kind, tasks, model, names.len() as int);
    }
    Ok(())
}

/// Adds each named task to `data` after validating the whole batch:
/// an empty batch, a name given twice, or a name already present is
/// rejected before anything is appended; otherwise one not-yet-done
/// task per name is appended in request order.
pub fn handle_add(command: &TasksCommand, data: &mut Vec<Task>) -> (r: Result<(), CommandError>)
    ensures
        ({
            let names = command.tasks.deep_view();
            let before = old(data).deep_view();
            match local_add_result(before, names) {
                Ok(after) => r is Ok && final(data).deep_view() == after,
                Err(e) => (r matches Err(err) && err@ == e) && final(data).deep_view() == before,
            }
        }),
{
    let ghost names = command.tasks.deep_view();
    let ghost before = data.deep_view();
    match validate_task_names(&command.tasks) {
        Err(e) => {
            return Err(e);
        },
        Ok(()) => {},
    }
    match existence_pass(OpKind::Add, &command.tasks, data) {
        Err(e) => {
            return Err(e);
        },
        Ok(()) => {},
    }
    proof {
        assert(names.skip(0) =~= names);
    }
    let mut i: usize = 0;
    while i < command.tasks.len()
        invariant
            0 <= i <= command.tasks.len(),
            names == command.tasks.deep_view(),
            add_all(before, names) == add_all(data.deep_view(), names.skip(i as int)),
        decreases command.tasks.len() - i,
    {
        let ghost prev = data.deep_view();
        proof {
            assert(names.skip(i as int)[0] == names[i as int]);
            assert(names.skip(i as int).drop_first() =~= names.skip(i as int + 1));
            assert(names[i as int] == command.tasks@[i as int]@);
        }
        let name = command.tasks[i].clone();
        data.push(Task { name, done: false });
        proof {
            assert(data.deep_view() =~= prev.push(added_task(names[i as int])));
        }
        i += 1;
    }
    proof {
        assert(names.skip(names.len() as int) =~= Seq::<Seq<char>>::empty());
    }
    Ok(())
}

/// Removes each named task from `data` after validating the whole
/// batch: an empty batch, a name given twice, or a name not present
/// is rejected before anything is removed; otherwise each name's
/// position is re-resolved and the task removed, in request order.
pub fn handle_remove(command: &TasksCommand, data: &mut Vec<Task>) -> (r: Result<
    (),
    CommandError,
>)
    ensures
        ({
            let names = command.tasks.deep_view();
            let before = old(data).deep_view();
            match local_remove_result(before, names) {
                Ok(after) => r is Ok && final(data).deep_view() == after,
                Err(e) => (r matches Err(err) && err@ == e) && final(data).deep_view() == before,
            }
        }),
{
    let ghost names = command.tasks.deep_view();
    let ghost before = data.deep_view();
    match validate_task_names(&command.tasks) {
        Err(e) => {
            return Err(e);
        },
        Ok(()) => {},
    }
    match existence_pass(OpKind::Remove, &command.tasks, data) {
        Err(e) => {
            return Err(e);
        },
        Ok(()) => {},
    }
    proof {
        assert(names.skip(0) =~= names);
    }
    let mut i: usize = 0;
    while i < command.tasks.len()
        invariant
            0 <= i <= command.tasks.len(),
            names == command.tasks.deep_view(),
            remove_all(before, names) == remove_all(data.deep_view(), names.skip(i as int)),
        decreases command.tasks.len() - i,
    {
        let ghost prev = data.deep_view();
        proof {
            assert(names.skip(i as int)[0] == names[i as int]);
            assert(names.skip(i as int).drop_first() =~= names.skip(i as int + 1));
            assert(names[i as int] == command.tasks@[i as int]@);
        }
        match get_index(data, &command.tasks[i]) {
            Some(index) => {
                proof {
                    lemma_find_task_is_first_match(prev, names[i as int]);
                }
                data.remove(index);
                proof {
                    assert(data.deep_view() =~= prev.remove(index as int));
                    assert(remove_one(prev, names[i as int]) == prev.remove(index as int));
                }
            },
            None => {
                proof {
                    assert(remove_one(prev, names[i as int]) == prev);
                }
            },
        }
        i += 1;
    }
    proof {
        assert(names.skip(names.len() as int) =~= Seq::<Seq<char>>::empty());
    }
    Ok(())
}

/// Marks each named task done or not done after validating the whole
/// batch: an empty batch, a name given twice, or a name not present
/// is rejected before anything is changed; otherwise each name's
/// position is re-resolved and its flag set, in request order.
/// Marking a task with the flag it already carries succeeds.
pub fn handle_done_undone(command: &TasksCommand, data: &mut Vec<Task>, done: bool) -> (r: Result<
    (),
    CommandError,
>)
    ensures
        ({
            let names = command.tasks.deep_view();
            let before = old(data).deep_view();
            match local_mark_result(before, names, done) {
                Ok(after) => r is Ok && final(data).deep_view() == after,
                Err(e) => (r matches Err(err) && err@ == e) && final(data).deep_view() == before,
            }
        }),
{
    let ghost names = command.tasks.deep_view();
    let ghost before = data.deep_view();
    let kind = if done {
        OpKind::MarkDone
    } else {
        OpKind::MarkUndone
    };
    match validate_task_names(&command.tasks) {
        Err(e) => {
            return Err(e);
        },
        Ok(()) => {},
    }
    match existence_pass(kind, &command.tasks, data) {
        Err(e) => {
            return Err(e);
        },
        Ok(()) => {},
    }
    proof {
        assert(names.skip(0) =~= names);
    }
    let mut i: usize = 0;
    while i < command.tasks.len()
        invariant
            0 <= i <= command.tasks.len(),
            names == command.tasks.deep_view(),
            mark_all(before, names, done) == mark_all(
                data.deep_view(),
                names.skip(i as int),
                done,
            ),
        decreases command.tasks.len() - i,
    {
        let ghost prev = data.deep_view();
        proof {
            assert(names.skip(i as int)[0] == names[i as int]);
            assert(names.skip(i as int).drop_first() =~= names.skip(i as int + 1));
            assert(names[i as int] == command.tasks@[i as int]@);
        }
        match get_index(data, &command.tasks[i]) {
            Some(index) => {
                proof {
                    lemma_find_task_is_first_match(prev, names[i as int]);
                }
                let name = data[index].name.clone();
                data.set(index, Task { name, done });
                proof {
                    assert(data.deep_view() =~= prev.update(
                        index as int,
                        TaskView { name: prev[index as int].name, done },
                    ));
                    assert(mark_one(prev, names[i as int], done) == data.deep_view());
                }
            },
            None => {
                proof {
                    assert(mark_one(prev, names[i as int], done) == prev);
                }
            },
        }
        i += 1;
    }
    proof {
        assert(names.skip(names.len() as int) =~= Seq::<Seq<char>>::empty());
    }
    Ok(())
}

/// Clears the collection: only the completed tasks when the request
/// says so, everything otherwise.  Never fails.
pub fn handle_clear(command: &ClearCommand, data: &mut Vec<Task>) -> (r: Result<
    (),
    CommandError,
>)
    ensures
        r is Ok,
        final(data).deep_view() == clear_result(old(data).deep_view(), command.done),
{
    if command.done {
        crate::store::retain_pending(data);
    } else {
        data.clear();
        proof {
            assert(data.deep_view() =~= Seq::<TaskView>::empty());
        }
    }
    Ok(())
}

/// Clears the completed tasks.  A kept alias of clearing with the
/// done-only flag set; callers are advised to use that form instead.
pub fn handle_clear_done(data: &mut Vec<Task>) -> (r: Result<(), CommandError>)
    ensures
        r is Ok,
        final(data).deep_view() == clear_result(old(data).deep_view(), true),
{
    handle_clear(&ClearCommand { done: true }, data)
}

} // verus!
