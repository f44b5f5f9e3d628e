//! The batch semantics both executors share: what a request's name
//! list alone can reject, which names pass the existence checks
//! against a store, and what applying a validated batch yields.
//!
//! Validation is phased: the name list is checked first (empty input,
//! then the first name repeating an earlier one), existence against
//! the store second, and only a fully validated batch mutates — a
//! batch that fails validation leaves the store untouched.

use vstd::prelude::*;

use crate::errors::CommandError;
use crate::errors::CommandErrorView;
use crate::resolver::find_task;
use crate::task::TaskView;

verus! {

/// The four batch operations.
#[derive(Clone, Copy, Debug, PartialEq, Eq, Structural)]
pub enum OpKind {
    Add,
    Remove,
    MarkDone,
    MarkUndone,
}

/// Whether the name at position `i` repeats an earlier name of the
/// batch.
pub open spec fn repeats_earlier(names: Seq<Seq<char>>, i: int) -> bool {
    exists|j: int| 0 <= j < i && names[j] == names[i]
}

/// The first position whose name repeats an earlier one, scanning
/// from position `i` on.
pub open spec fn first_duplicate_from(names: Seq<Seq<char>>, i: int) -> Option<int>
    decreases names.len() - i,
{
    if !(0 <= i < names.len()) {
        None
    } else if repeats_earlier(names, i) {
        Some(i)
    } else {
        first_duplicate_from(names, i + 1)
    }
}

/// The first position whose name repeats an earlier one, if any.
pub open spec fn first_duplicate(names: Seq<Seq<char>>) -> Option<int> {
    first_duplicate_from(names, 0)
}

/// The error the name list alone produces, before any store is
/// consulted: empty input, or the first duplicated name.
pub open spec fn batch_input_error(names: Seq<Seq<char>>) -> Option<CommandErrorView> {
    if names.len() == 0 {
        Some(CommandErrorView::NoTasksSpecified)
    } else {
        match first_duplicate(names) {
            Some(i) => Some(CommandErrorView::DuplicateInput { name: names[i] }),
            None => None,
        }
    }
}

/// Scanning for the first duplicate may start past any prefix known
/// to hold none.
pub proof fn lemma_first_duplicate_prefix(names: Seq<Seq<char>>, i: int)
    requires
        0 <= i <= names.len(),
        forall|k: int| 0 <= k < i ==> !repeats_earlier(names, k),
    ensures
        first_duplicate(names) == first_duplicate_from(names, i),
    decreases i,
{
    if i > 0 {
        lemma_first_duplicate_prefix(names, i - 1);
    }
}

/// Checks a batch's name list: rejects an empty batch, and a batch in
/// which the same name appears twice — independently of any store.
pub fn validate_task_names(names: &Vec<String>) -> (r: Result<(), CommandError>)
    ensures
        match r {
            Ok(()) => batch_input_error(names.deep_view()) is None,
            Err(e) => batch_input_error(names.deep_view()) == Some(e@),
        },
{
    let ghost model = names.deep_view();
    if names.len() == 0 {
        return Err(CommandError::NoTasksSpecified);
    }
    let mut i: usize = 0;
    while i < names.len()
        invariant
            0 <= i <= names.len(),
            model == names.deep_view(),
            forall|k: int| 0 <= k < i ==> !repeats_earlier(model, k),
        decreases names.len() - i,
    {
        let mut j: usize = 0;
        while j < i
            invariant
                0 <= j <= i < names.len(),
                model == names.deep_view(),
                forall|k: int| 0 <= k < i ==> !repeats_earlier(model, k),
                forall|l: int| 0 <= l < j ==> model[l] != model[i as int],
            decreases i - j,
        {
            if names[j] == names[i] {
                proof {
                    assert(model[j as int] == model[i as int]);
                    assert(repeats_earlier(model, i as int));
                    lemma_first_duplicate_prefix(model, i as int);
                    assert(first_duplicate(model) == Some(i as int));
                }
                return Err(CommandError::DuplicateInput { name: names[i].clone() });
            }
            j += 1;
        }
        proof {
            assert(!repeats_earlier(model, i as int));
        }
        i += 1;
    }
    proof {
        lemma_first_duplicate_prefix(model, names.len() as int);
    }
    Ok(())
}

/// The error one name produces against the store: an add finds the
/// name already present, any other operation fails to find it.
pub open spec fn existence_error_at(
    kind: OpKind,
    tasks: Seq<TaskView>,
    name: Seq<char>,
) -> Option<CommandErrorView> {
    match kind {
        OpKind::Add => if find_task(tasks, name) is Some {
            Some(CommandErrorView::TaskExists { name })
        } else {
            None
        },
        _ => if find_task(tasks, name) is None {
            Some(CommandErrorView::TaskNotFound { name })
        } else {
            None
        },
    }
}

/// The first existence error among the names, scanning from position
/// `i` on, all checked against the same unmutated store.
pub open spec fn existence_error_from(
    kind: OpKind,
    tasks: Seq<TaskView>,
    names: Seq<Seq<char>>,
    i: int,
) -> Option<CommandErrorView>
    decreases names.len() - i,
{
    if !(0 <= i < names.len()) {
        None
    } else {
        match existence_error_at(kind, tasks, names[i]) {
            Some(e) => Some(e),
            None => existence_error_from(kind, tasks, names, i + 1),
        }
    }
}

/// The first existence error a batch produces against a store, if
/// any.
pub open spec fn existence_error(
    kind: OpKind,
    tasks: Seq<TaskView>,
    names: Seq<Seq<char>>,
) -> Option<CommandErrorView> {
    existence_error_from(kind, tasks, names, 0)
}

/// Scanning for the first existence error may start past any prefix
/// known to pass.
pub proof fn lemma_existence_error_prefix(
    kind: OpKind,
    tasks: Seq<TaskView>,
    names: Seq<Seq<char>>,
    i: int,
)
    requires
        0 <= i <= names.len(),
        forall|k: int| 0 <= k < i ==> existence_error_at(kind, tasks, names[k]) is None,
    ensures
        existence_error(kind, tasks, names) == existence_error_from(kind, tasks, names, i),
    decreases i,
{
    if i > 0 {
        lemma_existence_error_prefix(kind, tasks, names, i - 1);
    }
}

/// The task an add request creates for a name: not yet done.
pub open spec fn added_task(name: Seq<char>) -> TaskView {
    TaskView { name, done: false }
}

/// Appending one new task per name, in request order.
pub open spec fn add_all(tasks: Seq<TaskView>, names: Seq<Seq<char>>) -> Seq<TaskView>
    decreases names.len(),
{
    if names.len() == 0 {
        tasks
    } else {
        add_all(tasks.push(added_task(names[0])), names.drop_first())
    }
}

/// Removing the first task of the given name, if one is present.
pub open spec fn remove_one(tasks: Seq<TaskView>, name: Seq<char>) -> Seq<TaskView> {
    match find_task(tasks, name) {
        Some(i) => tasks.remove(i),
        None => tasks,
    }
}

/// Removing the named tasks in request order, re-resolving each
/// name's position against the collection as it then stands.
pub open spec fn remove_all(tasks: Seq<TaskView>, names: Seq<Seq<char>>) -> Seq<TaskView>
    decreases names.len(),
{
    if names.len() == 0 {
        tasks
    } else {
        remove_all(remove_one(tasks, names[0]), names.drop_first())
    }
}

/// Setting the completion flag of the first task of the given name,
/// if one is present.
pub open spec fn mark_one(tasks: Seq<TaskView>, name: Seq<char>, done: bool) -> Seq<TaskView> {
    match find_task(tasks, name) {
        Some(i) => tasks.update(i, TaskView { name: tasks[i].name, done: done }),
        None => tasks,
    }
}

/// Setting the completion flag of the named tasks in request order.
pub open spec fn mark_all(tasks: Seq<TaskView>, names: Seq<Seq<char>>, done: bool) -> Seq<
    TaskView,
>
    decreases names.len(),
{
    if names.len() == 0 {
        tasks
    } else {
        mark_all(mark_one(tasks, names[0], done), names.drop_first(), done)
    }
}

/// The tasks that are not completed, in order.
pub open spec fn pending_only(tasks: Seq<TaskView>) -> Seq<TaskView>
    decreases tasks.len(),
{
    if tasks.len() == 0 {
        Seq::<TaskView>::empty()
    } else if tasks[0].done {
        pending_only(tasks.drop_first())
    } else {
        seq![tasks[0]] + pending_only(tasks.drop_first())
    }
}

/// What an add batch does to a store: the first validation error, or
/// the store with one task appended per name in request order.
pub open spec fn local_add_result(tasks: Seq<TaskView>, names: Seq<Seq<char>>) -> Result<
    Seq<TaskView>,
    CommandErrorView,
> {
    match batch_input_error(names) {
        Some(e) => Err(e),
        None => match existence_error(OpKind::Add, tasks, names) {
            Some(e) => Err(e),
            None => Ok(add_all(tasks, names)),
        },
    }
}

/// What a remove batch does to a store.
pub open spec fn local_remove_result(tasks: Seq<TaskView>, names: Seq<Seq<char>>) -> Result<
    Seq<TaskView>,
    CommandErrorView,
> {
    match batch_input_error(names) {
        Some(e) => Err(e),
        None => match existence_error(OpKind::Remove, tasks, names) {
            Some(e) => Err(e),
            None => Ok(remove_all(tasks, names)),
        },
    }
}

/// What a done or undone batch does to a store.
pub open spec fn local_mark_result(
    tasks: Seq<TaskView>,
    names: Seq<Seq<char>>,
    done: bool,
) -> Result<Seq<TaskView>, CommandErrorView> {
    let kind = if done {
        OpKind::MarkDone
    } else {
        OpKind::MarkUndone
    };
    match batch_input_error(names) {
        Some(e) => Err(e),
        None => match existence_error(kind, tasks, names) {
            Some(e) => Err(e),
            None => Ok(mark_all(tasks, names, done)),
        },
    }
}

/// What a clear request leaves in a store: the pending tasks only, or
/// nothing at all.
pub open spec fn clear_result(tasks: Seq<TaskView>, done_only: bool) -> Seq<TaskView> {
    if done_only {
        pending_only(tasks)
    } else {
        Seq::<TaskView>::empty()
    }
}

} // verus!
