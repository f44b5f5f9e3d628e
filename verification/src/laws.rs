//! The engine's laws: what the batch semantics guarantee over and
//! above each function's own contract, and the equivalence of the
//! local and the remote execution path.

use vstd::prelude::*;

use crate::batch::add_all;
use crate::batch::added_task;
use crate::batch::batch_input_error;
use crate::batch::clear_result;
use crate::batch::existence_error;
use crate::batch::existence_error_at;
use crate::batch::existence_error_from;
use crate::batch::first_duplicate;
use crate::batch::local_add_result;
use crate::batch::local_mark_result;
use crate::batch::local_remove_result;
use crate::batch::mark_all;
use crate::batch::mark_one;
use crate::batch::pending_only;
use crate::batch::OpKind;
use crate::errors::CommandErrorView;
use crate::remote::probe_decision;
use crate::remote::ProbeOutcome;
use crate::resolver::find_task;
use crate::task::TaskView;

verus! {

/// Every existence error of an add is a task-exists error; every
/// existence error of the other operations is a task-not-found error.
proof fn lemma_existence_error_shape(
    kind: OpKind,
    tasks: Seq<TaskView>,
    names: Seq<Seq<char>>,
    i: int,
)
    ensures
        match existence_error_from(kind, tasks, names, i) {
            Some(e) => if kind is Add {
                e is TaskExists
            } else {
                e is TaskNotFound
            },
            None => true,
        },
    decreases names.len() - i,
{
    if 0 <= i < names.len() {
        lemma_existence_error_shape(kind, tasks, names, i + 1);
    }
}

/// A violation at any position makes the whole existence pass fail.
proof fn lemma_existence_error_from_some(
    kind: OpKind,
    tasks: Seq<TaskView>,
    names: Seq<Seq<char>>,
    j: int,
    i: int,
)
    requires
        0 <= j <= i < names.len(),
        existence_error_at(kind, tasks, names[i]) is Some,
    ensures
        existence_error_from(kind, tasks, names, j) is Some,
    decreases i - j,
{
    if j < i && existence_error_at(kind, tasks, names[j]) is None {
        lemma_existence_error_from_some(kind, tasks, names, j + 1, i);
    }
}

/// When every name passes its existence check, the pass succeeds.
proof fn lemma_existence_error_from_none(
    kind: OpKind,
    tasks: Seq<TaskView>,
    names: Seq<Seq<char>>,
    i: int,
)
    requires
        0 <= i <= names.len(),
        forall|k: int| i <= k < names.len() ==> existence_error_at(kind, tasks, names[k]) is None,
    ensures
        existence_error_from(kind, tasks, names, i) is None,
    decreases names.len() - i,
{
    if i < names.len() {
        lemma_existence_error_from_none(kind, tasks, names, i + 1);
    }
}

/// Law: an add batch that names a task already in the store is
/// rejected with a task-exists error.  Together with the executor's
/// own contract — a rejected batch leaves the store exactly as it
/// was — validation is atomic: no prefix of the batch is applied.
pub proof fn lemma_add_batch_atomicity(tasks: Seq<TaskView>, names: Seq<Seq<char>>, i: int)
    requires
        batch_input_error(names) is None,
        0 <= i < names.len(),
        find_task(tasks, names[i]) is Some,
    ensures
        local_add_result(tasks, names) matches Err(e) && e is TaskExists,
{
    lemma_existence_error_from_some(OpKind::Add, tasks, names, 0, i);
    lemma_existence_error_shape(OpKind::Add, tasks, names, 0);
}

/// Law: a batch whose name list repeats a name is rejected as
/// duplicate input — the first repeated name is reported — whatever
/// the store holds, and before any existence check could matter.
pub proof fn lemma_duplicate_input_precedes_existence(
    tasks: Seq<TaskView>,
    names: Seq<Seq<char>>,
    done: bool,
)
    requires
        first_duplicate(names) is Some,
    ensures
        ({
            let dup = CommandErrorView::DuplicateInput {
                name: names[first_duplicate(names).unwrap()],
            };
            &&& local_add_result(tasks, names) == Err::<Seq<TaskView>, _>(dup)
            &&& local_remove_result(tasks, names) == Err::<Seq<TaskView>, _>(dup)
            &&& local_mark_result(tasks, names, done) == Err::<Seq<TaskView>, _>(dup)
        }),
{
}

/// Law: a successful add preserves order — the store afterwards is
/// the store before, followed by one not-yet-done task per requested
/// name, in request order.
pub proof fn lemma_add_preserves_order(tasks: Seq<TaskView>, names: Seq<Seq<char>>)
    ensures
        add_all(tasks, names) == tasks + names.map_values(|n: Seq<char>| added_task(n)),
    decreases names.len(),
{
    let f = |n: Seq<char>| added_task(n);
    if names.len() == 0 {
        assert(tasks + names.map_values(f) =~= tasks);
    } else {
        lemma_add_preserves_order(tasks.push(added_task(names[0])), names.drop_first());
        assert(tasks.push(added_task(names[0])) + names.drop_first().map_values(f) =~= tasks
            + names.map_values(f));
    }
}

/// Law: marking a name whose task already carries the requested flag
/// changes nothing — the operation is idempotent on the store.
pub proof fn lemma_mark_idempotent(tasks: Seq<TaskView>, name: Seq<char>, done: bool)
    requires
        match find_task(tasks, name) {
            Some(i) => tasks[i].done == done,
            None => true,
        },
    ensures
        mark_one(tasks, name, done) == tasks,
{
    crate::resolver::lemma_find_task_is_first_match(tasks, name);
    match find_task(tasks, name) {
        Some(i) => {
            assert(tasks.update(i, TaskView { name: tasks[i].name, done }) =~= tasks);
        },
        None => {},
    }
}

/// Law: a done or undone batch succeeds exactly when every named
/// task exists — the tasks' current flags play no part, so marking
/// an already-done task done is no error.
pub proof fn lemma_mark_succeeds_when_present(
    tasks: Seq<TaskView>,
    names: Seq<Seq<char>>,
    done: bool,
)
    requires
        batch_input_error(names) is None,
        forall|i: int| 0 <= i < names.len() ==> find_task(tasks, names[i]) is Some,
    ensures
        local_mark_result(tasks, names, done) is Ok,
{
    let kind = if done {
        OpKind::MarkDone
    } else {
        OpKind::MarkUndone
    };
    lemma_existence_error_from_none(kind, tasks, names, 0);
}

/// Marking one name touches only completion flags: no name changes,
/// no task moves, and a flag only ever becomes the requested one.
proof fn lemma_mark_one_frame(tasks: Seq<TaskView>, name: Seq<char>, done: bool)
    ensures
        mark_one(tasks, name, done).len() == tasks.len(),
        forall|i: int| 0 <= i < tasks.len() ==> mark_one(tasks, name, done)[i].name
            == tasks[i].name,
        forall|i: int| 0 <= i < tasks.len() ==> (mark_one(tasks, name, done)[i].done
            == tasks[i].done || mark_one(tasks, name, done)[i].done == done),
        match find_task(tasks, name) {
            Some(p) => mark_one(tasks, name, done)[p].done == done,
            None => true,
        },
{
    crate::resolver::lemma_find_task_is_first_match(tasks, name);
}

/// A whole mark batch touches only completion flags, in the same
/// sense.
proof fn lemma_mark_all_frame(tasks: Seq<TaskView>, names: Seq<Seq<char>>, done: bool)
    ensures
        mark_all(tasks, names, done).len() == tasks.len(),
        forall|i: int| 0 <= i < tasks.len() ==> mark_all(tasks, names, done)[i].name
            == tasks[i].name,
        forall|i: int| 0 <= i < tasks.len() ==> (mark_all(tasks, names, done)[i].done
            == tasks[i].done || mark_all(tasks, names, done)[i].done == done),
    decreases names.len(),
{
    if names.len() > 0 {
        lemma_mark_one_frame(tasks, names[0], done);
        lemma_mark_all_frame(mark_one(tasks, names[0], done), names.drop_first(), done);
    }
}

/// Resolution reads only the names: two collections whose tasks are
/// named alike resolve every name alike.
proof fn lemma_find_depends_on_names(t1: Seq<TaskView>, t2: Seq<TaskView>, name: Seq<char>)
    requires
        t1.len() == t2.len(),
        forall|i: int| 0 <= i < t1.len() ==> t1[i].name == t2[i].name,
    ensures
        find_task(t1, name) == find_task(t2, name),
    decreases t1.len(),
{
    if t1.len() > 0 {
        assert(forall|i: int|
            0 <= i < t1.drop_first().len() ==> #[trigger] t1.drop_first()[i].name
                == t2.drop_first()[i].name);
        lemma_find_depends_on_names(t1.drop_first(), t2.drop_first(), name);
    }
}

/// Law: a mark batch leaves every named task carrying the requested
/// flag — also one that already carried it, which is what makes the
/// operation idempotent in effect.
pub proof fn lemma_mark_applies_flag(
    tasks: Seq<TaskView>,
    names: Seq<Seq<char>>,
    done: bool,
    k: int,
)
    requires
        0 <= k < names.len(),
    ensures
        match find_task(tasks, names[k]) {
            Some(p) => mark_all(tasks, names, done)[p].done == done && mark_all(
                tasks,
                names,
                done,
            )[p].name == tasks[p].name,
            None => true,
        },
    decreases names.len(),
{
    let t1 = mark_one(tasks, names[0], done);
    lemma_mark_one_frame(tasks, names[0], done);
    crate::resolver::lemma_find_task_is_first_match(tasks, names[k]);
    lemma_mark_all_frame(tasks, names, done);
    if k == 0 {
        lemma_mark_all_frame(t1, names.drop_first(), done);
    } else {
        lemma_mark_applies_flag(t1, names.drop_first(), done, k - 1);
        lemma_find_depends_on_names(tasks, t1, names[k]);
    }
}

/// The store after appending one task: the pending tasks are those
/// of the store before, with the new task kept when it is pending.
proof fn lemma_pending_only_push(tasks: Seq<TaskView>, t: TaskView)
    ensures
        pending_only(tasks.push(t)) == if t.done {
            pending_only(tasks)
        } else {
            pending_only(tasks).push(t)
        },
    decreases tasks.len(),
{
    if tasks.len() == 0 {
        assert(tasks.push(t).drop_first() =~= Seq::<TaskView>::empty());
        if !t.done {
            assert(seq![t] + pending_only(Seq::<TaskView>::empty()) =~= pending_only(
                tasks,
            ).push(t));
        }
    } else {
        assert(tasks.push(t).drop_first() =~= tasks.drop_first().push(t));
        lemma_pending_only_push(tasks.drop_first(), t);
        if !tasks[0].done && !t.done {
            assert(seq![tasks[0]] + pending_only(tasks.drop_first()).push(t) =~= (seq![tasks[0]]
                + pending_only(tasks.drop_first())).push(t));
        }
    }
}

/// Law: clearing completed tasks keeps exactly the tasks not yet
/// done, in their order — it is the filter by the pending flag; a
/// full clear keeps nothing.
pub proof fn lemma_clear_semantics(tasks: Seq<TaskView>)
    ensures
        clear_result(tasks, false) == Seq::<TaskView>::empty(),
        clear_result(tasks, true) == tasks.filter(|t: TaskView| !t.done),
    decreases tasks.len(),
{
    reveal(Seq::filter);
    if tasks.len() == 0 {
    } else {
        lemma_clear_semantics(tasks.drop_last());
        assert(tasks.drop_last().push(tasks.last()) =~= tasks);
        lemma_pending_only_push(tasks.drop_last(), tasks.last());
    }
}

/// The probe answer a faithful server gives for a name: the position
/// the resolver finds, or a not-found answer.
pub open spec fn probe_of(tasks: Seq<TaskView>, name: Seq<char>) -> ProbeOutcome {
    match find_task(tasks, name) {
        Some(i) => ProbeOutcome::Found(i as usize),
        None => ProbeOutcome::Missing,
    }
}

/// The error the remote validation phase ends in, from position `i`
/// on, when every probe is answered faithfully for the task set
/// `tasks` — `None` when every name passes and the mutation phase is
/// reached.
pub open spec fn remote_validation_error_from(
    kind: OpKind,
    tasks: Seq<TaskView>,
    names: Seq<Seq<char>>,
    i: int,
) -> Option<CommandErrorView>
    decreases names.len() - i,
{
    if !(0 <= i < names.len()) {
        None
    } else {
        match probe_decision(kind, names[i], probe_of(tasks, names[i])) {
            Some(e) => Some(e),
            None => remote_validation_error_from(kind, tasks, names, i + 1),
        }
    }
}

/// The error the remote validation phase ends in against a faithful
/// server, if any.
pub open spec fn remote_validation_error(
    kind: OpKind,
    tasks: Seq<TaskView>,
    names: Seq<Seq<char>>,
) -> Option<CommandErrorView> {
    remote_validation_error_from(kind, tasks, names, 0)
}

proof fn lemma_remote_validation_from_matches_local(
    kind: OpKind,
    tasks: Seq<TaskView>,
    names: Seq<Seq<char>>,
    i: int,
)
    ensures
        remote_validation_error_from(kind, tasks, names, i) == existence_error_from(
            kind,
            tasks,
            names,
            i,
        ),
    decreases names.len() - i,
{
    if 0 <= i < names.len() {
        lemma_remote_validation_from_matches_local(kind, tasks, names, i + 1);
    }
}

/// Law: the two backends behave alike.  Against a server that
/// answers every existence probe faithfully for the task set
/// `tasks`, the remote validation phase ends in exactly the error
/// the local executor's existence pass produces — the same add
/// rejected as existing, the same remove, done or undone rejected as
/// not found — and in none when the local pass passes.  Since a
/// batch session requests no mutating call before validation
/// completes, and the local executor mutates nothing before its
/// validation passes, a batch rejected this way leaves both backends'
/// stores untouched.
pub proof fn lemma_remote_local_equivalence(
    kind: OpKind,
    tasks: Seq<TaskView>,
    names: Seq<Seq<char>>,
)
    ensures
        remote_validation_error(kind, tasks, names) == existence_error(kind, tasks, names),
{
    lemma_remote_validation_from_matches_local(kind, tasks, names, 0);
}

} // verus!
