use crate::store::{edited, is_first, lemma_position_at, position, selects, ListFilters, TaskUpdates};
use crate::task::{construct, priority_of, TaskView, TodoErrorView};
use crate::text::lower_of;
use crate::time::{due_parse, Stamp};
use vstd::prelude::*;

verus! {

/// Building a task fails with `InvalidPriority` whenever the priority text, in lower case,
/// is none of `low`, `medium`, `high` and `critical`, whatever the other inputs are.
pub proof fn unknown_priority_is_rejected(
    id: usize,
    title: Seq<char>,
    description: Option<Seq<char>>,
    due: Option<Seq<char>>,
    priority: Seq<char>,
    category: Seq<char>,
    tags: Option<Seq<char>>,
    created_at: Stamp,
)
    requires
        lower_of(priority) != "low"@,
        lower_of(priority) != "medium"@,
        lower_of(priority) != "high"@,
        lower_of(priority) != "critical"@,
    ensures
        construct(id, title, description, due, priority, category, tags, created_at) == Err::<
            TaskView,
            TodoErrorView,
        >(TodoErrorView::InvalidPriority),
{
}

/// Building a task with a valid priority fails with `InvalidDueDate`, carrying the parser's
/// message, whenever the due text cannot be read as a date and time.
pub proof fn unreadable_due_is_rejected(
    id: usize,
    title: Seq<char>,
    description: Option<Seq<char>>,
    due: Seq<char>,
    priority: Seq<char>,
    category: Seq<char>,
    tags: Option<Seq<char>>,
    created_at: Stamp,
)
    requires
        priority_of(lower_of(priority)) is Some,
        due_parse(due) is Err,
    ensures
        construct(id, title, description, Some(due), priority, category, tags, created_at) == Err::<
            TaskView,
            TodoErrorView,
        >(TodoErrorView::InvalidDueDate(due_parse(due)->Err_0)),
{
}

/// After a task is appended, looking up its id finds that very task, provided no task
/// stored before it has the same id.
pub proof fn added_task_is_found(s: Seq<TaskView>, t: TaskView)
    requires
        forall|j: int| 0 <= j < s.len() ==> s[j].id != t.id,
    ensures
        position(s.push(t), t.id) == Some(s.len() as int),
        s.push(t)[s.len() as int] == t,
{
    assert(is_first(s.push(t), t.id, s.len() as int));
    lemma_position_at(s.push(t), t.id, s.len() as int);
}

/// After the task with an id is removed, looking up that id finds nothing, provided no
/// other task shares the id.
pub proof fn removed_task_is_gone(s: Seq<TaskView>, id: usize)
    requires
        position(s, id) is Some,
        forall|j: int, k: int|
            0 <= j < s.len() && 0 <= k < s.len() && s[j].id == id && s[k].id == id ==> j == k,
    ensures
        position(s.remove(position(s, id)->0), id) is None,
{
    let i = position(s, id)->0;
    assert(is_first(s, id, i));
    let r = s.remove(i);
    assert forall|j: int| 0 <= j < r.len() implies r[j].id != id by {
        if j < i {
            assert(r[j] == s[j]);
        } else {
            assert(r[j] == s[j + 1]);
        }
    }
    assert(!exists|k: int| is_first(r, id, k));
}

/// Right after a task is removed, the next id handed out is not the removed one, unless
/// that id equals the number of tasks before the removal.
pub proof fn removed_id_not_handed_out_next(s: Seq<TaskView>, id: usize)
    requires
        position(s, id) is Some,
        id != s.len(),
    ensures
        s.remove(position(s, id)->0).len() + 1 != id,
{
    assert(is_first(s, id, position(s, id)->0));
}

/// A listing that asks for completed tasks only, with no label filter, holds exactly the
/// completed tasks in stored order, whether or not it also asks for pending ones.
pub proof fn completed_listing_is_the_completed_tasks(s: Seq<TaskView>, f: ListFilters)
    requires
        f.category is None,
        f.priority is None,
        f.completed,
    ensures
        s.filter(|t: TaskView| selects(f, t)) == s.filter(|t: TaskView| t.completed),
{
    assert((|t: TaskView| selects(f, t)) =~= (|t: TaskView| t.completed));
}

/// An edit whose due text cannot be read fails with `InvalidDueDate`; the store then keeps
/// every task, due dates included, as it was.
pub proof fn unreadable_due_edit_is_rejected(t: TaskView, u: TaskUpdates)
    requires
        u.due matches Some(d) && due_parse(d@) is Err,
    ensures
        edited(t, u) == Err::<TaskView, TodoErrorView>(
            TodoErrorView::InvalidDueDate(due_parse(u.due->Some_0@)->Err_0),
        ),
{
}

} // verus!
