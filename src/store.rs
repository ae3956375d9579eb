use crate::task::{
    category_key, category_of, due_of, opt_text, parse_category, parse_due_date, parse_priority,
    priority_label, priority_of, Category, Priority, Task, TaskView, TodoError, TodoErrorView,
};
use crate::text::{lower_of, lowercase, same_text, split_tags, tags_of};
use vstd::prelude::*;

verus! {

/// Which tasks a listing shows. Absent texts impose nothing; `completed` wins over `pending`.
pub struct ListFilters {
    pub category: Option<String>,
    pub priority: Option<String>,
    pub completed: bool,
    pub pending: bool,
}

/// The fields that an edit replaces; absent ones are left as they are.
pub struct TaskUpdates {
    pub title: Option<String>,
    pub description: Option<String>,
    pub due: Option<String>,
    pub priority: Option<String>,
    pub category: Option<String>,
    pub tags: Option<String>,
}

/// Whether the filters let task `t` through; labels compare without regard to case.
pub open spec fn selects(f: ListFilters, t: TaskView) -> bool {
    &&& (f.category matches Some(c) ==> lower_of(c@) == category_key(t.category))
    &&& (f.priority matches Some(p) ==> lower_of(p@) == priority_label(t.priority))
    &&& if f.completed {
        t.completed
    } else if f.pending {
        !t.completed
    } else {
        true
    }
}

/// `i` is the first place in `s` of a task with this id.
pub open spec fn is_first(s: Seq<TaskView>, id: usize, i: int) -> bool {
    &&& 0 <= i < s.len()
    &&& s[i].id == id
    &&& forall|j: int| 0 <= j < i ==> s[j].id != id
}

/// The first place in `s` of a task with this id, if there is one.
pub open spec fn position(s: Seq<TaskView>, id: usize) -> Option<int> {
    if exists|i: int| is_first(s, id, i) {
        Some(choose|i: int| is_first(s, id, i))
    } else {
        None
    }
}

/// A first place found is the position.
pub proof fn lemma_position_at(s: Seq<TaskView>, id: usize, i: int)
    requires
        is_first(s, id, i),
    ensures
        position(s, id) == Some(i),
{
    let k = choose|k: int| is_first(s, id, k);
    assert(is_first(s, id, k));
    if k < i {
        assert(s[k].id != id);
    } else if i < k {
        assert(s[i].id != id);
    }
}

/// Where no task has the id, there is no position.
pub proof fn lemma_position_none(s: Seq<TaskView>, id: usize)
    requires
        forall|j: int| 0 <= j < s.len() ==> s[j].id != id,
    ensures
        position(s, id) is None,
{
}

/// What an edit makes of task `t`: the due date is read first, then the priority; on
/// either failure nothing changes.
pub open spec fn edited(t: TaskView, u: TaskUpdates) -> Result<TaskView, TodoErrorView> {
    match due_of(opt_text(u.due)) {
        Err(m) => Err(TodoErrorView::InvalidDueDate(m)),
        Ok(d) => {
            let p = match u.priority {
                None => Some(t.priority),
                Some(x) => priority_of(lower_of(x@)),
            };
            match p {
                None => Err(TodoErrorView::InvalidPriority),
                Some(p) => Ok(
                    TaskView {
                        title: match u.title {
                            Some(x) => x@,
                            None => t.title,
                        },
                        description: match u.description {
                            Some(x) => Some(x@),
                            None => t.description,
                        },
                        due_date: match d {
                            Some(v) => Some(v),
                            None => t.due_date,
                        },
                        priority: p,
                        category: match u.category {
                            Some(c) => category_of(c@),
                            None => t.category,
                        },
                        tags: match u.tags {
                            Some(x) => tags_of(x@),
                            None => t.tags,
                        },
                        ..t
                    },
                ),
            }
        },
    }
}

impl ListFilters {
    /// Whether these filters let `task` through.
    pub fn matches(&self, task: &Task) -> (r: bool)
        ensures
            r == selects(*self, task@),
    {
        let category_ok = match &self.category {
            None => true,
            Some(c) => {
                let want = lowercase(c.as_str());
                match &task.category {
                    Category::Personal => same_text(want.as_str(), "personal"),
                    Category::Work => same_text(want.as_str(), "work"),
                    Category::Shopping => same_text(want.as_str(), "shopping"),
                    Category::Health => same_text(want.as_str(), "health"),
                    Category::Other(s) => {
                        let have = lowercase(s.as_str());
                        same_text(want.as_str(), have.as_str())
                    },
                }
            },
        };
        let priority_ok = match &self.priority {
            None => true,
            Some(p) => {
                let want = lowercase(p.as_str());
                match task.priority {
                    Priority::Low => same_text(want.as_str(), "low"),
                    Priority::Medium => same_text(want.as_str(), "medium"),
                    Priority::High => same_text(want.as_str(), "high"),
                    Priority::Critical => same_text(want.as_str(), "critical"),
                }
            },
        };
        let completion_ok = if self.completed {
            task.completed
        } else if self.pending {
            !task.completed
        } else {
            true
        };
        category_ok && priority_ok && completion_ok
    }
}

/// The task list and the file it is kept in.
pub struct TodoManager {
    pub tasks: Vec<Task>,
    pub file_path: String,
}

/// The views of a sequence of tasks.
pub open spec fn task_views(v: Seq<Task>) -> Seq<TaskView> {
    v.map_values(|t: Task| t@)
}

impl View for TodoManager {
    type V = Seq<TaskView>;

    open spec fn view(&self) -> Seq<TaskView> {
        task_views(self.tasks@)
    }
}

impl TodoManager {
    /// A store kept at `file_path`, holding what was loaded from it; where nothing could be
    /// loaded, it starts empty.
    pub fn new(file_path: String, loaded: Option<Vec<Task>>) -> (r: TodoManager)
        ensures
            r.file_path == file_path,
            r@ == match loaded {
                Some(v) => task_views(v@),
                None => Seq::empty(),
            },
    {
        let tasks = match loaded {
            Some(v) => v,
            None => Vec::new(),
        };
        let r = TodoManager { tasks, file_path };
        assert(loaded is None ==> r@ =~= Seq::<TaskView>::empty());
        r
    }

    /// The id that the next task added gets: one more than the number of tasks.
    pub fn next_id(&self) -> (r: usize)
        requires
            self.tasks@.len() < usize::MAX,
        ensures
            r == self@.len() + 1,
    {
        self.tasks.len() + 1
    }

    /// Where `id` stands first, if anywhere.
    fn find_index(&self, id: usize) -> (r: Option<usize>)
        ensures
            match r {
                Some(i) => position(self@, id) == Some(i as int) && i < self@.len(),
                None => position(self@, id) is None,
            },
    {
        let mut i: usize = 0;
        while i < self.tasks.len()
            invariant
                i <= self.tasks@.len(),
                forall|j: int| 0 <= j < i ==> #[trigger] self@[j].id != id,
            decreases self.tasks@.len() - i,
        {
            if self.tasks[i].id == id {
                proof {
                    lemma_position_at(self@, id, i as int);
                }
                return Some(i);
            }
            i = i + 1;
        }
        proof {
            lemma_position_none(self@, id);
        }
        None
    }

    /// Appends a task at the end.
    pub fn add_task(&mut self, task: Task)
        ensures
            final(self)@ == old(self)@.push(task@),
            final(self).file_path == old(self).file_path,
    {
        self.tasks.push(task);
        assert(self@ =~= old(self)@.push(task@));
    }

    /// The tasks that the filters let through, in stored order.
    pub fn list_tasks(&self, filters: &ListFilters) -> (r: Vec<&Task>)
        ensures
            r@.map_values(|t: &Task| t@) == self@.filter(|t: TaskView| selects(*filters, t)),
    {
        let ghost pred = |t: TaskView| selects(*filters, t);
        let mut out: Vec<&Task> = Vec::new();
        let mut i: usize = 0;
        while i < self.tasks.len()
            invariant
                i <= self.tasks@.len(),
                pred == (|t: TaskView| selects(*filters, t)),
                out@.map_values(|t: &Task| t@) == self@.take(i as int).filter(pred),
            decreases self.tasks@.len() - i,
        {
            let task = &self.tasks[i];
            let ghost before = out@;
            proof {
                self@.take(i as int).lemma_filter_push(self@[i as int], pred);
                assert(self@.take(i + 1) == self@.take(i as int).push(self@[i as int]));
            }
            if filters.matches(task) {
                out.push(task);
                assert(out@.map_values(|t: &Task| t@) =~= before.map_values(|t: &Task| t@).push(task@));
            }
            i = i + 1;
        }
        assert(self@.take(self@.len() as int) == self@);
        out
    }

    /// Marks the first task with this id as done.
    pub fn complete_task(&mut self, id: usize) -> (r: Result<(), TodoError>)
        ensures
            final(self).file_path == old(self).file_path,
            match position(old(self)@, id) {
                None => r == Err::<(), TodoError>(TodoError::NotFound(id)) && final(self)@ == old(self)@,
                Some(i) => r is Ok && final(self)@ == old(self)@.update(
                    i,
                    TaskView { completed: true, ..old(self)@[i] },
                ),
            },
    {
        match self.find_index(id) {
            None => Err(TodoError::NotFound(id)),
            Some(i) => {
                self.tasks[i].completed = true;
                assert(self@ =~= old(self)@.update(i as int, TaskView { completed: true, ..old(self)@[i as int] }));
                Ok(())
            },
        }
    }

    /// Deletes the first task with this id; the others keep their ids.
    pub fn remove_task(&mut self, id: usize) -> (r: Result<(), TodoError>)
        ensures
            final(self).file_path == old(self).file_path,
            match position(old(self)@, id) {
                None => r == Err::<(), TodoError>(TodoError::NotFound(id)) && final(self)@ == old(self)@,
                Some(i) => r is Ok && final(self)@ == old(self)@.remove(i),
            },
    {
        match self.find_index(id) {
            None => Err(TodoError::NotFound(id)),
            Some(i) => {
                self.tasks.remove(i);
                assert(self@ =~= old(self)@.remove(i as int));
                Ok(())
            },
        }
    }

    /// Replaces the supplied fields of the first task with this id. The due date and the
    /// priority are read before anything is written, so a failed edit changes nothing.
    pub fn edit_task(&mut self, id: usize, updates: TaskUpdates) -> (r: Result<(), TodoError>)
        ensures
            final(self).file_path == old(self).file_path,
            match position(old(self)@, id) {
                None => r == Err::<(), TodoError>(TodoError::NotFound(id)) && final(self)@ == old(self)@,
                Some(i) => match edited(old(self)@[i], updates) {
                    Err(e) => r is Err && r->Err_0@ == e && final(self)@ == old(self)@,
                    Ok(t) => r is Ok && final(self)@ == old(self)@.update(i, t),
                },
            },
    {
        let i = match self.find_index(id) {
            None => return Err(TodoError::NotFound(id)),
            Some(i) => i,
        };
        let due = match parse_due_date(&updates.due) {
            Ok(d) => d,
            Err(e) => return Err(e),
        };
        let priority = match &updates.priority {
            None => self.tasks[i].priority,
            Some(p) => match parse_priority(p.as_str()) {
                Ok(p) => p,
                Err(e) => return Err(e),
            },
        };
        let category = match &updates.category {
            None => None,
            Some(c) => Some(parse_category(c.as_str())),
        };
        let tags = match &updates.tags {
            None => None,
            Some(t) => Some(split_tags(t.as_str())),
        };
        let TaskUpdates { title, description, .. } = updates;
        let task = &mut self.tasks[i];
        if let Some(t) = title {
            task.title = t;
        }
        if let Some(d) = description {
            task.description = Some(d);
        }
        if let Some(d) = due {
            task.due_date = Some(d);
        }
        task.priority = priority;
        if let Some(c) = category {
            task.category = c;
        }
        if let Some(t) = tags {
            task.tags = t;
        }
        assert(self@ =~= old(self)@.update(i as int, edited(old(self)@[i as int], updates)->Ok_0));
        Ok(())
    }

    /// The first task with this id.
    pub fn show_task(&self, id: usize) -> (r: Result<&Task, TodoError>)
        ensures
            match position(self@, id) {
                None => r == Err::<&Task, TodoError>(TodoError::NotFound(id)),
                Some(i) => r matches Ok(t) && t@ == self@[i],
            },
    {
        match self.find_index(id) {
            None => Err(TodoError::NotFound(id)),
            Some(i) => Ok(&self.tasks[i]),
        }
    }
}

} // verus!
