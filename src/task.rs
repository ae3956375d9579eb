use crate::text::{lower_of, lowercase, same_text, split_tags, tags_of, texts};
use crate::time::{due_parse, local_now, parse_due_text, DueDate, Stamp};
use vstd::prelude::*;

verus! {

/// How urgent a task is.
#[derive(Clone, Copy, Debug, PartialEq, Eq, Structural)]
pub enum Priority {
    Low,
    Medium,
    High,
    Critical,
}

/// What a task is about: one of four fixed kinds, or a label of the user's own.
#[derive(Clone, Debug, PartialEq, Eq)]
pub enum Category {
    Personal,
    Work,
    Shopping,
    Health,
    Other(String),
}

/// A category as a value: the user's label as its characters.
pub enum CategoryView {
    Personal,
    Work,
    Shopping,
    Health,
    Other(Seq<char>),
}

impl View for Category {
    type V = CategoryView;

    open spec fn view(&self) -> CategoryView {
        match self {
            Category::Personal => CategoryView::Personal,
            Category::Work => CategoryView::Work,
            Category::Shopping => CategoryView::Shopping,
            Category::Health => CategoryView::Health,
            Category::Other(s) => CategoryView::Other(s@),
        }
    }
}

/// One to-do item.
#[derive(Clone, Debug, PartialEq)]
pub struct Task {
    pub id: usize,
    pub title: String,
    pub description: Option<String>,
    pub completed: bool,
    pub created_at: Stamp,
    pub due_date: Option<DueDate>,
    pub priority: Priority,
    pub category: Category,
    pub tags: Vec<String>,
}

/// A task as a value: texts as their characters.
pub struct TaskView {
    pub id: usize,
    pub title: Seq<char>,
    pub description: Option<Seq<char>>,
    pub completed: bool,
    pub created_at: Stamp,
    pub due_date: Option<DueDate>,
    pub priority: Priority,
    pub category: CategoryView,
    pub tags: Seq<Seq<char>>,
}

/// The characters of an optional text.
pub open spec fn opt_text(o: Option<String>) -> Option<Seq<char>> {
    match o {
        Some(s) => Some(s@),
        None => None,
    }
}

impl View for Task {
    type V = TaskView;

    open spec fn view(&self) -> TaskView {
        TaskView {
            id: self.id,
            title: self.title@,
            description: opt_text(self.description),
            completed: self.completed,
            created_at: self.created_at,
            due_date: self.due_date,
            priority: self.priority,
            category: self.category@,
            tags: texts(self.tags@),
        }
    }
}

/// Why an operation on tasks failed.
#[derive(Clone, Debug, PartialEq, Eq)]
pub enum TodoError {
    /// The priority text names none of the four levels.
    InvalidPriority,
    /// The due date text could not be read; the parser's message.
    InvalidDueDate(String),
    /// No task has this id.
    NotFound(usize),
    /// The task file could not be written; the system's message.
    Io(String),
}

/// An error as a value: messages as their characters.
pub enum TodoErrorView {
    InvalidPriority,
    InvalidDueDate(Seq<char>),
    NotFound(usize),
    Io(Seq<char>),
}

impl View for TodoError {
    type V = TodoErrorView;

    open spec fn view(&self) -> TodoErrorView {
        match self {
            TodoError::InvalidPriority => TodoErrorView::InvalidPriority,
            TodoError::InvalidDueDate(m) => TodoErrorView::InvalidDueDate(m@),
            TodoError::NotFound(id) => TodoErrorView::NotFound(*id),
            TodoError::Io(m) => TodoErrorView::Io(m@),
        }
    }
}

/// The priority that a lower-case text names, if any.
pub open spec fn priority_of(lower: Seq<char>) -> Option<Priority> {
    if lower == "low"@ {
        Some(Priority::Low)
    } else if lower == "medium"@ {
        Some(Priority::Medium)
    } else if lower == "high"@ {
        Some(Priority::High)
    } else if lower == "critical"@ {
        Some(Priority::Critical)
    } else {
        None
    }
}

/// The lower-case name of a priority.
pub open spec fn priority_label(p: Priority) -> Seq<char> {
    match p {
        Priority::Low => "low"@,
        Priority::Medium => "medium"@,
        Priority::High => "high"@,
        Priority::Critical => "critical"@,
    }
}

/// The category written as `text`, whose lower-case form is `lower`: a fixed kind where
/// `lower` names one, else `text` itself as the user's label.
pub open spec fn category_choice(text: Seq<char>, lower: Seq<char>) -> CategoryView {
    if lower == "personal"@ {
        CategoryView::Personal
    } else if lower == "work"@ {
        CategoryView::Work
    } else if lower == "shopping"@ {
        CategoryView::Shopping
    } else if lower == "health"@ {
        CategoryView::Health
    } else {
        CategoryView::Other(text)
    }
}

/// The category written as `text`, without regard to case.
pub open spec fn category_of(text: Seq<char>) -> CategoryView {
    category_choice(text, lower_of(text))
}

/// The lower-case label that a category is matched by.
pub open spec fn category_key(c: CategoryView) -> Seq<char> {
    match c {
        CategoryView::Personal => "personal"@,
        CategoryView::Work => "work"@,
        CategoryView::Shopping => "shopping"@,
        CategoryView::Health => "health"@,
        CategoryView::Other(s) => lower_of(s),
    }
}

/// The due date that an optional text gives, or the parser's message.
pub open spec fn due_of(due: Option<Seq<char>>) -> Result<Option<DueDate>, Seq<char>> {
    match due {
        None => Ok(None),
        Some(d) => match due_parse(d) {
            Ok(v) => Ok(Some(v)),
            Err(m) => Err(m),
        },
    }
}

/// The tags that an optional text gives; none where it is absent.
pub open spec fn tags_from(tags: Option<Seq<char>>) -> Seq<Seq<char>> {
    match tags {
        None => Seq::empty(),
        Some(t) => tags_of(t),
    }
}

/// What building a task from these texts gives: the priority is read first, then the
/// due date.
pub open spec fn construct(
    id: usize,
    title: Seq<char>,
    description: Option<Seq<char>>,
    due: Option<Seq<char>>,
    priority: Seq<char>,
    category: Seq<char>,
    tags: Option<Seq<char>>,
    created_at: Stamp,
) -> Result<TaskView, TodoErrorView> {
    match priority_of(lower_of(priority)) {
        None => Err(TodoErrorView::InvalidPriority),
        Some(p) => match due_of(due) {
            Err(m) => Err(TodoErrorView::InvalidDueDate(m)),
            Ok(d) => Ok(
                TaskView {
                    id,
                    title,
                    description,
                    completed: false,
                    created_at,
                    due_date: d,
                    priority: p,
                    category: category_of(category),
                    tags: tags_from(tags),
                },
            ),
        },
    }
}

/// A build's outcome as a value.
pub open spec fn task_outcome(r: Result<Task, TodoError>) -> Result<TaskView, TodoErrorView> {
    match r {
        Ok(t) => Ok(t@),
        Err(e) => Err(e@),
    }
}

/// The priority that a lower-case text names, if any.
pub fn priority_from_lower(lower: &str) -> (r: Option<Priority>)
    ensures
        r == priority_of(lower@),
{
    if same_text(lower, "low") {
        Some(Priority::Low)
    } else if same_text(lower, "medium") {
        Some(Priority::Medium)
    } else if same_text(lower, "high") {
        Some(Priority::High)
    } else if same_text(lower, "critical") {
        Some(Priority::Critical)
    } else {
        None
    }
}

/// Reads a priority level, ignoring case.
pub fn parse_priority(text: &str) -> (r: Result<Priority, TodoError>)
    ensures
        match priority_of(lower_of(text@)) {
            Some(p) => r == Ok::<Priority, TodoError>(p),
            None => r == Err::<Priority, TodoError>(TodoError::InvalidPriority),
        },
{
    let lower = lowercase(text);
    match priority_from_lower(lower.as_str()) {
        Some(p) => Ok(p),
        None => Err(TodoError::InvalidPriority),
    }
}

/// The category written as `text`, given its lower-case form `lower`.
pub fn category_from_lower(text: &str, lower: &str) -> (r: Category)
    ensures
        r@ == category_choice(text@, lower@),
{
    if same_text(lower, "personal") {
        Category::Personal
    } else if same_text(lower, "work") {
        Category::Work
    } else if same_text(lower, "shopping") {
        Category::Shopping
    } else if same_text(lower, "health") {
        Category::Health
    } else {
        Category::Other(text.to_owned())
    }
}

/// Reads a category, ignoring case; any other text is kept as the user's own label.
pub fn parse_category(text: &str) -> (r: Category)
    ensures
        r@ == category_of(text@),
{
    let lower = lowercase(text);
    category_from_lower(text, lower.as_str())
}

/// Reads an optional due date.
pub fn parse_due_date(due: &Option<String>) -> (r: Result<Option<DueDate>, TodoError>)
    ensures
        match due_of(opt_text(*due)) {
            Ok(d) => r == Ok::<Option<DueDate>, TodoError>(d),
            Err(m) => r is Err && r->Err_0@ == TodoErrorView::InvalidDueDate(m),
        },
        r matches Ok(Some(d)) ==> d.wf(),
{
    match due {
        None => Ok(None),
        Some(text) => match parse_due_text(text.as_str()) {
            Ok(d) => Ok(Some(d)),
            Err(m) => Err(TodoError::InvalidDueDate(m)),
        },
    }
}

/// Reads optional tags; none where the text is absent.
pub fn parse_tags(tags: &Option<String>) -> (r: Vec<String>)
    ensures
        texts(r@) == tags_from(opt_text(*tags)),
{
    match tags {
        None => {
            let v: Vec<String> = Vec::new();
            assert(texts(v@) =~= Seq::<Seq<char>>::empty());
            v
        },
        Some(t) => split_tags(t.as_str()),
    }
}

impl Task {
    /// Builds a pending task created at `created_at`.
    pub fn new_at(
        id: usize,
        title: String,
        description: Option<String>,
        due_date: Option<String>,
        priority: &str,
        category: &str,
        tags: Option<String>,
        created_at: Stamp,
    ) -> (r: Result<Task, TodoError>)
        ensures
            task_outcome(r) == construct(
                id,
                title@,
                opt_text(description),
                opt_text(due_date),
                priority@,
                category@,
                opt_text(tags),
                created_at,
            ),
            r matches Ok(t) ==> (t.due_date matches Some(d) ==> d.wf()),
    {
        let priority = match parse_priority(priority) {
            Ok(p) => p,
            Err(e) => return Err(e),
        };
        let category = parse_category(category);
        let due_date = match parse_due_date(&due_date) {
            Ok(d) => d,
            Err(e) => return Err(e),
        };
        let tags = parse_tags(&tags);
        Ok(
            Task {
                id,
                title,
                description,
                completed: false,
                created_at,
                due_date,
                priority,
                category,
                tags,
            },
        )
    }

    /// Builds a pending task created now.
    pub fn new(
        id: usize,
        title: String,
        description: Option<String>,
        due_date: Option<String>,
        priority: &str,
        category: &str,
        tags: Option<String>,
    ) -> (r: Result<Task, TodoError>)
        ensures
            exists|s: Stamp|
                s.wf() && task_outcome(r) == construct(
                    id,
                    title@,
                    opt_text(description),
                    opt_text(due_date),
                    priority@,
                    category@,
                    opt_text(tags),
                    s,
                ),
    {
        let now = local_now();
        Task::new_at(id, title, description, due_date, priority, category, tags, now)
    }
}

} // verus!
