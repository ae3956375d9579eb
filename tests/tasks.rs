use todo_cli::store::{ListFilters, TaskUpdates, TodoManager};
use todo_cli::task::{parse_category, parse_priority, priority_from_lower, Category, Priority, Task, TodoError};
use todo_cli::text::{same_text, split_commas, split_tags};
use todo_cli::time::{DueDate, Stamp};

fn stamp() -> Stamp {
    Stamp { secs: 1_700_000_000, nanos: 0, offset_secs: 3600 }
}

fn make(id: usize, title: &str, priority: &str, category: &str) -> Task {
    Task::new_at(id, title.to_string(), None, None, priority, category, None, stamp()).unwrap()
}

fn no_filters() -> ListFilters {
    ListFilters { category: None, priority: None, completed: false, pending: false }
}

fn no_updates() -> TaskUpdates {
    TaskUpdates { title: None, description: None, due: None, priority: None, category: None, tags: None }
}

fn ids(tasks: &[&Task]) -> Vec<usize> {
    tasks.iter().map(|t| t.id).collect()
}

fn empty_store() -> TodoManager {
    TodoManager::new("tasks.json".to_string(), None)
}

#[test]
fn scenario_add_list_complete_remove() {
    let mut m = empty_store();
    let id = m.next_id();
    let t = Task::new(id, "Buy milk".to_string(), None, None, "high", "shopping", None).unwrap();
    assert_eq!(t.id, 1);
    assert!(!t.completed);
    assert_eq!(t.priority, Priority::High);
    assert_eq!(t.category, Category::Shopping);
    m.add_task(t);
    let id = m.next_id();
    let t = Task::new(id, "Call mom".to_string(), None, None, "low", "personal", None).unwrap();
    assert_eq!(t.id, 2);
    m.add_task(t);
    assert_eq!(ids(&m.list_tasks(&no_filters())), vec![1, 2]);
    m.complete_task(1).unwrap();
    let pending = ListFilters { pending: true, ..no_filters() };
    assert_eq!(ids(&m.list_tasks(&pending)), vec![2]);
    m.remove_task(1).unwrap();
    assert_eq!(m.show_task(1).unwrap_err(), TodoError::NotFound(1));
    assert_eq!(ids(&m.list_tasks(&no_filters())), vec![2]);
}

#[test]
fn edit_with_impossible_due_date_changes_nothing() {
    let mut m = empty_store();
    let t = Task::new_at(1, "Pay rent".to_string(), None, Some("2024-05-01 09:00".to_string()), "medium", "work", None, stamp())
        .unwrap();
    m.add_task(t);
    let u = TaskUpdates { due: Some("2024-13-40 10:00".to_string()), title: Some("Other".to_string()), ..no_updates() };
    match m.edit_task(1, u) {
        Err(TodoError::InvalidDueDate(_)) => {}
        other => panic!("unexpected {:?}", other),
    }
    let t = m.show_task(1).unwrap();
    assert_eq!(t.due_date, Some(DueDate { year: 2024, month: 5, day: 1, hour: 9, minute: 0 }));
    assert_eq!(t.title, "Pay rent");
}

#[test]
fn construct_reads_every_field() {
    let t = Task::new_at(
        7,
        "Run".to_string(),
        Some("5 km".to_string()),
        Some("2024-02-29 18:45".to_string()),
        "CRITICAL",
        "Health",
        Some(" a, b ,,c ".to_string()),
        stamp(),
    )
    .unwrap();
    assert_eq!(t.id, 7);
    assert_eq!(t.title, "Run");
    assert_eq!(t.description, Some("5 km".to_string()));
    assert!(!t.completed);
    assert_eq!(t.created_at, stamp());
    assert_eq!(t.due_date, Some(DueDate { year: 2024, month: 2, day: 29, hour: 18, minute: 45 }));
    assert_eq!(t.priority, Priority::Critical);
    assert_eq!(t.category, Category::Health);
    assert_eq!(t.tags, vec!["a", "b", "", "c"]);
}

#[test]
fn construct_without_optional_fields() {
    let t = make(3, "Read", "Low", "personal");
    assert_eq!(t.description, None);
    assert_eq!(t.due_date, None);
    assert!(t.tags.is_empty());
}

#[test]
fn construct_rejects_unknown_priority() {
    let r = Task::new_at(1, "x".to_string(), None, None, "urgent", "work", None, stamp());
    assert_eq!(r.unwrap_err(), TodoError::InvalidPriority);
    let r = Task::new_at(1, "x".to_string(), None, Some("nonsense".to_string()), "", "work", None, stamp());
    assert_eq!(r.unwrap_err(), TodoError::InvalidPriority);
}

#[test]
fn construct_rejects_bad_due_dates() {
    for due in ["2024-13-40 10:00", "2024-02-30 10:00", "tomorrow", "2024-01-01", "2024-01-01 25:00"] {
        let r = Task::new_at(1, "x".to_string(), None, Some(due.to_string()), "low", "work", None, stamp());
        match r {
            Err(TodoError::InvalidDueDate(m)) => assert!(!m.is_empty()),
            other => panic!("{} gave {:?}", due, other),
        }
    }
}

#[test]
fn other_category_keeps_the_text() {
    let t = make(1, "x", "low", "Garden Work");
    assert_eq!(t.category, Category::Other("Garden Work".to_string()));
    assert_eq!(parse_category("WORK"), Category::Work);
    assert_eq!(parse_category(""), Category::Other(String::new()));
}

#[test]
fn priorities_ignore_case() {
    assert_eq!(parse_priority("LoW"), Ok(Priority::Low));
    assert_eq!(parse_priority("Medium"), Ok(Priority::Medium));
    assert_eq!(parse_priority("HIGH"), Ok(Priority::High));
    assert_eq!(parse_priority(" high"), Err(TodoError::InvalidPriority));
    assert_eq!(priority_from_lower("critical"), Some(Priority::Critical));
    assert_eq!(priority_from_lower("High"), None);
}

#[test]
fn comma_splitting_keeps_empty_pieces() {
    assert_eq!(split_commas(""), vec![""]);
    assert_eq!(split_commas("a,,b,"), vec!["a", "", "b", ""]);
    assert_eq!(split_commas(" x y "), vec![" x y "]);
    assert_eq!(split_tags("  work , home,work "), vec!["work", "home", "work"]);
    assert_eq!(split_tags(","), vec!["", ""]);
}

#[test]
fn text_comparison() {
    assert!(same_text("abc", "abc"));
    assert!(!same_text("abc", "abd"));
    assert!(!same_text("abc", "ab"));
    assert!(same_text("", ""));
}

#[test]
fn add_then_show_finds_the_task() {
    let mut m = empty_store();
    m.add_task(make(1, "a", "low", "work"));
    let t = make(2, "b", "high", "errands");
    let expected = t.clone();
    m.add_task(t);
    assert_eq!(m.show_task(2).unwrap(), &expected);
}

#[test]
fn remove_keeps_other_ids_and_missing_ids_fail() {
    let mut m = empty_store();
    for i in 1..=3 {
        m.add_task(make(i, "t", "low", "work"));
    }
    m.remove_task(2).unwrap();
    assert_eq!(ids(&m.list_tasks(&no_filters())), vec![1, 3]);
    assert_eq!(m.remove_task(2), Err(TodoError::NotFound(2)));
    assert_eq!(m.complete_task(9), Err(TodoError::NotFound(9)));
    assert_eq!(m.edit_task(9, no_updates()), Err(TodoError::NotFound(9)));
    assert_eq!(m.show_task(2).unwrap_err(), TodoError::NotFound(2));
}

#[test]
fn next_id_can_repeat_after_removal() {
    let mut m = empty_store();
    m.add_task(make(1, "a", "low", "work"));
    m.add_task(make(2, "b", "low", "work"));
    m.remove_task(1).unwrap();
    assert_eq!(m.next_id(), 2);
}

#[test]
fn completed_filter_wins_over_pending() {
    let mut m = empty_store();
    for i in 1..=4 {
        m.add_task(make(i, "t", "low", "work"));
    }
    m.complete_task(3).unwrap();
    m.complete_task(1).unwrap();
    let done = ListFilters { completed: true, ..no_filters() };
    assert_eq!(ids(&m.list_tasks(&done)), vec![1, 3]);
    let both = ListFilters { completed: true, pending: true, ..no_filters() };
    assert_eq!(ids(&m.list_tasks(&both)), vec![1, 3]);
    let pending = ListFilters { pending: true, ..no_filters() };
    assert_eq!(ids(&m.list_tasks(&pending)), vec![2, 4]);
}

#[test]
fn label_filters_ignore_case() {
    let mut m = empty_store();
    m.add_task(make(1, "a", "high", "Work"));
    m.add_task(make(2, "b", "low", "Garden"));
    m.add_task(make(3, "c", "HIGH", "garden"));
    let work = ListFilters { category: Some("WORK".to_string()), ..no_filters() };
    assert_eq!(ids(&m.list_tasks(&work)), vec![1]);
    let garden = ListFilters { category: Some("gArDeN".to_string()), ..no_filters() };
    assert_eq!(ids(&m.list_tasks(&garden)), vec![2, 3]);
    let high = ListFilters { priority: Some("High".to_string()), ..no_filters() };
    assert_eq!(ids(&m.list_tasks(&high)), vec![1, 3]);
    let both = ListFilters { priority: Some("high".to_string()), category: Some("garden".to_string()), ..no_filters() };
    assert_eq!(ids(&m.list_tasks(&both)), vec![3]);
    let none = ListFilters { priority: Some("urgent".to_string()), ..no_filters() };
    assert!(m.list_tasks(&none).is_empty());
}

#[test]
fn edit_replaces_only_supplied_fields() {
    let mut m = empty_store();
    m.add_task(make(1, "a", "low", "work"));
    let u = TaskUpdates {
        title: Some("b".to_string()),
        tags: Some("x, y".to_string()),
        category: Some("Shopping".to_string()),
        due: Some("2025-06-30 23:59".to_string()),
        ..no_updates()
    };
    m.edit_task(1, u).unwrap();
    let t = m.show_task(1).unwrap();
    assert_eq!(t.title, "b");
    assert_eq!(t.tags, vec!["x", "y"]);
    assert_eq!(t.category, Category::Shopping);
    assert_eq!(t.priority, Priority::Low);
    assert_eq!(t.description, None);
    assert_eq!(t.due_date, Some(DueDate { year: 2025, month: 6, day: 30, hour: 23, minute: 59 }));
    let u = TaskUpdates { description: Some("d".to_string()), priority: Some("Critical".to_string()), ..no_updates() };
    m.edit_task(1, u).unwrap();
    let t = m.show_task(1).unwrap();
    assert_eq!(t.description, Some("d".to_string()));
    assert_eq!(t.priority, Priority::Critical);
    assert_eq!(t.title, "b");
}

#[test]
fn edit_with_bad_priority_changes_nothing() {
    let mut m = empty_store();
    m.add_task(make(1, "a", "low", "work"));
    let u = TaskUpdates { title: Some("b".to_string()), priority: Some("soon".to_string()), ..no_updates() };
    assert_eq!(m.edit_task(1, u), Err(TodoError::InvalidPriority));
    let t = m.show_task(1).unwrap();
    assert_eq!(t.title, "a");
    assert_eq!(t.priority, Priority::Low);
}

#[test]
fn lookups_use_the_first_matching_id() {
    let mut m = empty_store();
    m.add_task(make(1, "first", "low", "work"));
    m.add_task(make(1, "second", "low", "work"));
    assert_eq!(m.show_task(1).unwrap().title, "first");
    m.remove_task(1).unwrap();
    assert_eq!(m.show_task(1).unwrap().title, "second");
}

#[test]
fn loaded_tasks_are_kept() {
    let m = TodoManager::new("f.json".to_string(), Some(vec![make(5, "a", "low", "work")]));
    assert_eq!(m.file_path, "f.json");
    assert_eq!(m.next_id(), 2);
    assert_eq!(m.show_task(5).unwrap().title, "a");
    assert!(empty_store().tasks.is_empty());
}

#[test]
fn new_sets_a_creation_time() {
    let t = Task::new(1, "x".to_string(), None, None, "low", "work", None).unwrap();
    assert!(t.created_at.secs > 1_600_000_000);
    assert!(t.created_at.offset_secs.abs() < 86_400);
}
