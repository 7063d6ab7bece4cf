use task_tracker::form::TaskFormSession;
use task_tracker::model::{Task, TaskPriority, TaskStatus, User};
use task_tracker::sample::{get_task, get_tasks, get_users};
use task_tracker::selection::SelectionController;
use task_tracker::store::{StoreError, TaskStore};

fn roster_two() -> Vec<User> {
    vec![User::new("Derik", "person1.png"), User::new("Fatima", "person2.png")]
}

fn names(v: &[User]) -> Vec<String> {
    v.iter().map(|u| u.name.clone()).collect()
}

fn task_with_id(id: u32) -> Task {
    let mut t = Task::blank();
    t.id = id;
    t
}

fn store_of(ids: &[u32]) -> TaskStore {
    let tasks: Vec<Task> = ids.iter().map(|&i| task_with_id(i)).collect();
    TaskStore::from_tasks(tasks).ok().unwrap()
}

#[test]
fn toggle_assign_twice_keeps_single_entry() {
    let mut s = TaskFormSession::new(roster_two());
    assert!(s.draft().assigned_to.is_empty());
    s.toggle_assign(0);
    assert_eq!(names(&s.draft().assigned_to), vec!["Derik".to_string()]);
    assert_eq!(s.draft().assigned_to[0].image, "person1.png");
    assert!(s.picker().is_assigned(0));
    assert!(!s.picker().is_assigned(1));
    s.toggle_assign(0);
    assert_eq!(names(&s.draft().assigned_to), vec!["Derik".to_string()]);
    assert!(s.picker().is_assigned(0));
}

#[test]
fn submit_takes_counter_as_id() {
    let mut store = store_of(&[0, 1, 2, 3, 4, 5, 6]);
    assert_eq!(store.next_id(), 7);
    let mut sel = SelectionController::new();
    sel.open_form();
    let mut s = TaskFormSession::new(roster_two());
    s.update_name("X".to_string());
    let r = s.submit(&mut store, &mut sel, 1_749_081_600_000);
    assert_eq!(r, Ok(7));
    assert_eq!(store.next_id(), 8);
    let all = store.all_tasks();
    assert_eq!(all.len(), 8);
    assert_eq!(all[7].id, 7);
    assert_eq!(all[7].name, "X");
    assert_eq!(all[7].due_date, 1_749_081_600_000);
    assert_eq!(all[7].priority, TaskPriority::Low);
    assert_eq!(all[7].status, TaskStatus::New);
    assert!(!sel.form_open());
}

#[test]
fn repeated_submits_give_distinct_ids() {
    let mut store = TaskStore::new();
    let mut sel = SelectionController::new();
    for k in 0..5u32 {
        let mut s = TaskFormSession::new(get_users());
        s.update_name(format!("task {}", k));
        assert_eq!(s.submit(&mut store, &mut sel, 0), Ok(k));
    }
    let all = store.all_tasks();
    let ids: Vec<u32> = all.iter().map(|t| t.id).collect();
    assert_eq!(ids, vec![0, 1, 2, 3, 4]);
    assert_eq!(all[3].name, "task 3");
}

#[test]
fn submit_on_taken_id_is_rejected_and_counter_moves_on() {
    let mut store = TaskStore::from_tasks(get_tasks(0)).ok().unwrap();
    assert_eq!(store.next_id(), 7);
    let mut sel = SelectionController::new();
    let mut s = TaskFormSession::new(get_users());
    assert_eq!(s.submit(&mut store, &mut sel, 0), Err(StoreError::InvalidTask));
    assert_eq!(store.len(), 7);
    assert_eq!(store.next_id(), 8);
    assert_eq!(s.submit(&mut store, &mut sel, 0), Ok(8));
    assert_eq!(store.len(), 8);
    let ids: Vec<u32> = store.all_tasks().iter().map(|t| t.id).collect();
    assert_eq!(ids, vec![1, 2, 3, 4, 5, 6, 7, 8]);
}

#[test]
fn next_id_grows_by_one_per_submit() {
    let mut store = store_of(&[3]);
    let mut sel = SelectionController::new();
    let before = store.next_id();
    let mut s = TaskFormSession::new(Vec::new());
    let _ = s.submit(&mut store, &mut sel, 5);
    assert_eq!(store.next_id(), before + 1);
    let _ = s.submit(&mut store, &mut sel, 5);
    assert_eq!(store.next_id(), before + 2);
}

#[test]
fn selection_is_exclusive_with_form() {
    let mut sel = SelectionController::new();
    assert!(!sel.form_open() && sel.selected_task_id().is_none());
    sel.open_form();
    assert!(sel.form_open());
    assert_eq!(sel.selected_task_id(), None);
    sel.select_task(3);
    assert!(!sel.form_open());
    assert_eq!(sel.selected_task_id(), Some(3));
    assert!(sel.is_selected(3));
    assert!(!sel.is_selected(4));
    sel.open_form();
    assert!(sel.form_open());
    assert_eq!(sel.selected_task_id(), None);
    sel.close_form();
    assert!(!sel.form_open());
    sel.select_task(9);
    sel.close_form();
    assert_eq!(sel.selected_task_id(), Some(9));
}

#[test]
fn assignment_keeps_order_of_assigning() {
    let mut s = TaskFormSession::new(get_users());
    s.toggle_assign(2);
    s.toggle_assign(0);
    assert_eq!(names(&s.draft().assigned_to), vec!["John".to_string(), "Derik".to_string()]);
    assert!(s.picker().is_assigned(0));
    assert!(!s.picker().is_assigned(1));
    assert!(s.picker().is_assigned(2));
}

#[test]
fn toggle_past_end_changes_nothing() {
    let mut s = TaskFormSession::new(roster_two());
    s.toggle_assign(2);
    assert!(s.draft().assigned_to.is_empty());
    assert!(!s.picker().is_assigned(0));
}

#[test]
fn repeated_roster_user_is_assigned_once() {
    let roster = vec![
        User::new("Derik", "person1.png"),
        User::new("Derik", "person1.png"),
        User::new("Derik", "person2.png"),
    ];
    let mut s = TaskFormSession::new(roster);
    s.toggle_assign(1);
    assert!(s.picker().is_assigned(0));
    assert!(s.picker().is_assigned(1));
    assert!(!s.picker().is_assigned(2));
    s.toggle_assign(0);
    assert_eq!(s.draft().assigned_to.len(), 1);
    s.toggle_assign(2);
    assert_eq!(s.draft().assigned_to.len(), 2);
    assert_eq!(s.draft().assigned_to[1].image, "person2.png");
}

#[test]
fn picker_checks_users_already_assigned() {
    let assigned = vec![User::new("Fatima", "person2.png")];
    let p = task_tracker::form::AssignmentPicker::new(get_users(), &assigned);
    assert_eq!(p.len(), 4);
    assert!(!p.is_assigned(0));
    assert!(p.is_assigned(1));
    assert_eq!(p.user(1).name, "Fatima");
    let mut draft = Task::blank();
    draft.assigned_to = assigned;
    let mut p = p;
    p.toggle_assign(1, &mut draft);
    assert_eq!(draft.assigned_to.len(), 1);
    p.toggle_assign(3, &mut draft);
    assert_eq!(names(&draft.assigned_to), vec!["Fatima".to_string(), "Ilyana".to_string()]);
}

#[test]
fn draft_texts_are_replaced() {
    let mut s = TaskFormSession::new(Vec::new());
    s.update_name("first".to_string());
    s.update_name(String::new());
    s.update_description("about it".to_string());
    assert_eq!(s.draft().name, "");
    assert_eq!(s.draft().description, "about it");
}

#[test]
fn store_rejects_duplicate_id() {
    let mut store = store_of(&[1, 2]);
    assert_eq!(store.add_task(task_with_id(2)), Err(StoreError::InvalidTask));
    assert_eq!(store.len(), 2);
    assert_eq!(store.add_task(task_with_id(5)), Ok(()));
    assert_eq!(store.len(), 3);
    assert_eq!(store.next_id(), 2);
    assert!(store.contains_id(5));
    assert!(!store.contains_id(4));
}

#[test]
fn store_seed_with_repeated_id_is_rejected() {
    let tasks = vec![task_with_id(1), task_with_id(2), task_with_id(1)];
    assert!(matches!(TaskStore::from_tasks(tasks), Err(StoreError::InvalidTask)));
}

#[test]
fn find_by_id_returns_copy_or_not_found() {
    let store = TaskStore::from_tasks(get_tasks(0)).ok().unwrap();
    let t = store.find_by_id(6).ok().unwrap();
    assert_eq!(t.name, "Implement product review system");
    assert_eq!(t.comments.len(), 3);
    assert_eq!(t.comments[1].user, "Ilyana");
    assert!(matches!(store.find_by_id(99), Err(StoreError::NotFound)));
}

#[test]
fn all_tasks_keep_insertion_order() {
    let mut store = TaskStore::new();
    store.add_task(task_with_id(9)).unwrap();
    store.add_task(task_with_id(2)).unwrap();
    store.add_task(task_with_id(5)).unwrap();
    let ids: Vec<u32> = store.all_tasks().iter().map(|t| t.id).collect();
    assert_eq!(ids, vec![9, 2, 5]);
    assert_eq!(store.next_id(), 0);
    store.advance_counter();
    assert_eq!(store.next_id(), 1);
}

#[test]
fn sample_data_has_expected_shape() {
    let users = get_users();
    assert_eq!(names(&users), vec!["Derik", "Fatima", "John", "Ilyana"]);
    let day = 86_400_000i64;
    let tasks = get_tasks(1000);
    let ids: Vec<u32> = tasks.iter().map(|t| t.id).collect();
    assert_eq!(ids, vec![1, 2, 3, 4, 5, 6, 7]);
    assert_eq!(tasks[0].due_date, 1000 + 5 * day);
    assert_eq!(tasks[4].due_date, 1000);
    assert_eq!(tasks[6].due_date, 1000 + 45 * day);
    assert_eq!(tasks[1].assigned_to.len(), 3);
    assert_eq!(tasks[6].assigned_to[0].image, "person2.png");
    assert_eq!(get_task(3, 0).ok().unwrap().name, "Implement product search with filters");
    assert!(matches!(get_task(8, 0), Err(StoreError::NotFound)));
    assert!(matches!(get_task(0, 0), Err(StoreError::NotFound)));
}

#[test]
fn copies_are_equal_and_independent() {
    let t = get_tasks(0).remove(5);
    let mut c = t.copy();
    assert_eq!(c.name, t.name);
    assert_eq!(c.comments[2].message, t.comments[2].message);
    c.assigned_to.push(User::new("Zed", "z.png"));
    assert_eq!(t.assigned_to.len(), 2);
    assert!(t.is_assigned(&User::new("John", "person3.png")));
    assert!(!t.is_assigned(&User::new("John", "person4.png")));
    assert!(User::new("a", "b").same_as(&User::new("a", "b")));
    assert!(!User::new("a", "b").same_as(&User::new("a", "c")));
}

#[test]
fn sample_tasks_in_full() {
    let tasks = get_tasks(0);
    let pr: Vec<TaskPriority> = tasks.iter().map(|t| t.priority).collect();
    assert_eq!(
        pr,
        vec![
            TaskPriority::Medium,
            TaskPriority::High,
            TaskPriority::Low,
            TaskPriority::Medium,
            TaskPriority::High,
            TaskPriority::Low,
            TaskPriority::High
        ]
    );
    let st: Vec<TaskStatus> = tasks.iter().map(|t| t.status).collect();
    assert_eq!(
        st,
        vec![
            TaskStatus::Pending,
            TaskStatus::InProgress,
            TaskStatus::New,
            TaskStatus::Complete,
            TaskStatus::Pending,
            TaskStatus::InProgress,
            TaskStatus::InProgress
        ]
    );
    let lens: Vec<usize> = tasks.iter().map(|t| t.assigned_to.len()).collect();
    assert_eq!(lens, vec![1, 3, 2, 1, 1, 2, 1]);
    let comments: Vec<usize> = tasks.iter().map(|t| t.comments.len()).collect();
    assert_eq!(comments, vec![0, 0, 0, 0, 0, 3, 0]);
    assert!(tasks[2].description.contains("'Free Shipping'. \n                Ensure"));
}

#[test]
fn detail_of_task_six() {
    let t = get_task(6, 0).ok().unwrap();
    assert_eq!(t.name, "Implement product review system");
    assert_eq!(t.priority, TaskPriority::Low);
    assert_eq!(t.status, TaskStatus::InProgress);
    let who: Vec<(String, String)> =
        t.comments.iter().map(|c| (c.user.clone(), c.image.clone())).collect();
    assert_eq!(
        who,
        vec![
            ("John".to_string(), "person3.png".to_string()),
            ("Ilyana".to_string(), "person4.png".to_string()),
            ("John".to_string(), "person3.png".to_string())
        ]
    );
    let three = get_task(3, 0).ok().unwrap();
    assert_eq!(names(&three.assigned_to), vec!["Derik", "Ilyana"]);
    assert_eq!(three.priority, TaskPriority::Low);
    assert_eq!(three.status, TaskStatus::New);
    assert!(three.comments.is_empty());
}

#[test]
fn store_rejects_task_listing_a_user_twice() {
    let mut store = TaskStore::new();
    let mut t = task_with_id(1);
    t.assigned_to = vec![User::new("Derik", "person1.png"), User::new("Derik", "person1.png")];
    assert_eq!(store.add_task(t.copy()), Err(StoreError::InvalidTask));
    assert_eq!(store.len(), 0);
    assert!(matches!(TaskStore::from_tasks(vec![t]), Err(StoreError::InvalidTask)));
    let mut u = task_with_id(2);
    u.assigned_to = vec![User::new("Derik", "person1.png"), User::new("Derik", "person2.png")];
    assert_eq!(store.add_task(u), Ok(()));
}
