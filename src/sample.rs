//! The demo roster and task list the application starts from.
use vstd::prelude::*;
use crate::instant::{shifted, AddDaysExt, MS_PER_DAY};
use crate::model::{
    comments_view, no_duplicates, users_view, Comment, Task, TaskPriority, TaskStatus, TaskView,
    User,
};
use crate::store::{tasks_view, unique_ids, StoreError};

verus! {

/// The due-date offset, in days from start-up, of the demo task at `k`.
pub open spec fn sample_offset(k: int) -> int {
    if k == 0 { 5 }
    else if k == 1 { 25 }
    else if k == 2 { 45 }
    else if k == 3 { 10 }
    else if k == 4 { 0 }
    else if k == 5 { 12 }
    else { 45 }
}

/// The demo task at position `k` (0 to 6) as an abstract value, for a
/// start-up instant `now`.
pub open spec fn seed_view(k: int, now: i64) -> TaskView {
    if k == 0 {
        TaskView {
            id: 1,
            name: "Design login screen"@,
            description: "Create a responsive login screen with email and password fields, 'Forgot Password' link, and a login button. Include basic validation and error handling."@,
            assigned_to: seq![("Derik"@, "person1.png"@)],
            due_date: (now + 5 * MS_PER_DAY) as i64,
            priority: TaskPriority::Medium,
            status: TaskStatus::Pending,
            comments: Seq::empty(),
        }
    } else if k == 1 {
        TaskView {
            id: 2,
            name: "Write unit tests for task API"@,
            description: "Create unit tests for the task-related API endpoints, including task creation, status updates, and deletion. Use mock data and ensure edge cases are covered."@,
            assigned_to: seq![("Derik"@, "person1.png"@), ("Fatima"@, "person2.png"@), ("John"@, "person3.png"@)],
            due_date: (now + 25 * MS_PER_DAY) as i64,
            priority: TaskPriority::High,
            status: TaskStatus::InProgress,
            comments: Seq::empty(),
        }
    } else if k == 2 {
        TaskView {
            id: 3,
            name: "Implement product search with filters"@,
            description: "Develop a product search feature that allows users to search by name, category, and price range. Include filter options such as 'In Stock', 'On Sale', and 'Free Shipping'. \n                Ensure the results update dynamically as filters are applied."@,
            assigned_to: seq![("Derik"@, "person1.png"@), ("Ilyana"@, "person4.png"@)],
            due_date: (now + 45 * MS_PER_DAY) as i64,
            priority: TaskPriority::Low,
            status: TaskStatus::New,
            comments: Seq::empty(),
        }
    } else if k == 3 {
        TaskView {
            id: 4,
            name: "Integrate payment gateway"@,
            description: "Set up and integrate a payment gateway (e.g., Stripe or PayPal) to handle secure transactions during checkout. Implement payment validation, error handling, \n                and confirmation messaging. Ensure the system can handle both test and live environments."@,
            assigned_to: seq![("Derik"@, "person1.png"@)],
            due_date: (now + 10 * MS_PER_DAY) as i64,
            priority: TaskPriority::Medium,
            status: TaskStatus::Complete,
            comments: Seq::empty(),
        }
    } else if k == 4 {
        TaskView {
            id: 5,
            name: "Create order history page"@,
            description: "Build a user-facing order history page that displays past purchases with order details, statuses, and tracking information. Include pagination and filtering by date or status."@,
            assigned_to: seq![("Ilyana"@, "person4.png"@)],
            due_date: (now + 0 * MS_PER_DAY) as i64,
            priority: TaskPriority::High,
            status: TaskStatus::Pending,
            comments: Seq::empty(),
        }
    } else if k == 5 {
        TaskView {
            id: 6,
            name: "Implement product review system"@,
            description: "Allow users to leave reviews and ratings on products. Design the UI for submitting and displaying reviews, and create backend endpoints to store and fetch review data. \n                Include moderation capabilities to filter inappropriate content."@,
            assigned_to: seq![("John"@, "person3.png"@), ("Ilyana"@, "person4.png"@)],
            due_date: (now + 12 * MS_PER_DAY) as i64,
            priority: TaskPriority::Low,
            status: TaskStatus::InProgress,
            comments: seq![("John"@, "Should reviews be visible to everyone immediately, or only after moderation?"@, "person3.png"@), ("Ilyana"@, "Good question, I'll get back to you"@, "person4.png"@), ("John"@, "Ok, thanks, I'll wait for your reply"@, "person3.png"@)],
        }
    } else {
        TaskView {
            id: 7,
            name: "Add wishlist functionality"@,
            description: "Enable users to add products to a personal wishlist for future reference. Implement the UI for adding/removing items and a wishlist page to view saved products. \n                Ensure the wishlist is saved per user and persists across sessions."@,
            assigned_to: seq![("Derik"@, "person2.png"@)],
            due_date: (now + 45 * MS_PER_DAY) as i64,
            priority: TaskPriority::High,
            status: TaskStatus::InProgress,
            comments: Seq::empty(),
        }
    }
}

/// The roster of users that tasks can be assigned to.
pub fn get_users() -> (r: Vec<User>)
    ensures
        users_view(r@) == seq![
            ("Derik"@, "person1.png"@),
            ("Fatima"@, "person2.png"@),
            ("John"@, "person3.png"@),
            ("Ilyana"@, "person4.png"@),
        ],
{
    let r = vec![
        User::new("Derik", "person1.png"),
        User::new("Fatima", "person2.png"),
        User::new("John", "person3.png"),
        User::new("Ilyana", "person4.png"),
    ];
    assert(users_view(r@) =~= seq![
        ("Derik"@, "person1.png"@),
        ("Fatima"@, "person2.png"@),
        ("John"@, "person3.png"@),
        ("Ilyana"@, "person4.png"@),
    ]);
    r
}

/// A task built from its parts.
fn sample_task(
    id: u32,
    name: &str,
    description: &str,
    due_date: i64,
    assigned_to: Vec<User>,
    priority: TaskPriority,
    status: TaskStatus,
    comments: Vec<Comment>,
) -> (r: Task)
    ensures
        r@ == (TaskView {
            id: id,
            name: name@,
            description: description@,
            assigned_to: users_view(assigned_to@),
            due_date: due_date,
            priority: priority,
            status: status,
            comments: comments_view(comments@),
        }),
{
    Task {
        id,
        name: String::from_str(name),
        description: String::from_str(description),
        assigned_to,
        due_date,
        priority,
        status,
        comments,
    }
}

/// The day `now_ms` moved by `days`, which fits by the caller's bound.
fn days_after(now_ms: i64, days: i32) -> (r: i64)
    requires
        0 <= days <= 45,
        now_ms + 45 * MS_PER_DAY <= i64::MAX,
    ensures
        r == now_ms + days * MS_PER_DAY,
        shifted(now_ms as int, days as int) == Some(r),
{
    assert(days * MS_PER_DAY <= 45 * MS_PER_DAY) by (nonlinear_arith)
        requires
            days <= 45,
    ;
    assert(0 <= days * MS_PER_DAY) by (nonlinear_arith)
        requires
            0 <= days,
    ;
    now_ms.add_days(days).unwrap()
}

/// The four roster names differ from one another.
proof fn lemma_roster_names_differ()
    ensures
        "Derik"@ != "Fatima"@,
        "Derik"@ != "John"@,
        "Derik"@ != "Ilyana"@,
        "Fatima"@ != "John"@,
        "Fatima"@ != "Ilyana"@,
        "John"@ != "Ilyana"@,
{
    reveal_strlit("Derik");
    reveal_strlit("Fatima");
    reveal_strlit("John");
    reveal_strlit("Ilyana");
    assert("Derik"@[0] != "Fatima"@[0]);
    assert("Derik"@[0] != "John"@[0]);
    assert("Derik"@[0] != "Ilyana"@[0]);
    assert("Fatima"@[0] != "John"@[0]);
    assert("Fatima"@[0] != "Ilyana"@[0]);
    assert("John"@[0] != "Ilyana"@[0]);
}

/// The demo tasks, with ids 1 to 7, due some whole days after `now_ms`.
pub fn get_tasks(now_ms: i64) -> (r: Vec<Task>)
    requires
        now_ms + 45 * MS_PER_DAY <= i64::MAX,
    ensures
        r.len() == 7,
        forall|k: int| 0 <= k < 7 ==> #[trigger] tasks_view(r@)[k] == seed_view(k, now_ms),
        forall|k: int|
            0 <= k < 7 ==> #[trigger] r@[k].id == k + 1 && shifted(now_ms as int, sample_offset(k))
                == Some(r@[k].due_date),
        unique_ids(tasks_view(r@)),
        forall|k: int| 0 <= k < 7 ==> no_duplicates(#[trigger] tasks_view(r@)[k].assigned_to),
{
    let a0 = vec![User::new("Derik", "person1.png")];
    assert(users_view(a0@) =~= seq![("Derik"@, "person1.png"@)]);
    let c0: Vec<Comment> = Vec::new();
    assert(comments_view(c0@) =~= Seq::empty());
    let t0 = sample_task(
        1,
        "Design login screen",
        "Create a responsive login screen with email and password fields, 'Forgot Password' link, and a login button. Include basic validation and error handling.",
        days_after(now_ms, 5),
        a0,
        TaskPriority::Medium,
        TaskStatus::Pending,
        c0,
    );
    assert(t0@ == seed_view(0, now_ms));
    let a1 = vec![User::new("Derik", "person1.png"), User::new("Fatima", "person2.png"), User::new("John", "person3.png")];
    assert(users_view(a1@) =~= seq![("Derik"@, "person1.png"@), ("Fatima"@, "person2.png"@), ("John"@, "person3.png"@)]);
    let c1: Vec<Comment> = Vec::new();
    assert(comments_view(c1@) =~= Seq::empty());
    let t1 = sample_task(
        2,
        "Write unit tests for task API",
        "Create unit tests for the task-related API endpoints, including task creation, status updates, and deletion. Use mock data and ensure edge cases are covered.",
        days_after(now_ms, 25),
        a1,
        TaskPriority::High,
        TaskStatus::InProgress,
        c1,
    );
    assert(t1@ == seed_view(1, now_ms));
    let a2 = vec![User::new("Derik", "person1.png"), User::new("Ilyana", "person4.png")];
    assert(users_view(a2@) =~= seq![("Derik"@, "person1.png"@), ("Ilyana"@, "person4.png"@)]);
    let c2: Vec<Comment> = Vec::new();
    assert(comments_view(c2@) =~= Seq::empty());
    let t2 = sample_task(
        3,
        "Implement product search with filters",
        "Develop a product search feature that allows users to search by name, category, and price range. Include filter options such as 'In Stock', 'On Sale', and 'Free Shipping'. \n                Ensure the results update dynamically as filters are applied.",
        days_after(now_ms, 45),
        a2,
        TaskPriority::Low,
        TaskStatus::New,
        c2,
    );
    assert(t2@ == seed_view(2, now_ms));
    let a3 = vec![User::new("Derik", "person1.png")];
    assert(users_view(a3@) =~= seq![("Derik"@, "person1.png"@)]);
    let c3: Vec<Comment> = Vec::new();
    assert(comments_view(c3@) =~= Seq::empty());
    let t3 = sample_task(
        4,
        "Integrate payment gateway",
        "Set up and integrate a payment gateway (e.g., Stripe or PayPal) to handle secure transactions during checkout. Implement payment validation, error handling, \n                and confirmation messaging. Ensure the system can handle both test and live environments.",
        days_after(now_ms, 10),
        a3,
        TaskPriority::Medium,
        TaskStatus::Complete,
        c3,
    );
    assert(t3@ == seed_view(3, now_ms));
    let a4 = vec![User::new("Ilyana", "person4.png")];
    assert(users_view(a4@) =~= seq![("Ilyana"@, "person4.png"@)]);
    let c4: Vec<Comment> = Vec::new();
    assert(comments_view(c4@) =~= Seq::empty());
    let t4 = sample_task(
        5,
        "Create order history page",
        "Build a user-facing order history page that displays past purchases with order details, statuses, and tracking information. Include pagination and filtering by date or status.",
        days_after(now_ms, 0),
        a4,
        TaskPriority::High,
        TaskStatus::Pending,
        c4,
    );
    assert(t4@ == seed_view(4, now_ms));
    let a5 = vec![User::new("John", "person3.png"), User::new("Ilyana", "person4.png")];
    assert(users_view(a5@) =~= seq![("John"@, "person3.png"@), ("Ilyana"@, "person4.png"@)]);
    let c5 = vec![
        Comment::new("John", "Should reviews be visible to everyone immediately, or only after moderation?", "person3.png"),
        Comment::new("Ilyana", "Good question, I'll get back to you", "person4.png"),
        Comment::new("John", "Ok, thanks, I'll wait for your reply", "person3.png"),
    ];
    assert(comments_view(c5@) =~= seq![("John"@, "Should reviews be visible to everyone immediately, or only after moderation?"@, "person3.png"@), ("Ilyana"@, "Good question, I'll get back to you"@, "person4.png"@), ("John"@, "Ok, thanks, I'll wait for your reply"@, "person3.png"@)]);
    let t5 = sample_task(
        6,
        "Implement product review system",
        "Allow users to leave reviews and ratings on products. Design the UI for submitting and displaying reviews, and create backend endpoints to store and fetch review data. \n                Include moderation capabilities to filter inappropriate content.",
        days_after(now_ms, 12),
        a5,
        TaskPriority::Low,
        TaskStatus::InProgress,
        c5,
    );
    assert(t5@ == seed_view(5, now_ms));
    let a6 = vec![User::new("Derik", "person2.png")];
    assert(users_view(a6@) =~= seq![("Derik"@, "person2.png"@)]);
    let c6: Vec<Comment> = Vec::new();
    assert(comments_view(c6@) =~= Seq::empty());
    let t6 = sample_task(
        7,
        "Add wishlist functionality",
        "Enable users to add products to a personal wishlist for future reference. Implement the UI for adding/removing items and a wishlist page to view saved products. \n                Ensure the wishlist is saved per user and persists across sessions.",
        days_after(now_ms, 45),
        a6,
        TaskPriority::High,
        TaskStatus::InProgress,
        c6,
    );
    assert(t6@ == seed_view(6, now_ms));
    let r = vec![t0, t1, t2, t3, t4, t5, t6];
    proof {
        lemma_roster_names_differ();
    }
    assert forall|k: int| 0 <= k < 7 implies #[trigger] tasks_view(r@)[k] == seed_view(k, now_ms)
        && r@[k].id == k + 1 && shifted(now_ms as int, sample_offset(k)) == Some(r@[k].due_date)
        && no_duplicates(tasks_view(r@)[k].assigned_to) by {
        assert(tasks_view(r@)[k] == r@[k]@);
        if k == 0 {} else if k == 1 {} else if k == 2 {} else if k == 3 {} else if k == 4 {}
        else if k == 5 {} else {}
    }
    assert forall|i: int, j: int| 0 <= i < j < tasks_view(r@).len() implies tasks_view(r@)[i].id
        != tasks_view(r@)[j].id by {
        assert(r@[i].id == i + 1);
        assert(r@[j].id == j + 1);
    }
    r
}

/// A copy of the demo task carrying `task_id`, or `NotFound`.
pub fn get_task(task_id: u32, now_ms: i64) -> (r: Result<Task, StoreError>)
    requires
        now_ms + 45 * MS_PER_DAY <= i64::MAX,
    ensures
        r is Ok <==> 1 <= task_id <= 7,
        r matches Ok(t) ==> t@ == seed_view(task_id - 1, now_ms),
        r matches Err(e) ==> e == StoreError::NotFound,
{
    let tasks = get_tasks(now_ms);
    let mut i: usize = 0;
    while i < tasks.len()
        invariant
            i <= tasks.len() == 7,
            forall|k: int| 0 <= k < 7 ==> #[trigger] tasks@[k].id == k + 1,
            forall|k: int| 0 <= k < 7 ==> #[trigger] tasks_view(tasks@)[k] == seed_view(k, now_ms),
            forall|k: int| 0 <= k < i ==> tasks@[k].id != task_id,
        decreases tasks.len() - i,
    {
        if tasks[i].id == task_id {
            let t = tasks[i].copy();
            assert(tasks_view(tasks@)[i as int] == tasks@[i as int]@);
            return Ok(t);
        }
        i = i + 1;
    }
    assert(!(1 <= task_id <= 7)) by {
        if 1 <= task_id <= 7 {
            assert(tasks@[task_id - 1].id == task_id);
        }
    }
    Err(StoreError::NotFound)
}

} // verus!
