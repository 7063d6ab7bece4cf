//! Domain values: tasks, users, comments, priority and status.
use vstd::prelude::*;

verus! {

/// Urgency of a task.
#[derive(Clone, Copy, Debug, PartialEq, Eq, Structural)]
pub enum TaskPriority {
    Low,
    Medium,
    High,
}

impl Default for TaskPriority {
    /// The lowest priority.
    fn default() -> (r: TaskPriority)
        ensures
            r == TaskPriority::Low,
    {
        TaskPriority::Low
    }
}

/// Workflow state of a task.
#[derive(Clone, Copy, Debug, PartialEq, Eq, Structural)]
pub enum TaskStatus {
    New,
    Pending,
    InProgress,
    Complete,
}

impl Default for TaskStatus {
    /// The initial status.
    fn default() -> (r: TaskStatus)
        ensures
            r == TaskStatus::New,
    {
        TaskStatus::New
    }
}

/// Abstract value of a user: its name and its image path.
pub type UserView = (Seq<char>, Seq<char>);

/// Abstract value of a comment: author name, message and image path.
pub type CommentView = (Seq<char>, Seq<char>, Seq<char>);

/// A person a task can be assigned to. Two users are the same when both the
/// name and the image match.
#[derive(Debug)]
pub struct User {
    pub name: String,
    pub image: String,
}

impl View for User {
    type V = UserView;

    open spec fn view(&self) -> UserView {
        (self.name@, self.image@)
    }
}

impl User {
    pub fn new(name: &str, image: &str) -> (r: User)
        ensures
            r@ == (name@, image@),
    {
        User { name: String::from_str(name), image: String::from_str(image) }
    }

    /// A fresh record holding the same name and image.
    pub fn copy(&self) -> (r: User)
        ensures
            r@ == self@,
    {
        User { name: self.name.clone(), image: self.image.clone() }
    }

    /// Structural equality: same name and same image.
    pub fn same_as(&self, other: &User) -> (r: bool)
        ensures
            r == (self@ == other@),
    {
        self.name == other.name && self.image == other.image
    }
}

/// A remark left on a task.
#[derive(Debug)]
pub struct Comment {
    pub user: String,
    pub message: String,
    pub image: String,
}

impl View for Comment {
    type V = CommentView;

    open spec fn view(&self) -> CommentView {
        (self.user@, self.message@, self.image@)
    }
}

impl Comment {
    pub fn new(user: &str, message: &str, image: &str) -> (r: Comment)
        ensures
            r@ == (user@, message@, image@),
    {
        Comment {
            user: String::from_str(user),
            message: String::from_str(message),
            image: String::from_str(image),
        }
    }

    /// A fresh record holding the same fields.
    pub fn copy(&self) -> (r: Comment)
        ensures
            r@ == self@,
    {
        Comment {
            user: self.user.clone(),
            message: self.message.clone(),
            image: self.image.clone(),
        }
    }
}

/// The users of a list, as abstract values.
pub open spec fn users_view(v: Seq<User>) -> Seq<UserView> {
    v.map_values(|u: User| u@)
}

/// The comments of a list, as abstract values.
pub open spec fn comments_view(v: Seq<Comment>) -> Seq<CommentView> {
    v.map_values(|c: Comment| c@)
}

/// No user occurs twice in the sequence.
pub open spec fn no_duplicates(s: Seq<UserView>) -> bool {
    forall|i: int, j: int| 0 <= i < j < s.len() ==> s[i] != s[j]
}

/// Abstract value of a task.
pub ghost struct TaskView {
    pub id: u32,
    pub name: Seq<char>,
    pub description: Seq<char>,
    pub assigned_to: Seq<UserView>,
    pub due_date: i64,
    pub priority: TaskPriority,
    pub status: TaskStatus,
    pub comments: Seq<CommentView>,
}

/// A unit of work. `due_date` is an instant in milliseconds since the epoch.
#[derive(Debug)]
pub struct Task {
    pub id: u32,
    pub name: String,
    pub description: String,
    pub assigned_to: Vec<User>,
    pub due_date: i64,
    pub priority: TaskPriority,
    pub status: TaskStatus,
    pub comments: Vec<Comment>,
}

impl View for Task {
    type V = TaskView;

    open spec fn view(&self) -> TaskView {
        TaskView {
            id: self.id,
            name: self.name@,
            description: self.description@,
            assigned_to: users_view(self.assigned_to@),
            due_date: self.due_date,
            priority: self.priority,
            status: self.status,
            comments: comments_view(self.comments@),
        }
    }
}

/// Copies every user of a list into fresh records, keeping the order.
pub fn copy_users(v: &Vec<User>) -> (r: Vec<User>)
    ensures
        users_view(r@) == users_view(v@),
{
    let mut r: Vec<User> = Vec::new();
    let mut i: usize = 0;
    while i < v.len()
        invariant
            i <= v.len(),
            users_view(r@) == users_view(v@.subrange(0, i as int)),
        decreases v.len() - i,
    {
        r.push(v[i].copy());
        i = i + 1;
        assert(users_view(v@.subrange(0, i as int)) =~= users_view(v@.subrange(0, i - 1)).push(v@[i - 1]@));
    }
    assert(v@.subrange(0, v.len() as int) =~= v@);
    r
}

/// Copies every comment of a list into fresh records, keeping the order.
pub fn copy_comments(v: &Vec<Comment>) -> (r: Vec<Comment>)
    ensures
        comments_view(r@) == comments_view(v@),
{
    let mut r: Vec<Comment> = Vec::new();
    let mut i: usize = 0;
    while i < v.len()
        invariant
            i <= v.len(),
            comments_view(r@) == comments_view(v@.subrange(0, i as int)),
        decreases v.len() - i,
    {
        r.push(v[i].copy());
        i = i + 1;
        assert(comments_view(v@.subrange(0, i as int)) =~= comments_view(v@.subrange(0, i - 1)).push(v@[i - 1]@));
    }
    assert(v@.subrange(0, v.len() as int) =~= v@);
    r
}

impl Task {
    /// The blank draft's value.
    pub open spec fn blank_view() -> TaskView {
        TaskView {
            id: 0,
            name: Seq::empty(),
            description: Seq::empty(),
            assigned_to: Seq::empty(),
            due_date: 0,
            priority: TaskPriority::Low,
            status: TaskStatus::New,
            comments: Seq::empty(),
        }
    }

    /// A blank draft: id 0, empty texts, nobody assigned, no comments, due at
    /// the epoch, lowest priority and initial status.
    pub fn blank() -> (r: Task)
        ensures
            r@ == Task::blank_view(),
    {
        let r = Task {
            id: 0,
            name: String::new(),
            description: String::new(),
            assigned_to: Vec::new(),
            due_date: 0,
            priority: TaskPriority::Low,
            status: TaskStatus::New,
            comments: Vec::new(),
        };
        assert(r@.assigned_to =~= Seq::empty());
        assert(r@.comments =~= Seq::empty());
        r
    }

    /// A fresh task holding the same fields, with its lists copied too.
    pub fn copy(&self) -> (r: Task)
        ensures
            r@ == self@,
    {
        Task {
            id: self.id,
            name: self.name.clone(),
            description: self.description.clone(),
            assigned_to: copy_users(&self.assigned_to),
            due_date: self.due_date,
            priority: self.priority,
            status: self.status,
            comments: copy_comments(&self.comments),
        }
    }

    /// Whether `user` occurs in the assignment list.
    pub fn is_assigned(&self, user: &User) -> (r: bool)
        ensures
            r == users_view(self.assigned_to@).contains(user@),
    {
        contains_user(&self.assigned_to, user)
    }
}

/// Whether `user` occurs in the list, by structural equality.
pub fn contains_user(v: &Vec<User>, user: &User) -> (r: bool)
    ensures
        r == users_view(v@).contains(user@),
{
    let mut i: usize = 0;
    while i < v.len()
        invariant
            i <= v.len(),
            forall|k: int| 0 <= k < i ==> v@[k]@ != user@,
        decreases v.len() - i,
    {
        if v[i].same_as(user) {
            assert(users_view(v@)[i as int] == user@);
            return true;
        }
        i = i + 1;
    }
    assert(!users_view(v@).contains(user@)) by {
        if users_view(v@).contains(user@) {
            let k = choose|k: int| 0 <= k < users_view(v@).len() && users_view(v@)[k] == user@;
            assert(v@[k]@ == user@);
        }
    }
    false
}

/// Whether no user occurs twice in the list, by structural equality.
pub fn users_distinct(v: &Vec<User>) -> (r: bool)
    ensures
        r == no_duplicates(users_view(v@)),
{
    let ghost s = users_view(v@);
    let mut j: usize = 0;
    while j < v.len()
        invariant
            j <= v.len(),
            s == users_view(v@),
            forall|a: int, b: int| 0 <= a < b < j ==> s[a] != s[b],
        decreases v.len() - j,
    {
        let mut i: usize = 0;
        while i < j
            invariant
                i <= j < v.len(),
                s == users_view(v@),
                forall|a: int, b: int| 0 <= a < b < j ==> s[a] != s[b],
                forall|a: int| 0 <= a < i ==> s[a] != s[j as int],
            decreases j - i,
        {
            if v[i].same_as(&v[j]) {
                assert(s[i as int] == s[j as int]);
                return false;
            }
            i = i + 1;
        }
        j = j + 1;
    }
    true
}

} // verus!
