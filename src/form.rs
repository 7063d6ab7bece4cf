//! The creation form: a draft task, the checklist of users that can be
//! assigned to it, and the commit of the draft into the store.
use vstd::prelude::*;
use crate::model::{
    contains_user, no_duplicates, users_view, Task, TaskView, User, UserView,
};
use crate::selection::SelectionController;
use crate::store::{has_id, unique_ids, StoreError, TaskStore};

verus! {

/// Abstract value of a candidate: the user and whether it is assigned.
pub type CandidateView = (UserView, bool);

/// A user offered in the picker, with its checked state.
#[derive(Debug)]
pub struct AssignCandidate {
    pub user: User,
    pub is_assigned: bool,
}

impl View for AssignCandidate {
    type V = CandidateView;

    open spec fn view(&self) -> CandidateView {
        (self.user@, self.is_assigned)
    }
}

/// The candidates of a list, as abstract values.
pub open spec fn candidates_view(v: Seq<AssignCandidate>) -> Seq<CandidateView> {
    v.map_values(|c: AssignCandidate| c@)
}

/// The checklist agrees with an assignment list: the list has no repeated
/// user, and a candidate is checked exactly when its user is in the list.
pub open spec fn synced(c: Seq<CandidateView>, a: Seq<UserView>) -> bool {
    &&& no_duplicates(a)
    &&& forall|k: int| 0 <= k < c.len() ==> (#[trigger] c[k]).1 == a.contains(c[k].0)
}

/// One assign action on candidate `i`, from checklist `c0` and assignment
/// list `a0` to `c1` and `a1`. An unchecked candidate in range has its user
/// appended and every candidate showing that user becomes checked; any other
/// index changes nothing.
pub open spec fn assign_step(
    c0: Seq<CandidateView>,
    a0: Seq<UserView>,
    i: int,
    c1: Seq<CandidateView>,
    a1: Seq<UserView>,
) -> bool {
    if 0 <= i < c0.len() && !c0[i].1 {
        &&& a1 == a0.push(c0[i].0)
        &&& c1.len() == c0.len()
        &&& forall|k: int|
            0 <= k < c0.len() ==> #[trigger] c1[k] == (c0[k].0, c0[k].1 || c0[k].0 == c0[i].0)
    } else {
        a1 == a0 && c1 == c0
    }
}

/// The task `t` with its assignment list replaced by `a`.
pub open spec fn with_assigned(t: TaskView, a: Seq<UserView>) -> TaskView {
    TaskView { assigned_to: a, ..t }
}

/// The task `t` as committed: with id `id` and due at `now`.
pub open spec fn committed(t: TaskView, id: u32, now: i64) -> TaskView {
    TaskView { id: id, due_date: now, ..t }
}

/// One commit on a store: from tasks `t0` and counter `c0` to `t1` and `c1`,
/// for draft `draft` at instant `now`. The counter moves up by one; the
/// draft, with id `c0` and due at `now`, is appended exactly when `c0` is
/// free and the draft lists no user twice.
pub open spec fn submit_outcome(
    t0: Seq<TaskView>,
    c0: u32,
    draft: TaskView,
    now: i64,
    t1: Seq<TaskView>,
    c1: u32,
) -> bool {
    &&& c1 == c0 + 1
    &&& if !has_id(t0, c0) && no_duplicates(draft.assigned_to) {
        t1 == t0.push(committed(draft, c0, now))
    } else {
        t1 == t0
    }
}

/// Every id of the sequence is below `c`.
pub open spec fn ids_below(s: Seq<TaskView>, c: int) -> bool {
    forall|i: int| 0 <= i < s.len() ==> (#[trigger] s[i]).id < c
}

/// Any run of commits keeps ids unique. Starting from a store whose ids are
/// unique and below the counter, after `m` commits the counter has moved up
/// by `m`, ids are still unique and below it, and when no draft lists a user
/// twice, the `m` new tasks are the drafts in order, with ids counting up
/// from the first counter value.
pub proof fn lemma_submits_keep_ids_unique(
    ts: Seq<Seq<TaskView>>,
    cs: Seq<u32>,
    drafts: Seq<TaskView>,
    nows: Seq<i64>,
    m: int,
)
    requires
        ts.len() == drafts.len() + 1,
        cs.len() == drafts.len() + 1,
        nows.len() == drafts.len(),
        0 <= m <= drafts.len(),
        unique_ids(ts[0]),
        ids_below(ts[0], cs[0] as int),
        forall|k: int|
            0 <= k < drafts.len() ==> #[trigger] submit_outcome(
                ts[k],
                cs[k],
                drafts[k],
                nows[k],
                ts[k + 1],
                cs[k + 1],
            ),
    ensures
        cs[m] == cs[0] + m,
        unique_ids(ts[m]),
        ids_below(ts[m], cs[m] as int),
        (forall|k: int| 0 <= k < m ==> no_duplicates(#[trigger] drafts[k].assigned_to)) ==> {
            &&& ts[m].len() == ts[0].len() + m
            &&& forall|k: int|
                0 <= k < m ==> #[trigger] ts[m][ts[0].len() + k] == committed(
                    drafts[k],
                    (cs[0] + k) as u32,
                    nows[k],
                )
        },
    decreases m,
{
    if m > 0 {
        lemma_submits_keep_ids_unique(ts, cs, drafts, nows, m - 1);
        let p = m - 1;
        assert(submit_outcome(ts[p], cs[p], drafts[p], nows[p], ts[p + 1], cs[p + 1]));
        let t0 = ts[p];
        let c0 = cs[p];
        assert(!has_id(t0, c0)) by {
            if has_id(t0, c0) {
                let i = choose|i: int| 0 <= i < t0.len() && t0[i].id == c0;
                assert(t0[i].id < c0);
            }
        }
        if no_duplicates(drafts[p].assigned_to) {
            let t1 = ts[m];
            assert(t1 == t0.push(committed(drafts[p], c0, nows[p])));
            assert forall|i: int, j: int| 0 <= i < j < t1.len() implies t1[i].id != t1[j].id by {
                if j == t0.len() {
                    assert(t0[i].id < c0);
                }
            }
            assert forall|i: int| 0 <= i < t1.len() implies (#[trigger] t1[i]).id < cs[m] by {
                if i < t0.len() {
                    assert(t0[i].id < c0);
                }
            }
            if forall|k: int| 0 <= k < m ==> no_duplicates(#[trigger] drafts[k].assigned_to) {
                assert(forall|k: int| 0 <= k < p ==> no_duplicates(#[trigger] drafts[k].assigned_to));
                assert forall|k: int| 0 <= k < m implies #[trigger] t1[ts[0].len() + k] == committed(
                    drafts[k],
                    (cs[0] + k) as u32,
                    nows[k],
                ) by {
                    if k < p {
                        assert(t0[ts[0].len() + k] == committed(drafts[k], (cs[0] + k) as u32, nows[k]));
                    }
                }
            }
        } else {
            assert(!no_duplicates(drafts[p].assigned_to));
        }
    }
}

/// Assigning twice in a row on the same candidate leaves the same checklist
/// and the same assignment list as assigning once.
pub proof fn lemma_assign_idempotent(
    c0: Seq<CandidateView>,
    a0: Seq<UserView>,
    i: int,
    c1: Seq<CandidateView>,
    a1: Seq<UserView>,
    c2: Seq<CandidateView>,
    a2: Seq<UserView>,
)
    requires
        assign_step(c0, a0, i, c1, a1),
        assign_step(c1, a1, i, c2, a2),
    ensures
        a2 == a1,
        c2 == c1,
{
    if 0 <= i < c0.len() && !c0[i].1 {
        assert(c1[i].1);
    }
}

/// Assigning an unassigned user and then another one appends them in that
/// order.
pub proof fn lemma_assign_order(
    c0: Seq<CandidateView>,
    a0: Seq<UserView>,
    i: int,
    j: int,
    c1: Seq<CandidateView>,
    a1: Seq<UserView>,
    c2: Seq<CandidateView>,
    a2: Seq<UserView>,
)
    requires
        0 <= i < c0.len(),
        0 <= j < c0.len(),
        !c0[i].1,
        !c0[j].1,
        c0[i].0 != c0[j].0,
        assign_step(c0, a0, i, c1, a1),
        assign_step(c1, a1, j, c2, a2),
    ensures
        a2 == a0.push(c0[i].0).push(c0[j].0),
{
    assert(c1[j] == (c0[j].0, false));
}

/// An assign action keeps the checklist in agreement with the assignment
/// list.
pub proof fn lemma_assign_keeps_synced(
    c0: Seq<CandidateView>,
    a0: Seq<UserView>,
    i: int,
    c1: Seq<CandidateView>,
    a1: Seq<UserView>,
)
    requires
        synced(c0, a0),
        assign_step(c0, a0, i, c1, a1),
    ensures
        synced(c1, a1),
{
    if 0 <= i < c0.len() && !c0[i].1 {
        let u = c0[i].0;
        assert(!a0.contains(u));
        assert forall|x: int, y: int| 0 <= x < y < a1.len() implies a1[x] != a1[y] by {
            if y == a0.len() {
                assert(a0[x] == a1[x]);
            }
        }
        assert forall|k: int| 0 <= k < c1.len() implies (#[trigger] c1[k]).1 == a1.contains(
            c1[k].0,
        ) by {
            assert(c1[k] == (c0[k].0, c0[k].1 || c0[k].0 == u));
            assert(c0[k].1 == a0.contains(c0[k].0));
            if a0.contains(c0[k].0) {
                let x = choose|x: int| 0 <= x < a0.len() && a0[x] == c0[k].0;
                assert(a1[x] == c0[k].0);
            }
            if c0[k].0 == u {
                assert(a1[a0.len() as int] == u);
            }
            if a1.contains(c1[k].0) {
                let x = choose|x: int| 0 <= x < a1.len() && a1[x] == c1[k].0;
                if x < a0.len() {
                    assert(a0[x] == c0[k].0);
                }
            }
        }
    }
}

/// The checklist of users offered for one draft.
pub struct AssignmentPicker {
    candidates: Vec<AssignCandidate>,
}

impl AssignmentPicker {
    /// The candidates, in roster order.
    pub closed spec fn cands(&self) -> Seq<CandidateView> {
        candidates_view(self.candidates@)
    }

    /// One candidate per roster user, in roster order, checked exactly when
    /// the user is already in `assigned`.
    pub fn new(roster: Vec<User>, assigned: &Vec<User>) -> (r: AssignmentPicker)
        ensures
            r.cands().len() == roster.len(),
            forall|k: int|
                0 <= k < roster.len() ==> #[trigger] r.cands()[k] == (
                    roster@[k]@,
                    users_view(assigned@).contains(roster@[k]@),
                ),
            no_duplicates(users_view(assigned@)) ==> synced(r.cands(), users_view(assigned@)),
    {
        let mut candidates: Vec<AssignCandidate> = Vec::new();
        let n = roster.len();
        let mut rest = roster;
        let ghost all = rest@;
        let mut i: usize = 0;
        while i < n
            invariant
                i <= n,
                n == all.len(),
                rest@ == all.subrange(i as int, n as int),
                candidates.len() == i,
                forall|k: int|
                    0 <= k < i ==> #[trigger] candidates_view(candidates@)[k] == (
                        all[k]@,
                        users_view(assigned@).contains(all[k]@),
                    ),
            decreases n - i,
        {
            let u = rest.remove(0);
            assert(u == all[i as int]);
            let flag = contains_user(assigned, &u);
            let ghost before = candidates@;
            let c = AssignCandidate { user: u, is_assigned: flag };
            candidates.push(c);
            assert(candidates_view(candidates@) =~= candidates_view(before).push(c@));
            i = i + 1;
            assert(rest@ =~= all.subrange(i as int, n as int));
        }
        AssignmentPicker { candidates }
    }

    /// The number of candidates.
    pub fn len(&self) -> (r: usize)
        ensures
            r == self.cands().len(),
    {
        self.candidates.len()
    }

    /// The user of candidate `index`.
    pub fn user(&self, index: usize) -> (r: &User)
        requires
            index < self.cands().len(),
        ensures
            r@ == self.cands()[index as int].0,
    {
        &self.candidates[index].user
    }

    /// Whether candidate `index` is checked.
    pub fn is_assigned(&self, index: usize) -> (r: bool)
        requires
            index < self.cands().len(),
        ensures
            r == self.cands()[index as int].1,
    {
        self.candidates[index].is_assigned
    }

    /// Assigns the user of candidate `index` to `draft`. A checked candidate,
    /// or an index past the end, changes nothing. Otherwise a copy of the user
    /// is appended to the draft's assignment list and every candidate showing
    /// that user becomes checked.
    pub fn toggle_assign(&mut self, index: usize, draft: &mut Task)
        ensures
            assign_step(
                old(self).cands(),
                users_view(old(draft).assigned_to@),
                index as int,
                final(self).cands(),
                users_view(final(draft).assigned_to@),
            ),
            final(draft)@ == with_assigned(old(draft)@, final(draft)@.assigned_to),
            synced(old(self).cands(), old(draft)@.assigned_to) ==> synced(
                final(self).cands(),
                final(draft)@.assigned_to,
            ),
    {
        if index >= self.candidates.len() || self.candidates[index].is_assigned {
            return;
        }
        let ghost c0 = self.cands();
        let ghost a0 = users_view(draft.assigned_to@);
        let u = self.candidates[index].user.copy();
        draft.assigned_to.push(u.copy());
        assert(users_view(draft.assigned_to@) =~= a0.push(u@));
        let mut k: usize = 0;
        while k < self.candidates.len()
            invariant
                k <= self.candidates.len(),
                self.cands().len() == c0.len(),
                index < c0.len(),
                u@ == c0[index as int].0,
                forall|m: int|
                    0 <= m < k ==> #[trigger] self.cands()[m] == (c0[m].0, c0[m].1 || c0[m].0 == u@),
                forall|m: int| k <= m < c0.len() ==> #[trigger] self.cands()[m] == c0[m],
            decreases self.candidates.len() - k,
        {
            let ghost before = self.candidates@;
            assert(self.cands()[k as int] == c0[k as int]);
            if self.candidates[k].user.same_as(&u) {
                let c = AssignCandidate { user: self.candidates[k].user.copy(), is_assigned: true };
                self.candidates.set(k, c);
                assert(self.candidates@ == before.update(k as int, c));
                assert(self.cands() =~= candidates_view(before).update(k as int, (c0[k as int].0, true)));
            }
            k = k + 1;
        }
        proof {
            if synced(c0, a0) {
                lemma_assign_keeps_synced(c0, a0, index as int, self.cands(), users_view(draft.assigned_to@));
            }
        }
    }
}

/// A draft task being composed, with its assignment checklist.
pub struct TaskFormSession {
    draft: Task,
    picker: AssignmentPicker,
}

impl TaskFormSession {
    /// The draft, as an abstract value.
    pub closed spec fn draft_view(&self) -> TaskView {
        self.draft@
    }

    /// The checklist, as abstract values.
    pub closed spec fn cands(&self) -> Seq<CandidateView> {
        self.picker.cands()
    }

    /// The session's invariant: the checklist agrees with the draft.
    pub open spec fn wf(&self) -> bool {
        synced(self.cands(), self.draft_view().assigned_to)
    }

    /// A blank draft (lowest priority, initial status, nobody assigned) and
    /// one unchecked candidate per roster user.
    pub fn new(roster: Vec<User>) -> (r: TaskFormSession)
        ensures
            r.wf(),
            r.draft_view() == Task::blank_view(),
            r.cands().len() == roster.len(),
            forall|k: int|
                0 <= k < roster.len() ==> #[trigger] r.cands()[k] == (roster@[k]@, false),
    {
        let draft = Task::blank();
        let picker = AssignmentPicker::new(roster, &draft.assigned_to);
        TaskFormSession { draft, picker }
    }

    /// The draft.
    pub fn draft(&self) -> (r: &Task)
        ensures
            r@ == self.draft_view(),
    {
        &self.draft
    }

    /// The checklist.
    pub fn picker(&self) -> (r: &AssignmentPicker)
        ensures
            r.cands() == self.cands(),
    {
        &self.picker
    }

    /// Replaces the draft's name; any text is accepted.
    pub fn update_name(&mut self, text: String)
        ensures
            final(self).draft_view() == (TaskView { name: text@, ..old(self).draft_view() }),
            final(self).cands() == old(self).cands(),
    {
        self.draft.name = text;
    }

    /// Replaces the draft's description; any text is accepted.
    pub fn update_description(&mut self, text: String)
        ensures
            final(self).draft_view() == (TaskView { description: text@, ..old(self).draft_view() }),
            final(self).cands() == old(self).cands(),
    {
        self.draft.description = text;
    }

    /// Assigns the user of candidate `index` to the draft, as
    /// `AssignmentPicker::toggle_assign` does.
    pub fn toggle_assign(&mut self, index: usize)
        ensures
            assign_step(
                old(self).cands(),
                old(self).draft_view().assigned_to,
                index as int,
                final(self).cands(),
                final(self).draft_view().assigned_to,
            ),
            final(self).draft_view() == with_assigned(
                old(self).draft_view(),
                final(self).draft_view().assigned_to,
            ),
            old(self).wf() ==> final(self).wf(),
    {
        self.picker.toggle_assign(index, &mut self.draft);
    }

    /// Commits the draft. The store's counter value `c` is read and advanced
    /// by one; the draft takes id `c` and due date `now_ms`; a copy of it is
    /// appended to the store; the form is closed. Returns `Ok(c)`, or
    /// `InvalidTask` with the store's tasks unchanged when `c` is taken or
    /// the draft lists a user twice.
    pub fn submit(
        &mut self,
        store: &mut TaskStore,
        selection: &mut SelectionController,
        now_ms: i64,
    ) -> (r: Result<u32, StoreError>)
        requires
            old(store).wf(),
            old(store).counter() < u32::MAX,
        ensures
            final(store).wf(),
            final(store).counter() == old(store).counter() + 1,
            final(self).draft_view() == committed(old(self).draft_view(), old(store).counter(), now_ms),
            final(self).cands() == old(self).cands(),
            submit_outcome(
                old(store).tasks(),
                old(store).counter(),
                old(self).draft_view(),
                now_ms,
                final(store).tasks(),
                final(store).counter(),
            ),
            r is Ok <==> !has_id(old(store).tasks(), old(store).counter())
                && no_duplicates(old(self).draft_view().assigned_to),
            r is Ok ==> r == Ok::<u32, StoreError>(old(store).counter())
                && final(store).tasks() == old(store).tasks().push(final(self).draft_view()),
            r matches Err(e) ==> e == StoreError::InvalidTask
                && final(store).tasks() == old(store).tasks(),
            old(store).tasks().len() <= old(store).counter() ==>
                final(store).tasks().len() <= final(store).counter(),
            !final(selection).is_form_open(),
            final(selection).selected() == old(selection).selected(),
    {
        let c = store.next_id();
        store.advance_counter();
        self.draft.id = c;
        self.draft.due_date = now_ms;
        let r = match store.add_task(self.draft.copy()) {
            Ok(()) => Ok(c),
            Err(e) => Err(e),
        };
        selection.close_form();
        r
    }
}

} // verus!
