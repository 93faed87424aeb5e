//! Tasks, the four filters, and the filtering of a snapshot.
use vstd::prelude::*;

verus! {

/// One task as the store holds it.
#[derive(Debug)]
pub struct Task {
    pub id: i64,
    pub title: String,
    pub description: Option<String>,
    pub done: bool,
    pub deleted: bool,
}

/// A task as a mathematical value.
pub struct TaskView {
    pub id: i64,
    pub title: Seq<char>,
    pub description: Option<Seq<char>>,
    pub done: bool,
    pub deleted: bool,
}

impl View for Task {
    type V = TaskView;

    open spec fn view(&self) -> TaskView {
        TaskView {
            id: self.id,
            title: self.title@,
            description: crate::text::opt_text(self.description),
            done: self.done,
            deleted: self.deleted,
        }
    }
}

/// The views of a sequence of tasks.
pub open spec fn views(s: Seq<Task>) -> Seq<TaskView> {
    s.map_values(|t: Task| t@)
}

impl Task {
    /// A task equal to this one.
    pub fn clone_task(&self) -> (r: Task)
        ensures
            r@ == self@,
    {
        let description = match &self.description {
            Some(d) => Some(d.clone()),
            None => None,
        };
        Task {
            id: self.id,
            title: self.title.clone(),
            description,
            done: self.done,
            deleted: self.deleted,
        }
    }
}

/// Which tasks a list shows.
#[derive(Debug, Clone, Copy, PartialEq, Eq, Structural)]
pub enum Filter {
    All,
    Active,
    Completed,
    Deleted,
}

impl Filter {
    /// Whether this filter shows a task with the given flags. `All` leaves
    /// out deleted tasks; only `Deleted` shows them.
    pub open spec fn admits(self, t: TaskView) -> bool {
        match self {
            Filter::All => !t.deleted,
            Filter::Active => !t.done && !t.deleted,
            Filter::Completed => t.done && !t.deleted,
            Filter::Deleted => t.deleted,
        }
    }

    /// Whether this filter shows `t`.
    pub fn includes(&self, t: &Task) -> (r: bool)
        ensures
            r == self.admits(t@),
    {
        match self {
            Filter::All => !t.deleted,
            Filter::Active => !t.done && !t.deleted,
            Filter::Completed => t.done && !t.deleted,
            Filter::Deleted => t.deleted,
        }
    }
}

/// The tasks of `s` that `f` shows, in their order in `s`.
pub open spec fn shown(s: Seq<TaskView>, f: Filter) -> Seq<TaskView>
    decreases s.len(),
{
    if s.len() == 0 {
        Seq::empty()
    } else if f.admits(s.last()) {
        shown(s.drop_last(), f).push(s.last())
    } else {
        shown(s.drop_last(), f)
    }
}

/// A task is shown exactly when it is in `s` and the filter admits it.
pub proof fn lemma_shown_contains(s: Seq<TaskView>, f: Filter, t: TaskView)
    ensures
        shown(s, f).contains(t) <==> (s.contains(t) && f.admits(t)),
    decreases s.len(),
{
    if s.len() > 0 {
        lemma_shown_contains(s.drop_last(), f, t);
        let p = shown(s.drop_last(), f);
        if f.admits(s.last()) {
            if p.push(s.last()).contains(t) && t != s.last() {
                let i = choose|i: int| 0 <= i < p.push(s.last()).len() && p.push(s.last())[i] == t;
                assert(p[i] == t);
            }
            if p.contains(t) {
                let i = choose|i: int| 0 <= i < p.len() && p[i] == t;
                assert(p.push(s.last())[i] == t);
            }
            assert(p.push(s.last())[p.len() as int] == s.last());
        }
        if s.contains(t) && t != s.last() {
            let i = choose|i: int| 0 <= i < s.len() && s[i] == t;
            assert(s.drop_last()[i] == t);
        }
        if s.drop_last().contains(t) {
            let i = choose|i: int| 0 <= i < s.drop_last().len() && s.drop_last()[i] == t;
            assert(s[i] == t);
        }
        assert(s[s.len() - 1] == s.last());
    }
}

/// The tasks of `tasks` that `filter` shows, cloned, in their order.
pub fn filter_tasks(tasks: &Vec<Task>, filter: Filter) -> (r: Vec<Task>)
    ensures
        views(r@) == shown(views(tasks@), filter),
{
    let mut r: Vec<Task> = Vec::new();
    let mut i: usize = 0;
    while i < tasks.len()
        invariant
            i <= tasks.len(),
            views(r@) == shown(views(tasks@.subrange(0, i as int)), filter),
        decreases tasks.len() - i,
    {
        let ghost before = tasks@.subrange(0, i as int);
        let ghost after = tasks@.subrange(0, i + 1);
        assert(views(after).drop_last() =~= views(before));
        assert(views(after).last() == tasks@[i as int]@);
        if filter.includes(&tasks[i]) {
            let t = tasks[i].clone_task();
            let ghost prev = r@;
            r.push(t);
            assert(views(r@) =~= views(prev).push(tasks@[i as int]@));
        }
        i += 1;
    }
    assert(tasks@.subrange(0, tasks.len() as int) =~= tasks@);
    r
}

} // verus!
