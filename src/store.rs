//! The task store: the snapshot of every task row, the writes that change
//! it, and what each write does to the rows.
use vstd::prelude::*;
use crate::task::{Task, TaskView, Filter, views, shown, filter_tasks};
use crate::text::{normalize, non_blank, opt_text};

verus! {

/// A write to the task table.
#[derive(Debug)]
pub enum StoreCommand {
    /// A new row, neither done nor deleted.
    Insert { id: i64, title: String, description: Option<String> },
    /// Sets `done` on the row with this id.
    SetDone { id: i64, done: bool },
    /// Sets `deleted` on the row with this id.
    SetDeleted { id: i64, deleted: bool },
    /// Sets title and description on the row with this id.
    SetText { id: i64, title: String, description: Option<String> },
}

/// A write to the task table as a mathematical value.
pub enum CommandView {
    Insert { id: i64, title: Seq<char>, description: Option<Seq<char>> },
    SetDone { id: i64, done: bool },
    SetDeleted { id: i64, deleted: bool },
    SetText { id: i64, title: Seq<char>, description: Option<Seq<char>> },
}

impl View for StoreCommand {
    type V = CommandView;

    open spec fn view(&self) -> CommandView {
        match self {
            StoreCommand::Insert { id, title, description } => CommandView::Insert {
                id: *id,
                title: title@,
                description: opt_text(*description),
            },
            StoreCommand::SetDone { id, done } => CommandView::SetDone { id: *id, done: *done },
            StoreCommand::SetDeleted { id, deleted } => CommandView::SetDeleted {
                id: *id,
                deleted: *deleted,
            },
            StoreCommand::SetText { id, title, description } => CommandView::SetText {
                id: *id,
                title: title@,
                description: opt_text(*description),
            },
        }
    }
}

/// The id of the row that a command writes.
pub open spec fn target(c: CommandView) -> i64 {
    match c {
        CommandView::Insert { id, .. } => id,
        CommandView::SetDone { id, .. } => id,
        CommandView::SetDeleted { id, .. } => id,
        CommandView::SetText { id, .. } => id,
    }
}

/// A row that an update command matches, after the update.
pub open spec fn revised(t: TaskView, c: CommandView) -> TaskView {
    match c {
        CommandView::SetDone { done, .. } => TaskView { done, ..t },
        CommandView::SetDeleted { deleted, .. } => TaskView { deleted, ..t },
        CommandView::SetText { title, description, .. } => TaskView { title, description, ..t },
        CommandView::Insert { .. } => t,
    }
}

/// The rows after a command: an insert appends a row; an update changes the
/// rows with its id and leaves every other row as it was.
pub open spec fn applied(s: Seq<TaskView>, c: CommandView) -> Seq<TaskView> {
    match c {
        CommandView::Insert { id, title, description } => s.push(
            TaskView { id, title, description, done: false, deleted: false },
        ),
        _ => s.map_values(
            |t: TaskView|
                if t.id == target(c) {
                    revised(t, c)
                } else {
                    t
                },
        ),
    }
}

/// The store as a mathematical value: its rows, and the largest id that it
/// has handed out.
pub struct StoreView {
    pub tasks: Seq<TaskView>,
    pub last_id: i64,
}

/// No two rows share an id.
pub open spec fn unique_ids(s: Seq<TaskView>) -> bool {
    forall|i: int, j: int| 0 <= i < s.len() && 0 <= j < s.len() && i != j ==> #[trigger] s[i].id != #[trigger] s[j].id
}

/// Ids are unique and none is above the last one handed out; no title is
/// empty.
pub open spec fn well_formed(v: StoreView) -> bool {
    &&& unique_ids(v.tasks)
    &&& forall|i: int| 0 <= i < v.tasks.len() ==> #[trigger] v.tasks[i].id <= v.last_id
    &&& forall|i: int| 0 <= i < v.tasks.len() ==> #[trigger] v.tasks[i].title.len() > 0
}

/// The store after a command that leaves the id counter alone.
pub open spec fn with_command(v: StoreView, c: CommandView) -> StoreView {
    StoreView { tasks: applied(v.tasks, c), last_id: v.last_id }
}

/// The write that adds a task, where the title is not blank and an id is
/// left to hand out.
pub open spec fn add_command(v: StoreView, title: Seq<char>, description: Seq<char>) -> Option<
    CommandView,
> {
    match non_blank(title) {
        Some(t) => if v.last_id < i64::MAX {
            Some(
                CommandView::Insert {
                    id: (v.last_id + 1) as i64,
                    title: t,
                    description: non_blank(description),
                },
            )
        } else {
            None
        },
        None => None,
    }
}

/// The store after adding a task.
pub open spec fn after_add(v: StoreView, title: Seq<char>, description: Seq<char>) -> StoreView {
    match add_command(v, title, description) {
        Some(c) => StoreView { tasks: applied(v.tasks, c), last_id: target(c) },
        None => v,
    }
}

/// The store after `done` is set to the negation of `current` on task `id`.
pub open spec fn after_toggle_done(v: StoreView, id: i64, current: bool) -> StoreView {
    with_command(v, CommandView::SetDone { id, done: !current })
}

/// The store after task `id` is marked deleted.
pub open spec fn after_soft_delete(v: StoreView, id: i64) -> StoreView {
    with_command(v, CommandView::SetDeleted { id, deleted: true })
}

/// The store after task `id` is marked not deleted.
pub open spec fn after_restore(v: StoreView, id: i64) -> StoreView {
    with_command(v, CommandView::SetDeleted { id, deleted: false })
}

/// The write that edits task `id`, where the title is not blank.
pub open spec fn update_command(id: i64, title: Seq<char>, description: Seq<char>) -> Option<
    CommandView,
> {
    match non_blank(title) {
        Some(t) => Some(CommandView::SetText { id, title: t, description: non_blank(description) }),
        None => None,
    }
}

/// The store after task `id` is edited.
pub open spec fn after_update(
    v: StoreView,
    id: i64,
    title: Seq<char>,
    description: Seq<char>,
) -> StoreView {
    match update_command(id, title, description) {
        Some(c) => with_command(v, c),
        None => v,
    }
}

/// The largest id among the rows, or 0 where none is larger.
pub open spec fn max_id(s: Seq<TaskView>) -> i64
    decreases s.len(),
{
    if s.len() == 0 {
        0
    } else if s.last().id > max_id(s.drop_last()) {
        s.last().id
    } else {
        max_id(s.drop_last())
    }
}

/// Every row has a title.
pub open spec fn titled(s: Seq<TaskView>) -> bool {
    forall|i: int| 0 <= i < s.len() ==> #[trigger] s[i].title.len() > 0
}

proof fn lemma_max_id(s: Seq<TaskView>)
    ensures
        max_id(s) >= 0,
        forall|i: int| 0 <= i < s.len() ==> #[trigger] s[i].id <= max_id(s),
    decreases s.len(),
{
    if s.len() > 0 {
        lemma_max_id(s.drop_last());
        assert forall|i: int| 0 <= i < s.len() implies #[trigger] s[i].id <= max_id(s) by {
            if i < s.len() - 1 {
                assert(s[i] == s.drop_last()[i]);
            }
        }
    }
}

/// Why a set of rows cannot be taken as the store's contents.
#[derive(Debug, Clone, Copy, PartialEq, Eq, Structural)]
pub enum StoreError {
    /// Two rows share an id.
    DuplicateId,
    /// A row has an empty title.
    EmptyTitle,
}

/// The task store's snapshot of every row, kept as the store holds it.
pub struct TaskStore {
    tasks: Vec<Task>,
    last_id: i64,
}

impl View for TaskStore {
    type V = StoreView;

    closed spec fn view(&self) -> StoreView {
        StoreView { tasks: views(self.tasks@), last_id: self.last_id }
    }
}

impl StoreCommand {
    /// The id of the row that this command writes.
    pub fn id(&self) -> (r: i64)
        ensures
            r == target(self@),
    {
        match self {
            StoreCommand::Insert { id, .. } => *id,
            StoreCommand::SetDone { id, .. } => *id,
            StoreCommand::SetDeleted { id, .. } => *id,
            StoreCommand::SetText { id, .. } => *id,
        }
    }
}

/// `t` after the update command `c`.
fn revise_task(t: &Task, c: &StoreCommand) -> (r: Task)
    ensures
        r@ == revised(t@, c@),
{
    let mut r = t.clone_task();
    match c {
        StoreCommand::SetDone { done, .. } => {
            r.done = *done;
        },
        StoreCommand::SetDeleted { deleted, .. } => {
            r.deleted = *deleted;
        },
        StoreCommand::SetText { title, description, .. } => {
            r.title = title.clone();
            r.description = match description {
                Some(d) => Some(d.clone()),
                None => None,
            };
        },
        StoreCommand::Insert { .. } => {},
    }
    r
}

impl TaskStore {
    /// The store's invariant.
    pub open spec fn wf(&self) -> bool {
        well_formed(self@)
    }

    /// An empty store that has handed out no id.
    pub fn new() -> (r: TaskStore)
        ensures
            r@.tasks == Seq::<TaskView>::empty(),
            r@.last_id == 0,
            r.wf(),
    {
        let r = TaskStore { tasks: Vec::new(), last_id: 0 };
        assert(views(r.tasks@) =~= Seq::<TaskView>::empty());
        r
    }

    /// The store holding the rows that were read from the table. Fails where
    /// a row has an empty title, and otherwise where two rows share an id.
    pub fn from_rows(rows: Vec<Task>) -> (r: Result<TaskStore, StoreError>)
        ensures
            r is Ok <==> titled(views(rows@)) && unique_ids(views(rows@)),
            r == Err::<TaskStore, StoreError>(StoreError::EmptyTitle) <==> !titled(views(rows@)),
            r matches Ok(s) ==> s.wf() && s@.tasks == views(rows@) && s@.last_id == max_id(
                views(rows@),
            ),
    {
        let ghost v = views(rows@);
        let mut last: i64 = 0;
        let mut i: usize = 0;
        while i < rows.len()
            invariant
                v == views(rows@),
                i <= rows.len(),
                last == max_id(v.subrange(0, i as int)),
                forall|j: int| 0 <= j < i ==> #[trigger] v[j].title.len() > 0,
            decreases rows.len() - i,
        {
            assert(v.subrange(0, i + 1).drop_last() =~= v.subrange(0, i as int));
            if rows[i].title.as_str().is_empty() {
                assert(v[i as int].title.len() == 0);
                return Err(StoreError::EmptyTitle);
            }
            if rows[i].id > last {
                last = rows[i].id;
            }
            i += 1;
        }
        assert(v.subrange(0, rows.len() as int) =~= v);
        let mut i: usize = 0;
        while i < rows.len()
            invariant
                v == views(rows@),
                titled(v),
                i <= rows.len(),
                forall|a: int, b: int|
                    0 <= a < i && 0 <= b < v.len() && a != b ==> #[trigger] v[a].id != #[trigger] v[b].id,
            decreases rows.len() - i,
        {
            let mut j: usize = 0;
            while j < rows.len()
                invariant
                    v == views(rows@),
                    titled(v),
                    i < rows.len(),
                    j <= rows.len(),
                    forall|a: int, b: int|
                        0 <= a < i && 0 <= b < v.len() && a != b ==> #[trigger] v[a].id != #[trigger] v[b].id,
                    forall|b: int| 0 <= b < j && b != i ==> v[i as int].id != #[trigger] v[b].id,
                decreases rows.len() - j,
            {
                if j != i && rows[i].id == rows[j].id {
                    assert(v[i as int].id == v[j as int].id);
                    return Err(StoreError::DuplicateId);
                }
                j += 1;
            }
            i += 1;
        }
        proof {
            lemma_max_id(v);
        }
        Ok(TaskStore { tasks: rows, last_id: last })
    }

    /// Every task, in the store's order.
    pub fn tasks(&self) -> (r: &Vec<Task>)
        ensures
            views(r@) == self@.tasks,
    {
        &self.tasks
    }

    /// The tasks that `filter` shows, cloned, in the store's order.
    pub fn filtered(&self, filter: Filter) -> (r: Vec<Task>)
        ensures
            views(r@) == shown(self@.tasks, filter),
    {
        filter_tasks(&self.tasks, filter)
    }

    /// Carries out an update command on the rows with its id.
    fn revise(&mut self, c: &StoreCommand)
        requires
            old(self).wf(),
            !(c@ is Insert),
            c@ is SetText ==> c@->SetText_title.len() > 0,
        ensures
            final(self)@ == with_command(old(self)@, c@),
            final(self).wf(),
    {
        let id = c.id();
        let ghost before = self.tasks@;
        let mut i: usize = 0;
        while i < self.tasks.len()
            invariant
                self.last_id == old(self).last_id,
                before == old(self).tasks@,
                self.tasks@.len() == before.len(),
                i <= self.tasks@.len(),
                id == target(c@),
                forall|j: int|
                    0 <= j < i ==> #[trigger] self.tasks@[j]@ == (if before[j]@.id == id {
                        revised(before[j]@, c@)
                    } else {
                        before[j]@
                    }),
                forall|j: int| i <= j < self.tasks@.len() ==> #[trigger] self.tasks@[j] == before[j],
            decreases self.tasks@.len() - i,
        {
            if self.tasks[i].id == id {
                let t = revise_task(&self.tasks[i], c);
                self.tasks[i] = t;
            }
            i += 1;
        }
        assert(views(self.tasks@) =~= applied(views(before), c@));
    }

    /// Adds a task with the trimmed title and description, the description
    /// left out where it is blank. Nothing happens where the title is blank,
    /// or where every id has been handed out. Gives the write to make.
    pub fn add(&mut self, title: &str, description: &str) -> (r: Option<StoreCommand>)
        requires
            old(self).wf(),
        ensures
            final(self).wf(),
            final(self)@ == after_add(old(self)@, title@, description@),
            r matches Some(c) ==> add_command(old(self)@, title@, description@) == Some(c@),
            r is None <==> add_command(old(self)@, title@, description@) is None,
    {
        let t = match normalize(title) {
            Some(t) => t,
            None => {
                return None;
            },
        };
        if self.last_id == i64::MAX {
            return None;
        }
        let d = normalize(description);
        let id = self.last_id + 1;
        let c = StoreCommand::Insert { id, title: t.clone(), description: match &d {
            Some(x) => Some(x.clone()),
            None => None,
        } };
        let ghost before = self.tasks@;
        self.tasks.push(Task { id, title: t, description: d, done: false, deleted: false });
        self.last_id = id;
        assert(views(self.tasks@) =~= applied(views(before), c@));
        Some(c)
    }

    /// Sets `done` to the negation of `current` on task `id`, where there is
    /// one. The caller passes what it last saw of the flag; the store does
    /// not read it. Gives the write to make.
    pub fn toggle_done(&mut self, id: i64, current: bool) -> (r: StoreCommand)
        requires
            old(self).wf(),
        ensures
            final(self).wf(),
            final(self)@ == after_toggle_done(old(self)@, id, current),
            r@ == (CommandView::SetDone { id, done: !current }),
    {
        let c = StoreCommand::SetDone { id, done: !current };
        self.revise(&c);
        c
    }

    /// Marks task `id` deleted, where there is one. Gives the write to make.
    pub fn soft_delete(&mut self, id: i64) -> (r: StoreCommand)
        requires
            old(self).wf(),
        ensures
            final(self).wf(),
            final(self)@ == after_soft_delete(old(self)@, id),
            r@ == (CommandView::SetDeleted { id, deleted: true }),
    {
        let c = StoreCommand::SetDeleted { id, deleted: true };
        self.revise(&c);
        c
    }

    /// Marks task `id` not deleted, where there is one. Gives the write to
    /// make.
    pub fn restore(&mut self, id: i64) -> (r: StoreCommand)
        requires
            old(self).wf(),
        ensures
            final(self).wf(),
            final(self)@ == after_restore(old(self)@, id),
            r@ == (CommandView::SetDeleted { id, deleted: false }),
    {
        let c = StoreCommand::SetDeleted { id, deleted: false };
        self.revise(&c);
        c
    }

    /// Sets the trimmed title and description of task `id`, the description
    /// left out where it is blank; `done` and `deleted` stay. Nothing happens
    /// where the title is blank. Gives the write to make.
    pub fn update(&mut self, id: i64, title: &str, description: &str) -> (r: Option<StoreCommand>)
        requires
            old(self).wf(),
        ensures
            final(self).wf(),
            final(self)@ == after_update(old(self)@, id, title@, description@),
            r matches Some(c) ==> update_command(id, title@, description@) == Some(c@),
            r is None <==> update_command(id, title@, description@) is None,
    {
        let t = match normalize(title) {
            Some(t) => t,
            None => {
                return None;
            },
        };
        let d = normalize(description);
        let c = StoreCommand::SetText { id, title: t, description: d };
        self.revise(&c);
        Some(c)
    }
}

} // verus!
