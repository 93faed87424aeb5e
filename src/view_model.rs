//! The view model: the active filter, the new-task form, and the one task
//! being edited, with what each user action does to them and to the store.
use vstd::prelude::*;
use crate::store::{
    TaskStore,
    StoreView,
    StoreCommand,
    CommandView,
    after_add,
    add_command,
    after_toggle_done,
    after_soft_delete,
    after_restore,
    after_update,
    update_command,
};
use crate::task::{Task, TaskView, Filter};

verus! {

/// Whether a task is being edited, and the text typed so far.
#[derive(Debug)]
pub enum EditState {
    Viewing,
    Editing { task_id: i64, title: String, description: String },
}

/// The edit state as a mathematical value.
pub enum EditView {
    Viewing,
    Editing { task_id: i64, title: Seq<char>, description: Seq<char> },
}

impl View for EditState {
    type V = EditView;

    open spec fn view(&self) -> EditView {
        match self {
            EditState::Viewing => EditView::Viewing,
            EditState::Editing { task_id, title, description } => EditView::Editing {
                task_id: *task_id,
                title: title@,
                description: description@,
            },
        }
    }
}

/// What the user asked for.
#[derive(Debug, Clone, Copy, PartialEq, Eq, Structural)]
pub enum UserAction {
    /// Add a task from the new-task form.
    Add,
    /// Flip `done` on a task, given the value that the user saw.
    Toggle { id: i64, current: bool },
    /// Start editing a task.
    StartEdit { id: i64 },
    /// Save the edit under way.
    SaveEdit,
    /// Drop the edit under way.
    CancelEdit,
    /// Mark a task deleted.
    Delete { id: i64 },
    /// Mark a deleted task not deleted.
    Restore { id: i64 },
    /// Show the tasks of another filter.
    SetFilter { filter: Filter },
}

/// How a task's row is shown: with its edit form, with the edit and delete
/// buttons, or with the restore button.
#[derive(Debug, Clone, Copy, PartialEq, Eq, Structural)]
pub enum RowMode {
    Editing,
    Live,
    Deleted,
}

/// The view model's state.
#[derive(Debug)]
pub struct ViewModel {
    pub filter: Filter,
    pub new_title: String,
    pub new_description: String,
    pub edit: EditState,
}

/// The view model as a mathematical value.
pub struct ViewModelView {
    pub filter: Filter,
    pub new_title: Seq<char>,
    pub new_description: Seq<char>,
    pub edit: EditView,
}

impl View for ViewModel {
    type V = ViewModelView;

    open spec fn view(&self) -> ViewModelView {
        ViewModelView {
            filter: self.filter,
            new_title: self.new_title@,
            new_description: self.new_description@,
            edit: self.edit@,
        }
    }
}

/// The first task of `s` with id `id`.
pub open spec fn find_task(s: Seq<TaskView>, id: i64) -> Option<TaskView>
    decreases s.len(),
{
    if s.len() == 0 {
        None
    } else if s[0].id == id {
        Some(s[0])
    } else {
        find_task(s.drop_first(), id)
    }
}

/// The text that an edit of a description starts from.
pub open spec fn seed(d: Option<Seq<char>>) -> Seq<char> {
    match d {
        Some(x) => x,
        None => Seq::empty(),
    }
}

/// Whether the edit under way is of task `id`.
pub open spec fn editing_task(e: EditView, id: i64) -> bool {
    e matches EditView::Editing { task_id, .. } && task_id == id
}

/// The view model after action `a`, the store holding `s` before it.
pub open spec fn next_view(vm: ViewModelView, s: StoreView, a: UserAction) -> ViewModelView {
    match a {
        UserAction::Add => if add_command(s, vm.new_title, vm.new_description) is Some {
            ViewModelView { new_title: Seq::empty(), new_description: Seq::empty(), ..vm }
        } else {
            vm
        },
        UserAction::StartEdit { id } => match find_task(s.tasks, id) {
            Some(t) => if !t.deleted && !editing_task(vm.edit, id) {
                ViewModelView {
                    edit: EditView::Editing {
                        task_id: id,
                        title: t.title,
                        description: seed(t.description),
                    },
                    ..vm
                }
            } else {
                vm
            },
            None => vm,
        },
        UserAction::SaveEdit => ViewModelView { edit: EditView::Viewing, ..vm },
        UserAction::CancelEdit => ViewModelView { edit: EditView::Viewing, ..vm },
        UserAction::SetFilter { filter } => ViewModelView { filter, ..vm },
        _ => vm,
    }
}

/// The store after action `a`.
pub open spec fn next_store(vm: ViewModelView, s: StoreView, a: UserAction) -> StoreView {
    match a {
        UserAction::Add => after_add(s, vm.new_title, vm.new_description),
        UserAction::Toggle { id, current } => after_toggle_done(s, id, current),
        UserAction::Delete { id } => after_soft_delete(s, id),
        UserAction::Restore { id } => after_restore(s, id),
        UserAction::SaveEdit => match vm.edit {
            EditView::Editing { task_id, title, description } => after_update(
                s,
                task_id,
                title,
                description,
            ),
            EditView::Viewing => s,
        },
        _ => s,
    }
}

/// The write to the store that action `a` calls for.
pub open spec fn next_command(vm: ViewModelView, s: StoreView, a: UserAction) -> Option<
    CommandView,
> {
    match a {
        UserAction::Add => add_command(s, vm.new_title, vm.new_description),
        UserAction::Toggle { id, current } => Some(CommandView::SetDone { id, done: !current }),
        UserAction::Delete { id } => Some(CommandView::SetDeleted { id, deleted: true }),
        UserAction::Restore { id } => Some(CommandView::SetDeleted { id, deleted: false }),
        UserAction::SaveEdit => match vm.edit {
            EditView::Editing { task_id, title, description } => update_command(
                task_id,
                title,
                description,
            ),
            EditView::Viewing => None,
        },
        _ => None,
    }
}

/// The view of an optional command.
pub open spec fn opt_command(c: Option<StoreCommand>) -> Option<CommandView> {
    match c {
        Some(x) => Some(x@),
        None => None,
    }
}

/// The first task of `tasks` with id `id`, where there is one.
fn find_index(tasks: &Vec<Task>, id: i64) -> (r: Option<usize>)
    ensures
        match r {
            Some(i) => i < tasks@.len() && find_task(
                crate::task::views(tasks@),
                id,
            ) == Some(tasks@[i as int]@),
            None => find_task(crate::task::views(tasks@), id) is None,
        },
{
    let ghost v = crate::task::views(tasks@);
    let mut i: usize = 0;
    assert(v.subrange(0, v.len() as int) =~= v);
    while i < tasks.len()
        invariant
            v == crate::task::views(tasks@),
            i <= tasks.len(),
            find_task(v, id) == find_task(v.subrange(i as int, v.len() as int), id),
        decreases tasks.len() - i,
    {
        let ghost rest = v.subrange(i as int, v.len() as int);
        assert(rest[0] == tasks@[i as int]@);
        if tasks[i].id == id {
            return Some(i);
        }
        assert(rest.drop_first() =~= v.subrange(i + 1, v.len() as int));
        i += 1;
    }
    assert(v.subrange(i as int, v.len() as int) =~= Seq::<TaskView>::empty());
    None
}

impl ViewModel {
    /// The filter `All`, an empty form, and no edit under way.
    pub fn new() -> (r: ViewModel)
        ensures
            r@ == (ViewModelView {
                filter: Filter::All,
                new_title: Seq::empty(),
                new_description: Seq::empty(),
                edit: EditView::Viewing,
            }),
    {
        ViewModel {
            filter: Filter::All,
            new_title: String::new(),
            new_description: String::new(),
            edit: EditState::Viewing,
        }
    }

    /// How the row of task `t` is shown.
    pub fn row_mode(&self, t: &Task) -> (r: RowMode)
        ensures
            r == (if editing_task(self.edit@, t.id) {
                RowMode::Editing
            } else if !t.deleted {
                RowMode::Live
            } else {
                RowMode::Deleted
            }),
    {
        match &self.edit {
            EditState::Editing { task_id, .. } => if *task_id == t.id {
                return RowMode::Editing;
            },
            EditState::Viewing => {},
        }
        if !t.deleted {
            RowMode::Live
        } else {
            RowMode::Deleted
        }
    }

    /// The tasks that the active filter shows.
    pub fn visible(&self, store: &TaskStore) -> (r: Vec<Task>)
        ensures
            crate::task::views(r@) == crate::task::shown(store@.tasks, self.filter),
    {
        store.filtered(self.filter)
    }

    /// Carries out `action` on this view model and on `store`. Gives the
    /// write that the durable store is to make. Saving ends the edit whether
    /// or not its title was blank; starting an edit of another task drops
    /// the edit under way.
    pub fn handle(&mut self, store: &mut TaskStore, action: UserAction) -> (r: Option<StoreCommand>)
        requires
            old(store).wf(),
        ensures
            final(store).wf(),
            final(store)@ == next_store(old(self)@, old(store)@, action),
            final(self)@ == next_view(old(self)@, old(store)@, action),
            opt_command(r) == next_command(old(self)@, old(store)@, action),
    {
        match action {
            UserAction::Add => {
                let r = store.add(self.new_title.as_str(), self.new_description.as_str());
                if r.is_some() {
                    self.new_title = String::new();
                    self.new_description = String::new();
                    assert(self.new_title@ =~= Seq::<char>::empty());
                    assert(self.new_description@ =~= Seq::<char>::empty());
                }
                r
            },
            UserAction::Toggle { id, current } => Some(store.toggle_done(id, current)),
            UserAction::Delete { id } => Some(store.soft_delete(id)),
            UserAction::Restore { id } => Some(store.restore(id)),
            UserAction::StartEdit { id } => {
                let tasks = store.tasks();
                match find_index(tasks, id) {
                    Some(i) => {
                        let t = &tasks[i];
                        let same = match &self.edit {
                            EditState::Editing { task_id, .. } => *task_id == id,
                            EditState::Viewing => false,
                        };
                        if !t.deleted && !same {
                            let description = match &t.description {
                                Some(d) => d.clone(),
                                None => String::new(),
                            };
                            assert(description@ =~= seed(t@.description));
                            self.edit = EditState::Editing {
                                task_id: id,
                                title: t.title.clone(),
                                description,
                            };
                        }
                    },
                    None => {},
                }
                None
            },
            UserAction::SaveEdit => {
                let r = match &self.edit {
                    EditState::Editing { task_id, title, description } => store.update(
                        *task_id,
                        title.as_str(),
                        description.as_str(),
                    ),
                    EditState::Viewing => None,
                };
                self.edit = EditState::Viewing;
                r
            },
            UserAction::CancelEdit => {
                self.edit = EditState::Viewing;
                None
            },
            UserAction::SetFilter { filter } => {
                self.filter = filter;
                None
            },
        }
    }
}

} // verus!
