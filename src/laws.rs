//! What holds of the store's operations and of the filters, whatever the
//! tasks.
use vstd::prelude::*;
use crate::store::{
    StoreView,
    well_formed,
    unique_ids,
    after_add,
    after_update,
    after_soft_delete,
    after_restore,
};
use crate::task::{TaskView, Filter, shown, lemma_shown_contains};
use crate::text::{trimmed, non_blank};

verus! {

/// The ids of the tasks in `s`.
pub open spec fn ids(s: Seq<TaskView>) -> Set<i64> {
    Set::new(|id: i64| exists|i: int| 0 <= i < s.len() && s[i].id == id)
}

/// Adding a task with a title that is not blank appends exactly one row: it
/// has a fresh id, the trimmed title, the trimmed description or none where
/// that is blank, and is neither done nor deleted. The rows before it stay.
pub proof fn lemma_add_appends_one_task(v: StoreView, title: Seq<char>, description: Seq<char>)
    requires
        well_formed(v),
        trimmed(title).len() > 0,
        v.last_id < i64::MAX,
    ensures
        ({
            let w = after_add(v, title, description);
            let t = w.tasks.last();
            &&& well_formed(w)
            &&& w.tasks.len() == v.tasks.len() + 1
            &&& w.tasks.drop_last() == v.tasks
            &&& t.title == trimmed(title)
            &&& t.description == non_blank(description)
            &&& !t.done
            &&& !t.deleted
            &&& forall|i: int| 0 <= i < v.tasks.len() ==> v.tasks[i].id != t.id
        }),
{
    let w = after_add(v, title, description);
    assert(w.tasks.drop_last() =~= v.tasks);
    assert forall|i: int| 0 <= i < w.tasks.len() implies #[trigger] w.tasks[i].id <= w.last_id
        && w.tasks[i].title.len() > 0 by {
        if i < v.tasks.len() {
            assert(w.tasks[i] == v.tasks[i]);
        }
    }
    assert forall|i: int, j: int|
        0 <= i < w.tasks.len() && 0 <= j < w.tasks.len() && i != j implies #[trigger] w.tasks[i].id
        != #[trigger] w.tasks[j].id by {
        if i < v.tasks.len() {
            assert(w.tasks[i] == v.tasks[i]);
        }
        if j < v.tasks.len() {
            assert(w.tasks[j] == v.tasks[j]);
        }
    }
}

/// Adding or editing with a title that is nothing but whitespace changes
/// nothing.
pub proof fn lemma_blank_title_changes_nothing(
    v: StoreView,
    id: i64,
    title: Seq<char>,
    description: Seq<char>,
)
    requires
        trimmed(title).len() == 0,
    ensures
        after_add(v, title, description) == v,
        after_update(v, id, title, description) == v,
{
}

/// Restoring a task that is not deleted changes nothing.
pub proof fn lemma_restore_idempotent(v: StoreView, id: i64)
    requires
        forall|i: int| 0 <= i < v.tasks.len() && #[trigger] v.tasks[i].id == id ==> !v.tasks[i].deleted,
    ensures
        after_restore(v, id) == v,
        after_restore(after_restore(v, id), id) == after_restore(v, id),
{
    assert(after_restore(v, id).tasks =~= v.tasks);
}

/// Deleting a task that is already deleted changes nothing.
pub proof fn lemma_soft_delete_idempotent(v: StoreView, id: i64)
    requires
        forall|i: int| 0 <= i < v.tasks.len() && #[trigger] v.tasks[i].id == id ==> v.tasks[i].deleted,
    ensures
        after_soft_delete(v, id) == v,
        after_soft_delete(after_soft_delete(v, id), id) == after_soft_delete(v, id),
{
    assert(after_soft_delete(v, id).tasks =~= v.tasks);
    let w = after_soft_delete(v, id);
    assert(after_soft_delete(w, id).tasks =~= w.tasks);
}

/// Deleting a task and then restoring it gives it back its title,
/// description and `done`, not deleted; the other tasks stay. A task that
/// was not deleted comes back exactly as it was.
pub proof fn lemma_delete_then_restore(v: StoreView, id: i64)
    ensures
        ({
            let w = after_restore(after_soft_delete(v, id), id);
            &&& w.last_id == v.last_id
            &&& w.tasks.len() == v.tasks.len()
            &&& forall|i: int|
                0 <= i < v.tasks.len() ==> #[trigger] w.tasks[i] == (if v.tasks[i].id == id {
                    TaskView { deleted: false, ..v.tasks[i] }
                } else {
                    v.tasks[i]
                })
        }),
        (forall|i: int| 0 <= i < v.tasks.len() && #[trigger] v.tasks[i].id == id ==> !v.tasks[i].deleted)
            ==> after_restore(after_soft_delete(v, id), id) == v,
{
    let w = after_restore(after_soft_delete(v, id), id);
    if forall|i: int| 0 <= i < v.tasks.len() && #[trigger] v.tasks[i].id == id ==> !v.tasks[i].deleted {
        assert(w.tasks =~= v.tasks);
    }
}

/// An id is among those that filter `f` shows exactly when a task with that
/// id is in `s` and `f` admits it.
pub proof fn lemma_ids_shown(s: Seq<TaskView>, f: Filter, id: i64)
    ensures
        ids(shown(s, f)).contains(id) <==> exists|i: int|
            0 <= i < s.len() && #[trigger] s[i].id == id && f.admits(s[i]),
{
    let p = shown(s, f);
    if ids(p).contains(id) {
        let k = choose|k: int| 0 <= k < p.len() && p[k].id == id;
        lemma_shown_contains(s, f, p[k]);
        assert(p.contains(p[k]));
        let i = choose|i: int| 0 <= i < s.len() && s[i] == p[k];
        assert(s[i].id == id && f.admits(s[i]));
    }
    if exists|i: int| 0 <= i < s.len() && #[trigger] s[i].id == id && f.admits(s[i]) {
        let i = choose|i: int| 0 <= i < s.len() && #[trigger] s[i].id == id && f.admits(s[i]);
        lemma_shown_contains(s, f, s[i]);
        assert(s.contains(s[i]));
        let k = choose|k: int| 0 <= k < p.len() && p[k] == s[i];
        assert(p[k].id == id);
    }
}

/// The filters split the tasks: by id, `All` and `Deleted` together show
/// every task and share none; `Active` and `Completed` together show what
/// `All` shows and share none.
pub proof fn lemma_filters_partition(s: Seq<TaskView>)
    requires
        unique_ids(s),
    ensures
        ids(shown(s, Filter::All)).union(ids(shown(s, Filter::Deleted))) == ids(s),
        ids(shown(s, Filter::All)).intersect(ids(shown(s, Filter::Deleted))) == Set::<i64>::empty(),
        ids(shown(s, Filter::Active)).union(ids(shown(s, Filter::Completed))) == ids(
            shown(s, Filter::All),
        ),
        ids(shown(s, Filter::Active)).intersect(ids(shown(s, Filter::Completed))) == Set::<
            i64,
        >::empty(),
{
    assert forall|id: i64| true implies {
        &&& ids(shown(s, Filter::All)).contains(id) <==> exists|i: int|
            0 <= i < s.len() && #[trigger] s[i].id == id && Filter::All.admits(s[i])
        &&& ids(shown(s, Filter::Deleted)).contains(id) <==> exists|i: int|
            0 <= i < s.len() && #[trigger] s[i].id == id && Filter::Deleted.admits(s[i])
        &&& ids(shown(s, Filter::Active)).contains(id) <==> exists|i: int|
            0 <= i < s.len() && #[trigger] s[i].id == id && Filter::Active.admits(s[i])
        &&& ids(shown(s, Filter::Completed)).contains(id) <==> exists|i: int|
            0 <= i < s.len() && #[trigger] s[i].id == id && Filter::Completed.admits(s[i])
    } by {
        lemma_ids_shown(s, Filter::All, id);
        lemma_ids_shown(s, Filter::Deleted, id);
        lemma_ids_shown(s, Filter::Active, id);
        lemma_ids_shown(s, Filter::Completed, id);
    }
    assert(ids(shown(s, Filter::All)).union(ids(shown(s, Filter::Deleted))) =~= ids(s));
    assert(ids(shown(s, Filter::All)).intersect(ids(shown(s, Filter::Deleted))) =~= Set::<
        i64,
    >::empty());
    assert(ids(shown(s, Filter::Active)).union(ids(shown(s, Filter::Completed))) =~= ids(
        shown(s, Filter::All),
    ));
    assert(ids(shown(s, Filter::Active)).intersect(ids(shown(s, Filter::Completed))) =~= Set::<
        i64,
    >::empty());
}

} // verus!
