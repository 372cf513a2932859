//! What holds of the records and of the application state, whatever the user does.

use vstd::prelude::*;
use crate::app::AppView;
use crate::listing::{
    asks_delete, incomplete_count, lemma_shown_all, lemma_shown_upto, marked_upto, position,
    redrawn, report_for, shown_indices, shown_upto,
};
use crate::todolist::{Enum, InputView, ItemView};

verus! {

/// Submitting typed text adds exactly one record, at the end, with that text
/// as its title, not completed and not in edit mode; the records before it
/// stay as they are and the field is cleared. Submitting an empty field
/// changes nothing.
pub proof fn lemma_commit(state: AppView)
    ensures
        state.addtodo.len() > 0 ==> {
            &&& state.committed().data.len() == state.data.len() + 1
            &&& state.committed().data.drop_last() == state.data
            &&& state.committed().data.last() == (ItemView {
                title: state.addtodo,
                active: false,
                edit: false,
            })
            &&& state.committed().addtodo.len() == 0
        },
        state.addtodo.len() == 0 ==> state.committed() == state,
        state.committed().task == state.task,
        state.committed().radio == state.radio,
        state.committed().del == state.del,
        state.wf() ==> state.committed().wf(),
{
    if state.addtodo.len() > 0 {
        assert(state.committed().data.drop_last() =~= state.data);
    }
}

/// The new-task field submits its text exactly when it lost the focus: then
/// the field is left empty, and a record with the text as its title joins
/// the end unless the text was empty. While the field keeps the focus the
/// text is only taken over.
pub proof fn lemma_enter(state: AppView, text: Seq<char>, lost_focus: bool)
    ensures
        lost_focus && text.len() > 0 ==> {
            &&& state.entered(text, lost_focus).data == state.data.push(
                ItemView { title: text, active: false, edit: false },
            )
            &&& state.entered(text, lost_focus).addtodo.len() == 0
        },
        lost_focus && text.len() == 0 ==> {
            &&& state.entered(text, lost_focus).data == state.data
            &&& state.entered(text, lost_focus).addtodo.len() == 0
        },
        !lost_focus ==> {
            &&& state.entered(text, lost_focus).data == state.data
            &&& state.entered(text, lost_focus).addtodo == text
        },
        state.entered(text, lost_focus).task == state.task,
        state.entered(text, lost_focus).radio == state.radio,
        state.entered(text, lost_focus).del == state.del,
        state.wf() ==> state.entered(text, lost_focus).wf(),
{
}

/// Selecting a filter changes which records are listed and nothing else.
pub proof fn lemma_select(state: AppView, f: Enum)
    ensures
        state.selected(f).radio == f,
        state.selected(f).data == state.data,
        state.selected(f).addtodo == state.addtodo,
        state.selected(f).task == state.task,
        state.selected(f).del == state.del,
        state.wf() ==> state.selected(f).wf(),
{
}

/// A filter lists exactly the records that it admits, each once, in the
/// order of the records.
pub proof fn lemma_shown(data: Seq<ItemView>, f: Enum)
    ensures
        forall|i: int|
            #![trigger shown_indices(data, f).contains(i)]
            shown_indices(data, f).contains(i) <==> 0 <= i < data.len() && f.admits(
                data[i].active,
            ),
        forall|j: int, k: int|
            0 <= j < k < shown_indices(data, f).len() ==> shown_indices(data, f)[j]
                < shown_indices(data, f)[k],
        forall|k: int|
            0 <= k < shown_indices(data, f).len() ==> position(
                data,
                f,
                #[trigger] shown_indices(data, f)[k],
            ) == k,
{
    let n = data.len() as int;
    let shown = shown_indices(data, f);
    lemma_shown_upto(data, f, n);
    assert forall|i: int| 0 <= i < n && f.admits(data[i].active) implies shown.contains(i) by {
        assert(shown[position(data, f, i)] == i);
    }
}

/// How many of the first `n` records each filter lists: the active and the
/// completed ones together are all of them.
pub proof fn lemma_shown_lengths(data: Seq<ItemView>, n: int)
    requires
        0 <= n,
    ensures
        shown_upto(data, Enum::All, n).len() == n,
        shown_upto(data, Enum::Active, n).len() + shown_upto(data, Enum::Completed, n).len() == n,
    decreases n,
{
    if n > 0 {
        lemma_shown_lengths(data, n - 1);
    }
}

/// The active list and the completed list split the full list: every record
/// is in the full list, and in exactly one of the other two.
pub proof fn lemma_filters_partition(data: Seq<ItemView>)
    ensures
        shown_indices(data, Enum::All) == Seq::new(data.len(), |i: int| i),
        shown_indices(data, Enum::Active).len() + shown_indices(data, Enum::Completed).len()
            == data.len(),
        forall|i: int|
            0 <= i < data.len() ==> (#[trigger] shown_indices(data, Enum::Active).contains(i)
                != shown_indices(data, Enum::Completed).contains(i)),
        forall|i: int|
            #[trigger] shown_indices(data, Enum::Active).contains(i) || #[trigger] shown_indices(
                data,
                Enum::Completed,
            ).contains(i) ==> shown_indices(data, Enum::All).contains(i),
{
    let n = data.len() as int;
    lemma_shown_all(data, n);
    lemma_shown_lengths(data, n);
    lemma_shown(data, Enum::All);
    lemma_shown(data, Enum::Active);
    lemma_shown(data, Enum::Completed);
}

/// The count of records that are not completed is the length of the active list.
pub proof fn lemma_count_is_active_length(data: Seq<ItemView>)
    ensures
        incomplete_count(data) == shown_indices(data, Enum::Active).len(),
    decreases data.len(),
{
    reveal(Seq::filter);
    if data.len() > 0 {
        let rest = data.drop_last();
        lemma_count_is_active_length(rest);
        lemma_shown_same(data, rest, Enum::Active, rest.len() as int);
    }
}

/// The list of the first `n` records depends on those records alone.
pub proof fn lemma_shown_same(a: Seq<ItemView>, b: Seq<ItemView>, f: Enum, n: int)
    requires
        0 <= n <= a.len(),
        n <= b.len(),
        forall|i: int| 0 <= i < n ==> a[i].active == b[i].active,
    ensures
        shown_upto(a, f, n) == shown_upto(b, f, n),
    decreases n,
{
    if n > 0 {
        lemma_shown_same(a, b, f, n - 1);
    }
}

/// A checkbox changes whether its record is completed, and nothing else of it.
pub proof fn lemma_toggle(item: ItemView, seen: InputView)
    requires
        !item.edit,
        !seen.edit_clicked,
    ensures
        item.after(seen) == (ItemView { active: seen.checked, ..item }),
        !item.asks_delete(seen),
{
}

/// Leaving the text field without a click on the delete button keeps what
/// was typed as the title: the record leaves edit mode, stays, and is as
/// completed as it was.
pub proof fn lemma_edit_is_kept(item: ItemView, seen: InputView)
    requires
        item.edit,
        seen.lost_focus || seen.clicked_elsewhere,
        !seen.delete_clicked,
    ensures
        item.after(seen).title == seen.text,
        item.after(seen).active == item.active,
        !item.after(seen).edit,
        !item.asks_delete(seen),
{
}

/// A redraw of the list neither adds, removes nor moves a record: each
/// position holds the record that it held, untouched if no report reaches
/// it, and after its own widgets' report if one does. A record that is not
/// in edit mode keeps its title.
pub proof fn lemma_redraw_keeps_order(state: AppView, seen: Seq<InputView>)
    ensures
        state.listed(seen).data.len() == state.data.len(),
        forall|i: int|
            0 <= i < state.data.len() ==> #[trigger] state.listed(seen).data[i] == (
            match report_for(state.data, state.radio, seen, i) {
                Some(report) => state.data[i].after(report),
                None => state.data[i],
            }),
        forall|i: int|
            0 <= i < state.data.len() && !state.data[i].edit ==> (#[trigger] state.listed(
                seen,
            ).data[i]).title == state.data[i].title,
        state.listed(seen).addtodo == state.addtodo,
        state.listed(seen).task == state.task,
        state.listed(seen).radio == state.radio,
{
}

/// The record at display position `k` is the record at position
/// `shown_indices(data, f)[k]`, and it is the report `seen[k]` that reaches it.
pub proof fn lemma_redraw_by_display_position(
    data: Seq<ItemView>,
    f: Enum,
    seen: Seq<InputView>,
    k: int,
)
    requires
        0 <= k < shown_indices(data, f).len(),
        k < seen.len(),
    ensures
        0 <= shown_indices(data, f)[k] < data.len(),
        report_for(data, f, seen, shown_indices(data, f)[k]) == Some(seen[k]),
        redrawn(data, f, seen)[shown_indices(data, f)[k]] == data[shown_indices(data, f)[k]].after(
            seen[k],
        ),
{
    lemma_shown_upto(data, f, data.len() as int);
}

/// The delete marker after a redraw is the marker from before, or the
/// position of a listed record in edit mode whose delete button was clicked.
pub proof fn lemma_marked(
    data: Seq<ItemView>,
    f: Enum,
    seen: Seq<InputView>,
    prior: Option<int>,
    n: int,
)
    requires
        0 <= n <= data.len(),
    ensures
        marked_upto(data, f, seen, prior, n) == prior || (marked_upto(data, f, seen, prior, n)
            matches Some(i) && 0 <= i < n && asks_delete(data, f, seen, i)),
    decreases n,
{
    if n > 0 {
        lemma_marked(data, f, seen, prior, n - 1);
    }
}

/// If record `i` asks to be deleted, and no record between it and position
/// `n` does, then record `i` is the one marked.
pub proof fn lemma_marked_last(
    data: Seq<ItemView>,
    f: Enum,
    seen: Seq<InputView>,
    prior: Option<int>,
    i: int,
    n: int,
)
    requires
        0 <= i < n,
        asks_delete(data, f, seen, i),
        forall|m: int| i < m < n ==> !#[trigger] asks_delete(data, f, seen, m),
    ensures
        marked_upto(data, f, seen, prior, n) == Some(i),
    decreases n - i,
{
    if n > i + 1 {
        lemma_marked_last(data, f, seen, prior, i, n - 1);
        assert(!asks_delete(data, f, seen, n - 1));
    }
}

/// If no record asks to be deleted, the marker stays as it was.
pub proof fn lemma_marked_none(
    data: Seq<ItemView>,
    f: Enum,
    seen: Seq<InputView>,
    prior: Option<int>,
    n: int,
)
    requires
        0 <= n,
        forall|m: int| 0 <= m < n ==> !#[trigger] asks_delete(data, f, seen, m),
    ensures
        marked_upto(data, f, seen, prior, n) == prior,
    decreases n,
{
    if n > 0 {
        lemma_marked_none(data, f, seen, prior, n - 1);
        assert(!asks_delete(data, f, seen, n - 1));
    }
}

/// A click on the delete button of the record at display position `k`, the
/// last such click of the redraw, removes the record that is displayed
/// there, whatever the filter: the end of the redraw leaves the redrawn
/// records without the one at position `shown_indices(data, f)[k]`.
pub proof fn lemma_delete_removes_displayed(state: AppView, seen: Seq<InputView>, k: int)
    requires
        seen.len() == state.shown().len(),
        0 <= k < state.shown().len(),
        state.data[state.shown()[k]].asks_delete(seen[k]),
        forall|j: int|
            k < j < state.shown().len() ==> !state.data[#[trigger] state.shown()[j]].asks_delete(
                seen[j],
            ),
    ensures
        0 <= state.shown()[k] < state.data.len(),
        state.listed(seen).del == Some(state.shown()[k]),
        state.listed(seen).wf(),
        state.listed(seen).deferred().data == redrawn(state.data, state.radio, seen).remove(
            state.shown()[k],
        ),
        state.listed(seen).deferred().data.len() == state.data.len() - 1,
        state.listed(seen).deferred().del is None,
{
    let data = state.data;
    let f = state.radio;
    let n = data.len() as int;
    let shown = state.shown();
    let i = shown[k];
    lemma_shown_upto(data, f, n);
    assert forall|m: int| i < m < n implies !#[trigger] asks_delete(data, f, seen, m) by {
        if f.admits(data[m].active) {
            let j = position(data, f, m);
            assert(shown[j] == m);
            if j < k {
                assert(shown[j] < shown[k]);
            }
        }
    }
    lemma_marked_last(data, f, seen, state.del, i, n);
}

/// A click on the delete button of the record at display position `k`, in
/// a redraw in which the user did nothing else, leaves the records as they
/// were but for the record displayed there, which is gone.
pub proof fn lemma_delete_leaves_the_rest(state: AppView, seen: Seq<InputView>, k: int)
    requires
        seen.len() == state.shown().len(),
        0 <= k < state.shown().len(),
        state.data[state.shown()[k]].edit,
        forall|j: int|
            0 <= j < seen.len() ==> seen[j] == (InputView {
                delete_clicked: j == k,
                ..InputView::untouched(state.data[#[trigger] state.shown()[j]])
            }),
    ensures
        state.listed(seen).data == state.data,
        state.listed(seen).del == Some(state.shown()[k]),
        state.listed(seen).deferred().data == state.data.remove(state.shown()[k]),
{
    let data = state.data;
    let f = state.radio;
    let n = data.len() as int;
    lemma_shown_upto(data, f, n);
    assert forall|i: int| 0 <= i < n implies #[trigger] redrawn(data, f, seen)[i] == data[i] by {
        if f.admits(data[i].active) {
            assert(state.shown()[position(data, f, i)] == i);
        }
    }
    assert(redrawn(data, f, seen) =~= data);
    assert forall|j: int| k < j < state.shown().len() implies !state.data[#[trigger] state.shown()[j]].asks_delete(
        seen[j],
    ) by {}
    lemma_delete_removes_displayed(state, seen, k);
}

/// A record whose widgets the user did not touch stays as it is.
pub proof fn lemma_untouched(item: ItemView)
    ensures
        item.after(InputView::untouched(item)) == item,
        !item.asks_delete(InputView::untouched(item)),
{
}

/// A whole redraw without user action changes nothing, once the count is
/// that of the records and no delete is pending.
pub proof fn lemma_idle_redraw(state: AppView, seen: Seq<InputView>)
    requires
        state.del is None,
        state.task == incomplete_count(state.data),
        seen.len() == state.shown().len(),
        forall|k: int|
            0 <= k < seen.len() ==> seen[k] == InputView::untouched(
                state.data[#[trigger] state.shown()[k]],
            ),
    ensures
        state.listed(seen) == state,
        state.listed(seen).deferred() == state,
{
    let data = state.data;
    let f = state.radio;
    let n = data.len() as int;
    lemma_shown_upto(data, f, n);
    assert forall|i: int| 0 <= i < n implies #[trigger] redrawn(data, f, seen)[i] == data[i] by {
        if f.admits(data[i].active) {
            assert(state.shown()[position(data, f, i)] == i);
        }
    }
    assert(redrawn(data, f, seen) =~= data);
    assert forall|m: int| 0 <= m < n implies !#[trigger] asks_delete(data, f, seen, m) by {
        if f.admits(data[m].active) {
            assert(state.shown()[position(data, f, m)] == m);
        }
    }
    lemma_marked_none(data, f, seen, state.del, n);
}

/// A redraw of the list leaves a state in which a pending delete names a
/// record that exists, and so does the end of a redraw.
pub proof fn lemma_steps_keep_wf(state: AppView, seen: Seq<InputView>)
    requires
        state.wf(),
    ensures
        state.listed(seen).wf(),
        state.deferred().wf(),
{
    lemma_marked(state.data, state.radio, seen, state.del, state.data.len() as int);
}

/// The end of a redraw counts the records as they stand before the marked
/// record is removed. With no record marked, the count is that of the
/// records that are left, and a further redraw without user action changes
/// nothing.
pub proof fn lemma_count_is_recomputed(state: AppView)
    ensures
        state.deferred().task == incomplete_count(state.data),
        state.del is None ==> state.deferred().data == state.data,
        state.del is None ==> state.deferred().task == incomplete_count(state.deferred().data),
        state.del is None ==> state.deferred().deferred() == state.deferred(),
{
}

/// Whatever was marked, two ends of a redraw in a row leave the count equal
/// to that of the records that are left, and from then on the state stays.
pub proof fn lemma_count_settles(state: AppView)
    ensures
        state.deferred().deferred().data == state.deferred().data,
        state.deferred().deferred().task == incomplete_count(state.deferred().deferred().data),
        state.deferred().deferred().del is None,
        state.deferred().deferred().deferred() == state.deferred().deferred(),
{
}

/// Storing a state and starting from what was stored gives the state back,
/// but for the delete marker, which is dropped. Starting from nothing gives
/// the empty state.
pub proof fn lemma_round_trip(state: AppView)
    ensures
        AppView::restored(Some(state)) == (AppView { del: None, ..state }),
        AppView::restored(Some(state)).wf(),
        AppView::restored(Some(AppView::restored(Some(state)))) == AppView::restored(Some(state)),
        AppView::restored(None) == AppView::empty(),
        AppView::empty().wf(),
        AppView::empty().data.len() == 0,
{
}

/// A pass over the records whose checkbox state is `a`, whatever the filter
/// in force: a report reaches a record only if its state before the pass is
/// `a`, so a record toggled during the pass neither drops out of it nor
/// enters it. No record is added, removed or moved, a record whose state is
/// not `a` stays whole, and the text field, the filter and the count stay.
pub proof fn lemma_pass_by_state(state: AppView, a: bool, seen: Seq<InputView>)
    ensures
        ({
            let pass = state.selected(Enum::of(a)).listed(seen).selected(state.radio);
            &&& pass.data.len() == state.data.len()
            &&& forall|i: int|
                0 <= i < state.data.len() && state.data[i].active != a ==> #[trigger] pass.data[i]
                    == state.data[i]
            &&& forall|i: int|
                0 <= i < state.data.len() ==> (#[trigger] report_for(
                    state.data,
                    Enum::of(a),
                    seen,
                    i,
                ) is Some <==> state.data[i].active == a && position(state.data, Enum::of(a), i)
                    < seen.len())
            &&& forall|i: int|
                0 <= i < state.data.len() ==> #[trigger] pass.data[i] == (match report_for(
                    state.data,
                    Enum::of(a),
                    seen,
                    i,
                ) {
                    Some(report) => state.data[i].after(report),
                    None => state.data[i],
                })
            &&& pass.addtodo == state.addtodo
            &&& pass.radio == state.radio
            &&& pass.task == state.task
            &&& state.wf() ==> pass.wf()
        }),
{
    lemma_marked(state.data, Enum::of(a), seen, state.del, state.data.len() as int);
}

/// The two passes by checkbox state reach every record between them and no
/// record twice, each in the order of the records; a pass over every record
/// reaches what the two reach together.
pub proof fn lemma_passes_partition(data: Seq<ItemView>)
    ensures
        shown_indices(data, Enum::All) == Seq::new(data.len(), |i: int| i),
        forall|i: int|
            #![trigger shown_indices(data, Enum::of(false)).contains(i)]
            #![trigger shown_indices(data, Enum::of(true)).contains(i)]
            0 <= i < data.len() ==> (shown_indices(data, Enum::of(false)).contains(i)
                != shown_indices(data, Enum::of(true)).contains(i)),
        forall|a: bool, i: int|
            #[trigger] shown_indices(data, Enum::of(a)).contains(i) ==> 0 <= i < data.len()
                && data[i].active == a,
        forall|a: bool, j: int, k: int|
            0 <= j < k < shown_indices(data, Enum::of(a)).len() ==> #[trigger] shown_indices(
                data,
                Enum::of(a),
            )[j] < #[trigger] shown_indices(data, Enum::of(a))[k],
{
    lemma_filters_partition(data);
    lemma_shown(data, Enum::Active);
    lemma_shown(data, Enum::Completed);
    assert(Enum::of(false) == Enum::Active);
    assert(Enum::of(true) == Enum::Completed);
    assert forall|a: bool, j: int, k: int|
        0 <= j < k < shown_indices(data, Enum::of(a)).len() implies #[trigger] shown_indices(
        data,
        Enum::of(a),
    )[j] < #[trigger] shown_indices(data, Enum::of(a))[k] by {
        if a {
            assert(Enum::of(a) == Enum::Completed);
        } else {
            assert(Enum::of(a) == Enum::Active);
        }
    }
    assert forall|a: bool, i: int| #[trigger]
        shown_indices(data, Enum::of(a)).contains(i) implies 0 <= i < data.len() && data[i].active
        == a by {
        if a {
            assert(Enum::of(a) == Enum::Completed);
        } else {
            assert(Enum::of(a) == Enum::Active);
        }
    }
}

/// In a pass over the records whose checkbox state is `a`, a single click
/// on a delete button marks the record by its position among all records,
/// not by its position among the records of the pass.
pub proof fn lemma_pass_marks_underlying(state: AppView, a: bool, seen: Seq<InputView>, i: int)
    requires
        0 <= i < state.data.len(),
        asks_delete(state.data, Enum::of(a), seen, i),
        forall|m: int|
            0 <= m < state.data.len() && m != i ==> !#[trigger] asks_delete(
                state.data,
                Enum::of(a),
                seen,
                m,
            ),
    ensures
        state.data[i].active == a,
        state.selected(Enum::of(a)).listed(seen).selected(state.radio).del == Some(i),
{
    lemma_marked_last(state.data, Enum::of(a), seen, state.del, i, state.data.len() as int);
}

/// One whole redraw. The steps come in this order: the new-task field, the
/// filter, the list, then the count and the removal. So the text is
/// submitted before the list is drawn, and a record submitted in a redraw is
/// the last one listed in it if the filter admits it; the count is that of
/// the records as the list left them; the record marked during the listing
/// is the one removed; and no delete is pending afterwards.
pub proof fn lemma_update(
    state: AppView,
    text: Seq<char>,
    lost_focus: bool,
    f: Enum,
    seen: Seq<InputView>,
)
    requires
        state.wf(),
    ensures
        ({
            let drawn = state.entered(text, lost_focus).selected(f);
            let after = state.updated(text, lost_focus, f, seen);
            &&& after == drawn.listed(seen).deferred()
            &&& drawn.data == (if lost_focus && text.len() > 0 {
                state.data.push(ItemView { title: text, active: false, edit: false })
            } else {
                state.data
            })
            &&& lost_focus && text.len() > 0 && f.admits(false) ==> drawn.shown().len() > 0
                && drawn.shown().last() == state.data.len()
            &&& after.addtodo == (if lost_focus {
                Seq::empty()
            } else {
                text
            })
            &&& after.radio == f
            &&& after.task == incomplete_count(redrawn(drawn.data, f, seen))
            &&& after.data == (match drawn.listed(seen).del {
                Some(i) => redrawn(drawn.data, f, seen).remove(i),
                None => redrawn(drawn.data, f, seen),
            })
            &&& drawn.listed(seen).wf()
            &&& after.del is None
            &&& after.wf()
        }),
{
    let drawn = state.entered(text, lost_focus).selected(f);
    lemma_marked(drawn.data, f, seen, drawn.del, drawn.data.len() as int);
    if lost_focus {
        assert(state.entered(text, lost_focus).addtodo =~= Seq::<char>::empty());
    }
}

} // verus!
