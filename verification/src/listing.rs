//! Which records a filter lists, at which display position, and what one
//! redraw of the list does to them.

use vstd::prelude::*;
use crate::todolist::{Enum, InputView, ItemView};

verus! {

/// The positions, in rising order, of the records among the first `n` that
/// the filter `f` lists.
pub open spec fn shown_upto(data: Seq<ItemView>, f: Enum, n: int) -> Seq<int>
    decreases n,
{
    if n <= 0 {
        Seq::empty()
    } else {
        let before = shown_upto(data, f, n - 1);
        if f.admits(data[n - 1].active) {
            before.push(n - 1)
        } else {
            before
        }
    }
}

/// The positions in `data` of the records that the filter `f` lists, in the
/// order in which they are displayed.
pub open spec fn shown_indices(data: Seq<ItemView>, f: Enum) -> Seq<int> {
    shown_upto(data, f, data.len() as int)
}

/// The display position of record `i`: how many listed records precede it.
pub open spec fn position(data: Seq<ItemView>, f: Enum, i: int) -> int {
    shown_upto(data, f, i).len() as int
}

/// How many records are not completed.
pub open spec fn incomplete_count(data: Seq<ItemView>) -> nat {
    data.filter(|item: ItemView| !item.active).len()
}

/// The report that reaches record `i` in a redraw of the list under the
/// filter `f`: `seen[k]` for the record at display position `k`. A record
/// that is not listed gets none, and neither does one for whose display
/// position `seen` holds nothing.
pub open spec fn report_for(data: Seq<ItemView>, f: Enum, seen: Seq<InputView>, i: int) -> Option<
    InputView,
> {
    if f.admits(data[i].active) && position(data, f, i) < seen.len() {
        Some(seen[position(data, f, i)])
    } else {
        None
    }
}

/// The records after a redraw of the list under the filter `f`. A record
/// that gets no report stays as it is, and every record stays in place.
pub open spec fn redrawn(data: Seq<ItemView>, f: Enum, seen: Seq<InputView>) -> Seq<ItemView> {
    Seq::new(
        data.len(),
        |i: int|
            match report_for(data, f, seen, i) {
                Some(report) => data[i].after(report),
                None => data[i],
            },
    )
}

/// Whether the redraw asks for record `i` to be deleted.
pub open spec fn asks_delete(data: Seq<ItemView>, f: Enum, seen: Seq<InputView>, i: int) -> bool {
    report_for(data, f, seen, i) matches Some(report) && data[i].asks_delete(report)
}

/// The delete marker after the first `n` records were redrawn: the position
/// of the last of them that asked to be deleted, and `prior` if none did.
pub open spec fn marked_upto(
    data: Seq<ItemView>,
    f: Enum,
    seen: Seq<InputView>,
    prior: Option<int>,
    n: int,
) -> Option<int>
    decreases n,
{
    if n <= 0 {
        prior
    } else if asks_delete(data, f, seen, n - 1) {
        Some(n - 1)
    } else {
        marked_upto(data, f, seen, prior, n - 1)
    }
}

/// What the list of the first `n` records holds: listed positions only, each
/// at its display position, in rising order.
pub proof fn lemma_shown_upto(data: Seq<ItemView>, f: Enum, n: int)
    requires
        0 <= n,
    ensures
        shown_upto(data, f, n).len() <= n,
        forall|k: int|
            0 <= k < shown_upto(data, f, n).len() ==> {
                let i = #[trigger] shown_upto(data, f, n)[k];
                &&& 0 <= i < n
                &&& f.admits(data[i].active)
                &&& position(data, f, i) == k
            },
        forall|j: int, k: int|
            0 <= j < k < shown_upto(data, f, n).len() ==> shown_upto(data, f, n)[j] < shown_upto(
                data,
                f,
                n,
            )[k],
        forall|i: int|
            0 <= i < n && f.admits(data[i].active) ==> {
                &&& 0 <= #[trigger] position(data, f, i) < shown_upto(data, f, n).len()
                &&& shown_upto(data, f, n)[position(data, f, i)] == i
            },
    decreases n,
{
    if n > 0 {
        lemma_shown_upto(data, f, n - 1);
        let before = shown_upto(data, f, n - 1);
        let now = shown_upto(data, f, n);
        assert forall|i: int| 0 <= i < n && f.admits(data[i].active) implies {
            &&& 0 <= #[trigger] position(data, f, i) < now.len()
            &&& now[position(data, f, i)] == i
        } by {
            if i < n - 1 {
                assert(before[position(data, f, i)] == i);
            }
        }
    }
}

/// Under `Enum::All` every record is listed at its own position.
pub proof fn lemma_shown_all(data: Seq<ItemView>, n: int)
    requires
        0 <= n,
    ensures
        shown_upto(data, Enum::All, n) == Seq::new(n as nat, |i: int| i),
    decreases n,
{
    if n > 0 {
        lemma_shown_all(data, n - 1);
    }
}

/// Counting one record more adds one exactly when that record is not completed.
pub proof fn lemma_count_step(data: Seq<ItemView>, i: int)
    requires
        0 <= i < data.len(),
    ensures
        incomplete_count(data.take(i + 1)) == incomplete_count(data.take(i)) + (if data[i].active {
            0nat
        } else {
            1nat
        }),
{
    reveal(Seq::filter);
    assert(data.take(i + 1).drop_last() == data.take(i));
}

} // verus!
