//! The application state, and what each step of a redraw does to it.

use vstd::prelude::*;
use crate::listing::{
    incomplete_count, lemma_count_step, lemma_shown_all, marked_upto, position, redrawn,
    shown_indices, shown_upto,
};
use crate::todolist::{Enum, InputView, ItemInput, ItemView, TodoItem};

verus! {

/// The records of a vector, as mathematical values.
pub open spec fn records(data: Seq<TodoItem>) -> Seq<ItemView> {
    Seq::new(data.len(), |i: int| data[i]@)
}

/// The reports of a vector, as mathematical values.
pub open spec fn reports(seen: Seq<ItemInput>) -> Seq<InputView> {
    Seq::new(seen.len(), |i: int| seen[i]@)
}

/// The application state as a mathematical value.
#[verifier::ext_equal]
pub struct AppView {
    /// The text typed so far into the new-task field.
    pub addtodo: Seq<char>,
    /// How many records were not completed at the end of the last redraw.
    pub task: nat,
    /// The filter in force.
    pub radio: Enum,
    /// The records, in display order.
    pub data: Seq<ItemView>,
    /// The position of the record to remove at the end of the redraw, if any.
    pub del: Option<int>,
}

/// The application state.
///
/// A pending delete always names a record that exists.
pub struct MyApp {
    addtodo: String,
    task: usize,
    radio: Enum,
    data: Vec<TodoItem>,
    del: Option<usize>,
}

/// The application state with every field in the open, as it is stored
/// between sessions.
#[derive(Debug)]
pub struct Snapshot {
    pub addtodo: String,
    pub task: usize,
    pub radio: Enum,
    pub data: Vec<TodoItem>,
    pub del: Option<usize>,
}

/// What the new-task field reported during a redraw: its content after the
/// redraw, and how it was left.
///
/// A click elsewhere is one way of losing the focus. It is passed on as the
/// field reported it and decides nothing by itself: the text is submitted
/// whenever the focus was lost.
#[derive(Debug)]
pub struct EntryInput {
    pub text: String,
    pub lost_focus: bool,
    pub clicked_elsewhere: bool,
}

/// The message shown in place of an empty list.
#[derive(Clone, Copy, Debug, PartialEq, Eq, Structural)]
pub enum Notice {
    /// There are no records at all.
    NoTasks,
    /// No record is waiting to be done.
    NoActiveTasks,
    /// No record is completed.
    NoCompletedTasks,
}

/// A delete marker as a mathematical value.
pub open spec fn marker(del: Option<usize>) -> Option<int> {
    match del {
        Some(i) => Some(i as int),
        None => None,
    }
}

impl View for Snapshot {
    type V = AppView;

    open spec fn view(&self) -> AppView {
        AppView {
            addtodo: self.addtodo@,
            task: self.task as nat,
            radio: self.radio,
            data: records(self.data@),
            del: marker(self.del),
        }
    }
}

impl View for MyApp {
    type V = AppView;

    closed spec fn view(&self) -> AppView {
        AppView {
            addtodo: self.addtodo@,
            task: self.task as nat,
            radio: self.radio,
            data: records(self.data@),
            del: marker(self.del),
        }
    }
}

impl AppView {
    /// The state of a first start: nothing typed, no records, every record listed.
    pub open spec fn empty() -> AppView {
        AppView {
            addtodo: Seq::empty(),
            task: 0,
            radio: Enum::All,
            data: Seq::empty(),
            del: None,
        }
    }

    /// A pending delete names a record that exists.
    pub open spec fn wf(self) -> bool {
        self.del matches Some(i) ==> 0 <= i < self.data.len()
    }

    /// The state that a session starts from, given what was stored. A stored
    /// delete marker is stale and is dropped.
    pub open spec fn restored(stored: Option<AppView>) -> AppView {
        match stored {
            Some(state) => AppView { del: None, ..state },
            None => AppView::empty(),
        }
    }

    /// The state after the typed text was submitted: a new record with that
    /// title joins the end and the field is cleared, unless nothing was typed.
    pub open spec fn committed(self) -> AppView {
        if self.addtodo.len() > 0 {
            AppView {
                addtodo: Seq::empty(),
                data: self.data.push(ItemView { title: self.addtodo, active: false, edit: false }),
                ..self
            }
        } else {
            self
        }
    }

    /// The state after the new-task field reported `text` as its content. The
    /// text is submitted when the field lost the focus, however it lost it.
    pub open spec fn entered(self, text: Seq<char>, lost_focus: bool) -> AppView {
        let typed = AppView { addtodo: text, ..self };
        if lost_focus {
            typed.committed()
        } else {
            typed
        }
    }

    /// The state after the filter `f` was selected.
    pub open spec fn selected(self, f: Enum) -> AppView {
        AppView { radio: f, ..self }
    }

    /// The positions of the records that are listed, in display order.
    pub open spec fn shown(self) -> Seq<int> {
        shown_indices(self.data, self.radio)
    }

    /// The state after the list was redrawn and the widgets of the record at
    /// display position `k` reported `seen[k]`. The last record that asked to
    /// be deleted is marked, in place of any record marked before.
    pub open spec fn listed(self, seen: Seq<InputView>) -> AppView {
        AppView {
            data: redrawn(self.data, self.radio, seen),
            del: marked_upto(self.data, self.radio, seen, self.del, self.data.len() as int),
            ..self
        }
    }

    /// The message shown in place of the list, if the list is empty.
    pub open spec fn notice(self) -> Option<Notice> {
        if self.shown().len() > 0 {
            None
        } else {
            Some(
                match self.radio {
                    Enum::All => Notice::NoTasks,
                    Enum::Active => Notice::NoActiveTasks,
                    Enum::Completed => Notice::NoCompletedTasks,
                },
            )
        }
    }

    /// The state after one whole redraw, whose steps come in this order: the
    /// new-task field is taken over and submitted if it lost the focus; the
    /// filter `f` is selected; the list is redrawn; the count is taken and
    /// the marked record removed. So a record submitted in a redraw can be
    /// listed in it, and the record marked during the listing is removed
    /// before anything else can move it.
    pub open spec fn updated(
        self,
        text: Seq<char>,
        lost_focus: bool,
        f: Enum,
        seen: Seq<InputView>,
    ) -> AppView {
        self.entered(text, lost_focus).selected(f).listed(seen).deferred()
    }

    /// The state at the end of a redraw: the count is taken of the records as
    /// they stand, then the record marked for deletion is removed.
    pub open spec fn deferred(self) -> AppView {
        AppView {
            task: incomplete_count(self.data),
            data: match self.del {
                Some(i) => self.data.remove(i),
                None => self.data,
            },
            del: None,
            ..self
        }
    }
}

impl Default for MyApp {
    /// The state of a first start.
    fn default() -> (app: MyApp)
        ensures
            app@ == AppView::empty(),
            app@.wf(),
    {
        MyApp { addtodo: String::new(), task: 0, radio: Enum::All, data: Vec::new(), del: None }
    }
}

impl MyApp {
    #[verifier::type_invariant]
    spec fn inv(self) -> bool {
        self.del matches Some(i) ==> i < self.data.len()
    }

    /// Hands out the records and the delete marker, and leaves the state
    /// without either, so that the records can be worked on.
    fn detach(&mut self) -> (parts: (Vec<TodoItem>, Option<usize>))
        ensures
            parts.0 == old(self).data,
            parts.1 == old(self).del,
            parts.1 matches Some(i) ==> i < parts.0.len(),
            final(self).data@.len() == 0,
            final(self).del is None,
            final(self).addtodo == old(self).addtodo,
            final(self).task == old(self).task,
            final(self).radio == old(self).radio,
    {
        proof {
            use_type_invariant(&*self);
        }
        let del = self.del;
        self.del = None;
        let mut data: Vec<TodoItem> = Vec::new();
        core::mem::swap(&mut self.data, &mut data);
        (data, del)
    }

    /// Takes the records and the delete marker back.
    fn attach(&mut self, data: Vec<TodoItem>, del: Option<usize>)
        requires
            old(self).del is None,
            del matches Some(i) ==> i < data.len(),
        ensures
            final(self).data == data,
            final(self).del == del,
            final(self).addtodo == old(self).addtodo,
            final(self).task == old(self).task,
            final(self).radio == old(self).radio,
    {
        self.data = data;
        self.del = del;
    }

    /// Starts a session from what was stored, or from the empty state if
    /// nothing was.
    pub fn new(stored: Option<Snapshot>) -> (app: MyApp)
        ensures
            app@.wf(),
            app@ == AppView::restored(
                match stored {
                    Some(snapshot) => Some(snapshot@),
                    None => None,
                },
            ),
    {
        match stored {
            Some(snapshot) => MyApp {
                addtodo: snapshot.addtodo,
                task: snapshot.task,
                radio: snapshot.radio,
                data: snapshot.data,
                del: None,
            },
            None => MyApp::default(),
        }
    }

    /// The state as it is stored between sessions: every field as it stands.
    pub fn save(&self) -> (snapshot: Snapshot)
        ensures
            snapshot@ == self@,
    {
        let mut data: Vec<TodoItem> = Vec::new();
        let mut i: usize = 0;
        while i < self.data.len()
            invariant
                i <= self.data.len(),
                data.len() == i,
                forall|j: int| 0 <= j < i ==> data@[j]@ == self.data@[j]@,
            decreases self.data.len() - i,
        {
            data.push(self.data[i].clone());
            i += 1;
        }
        Snapshot {
            addtodo: self.addtodo.clone(),
            task: self.task,
            radio: self.radio,
            data,
            del: self.del,
        }
    }

    /// The text typed so far into the new-task field.
    pub fn pending_input(&self) -> (text: &String)
        ensures
            text@ == self@.addtodo,
    {
        &self.addtodo
    }

    /// How many records were not completed at the end of the last redraw.
    pub fn task(&self) -> (count: usize)
        ensures
            count == self@.task,
    {
        self.task
    }

    /// The filter in force.
    pub fn radio(&self) -> (filter: Enum)
        ensures
            filter == self@.radio,
    {
        self.radio
    }

    /// The records, in display order.
    pub fn items(&self) -> (data: &Vec<TodoItem>)
        ensures
            records(data@) == self@.data,
    {
        &self.data
    }

    /// The position of the record that the end of this redraw will remove.
    pub fn pending_delete(&self) -> (del: Option<usize>)
        ensures
            marker(del) == self@.del,
            self@.wf(),
    {
        proof {
            use_type_invariant(self);
        }
        self.del
    }

    /// Takes over the content of the new-task field, and submits it if the
    /// field lost the focus, by a click elsewhere or otherwise.
    pub fn enter(&mut self, seen: EntryInput)
        ensures
            final(self)@ == old(self)@.entered(seen.text@, seen.lost_focus),
            final(self)@.wf(),
    {
        proof {
            use_type_invariant(&*self);
        }
        self.addtodo = seen.text;
        if seen.lost_focus {
            self.commit_pending_input();
        }
    }

    /// Submits the typed text: a record with that title, not completed and
    /// not in edit mode, joins the end of the list, and the field is cleared.
    /// Does nothing if no text was typed; text made of blanks counts as text.
    pub fn commit_pending_input(&mut self)
        ensures
            final(self)@ == old(self)@.committed(),
            final(self)@.wf(),
    {
        if !self.addtodo.as_str().is_empty() {
            let title = self.addtodo.clone();
            let (mut data, del) = self.detach();
            data.push(TodoItem { title, active: false, edit: false });
            self.attach(data, del);
            self.addtodo = String::new();
        }
        proof {
            use_type_invariant(&*self);
        }
    }

    /// Selects which records the list shows. The records are not touched.
    pub fn select_filter(&mut self, f: Enum)
        ensures
            final(self)@ == old(self)@.selected(f),
            final(self)@.wf(),
    {
        proof {
            use_type_invariant(&*self);
        }
        self.radio = f;
    }

    /// The positions of the records that the list shows, in display order.
    pub fn shown(&self) -> (rows: Vec<usize>)
        ensures
            rows@.map_values(|i: usize| i as int) == self@.shown(),
    {
        let mut rows: Vec<usize> = Vec::new();
        let mut i: usize = 0;
        while i < self.data.len()
            invariant
                i <= self.data.len(),
                rows@.map_values(|i: usize| i as int) == shown_upto(
                    records(self.data@),
                    self.radio,
                    i as int,
                ),
            decreases self.data.len() - i,
        {
            if self.radio.shows(self.data[i].active) {
                rows.push(i);
            }
            i += 1;
        }
        rows
    }

    /// Redraws the records that the filter `f` lists, and returns how many
    /// those are.
    fn redraw(&mut self, seen: &Vec<ItemInput>, f: Enum) -> (count: usize)
        ensures
            count == shown_indices(old(self)@.data, f).len(),
            final(self)@ == (AppView {
                data: redrawn(old(self)@.data, f, reports(seen@)),
                del: marked_upto(
                    old(self)@.data,
                    f,
                    reports(seen@),
                    old(self)@.del,
                    old(self)@.data.len() as int,
                ),
                ..old(self)@
            }),
    {
        let ghost before = self@;
        let ghost told = reports(seen@);
        let (mut data, mut del) = self.detach();
        let n = data.len();
        let mut i: usize = 0;
        let mut k: usize = 0;
        while i < n
            invariant
                i <= n,
                n == data.len(),
                n == before.data.len(),
                told == reports(seen@),
                k == position(before.data, f, i as int),
                k <= i,
                forall|j: int| 0 <= j < i ==> data@[j]@ == redrawn(before.data, f, told)[j],
                forall|j: int| i <= j < n ==> data@[j]@ == before.data[j],
                marker(del) == marked_upto(before.data, f, told, before.del, i as int),
                del matches Some(d) ==> d < n,
            decreases n - i,
        {
            if f.shows(data[i].active) {
                if k < seen.len() {
                    let change = data[i].sigleitem(&seen[k]);
                    if change {
                        del = Some(i);
                    }
                }
                k += 1;
            }
            i += 1;
        }
        self.attach(data, del);
        k
    }

    /// Redraws every record, whatever the filter in force. `seen[k]` is what
    /// the widgets of record `k` reported.
    pub fn show_all(&mut self, seen: &Vec<ItemInput>) -> (notice: Option<Notice>)
        ensures
            final(self)@ == old(self)@.selected(Enum::All).listed(reports(seen@)).selected(
                old(self)@.radio,
            ),
            notice == (if old(self)@.data.len() > 0 {
                None
            } else {
                Some(Notice::NoTasks)
            }),
    {
        proof {
            lemma_shown_all(self@.data, self@.data.len() as int);
        }
        let count = self.redraw(seen, Enum::All);
        if count > 0 {
            None
        } else {
            Some(Notice::NoTasks)
        }
    }

    /// Redraws the records whose checkbox state is `active`, whatever the
    /// filter in force. `seen[k]` is what the widgets of the `k`-th of those
    /// records reported. A click on a delete button marks the record by its
    /// position among all records.
    pub fn show_active(&mut self, seen: &Vec<ItemInput>, active: bool) -> (notice: Option<Notice>)
        ensures
            final(self)@ == old(self)@.selected(Enum::of(active)).listed(reports(seen@)).selected(
                old(self)@.radio,
            ),
            notice == old(self)@.selected(Enum::of(active)).notice(),
    {
        let f = if active {
            Enum::Completed
        } else {
            Enum::Active
        };
        let count = self.redraw(seen, f);
        if count > 0 {
            None
        } else if active {
            Some(Notice::NoCompletedTasks)
        } else {
            Some(Notice::NoActiveTasks)
        }
    }

    /// Redraws the list under the filter in force. `seen[k]` is what the
    /// widgets of the record at display position `k` reported; a listed
    /// record for which `seen` holds nothing stays as it is. A click on a
    /// delete button marks that record, by its position among all records,
    /// for removal at the end of the redraw; the last click wins. Returns the
    /// message to show in place of the list when no record is listed.
    pub fn show_content(&mut self, seen: &Vec<ItemInput>) -> (notice: Option<Notice>)
        ensures
            final(self)@ == old(self)@.listed(reports(seen@)),
            final(self)@.wf(),
            notice == old(self)@.notice(),
    {
        let notice = match self.radio {
            Enum::All => {
                proof {
                    lemma_shown_all(self@.data, self@.data.len() as int);
                }
                self.show_all(seen)
            },
            Enum::Active => self.show_active(seen, false),
            Enum::Completed => self.show_active(seen, true),
        };
        proof {
            use_type_invariant(&*self);
        }
        notice
    }

    /// Ends a redraw: counts the records that are not completed, then removes
    /// the record marked for deletion, if any, and clears the mark.
    pub fn dataupdate(&mut self)
        ensures
            final(self)@ == old(self)@.deferred(),
            final(self)@.wf(),
    {
        let (mut data, del) = self.detach();
        let mut count: usize = 0;
        let mut i: usize = 0;
        while i < data.len()
            invariant
                i <= data.len(),
                count <= i,
                count == incomplete_count(records(data@).take(i as int)),
            decreases data.len() - i,
        {
            proof {
                lemma_count_step(records(data@), i as int);
            }
            if !data[i].active {
                count += 1;
            }
            i += 1;
        }
        assert(records(data@).take(data.len() as int) == records(data@));
        if let Some(d) = del {
            data.remove(d);
        }
        self.attach(data, None);
        self.task = count;
    }
}

} // verus!
