//! Task records and the filter that selects which of them are listed.

use vstd::prelude::*;

verus! {

/// Which records the list shows.
#[derive(Clone, Copy, Debug, PartialEq, Eq, Structural)]
pub enum Enum {
    /// Every record.
    All,
    /// Records that are not completed yet.
    Active,
    /// Records that are completed.
    Completed,
}

impl Enum {
    /// Whether a record whose checkbox state is `active` is listed under this filter.
    pub open spec fn admits(self, active: bool) -> bool {
        match self {
            Enum::All => true,
            Enum::Active => !active,
            Enum::Completed => active,
        }
    }

    /// The filter that lists exactly the records whose checkbox state is `active`.
    pub open spec fn of(active: bool) -> Enum {
        if active {
            Enum::Completed
        } else {
            Enum::Active
        }
    }

    /// Whether a record whose checkbox state is `active` is listed under this filter.
    pub fn shows(self, active: bool) -> (listed: bool)
        ensures
            listed == self.admits(active),
    {
        match self {
            Enum::All => true,
            Enum::Active => !active,
            Enum::Completed => active,
        }
    }
}

impl Default for Enum {
    fn default() -> (filter: Enum)
        ensures
            filter == Enum::All,
    {
        Enum::All
    }
}

/// One task.
///
/// `active` is the state of the record's checkbox: it is `true` once the task
/// is completed. `edit` is `true` while the user is retitling the record.
#[derive(Debug)]
pub struct TodoItem {
    pub title: String,
    pub active: bool,
    pub edit: bool,
}

/// What a record is, as a mathematical value.
#[verifier::ext_equal]
pub struct ItemView {
    pub title: Seq<char>,
    pub active: bool,
    pub edit: bool,
}

/// What the widgets of one record reported during a redraw.
///
/// A record in edit mode shows a text field and a delete button; `text` is
/// the content of the field after the redraw. Any other record shows a
/// checkbox and an edit button; `checked` is the state of the checkbox after
/// the redraw. The fields of the view that was not shown are not read.
#[derive(Debug)]
pub struct ItemInput {
    pub text: String,
    pub delete_clicked: bool,
    pub lost_focus: bool,
    pub clicked_elsewhere: bool,
    pub checked: bool,
    pub edit_clicked: bool,
}

/// What an [`ItemInput`] is, as a mathematical value.
#[verifier::ext_equal]
pub struct InputView {
    pub text: Seq<char>,
    pub delete_clicked: bool,
    pub lost_focus: bool,
    pub clicked_elsewhere: bool,
    pub checked: bool,
    pub edit_clicked: bool,
}

impl View for TodoItem {
    type V = ItemView;

    open spec fn view(&self) -> ItemView {
        ItemView { title: self.title@, active: self.active, edit: self.edit }
    }
}

impl View for ItemInput {
    type V = InputView;

    open spec fn view(&self) -> InputView {
        InputView {
            text: self.text@,
            delete_clicked: self.delete_clicked,
            lost_focus: self.lost_focus,
            clicked_elsewhere: self.clicked_elsewhere,
            checked: self.checked,
            edit_clicked: self.edit_clicked,
        }
    }
}

impl InputView {
    /// What the widgets of `item` report after a redraw in which the user
    /// did nothing: the text and the checkbox as the record has them, and no
    /// click or loss of focus.
    pub open spec fn untouched(item: ItemView) -> InputView {
        InputView {
            text: item.title,
            delete_clicked: false,
            lost_focus: false,
            clicked_elsewhere: false,
            checked: item.active,
            edit_clicked: false,
        }
    }
}

impl ItemInput {
    /// What the widgets of `item` report after a redraw in which the user
    /// did nothing.
    pub fn untouched(item: &TodoItem) -> (seen: ItemInput)
        ensures
            seen@ == InputView::untouched(item@),
    {
        ItemInput {
            text: item.title.clone(),
            delete_clicked: false,
            lost_focus: false,
            clicked_elsewhere: false,
            checked: item.active,
            edit_clicked: false,
        }
    }
}

impl ItemView {
    /// The record after one redraw in which its widgets reported `seen`.
    ///
    /// In edit mode the title follows the text field, and the record leaves
    /// edit mode when the field lost the focus or the user clicked elsewhere.
    /// Otherwise the checkbox sets `active`, and the edit button starts edit
    /// mode.
    pub open spec fn after(self, seen: InputView) -> ItemView {
        if self.edit {
            ItemView {
                title: seen.text,
                active: self.active,
                edit: !(seen.lost_focus || seen.clicked_elsewhere),
            }
        } else {
            ItemView { title: self.title, active: seen.checked, edit: seen.edit_clicked }
        }
    }

    /// Whether the redraw asks for the record to be deleted: only the edit
    /// view has a delete button.
    pub open spec fn asks_delete(self, seen: InputView) -> bool {
        self.edit && seen.delete_clicked
    }
}

impl Clone for TodoItem {
    fn clone(&self) -> (copy: TodoItem)
        ensures
            copy@ == self@,
    {
        TodoItem { title: self.title.clone(), active: self.active, edit: self.edit }
    }
}

impl TodoItem {
    /// Applies what the record's widgets reported during one redraw, and
    /// returns whether the record is to be deleted. The record never removes
    /// itself: its owner does that after the redraw.
    pub fn sigleitem(&mut self, seen: &ItemInput) -> (change: bool)
        ensures
            final(self)@ == old(self)@.after(seen@),
            change == old(self)@.asks_delete(seen@),
    {
        let mut change = false;
        if self.edit {
            self.title = seen.text.clone();
            if seen.delete_clicked {
                change = true;
            }
            if seen.lost_focus || seen.clicked_elsewhere {
                self.edit = false;
            }
        } else {
            self.active = seen.checked;
            if seen.edit_clicked {
                self.edit = true;
            }
        }
        change
    }
}

} // verus!
