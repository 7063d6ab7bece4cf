//! Which task is open for viewing, and whether the creation form is open.
//! The detail view and the form are never open together.
use vstd::prelude::*;

verus! {

/// Selection state shared by the list, the detail view and the form.
pub struct SelectionController {
    selected_task_id: Option<u32>,
    form_open: bool,
}

impl SelectionController {
    /// The id of the task open for viewing, if any.
    pub closed spec fn selected(&self) -> Option<u32> {
        self.selected_task_id
    }

    /// Whether the creation form is open.
    pub closed spec fn is_form_open(&self) -> bool {
        self.form_open
    }

    /// At most one of the detail view and the form is open.
    pub open spec fn exclusive(&self) -> bool {
        !(self.is_form_open() && self.selected() is Some)
    }

    /// Nothing selected, form closed.
    pub fn new() -> (r: SelectionController)
        ensures
            r.selected() is None,
            !r.is_form_open(),
            r.exclusive(),
    {
        SelectionController { selected_task_id: None, form_open: false }
    }

    /// Opens the creation form and clears the selection.
    pub fn open_form(&mut self)
        ensures
            final(self).is_form_open(),
            final(self).selected() is None,
            final(self).exclusive(),
    {
        self.form_open = true;
        self.selected_task_id = None;
    }

    /// Selects a task for viewing and closes the form. The id is not checked
    /// against any store.
    pub fn select_task(&mut self, id: u32)
        ensures
            final(self).selected() == Some(id),
            !final(self).is_form_open(),
            final(self).exclusive(),
    {
        self.selected_task_id = Some(id);
        self.form_open = false;
    }

    /// Closes the form; the selection is left as it is.
    pub fn close_form(&mut self)
        ensures
            !final(self).is_form_open(),
            final(self).selected() == old(self).selected(),
            final(self).exclusive(),
    {
        self.form_open = false;
    }

    /// The id of the task open for viewing, if any.
    pub fn selected_task_id(&self) -> (r: Option<u32>)
        ensures
            r == self.selected(),
    {
        self.selected_task_id
    }

    /// Whether the creation form is open.
    pub fn form_open(&self) -> (r: bool)
        ensures
            r == self.is_form_open(),
    {
        self.form_open
    }

    /// Whether the task carrying `id` is the selected one (its row is
    /// highlighted).
    pub fn is_selected(&self, id: u32) -> (r: bool)
        ensures
            r == (self.selected() == Some(id)),
    {
        match self.selected_task_id {
            Some(s) => s == id,
            None => false,
        }
    }
}

} // verus!
