use vstd::prelude::*;

verus! {

/// Whether a todo is still to be done or already done.
#[derive(Clone, Copy, Debug, PartialEq, Eq, Structural)]
pub enum Completion {
    Pending,
    Complete,
}

impl Completion {
    pub open spec fn spec_toggled(self) -> Completion {
        match self {
            Completion::Pending => Completion::Complete,
            Completion::Complete => Completion::Pending,
        }
    }

    /// The other state.
    pub fn toggled(self) -> (r: Completion)
        ensures
            r == self.spec_toggled(),
    {
        match self {
            Completion::Pending => Completion::Complete,
            Completion::Complete => Completion::Pending,
        }
    }

    pub open spec fn spec_from_flag(flag: i8) -> Completion {
        if flag == 0 {
            Completion::Pending
        } else {
            Completion::Complete
        }
    }

    /// Reads the stored flag: zero is pending, anything else complete.
    pub fn from_flag(flag: i8) -> (r: Completion)
        ensures
            r == Self::spec_from_flag(flag),
    {
        if flag == 0 {
            Completion::Pending
        } else {
            Completion::Complete
        }
    }

    pub open spec fn spec_flag(self) -> i8 {
        match self {
            Completion::Pending => 0,
            Completion::Complete => 1,
        }
    }

    /// The flag stored for this state: 0 when pending, 1 when complete.
    pub fn flag(self) -> (r: i8)
        ensures
            r == self.spec_flag(),
    {
        match self {
            Completion::Pending => 0,
            Completion::Complete => 1,
        }
    }
}

/// Toggling twice gives back the state one started from.
pub proof fn lemma_toggle_involution(c: Completion)
    ensures
        c.spec_toggled().spec_toggled() == c,
{
}

/// The flag of a state reads back as that state.
pub proof fn lemma_flag_round_trip(c: Completion)
    ensures
        Completion::spec_from_flag(c.spec_flag()) == c,
{
}

/// A todo as the contracts see it.
pub struct ItemView {
    pub id: u64,
    pub text: Seq<char>,
    pub state: Completion,
}

/// One todo: its store-assigned id, its label as the user wrote it, and its state.
#[derive(Clone, Debug)]
pub struct TodoItem {
    pub id: u64,
    pub text: String,
    pub state: Completion,
}

impl View for TodoItem {
    type V = ItemView;

    open spec fn view(&self) -> ItemView {
        ItemView { id: self.id, text: self.text@, state: self.state }
    }
}

/// The views of a sequence of todos, in order.
pub open spec fn views(items: Seq<TodoItem>) -> Seq<ItemView> {
    items.map_values(|t: TodoItem| t@)
}

impl TodoItem {
    /// A copy with the same id, text and state.
    pub fn duplicate(&self) -> (r: TodoItem)
        ensures
            r@ == self@,
    {
        TodoItem { id: self.id, text: self.text.clone(), state: self.state }
    }
}

/// What can go wrong in a request on the todo list.
#[derive(Clone, Copy, Debug, PartialEq, Eq, Structural)]
pub enum TodoError {
    /// The label is empty or only white space.
    Validation,
    /// No todo has the id that was given.
    NotFound,
    /// The store could not do what was asked.
    Storage,
}

impl TodoError {
    pub open spec fn spec_status_code(self) -> u16 {
        match self {
            TodoError::Validation => 400,
            TodoError::NotFound => 404,
            TodoError::Storage => 500,
        }
    }

    /// The HTTP status that answers a request failing this way.
    pub fn status_code(self) -> (r: u16)
        ensures
            r == self.spec_status_code(),
    {
        match self {
            TodoError::Validation => 400,
            TodoError::NotFound => 404,
            TodoError::Storage => 500,
        }
    }
}

} // verus!
