use vstd::prelude::*;

verus! {

/// A todo as the service hands it out: the text of its store id and its content.
#[derive(Clone, Debug)]
pub struct Todo {
    pub id: String,
    pub content: String,
}

impl View for Todo {
    /// The id text and the content.
    type V = (Seq<char>, Seq<char>);

    open spec fn view(&self) -> (Seq<char>, Seq<char>) {
        (self.id@, self.content@)
    }
}

/// The body of a request that creates a todo.
#[derive(Clone, Copy, Debug)]
pub struct CreateTodo<'r> {
    pub content: &'r str,
}

/// The body of a request that replaces the content of a todo.
#[derive(Clone, Copy, Debug)]
pub struct UpdateTodo<'r> {
    pub content: &'r str,
}

/// A row of the todo table as the store returns it: the id as a 128-bit value
/// (most significant byte first) and the content.
#[derive(Clone, Debug)]
pub struct Row {
    pub id: u128,
    pub content: String,
}

impl View for Row {
    type V = (u128, Seq<char>);

    open spec fn view(&self) -> (u128, Seq<char>) {
        (self.id, self.content@)
    }
}

pub open spec fn rows_view(v: Seq<Row>) -> Seq<(u128, Seq<char>)> {
    v.map_values(|r: Row| r@)
}

} // verus!
