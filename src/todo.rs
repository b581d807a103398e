use vstd::prelude::*;

verus! {

/// A todo item as listed and returned.
#[derive(Debug, Clone, PartialEq, Eq)]
pub struct Todo {
    pub task: String,
}

impl View for Todo {
    type V = Seq<char>;

    open spec fn view(&self) -> Seq<char> {
        self.task@
    }
}

/// The body of a request to create a todo.
#[derive(Debug, Clone, PartialEq, Eq)]
pub struct CreateTodo {
    pub task: String,
}

impl View for CreateTodo {
    type V = Seq<char>;

    open spec fn view(&self) -> Seq<char> {
        self.task@
    }
}

} // verus!
