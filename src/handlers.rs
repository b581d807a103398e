use vstd::prelude::*;
use crate::todo::{CreateTodo, Todo};

verus! {

/// The greeting served at the root path.
pub open spec fn greeting() -> Seq<char> {
    "Hello, Actix! \u{2764}\u{fe0e} Turso"@
}

/// Statement that makes sure the table exists.
pub open spec fn create_table_sql() -> Seq<char> {
    "CREATE TABLE IF NOT EXISTS todos(task varchar non null)"@
}

/// Statement that reads every row of the table.
pub open spec fn select_sql() -> Seq<char> {
    "SELECT * FROM todos"@
}

/// Statement that adds one row; its single parameter is the task.
pub open spec fn insert_sql() -> Seq<char> {
    "INSERT into todos values (?1)"@
}

/// The row stored for a submitted task: the task itself.
pub open spec fn stored_row(task: Seq<char>) -> Seq<char> {
    task
}

/// The tasks listed for a table holding `rows`, in the order the rows came.
pub open spec fn listed_tasks(rows: Seq<Seq<char>>) -> Seq<Seq<char>> {
    rows
}

/// Why a create request was turned away.
#[derive(Debug, PartialEq, Eq, Structural)]
pub enum RequestError {
    /// The body has no `task` field.
    MissingTask,
}

/// What the create operation does: the row it inserts and what it answers.
pub struct CreatePlan {
    /// Statement that inserts the row.
    pub insert_sql: String,
    /// Value bound to the statement's parameter.
    pub row: String,
    /// Body of the response.
    pub response: Todo,
}

/// Body of the root page: a fixed greeting.
pub fn index() -> (r: String)
    ensures
        r@ == greeting(),
{
    "Hello, Actix! \u{2764}\u{fe0e} Turso".to_owned()
}

/// Statement run before each operation so that the table exists.
pub fn create_table_statement() -> (r: String)
    ensures
        r@ == create_table_sql(),
{
    "CREATE TABLE IF NOT EXISTS todos(task varchar non null)".to_owned()
}

/// Statement of the list operation.
pub fn select_statement() -> (r: String)
    ensures
        r@ == select_sql(),
{
    "SELECT * FROM todos".to_owned()
}

/// Turns the `task` field of a create request, absent when the body has
/// none, into the request; a body without it is refused before any store
/// work is planned.
pub fn create_request(task: Option<String>) -> (r: Result<CreateTodo, RequestError>)
    ensures
        r is Err <==> task is None,
        r is Err ==> r == Err::<CreateTodo, RequestError>(RequestError::MissingTask),
        r matches Ok(c) ==> c@ == task.unwrap()@,
{
    match task {
        Some(t) => Ok(CreateTodo { task: t }),
        None => Err(RequestError::MissingTask),
    }
}

/// Plans the create operation: insert the submitted task as a row and
/// answer with that same task, whatever the store holds.
pub fn create_todo(payload: &CreateTodo) -> (r: CreatePlan)
    ensures
        r.insert_sql@ == insert_sql(),
        r.row@ == stored_row(payload@),
        r.response@ == payload@,
{
    let todo = Todo { task: payload.task.clone() };
    CreatePlan {
        insert_sql: "INSERT into todos values (?1)".to_owned(),
        row: todo.task.clone(),
        response: todo,
    }
}

/// Builds the listing from the first column of each row, keeping the order
/// in which the store returned them.
pub fn get_todos(rows: &Vec<String>) -> (r: Vec<Todo>)
    ensures
        r@.len() == rows@.len(),
        forall|i: int| 0 <= i < r@.len() ==> #[trigger] r@[i]@ == rows@[i]@,
        r@.map_values(|t: Todo| t@) == listed_tasks(rows@.map_values(|s: String| s@)),
{
    let mut todos: Vec<Todo> = Vec::new();
    let mut i: usize = 0;
    while i < rows.len()
        invariant
            i <= rows@.len(),
            todos@.len() == i,
            forall|j: int| 0 <= j < i ==> #[trigger] todos@[j]@ == rows@[j]@,
        decreases rows@.len() - i,
    {
        todos.push(Todo { task: rows[i].clone() });
        i = i + 1;
    }
    assert(todos@.map_values(|t: Todo| t@) =~= rows@.map_values(|s: String| s@));
    todos
}

/// The listing of any table that holds the row stored for a created task
/// has an entry with that task.
pub proof fn lemma_created_task_listed(task: Seq<char>, table: Seq<Seq<char>>)
    requires
        table.contains(stored_row(task)),
    ensures
        listed_tasks(table).contains(task),
{
}

/// Of several created tasks, each one whose stored row the table holds has
/// an entry in the table's listing, whatever order the rows are in.
pub proof fn lemma_created_tasks_all_listed(tasks: Set<Seq<char>>, table: Seq<Seq<char>>)
    requires
        forall|t: Seq<char>| #[trigger] tasks.contains(t) ==> table.contains(stored_row(t)),
    ensures
        forall|t: Seq<char>| #[trigger] tasks.contains(t) ==> listed_tasks(table).contains(t),
{
    assert forall|t: Seq<char>| #[trigger] tasks.contains(t) implies listed_tasks(
        table,
    ).contains(t) by {
        lemma_created_task_listed(t, table);
    }
}

} // verus!
