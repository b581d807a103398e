use todos::handlers::{
    create_request, create_table_statement, create_todo, get_todos, index, select_statement,
    RequestError,
};
use todos::todo::CreateTodo;

fn rows(tasks: &[&str]) -> Vec<String> {
    tasks.iter().map(|t| t.to_string()).collect()
}

#[test]
fn index_returns_greeting() {
    let body = index();
    assert_eq!(body, "Hello, Actix! \u{2764}\u{fe0e} Turso");
    assert!(body.contains("Hello"));
}

#[test]
fn create_buy_milk_echoes_task() {
    let payload = create_request(Some("buy milk".to_string())).unwrap();
    assert_eq!(payload.task, "buy milk");
    let plan = create_todo(&payload);
    assert_eq!(plan.response.task, "buy milk");
    assert_eq!(plan.row, "buy milk");
    assert_eq!(plan.insert_sql, "INSERT into todos values (?1)");
}

#[test]
fn buy_milk_appears_in_later_listing() {
    let plan = create_todo(&CreateTodo { task: "buy milk".to_string() });
    let table = vec!["walk dog".to_string(), plan.row.clone()];
    let listed = get_todos(&table);
    assert!(listed.iter().any(|t| t.task == "buy milk"));
}

#[test]
fn create_echoes_empty_and_unicode_tasks() {
    for task in ["", "  spaced  ", "caf\u{e9} \u{2615}"] {
        let plan = create_todo(&CreateTodo { task: task.to_string() });
        assert_eq!(plan.response.task, task);
        assert_eq!(plan.row, task);
    }
}

#[test]
fn missing_task_is_rejected() {
    assert_eq!(create_request(None).unwrap_err(), RequestError::MissingTask);
}

#[test]
fn empty_table_lists_nothing() {
    assert!(get_todos(&Vec::new()).is_empty());
}

#[test]
fn listing_keeps_store_order() {
    let listed = get_todos(&rows(&["b", "a", "c", "a"]));
    let tasks: Vec<&str> = listed.iter().map(|t| t.task.as_str()).collect();
    assert_eq!(tasks, vec!["b", "a", "c", "a"]);
}

#[test]
fn distinct_created_tasks_all_listed() {
    let sent = ["one", "two", "three"];
    let stored: Vec<String> =
        sent.iter().map(|t| create_todo(&CreateTodo { task: t.to_string() }).row).collect();
    let table = vec![stored[2].clone(), stored[0].clone(), stored[1].clone()];
    let listed = get_todos(&table);
    assert_eq!(listed.len(), 3);
    for t in sent {
        assert!(listed.iter().any(|x| x.task == t));
    }
}

#[test]
fn statements_name_the_todos_table() {
    assert_eq!(create_table_statement(), "CREATE TABLE IF NOT EXISTS todos(task varchar non null)");
    assert_eq!(select_statement(), "SELECT * FROM todos");
}
