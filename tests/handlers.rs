use todo_service::handlers::{
    clear_todo, create_todo, create_todo_inserted, create_todo_read, delete_todo, hello,
    list_todos, list_todos_statement, removal_done, todo_from_row,
    todos_from_rows, update_todo, update_todo_done, Page, Reply,
};
use todo_service::models::Row;
use todo_service::store::Statement;
use todo_service::{CreateTodo, Todo, UpdateTodo};

const MILK_ID: u128 = 0x67e5_5044_10b1_426f_9247_bb68_0e5f_e0c8;
const MILK_TEXT: &str = "67e55044-10b1-426f-9247-bb680e5fe0c8";

fn row(id: u128, content: &str) -> Row {
    Row { id, content: content.to_string() }
}

fn listed(reply: &Reply) -> Vec<(String, String)> {
    match reply {
        Reply::Todos(v) => v.iter().map(|t| (t.id.clone(), t.content.clone())).collect(),
        _ => panic!("not a listing"),
    }
}

#[test]
fn id_text_is_hyphenated_lower_hex() {
    let t = todo_from_row(&row(0xa1a2_a3a4_b1b2_c1c2_d1d2_d3d4_d5d6_d7d8, "x"));
    assert_eq!(t.id, "a1a2a3a4-b1b2-c1c2-d1d2-d3d4d5d6d7d8");
    assert_eq!(t.content, "x");
}

#[test]
fn id_text_of_extremes() {
    assert_eq!(todo_from_row(&row(0, "")).id, "00000000-0000-0000-0000-000000000000");
    assert_eq!(todo_from_row(&row(u128::MAX, "")).id, "ffffffff-ffff-ffff-ffff-ffffffffffff");
    assert_eq!(todo_from_row(&row(1, "")).id, "00000000-0000-0000-0000-000000000001");
}

#[test]
fn rows_keep_their_order() {
    let v = todos_from_rows(&vec![row(2, "b"), row(1, "a")]);
    assert_eq!(v.len(), 2);
    assert_eq!(v[0].id, "00000000-0000-0000-0000-000000000002");
    assert_eq!(v[0].content, "b");
    assert_eq!(v[1].id, "00000000-0000-0000-0000-000000000001");
    assert_eq!(v[1].content, "a");
    assert!(todos_from_rows(&vec![]).is_empty());
}

#[test]
fn scenario_create_list_update_delete() {
    let s = create_todo(CreateTodo { content: "buy milk" });
    assert!(matches!(&s, Statement::Insert { content } if content == "buy milk"));
    let next = match create_todo_inserted(Ok(MILK_ID)) {
        Ok(s) => s,
        Err(_) => panic!("the insert succeeded"),
    };
    assert!(matches!(next, Statement::SelectOne { id } if id == MILK_ID));
    let created = create_todo_read(Ok(row(MILK_ID, "buy milk")));
    assert_eq!(created.status(), 200);
    match &created {
        Reply::Created(Todo { id, content }) => {
            assert_eq!(id, MILK_TEXT);
            assert_eq!(content, "buy milk");
        }
        _ => panic!("not a created todo"),
    }

    assert!(matches!(list_todos_statement(), Statement::SelectAll));
    let all = list_todos(Ok(vec![row(MILK_ID, "buy milk")]));
    assert_eq!(all.status(), 200);
    assert!(listed(&all).contains(&(MILK_TEXT.to_string(), "buy milk".to_string())));

    let u = update_todo(MILK_ID, UpdateTodo { content: "buy oat milk" });
    assert!(matches!(&u, Statement::Update { id, content } if *id == MILK_ID && content == "buy oat milk"));
    let done = update_todo_done(Ok(()));
    assert!(matches!(done, Reply::Done));
    assert_eq!(done.status(), 200);
    let all = list_todos(Ok(vec![row(MILK_ID, "buy oat milk")]));
    assert_eq!(listed(&all), vec![(MILK_TEXT.to_string(), "buy oat milk".to_string())]);

    assert!(matches!(delete_todo(MILK_ID), Statement::DeleteOne { id } if id == MILK_ID));
    let removed = removal_done(Ok(()));
    assert!(matches!(removed, Reply::Done));
    assert_eq!(removed.status(), 200);
    let all = list_todos(Ok(vec![]));
    assert!(listed(&all).iter().all(|(id, _)| id != MILK_TEXT));
}

#[test]
fn empty_content_is_accepted() {
    assert!(matches!(create_todo(CreateTodo { content: "" }), Statement::Insert { content } if content.is_empty()));
    assert!(matches!(update_todo(3, UpdateTodo { content: "" }), Statement::Update { id: 3, content } if content.is_empty()));
}

#[test]
fn storage_errors_are_sent_as_text() {
    assert!(matches!(list_todos(Err("connection lost".to_string())), Reply::Failed(e) if e == "connection lost"));
    match create_todo_inserted(Err("duplicate key".to_string())) {
        Err(Reply::Failed(e)) => assert_eq!(e, "duplicate key"),
        _ => panic!("the insert failed"),
    }
    let r = create_todo_read(Err("no rows returned".to_string()));
    assert!(matches!(&r, Reply::Failed(e) if e == "no rows returned"));
    assert_eq!(r.status(), 200);
    assert!(matches!(update_todo_done(Err("timeout".to_string())), Reply::Failed(e) if e == "timeout"));
}

#[test]
fn removal_errors_are_hidden() {
    let r = removal_done(Err("connection lost".to_string()));
    assert!(matches!(r, Reply::ServerError));
    assert_eq!(r.status(), 500);
    assert!(matches!(clear_todo(), Statement::DeleteAll));
}

#[test]
fn home_page_lists_or_shows_the_error() {
    let p = hello(Ok(vec![row(MILK_ID, "buy milk")]));
    assert_eq!(p.template(), "home");
    match &p {
        Page::Home(v) => {
            assert_eq!(v.len(), 1);
            assert_eq!(v[0].id, MILK_TEXT);
            assert_eq!(v[0].content, "buy milk");
        }
        _ => panic!("not the home page"),
    }
    let p = hello(Err("connection refused".to_string()));
    assert_eq!(p.template(), "err");
    assert!(matches!(p, Page::Failure(e) if e == "connection refused"));
}

#[test]
fn clearing_twice_succeeds_both_times() {
    assert!(matches!(clear_todo(), Statement::DeleteAll));
    assert!(matches!(removal_done(Ok(())), Reply::Done));
    assert!(listed(&list_todos(Ok(vec![]))).is_empty());
    assert!(matches!(clear_todo(), Statement::DeleteAll));
    assert!(matches!(removal_done(Ok(())), Reply::Done));
    assert!(listed(&list_todos(Ok(vec![]))).is_empty());
}

#[test]
fn update_of_unused_id_succeeds() {
    let unused: u128 = 0x0123_4567_89ab_cdef_0123_4567_89ab_cdef;
    assert!(matches!(update_todo(unused, UpdateTodo { content: "x" }), Statement::Update { id, .. } if id == unused));
    assert!(matches!(update_todo_done(Ok(())), Reply::Done));
}

#[test]
fn delete_of_unused_id_succeeds() {
    let unused: u128 = 0x0123_4567_89ab_cdef_0123_4567_89ab_cdef;
    assert!(matches!(delete_todo(unused), Statement::DeleteOne { id } if id == unused));
    assert_eq!(removal_done(Ok(())).status(), 200);
}

#[test]
fn two_creates_are_listed_with_distinct_ids() {
    let all = listed(&list_todos(Ok(vec![row(7, "first"), row(8, "second")])));
    assert_eq!(all.len(), 2);
    assert_ne!(all[0].0, all[1].0);
    assert!(all.contains(&("00000000-0000-0000-0000-000000000007".to_string(), "first".to_string())));
    assert!(all.contains(&("00000000-0000-0000-0000-000000000008".to_string(), "second".to_string())));
}
