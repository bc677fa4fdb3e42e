use vstd::prelude::*;

use crate::ident::{hyphenated, uuid_text};
use crate::models::{rows_view, CreateTodo, Row, Todo, UpdateTodo};
use crate::store::{Query, Statement};

verus! {

/// What a request handler answers.
pub enum Reply {
    /// Status 200, the todos as a JSON array.
    Todos(Vec<Todo>),
    /// Status 200, the todo as a JSON object.
    Created(Todo),
    /// Status 200, no body.
    Done,
    /// The error text as a plain-text body, under the default status 200.
    Failed(String),
    /// Status 500; the error stays in the server's log.
    ServerError,
}

pub enum ReplyView {
    Todos(Seq<(Seq<char>, Seq<char>)>),
    Created((Seq<char>, Seq<char>)),
    Done,
    Failed(Seq<char>),
    ServerError,
}

pub open spec fn todos_view(v: Seq<Todo>) -> Seq<(Seq<char>, Seq<char>)> {
    v.map_values(|t: Todo| t@)
}

impl View for Reply {
    type V = ReplyView;

    open spec fn view(&self) -> ReplyView {
        match self {
            Reply::Todos(v) => ReplyView::Todos(todos_view(v@)),
            Reply::Created(t) => ReplyView::Created(t@),
            Reply::Done => ReplyView::Done,
            Reply::Failed(e) => ReplyView::Failed(e@),
            Reply::ServerError => ReplyView::ServerError,
        }
    }
}

impl Reply {
    /// The HTTP status of the reply.
    pub fn status(&self) -> (r: u16)
        ensures
            r == (if self is ServerError { 500u16 } else { 200u16 }),
    {
        match self {
            Reply::ServerError => 500,
            _ => 200,
        }
    }
}

/// The home page: the todos, or the error met while reading them. Either is
/// served with status 200.
pub enum Page {
    Home(Vec<Todo>),
    Failure(String),
}

pub enum PageView {
    Home(Seq<(Seq<char>, Seq<char>)>),
    Failure(Seq<char>),
}

impl View for Page {
    type V = PageView;

    open spec fn view(&self) -> PageView {
        match self {
            Page::Home(v) => PageView::Home(todos_view(v@)),
            Page::Failure(e) => PageView::Failure(e@),
        }
    }
}

impl Page {
    /// The name of the template that renders the page.
    pub fn template(&self) -> (r: &'static str)
        ensures
            self is Home ==> r@ == "home"@,
            self is Failure ==> r@ == "err"@,
    {
        match self {
            Page::Home(_) => "home",
            Page::Failure(_) => "err",
        }
    }
}

/// The todo that a row of the store stands for.
pub open spec fn todo_of(row: (u128, Seq<char>)) -> (Seq<char>, Seq<char>) {
    (hyphenated(row.0), row.1)
}

pub open spec fn todos_of(rows: Seq<(u128, Seq<char>)>) -> Seq<(Seq<char>, Seq<char>)> {
    rows.map_values(|r: (u128, Seq<char>)| todo_of(r))
}

pub fn todo_from_row(row: &Row) -> (t: Todo)
    ensures
        t@ == todo_of(row@),
{
    Todo { id: uuid_text(row.id), content: row.content.clone() }
}

/// The todos of the rows, in the same order.
pub fn todos_from_rows(rows: &Vec<Row>) -> (v: Vec<Todo>)
    ensures
        todos_view(v@) == todos_of(rows_view(rows@)),
{
    let mut v: Vec<Todo> = Vec::new();
    let mut i: usize = 0;
    while i < rows.len()
        invariant
            i <= rows.len(),
            todos_view(v@) =~= todos_of(rows_view(rows@)).take(i as int),
        decreases rows.len() - i,
    {
        let t = todo_from_row(&rows[i]);
        assert(todos_of(rows_view(rows@))[i as int] == t@);
        let ghost before = v@;
        let ghost tv = t@;
        v.push(t);
        assert(todos_view(v@) =~= todos_view(before).push(tv));
        i = i + 1;
        assert(todos_view(v@) =~= todos_of(rows_view(rows@)).take(i as int));
    }
    assert(todos_of(rows_view(rows@)).take(i as int) =~= todos_of(rows_view(rows@)));
    v
}

/// The reply of the listing route to the store's answer.
pub open spec fn list_reply(answer: Result<Vec<Row>, String>) -> ReplyView {
    match answer {
        Ok(rows) => ReplyView::Todos(todos_of(rows_view(rows@))),
        Err(e) => ReplyView::Failed(e@),
    }
}

/// The home page for the store's answer.
pub open spec fn home_page(answer: Result<Vec<Row>, String>) -> PageView {
    match answer {
        Ok(rows) => PageView::Home(todos_of(rows_view(rows@))),
        Err(e) => PageView::Failure(e@),
    }
}

/// What the creating route does once the store has answered the insert: read
/// the new row back, or fail with the error text.
pub open spec fn after_insert(answer: Result<u128, String>) -> Result<Query, ReplyView> {
    match answer {
        Ok(id) => Ok(Query::SelectOne(id)),
        Err(e) => Err(ReplyView::Failed(e@)),
    }
}

/// The reply of the creating route to the read of the new row.
pub open spec fn created_reply(answer: Result<Row, String>) -> ReplyView {
    match answer {
        Ok(row) => ReplyView::Created(todo_of(row@)),
        Err(e) => ReplyView::Failed(e@),
    }
}

/// The reply of the updating route.
pub open spec fn updated_reply(answer: Result<(), String>) -> ReplyView {
    match answer {
        Ok(()) => ReplyView::Done,
        Err(e) => ReplyView::Failed(e@),
    }
}

/// The reply of the two removing routes: the error text is not sent.
pub open spec fn removed_reply(answer: Result<(), String>) -> ReplyView {
    match answer {
        Ok(()) => ReplyView::Done,
        Err(_) => ReplyView::ServerError,
    }
}

/// `GET /`: the page for the store's answer to the listing statement.
pub fn hello(answer: Result<Vec<Row>, String>) -> (p: Page)
    ensures
        p@ == home_page(answer),
{
    match answer {
        Ok(rows) => Page::Home(todos_from_rows(&rows)),
        Err(e) => Page::Failure(e),
    }
}

/// `GET /todos/` and `GET /`: the statement that reads every todo.
pub fn list_todos_statement() -> (s: Statement)
    ensures
        s@ == Query::SelectAll,
{
    Statement::SelectAll
}

/// `GET /todos/`: the reply to the store's answer.
pub fn list_todos(answer: Result<Vec<Row>, String>) -> (r: Reply)
    ensures
        r@ == list_reply(answer),
{
    match answer {
        Ok(rows) => Reply::Todos(todos_from_rows(&rows)),
        Err(e) => Reply::Failed(e),
    }
}

/// `POST /todos/`: the statement that inserts the new todo.
pub fn create_todo(todo_data: CreateTodo) -> (s: Statement)
    ensures
        s@ == Query::Insert(todo_data.content@),
{
    Statement::Insert { content: todo_data.content.to_owned() }
}

/// `POST /todos/`: the next statement once the insert is answered, or the reply.
pub fn create_todo_inserted(answer: Result<u128, String>) -> (r: Result<Statement, Reply>)
    ensures
        match (r, after_insert(answer)) {
            (Ok(s), Ok(q)) => s@ == q,
            (Err(x), Err(v)) => x@ == v,
            _ => false,
        },
{
    match answer {
        Ok(id) => Ok(Statement::SelectOne { id }),
        Err(e) => Err(Reply::Failed(e)),
    }
}

/// `POST /todos/`: the reply once the new row is read back.
pub fn create_todo_read(answer: Result<Row, String>) -> (r: Reply)
    ensures
        r@ == created_reply(answer),
{
    match answer {
        Ok(row) => Reply::Created(todo_from_row(&row)),
        Err(e) => Reply::Failed(e),
    }
}

/// `PUT /todos/<id>`: the statement that replaces the content.
pub fn update_todo(id: u128, todo_data: UpdateTodo) -> (s: Statement)
    ensures
        s@ == Query::Update(id, todo_data.content@),
{
    Statement::Update { id, content: todo_data.content.to_owned() }
}

/// `PUT /todos/<id>`: the reply to the store's answer. Whether a row had that
/// id is not looked at.
pub fn update_todo_done(answer: Result<(), String>) -> (r: Reply)
    ensures
        r@ == updated_reply(answer),
{
    match answer {
        Ok(()) => Reply::Done,
        Err(e) => Reply::Failed(e),
    }
}

/// `DELETE /todos/<id>`: the statement that removes the todo.
pub fn delete_todo(id: u128) -> (s: Statement)
    ensures
        s@ == Query::DeleteOne(id),
{
    Statement::DeleteOne { id }
}

/// `DELETE /todos/`: the statement that removes every todo.
pub fn clear_todo() -> (s: Statement)
    ensures
        s@ == Query::DeleteAll,
{
    Statement::DeleteAll
}

/// `DELETE /todos/<id>` and `DELETE /todos/`: the reply to the store's answer.
/// Whether a row had that id is not looked at.
pub fn removal_done(answer: Result<(), String>) -> (r: Reply)
    ensures
        r@ == removed_reply(answer),
{
    match answer {
        Ok(()) => Reply::Done,
        Err(_) => Reply::ServerError,
    }
}

} // verus!
