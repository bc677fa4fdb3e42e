use vstd::prelude::*;

use crate::models::{rows_view, Row};

verus! {

/// The todo table as the store holds it: content by id.
pub type Table = Map<u128, Seq<char>>;

/// One statement that the service sends to the store, with its bound parameters.
/// Each runs as a transaction of its own.
#[derive(Clone, Debug)]
pub enum Statement {
    /// Every row, in the order the store picks.
    SelectAll,
    /// A new row with an id that the store generates; answers that id.
    Insert { content: String },
    /// The row with the given id.
    SelectOne { id: u128 },
    /// Sets the content of the row with the given id, if there is one. The
    /// content is bound first, the id second.
    Update { id: u128, content: String },
    /// Removes the row with the given id, if there is one.
    DeleteOne { id: u128 },
    /// Removes every row.
    DeleteAll,
}

/// A statement as the store sees it.
pub enum Query {
    SelectAll,
    Insert(Seq<char>),
    SelectOne(u128),
    Update(u128, Seq<char>),
    DeleteOne(u128),
    DeleteAll,
}

impl View for Statement {
    type V = Query;

    open spec fn view(&self) -> Query {
        match self {
            Statement::SelectAll => Query::SelectAll,
            Statement::Insert { content } => Query::Insert(content@),
            Statement::SelectOne { id } => Query::SelectOne(*id),
            Statement::Update { id, content } => Query::Update(*id, content@),
            Statement::DeleteOne { id } => Query::DeleteOne(*id),
            Statement::DeleteAll => Query::DeleteAll,
        }
    }
}

/// What the store answers to a statement.
pub enum Answer {
    Rows(Seq<(u128, Seq<char>)>),
    Inserted(u128),
    Found(u128, Seq<char>),
    Applied,
    Failed,
}

/// The store's answer to a statement that reads rows.
pub open spec fn rows_answer(r: Result<Vec<Row>, String>) -> Answer {
    match r {
        Ok(v) => Answer::Rows(rows_view(v@)),
        Err(_) => Answer::Failed,
    }
}

/// The store's answer to an insert.
pub open spec fn id_answer(r: Result<u128, String>) -> Answer {
    match r {
        Ok(id) => Answer::Inserted(id),
        Err(_) => Answer::Failed,
    }
}

/// The store's answer to a statement that reads one row.
pub open spec fn row_answer(r: Result<Row, String>) -> Answer {
    match r {
        Ok(row) => Answer::Found(row.id, row.content@),
        Err(_) => Answer::Failed,
    }
}

/// The store's answer to a statement that changes rows.
pub open spec fn done_answer(r: Result<(), String>) -> Answer {
    match r {
        Ok(()) => Answer::Applied,
        Err(_) => Answer::Failed,
    }
}

/// `rows` holds each row of `t` once, in some order, and nothing else.
pub open spec fn lists(t: Table, rows: Seq<(u128, Seq<char>)>) -> bool {
    &&& forall|i: int, j: int| 0 <= i < j < rows.len() ==> rows[i].0 != rows[j].0
    &&& forall|i: int|
        0 <= i < rows.len() ==> t.contains_key(#[trigger] rows[i].0) && t[rows[i].0]
            == rows[i].1
    &&& forall|id: u128| #[trigger]
        t.contains_key(id) ==> exists|i: int| 0 <= i < rows.len() && #[trigger] rows[i].0 == id
}

/// The store, holding `t`, may answer `a` to `s` and then hold `t2`. A failure
/// (a lost connection, a violated constraint) leaves the table as it was.
pub open spec fn answers(t: Table, q: Query, a: Answer, t2: Table) -> bool {
    match a {
        Answer::Failed => t2 == t,
        _ => match q {
            Query::SelectAll => a is Rows && lists(t, a->Rows_0) && t2 == t,
            Query::Insert(content) => a is Inserted && !t.contains_key(a->Inserted_0) && t2
                == t.insert(a->Inserted_0, content),
            Query::SelectOne(id) => t.contains_key(id) && a == Answer::Found(id, t[id]) && t2
                == t,
            Query::Update(id, content) => a is Applied && t2 == (if t.contains_key(id) {
                t.insert(id, content)
            } else {
                t
            }),
            Query::DeleteOne(id) => a is Applied && t2 == t.remove(id),
            Query::DeleteAll => a is Applied && t2 == Map::<u128, Seq<char>>::empty(),
        },
    }
}

impl Statement {
    /// The SQL text of the statement; `$1` and `$2` stand for its parameters.
    pub fn sql(&self) -> (r: &'static str)
        ensures
            self is SelectAll ==> r@ == "SELECT id, content FROM todo"@,
            self is Insert ==> r@ == "INSERT INTO todo VALUES (DEFAULT, $1) RETURNING id"@,
            self is SelectOne ==> r@ == "SELECT * FROM todo WHERE id = $1"@,
            self is Update ==> r@ == "UPDATE todo SET content = $1 WHERE id = $2"@,
            self is DeleteOne ==> r@ == "DELETE FROM todo WHERE id = $1"@,
            self is DeleteAll ==> r@ == "DELETE FROM todo"@,
    {
        match self {
            Statement::SelectAll => "SELECT id, content FROM todo",
            Statement::Insert { .. } => "INSERT INTO todo VALUES (DEFAULT, $1) RETURNING id",
            Statement::SelectOne { .. } => "SELECT * FROM todo WHERE id = $1",
            Statement::Update { .. } => "UPDATE todo SET content = $1 WHERE id = $2",
            Statement::DeleteOne { .. } => "DELETE FROM todo WHERE id = $1",
            Statement::DeleteAll => "DELETE FROM todo",
        }
    }
}

} // verus!
