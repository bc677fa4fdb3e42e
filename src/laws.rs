use vstd::prelude::*;

use crate::handlers::{
    after_insert, created_reply, list_reply, removed_reply, todo_of, todos_of, updated_reply,
    ReplyView,
};
use crate::ident::{hyphenated, is_id_text, lemma_hyphenated_injective, lemma_hyphenated_well_formed};
use crate::models::{rows_view, Row};
use crate::store::{answers, done_answer, id_answer, row_answer, rows_answer, Answer, Query, Table};

verus! {

/// A listing that the store answers shows every todo of the table, under the
/// text of its id and with its content, and leaves the table as it was.
pub proof fn lemma_listing_shows_every_todo(
    t: Table,
    listed: Result<Vec<Row>, String>,
    t2: Table,
    id: u128,
)
    requires
        answers(t, Query::SelectAll, rows_answer(listed), t2),
        listed is Ok,
        t.contains_key(id),
    ensures
        t2 == t,
        list_reply(listed) is Todos,
        list_reply(listed)->Todos_0.contains((hyphenated(id), t[id])),
{
    let rows = rows_view(listed->Ok_0@);
    let i = choose|i: int| 0 <= i < rows.len() && #[trigger] rows[i].0 == id;
    assert(todos_of(rows)[i] == todo_of(rows[i]));
}

/// A todo that is created is read back with its content under a well-formed
/// id text, and the two listings that follow both show it under that same id.
pub proof fn lemma_created_todo_is_listed(
    t0: Table,
    content: Seq<char>,
    inserted: Result<u128, String>,
    t1: Table,
    next: Query,
    read: Result<Row, String>,
    t2: Table,
    first: Result<Vec<Row>, String>,
    t3: Table,
    second: Result<Vec<Row>, String>,
    t4: Table,
)
    requires
        answers(t0, Query::Insert(content), id_answer(inserted), t1),
        after_insert(inserted) == Ok::<Query, ReplyView>(next),
        answers(t1, next, row_answer(read), t2),
        read is Ok,
        answers(t2, Query::SelectAll, rows_answer(first), t3),
        first is Ok,
        answers(t3, Query::SelectAll, rows_answer(second), t4),
        second is Ok,
    ensures
        inserted is Ok,
        created_reply(read) == ReplyView::Created((hyphenated(inserted->Ok_0), content)),
        is_id_text(hyphenated(inserted->Ok_0)),
        list_reply(first) is Todos,
        list_reply(first)->Todos_0.contains((hyphenated(inserted->Ok_0), content)),
        list_reply(second) is Todos,
        list_reply(second)->Todos_0.contains((hyphenated(inserted->Ok_0), content)),
{
    let id = inserted->Ok_0;
    lemma_hyphenated_well_formed(id);
    lemma_listing_shows_every_todo(t2, first, t3, id);
    lemma_listing_shows_every_todo(t3, second, t4, id);
}

/// Clearing twice in a row succeeds both times wherever the store does not
/// fail, and after either a listing shows no todo.
pub proof fn lemma_clear_twice(
    t0: Table,
    first: Result<(), String>,
    t1: Table,
    after_first: Result<Vec<Row>, String>,
    t2: Table,
    second: Result<(), String>,
    t3: Table,
    after_second: Result<Vec<Row>, String>,
    t4: Table,
)
    requires
        answers(t0, Query::DeleteAll, done_answer(first), t1),
        first is Ok,
        answers(t1, Query::SelectAll, rows_answer(after_first), t2),
        after_first is Ok,
        answers(t2, Query::DeleteAll, done_answer(second), t3),
        second is Ok,
        answers(t3, Query::SelectAll, rows_answer(after_second), t4),
        after_second is Ok,
    ensures
        removed_reply(first) == ReplyView::Done,
        removed_reply(second) == ReplyView::Done,
        t1 == t3,
        t1 == Map::<u128, Seq<char>>::empty(),
        list_reply(after_first) == ReplyView::Todos(Seq::empty()),
        list_reply(after_second) == ReplyView::Todos(Seq::empty()),
{
    let r1 = rows_view(after_first->Ok_0@);
    let r2 = rows_view(after_second->Ok_0@);
    if r1.len() > 0 {
        assert(t1.contains_key(r1[0].0));
    }
    if r2.len() > 0 {
        assert(t3.contains_key(r2[0].0));
    }
    assert(todos_of(r1) =~= Seq::empty());
    assert(todos_of(r2) =~= Seq::empty());
}

/// Updating an id that no row has changes nothing, the store may answer it
/// with success, and the route then replies with success.
pub proof fn lemma_update_missing_is_noop(
    t: Table,
    id: u128,
    content: Seq<char>,
    answer: Result<(), String>,
    t2: Table,
)
    requires
        !t.contains_key(id),
        answers(t, Query::Update(id, content), done_answer(answer), t2),
    ensures
        t2 == t,
        answers(t, Query::Update(id, content), Answer::Applied, t),
        answer is Ok ==> updated_reply(answer) == ReplyView::Done,
{
}

/// Deleting an id that no row has changes nothing, the store may answer it
/// with success, and the route then replies with success.
pub proof fn lemma_delete_missing_is_noop(
    t: Table,
    id: u128,
    answer: Result<(), String>,
    t2: Table,
)
    requires
        !t.contains_key(id),
        answers(t, Query::DeleteOne(id), done_answer(answer), t2),
    ensures
        t2 == t,
        answers(t, Query::DeleteOne(id), Answer::Applied, t),
        answer is Ok ==> removed_reply(answer) == ReplyView::Done,
{
    assert(t.remove(id) =~= t);
}

/// Two creates, in whichever order the store runs them, get distinct ids with
/// distinct texts, and a listing after both shows both todos.
pub proof fn lemma_creates_are_distinct(
    t0: Table,
    c1: Seq<char>,
    a1: Result<u128, String>,
    t1: Table,
    c2: Seq<char>,
    a2: Result<u128, String>,
    t2: Table,
    listed: Result<Vec<Row>, String>,
    t3: Table,
)
    requires
        answers(t0, Query::Insert(c1), id_answer(a1), t1),
        a1 is Ok,
        answers(t1, Query::Insert(c2), id_answer(a2), t2),
        a2 is Ok,
        answers(t2, Query::SelectAll, rows_answer(listed), t3),
        listed is Ok,
    ensures
        a1->Ok_0 != a2->Ok_0,
        hyphenated(a1->Ok_0) != hyphenated(a2->Ok_0),
        list_reply(listed) is Todos,
        list_reply(listed)->Todos_0.contains((hyphenated(a1->Ok_0), c1)),
        list_reply(listed)->Todos_0.contains((hyphenated(a2->Ok_0), c2)),
{
    let (i1, i2) = (a1->Ok_0, a2->Ok_0);
    lemma_hyphenated_injective(i1, i2);
    assert(t2.contains_key(i1) && t2[i1] == c1);
    lemma_listing_shows_every_todo(t2, listed, t3, i1);
    lemma_listing_shows_every_todo(t2, listed, t3, i2);
}

} // verus!
