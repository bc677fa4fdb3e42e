use todo_service::bootstrap::{Event, Phase};
use todo_service::store::Statement;

#[test]
fn statement_texts() {
    assert_eq!(Statement::SelectAll.sql(), "SELECT id, content FROM todo");
    assert_eq!(
        Statement::Insert { content: "a".to_string() }.sql(),
        "INSERT INTO todo VALUES (DEFAULT, $1) RETURNING id"
    );
    assert_eq!(Statement::SelectOne { id: 1 }.sql(), "SELECT * FROM todo WHERE id = $1");
    assert_eq!(
        Statement::Update { id: 1, content: "a".to_string() }.sql(),
        "UPDATE todo SET content = $1 WHERE id = $2"
    );
    assert_eq!(Statement::DeleteOne { id: 1 }.sql(), "DELETE FROM todo WHERE id = $1");
    assert_eq!(Statement::DeleteAll.sql(), "DELETE FROM todo");
}

#[test]
fn start_up_serves_after_migrations() {
    let p = Phase::start();
    assert_eq!(p, Phase::Connecting);
    assert!(!p.accepts_traffic());
    let p = p.step(Event::Pool(true));
    assert_eq!(p, Phase::Migrating);
    assert!(!p.accepts_traffic());
    let p = p.step(Event::Migrated);
    assert_eq!(p, Phase::Serving);
    assert!(p.accepts_traffic());
}

#[test]
fn start_up_aborts_without_pool() {
    let p = Phase::start().step(Event::Pool(false));
    assert_eq!(p, Phase::Aborted);
    assert!(!p.step(Event::Migrated).accepts_traffic());
}

#[test]
fn start_up_aborts_when_migrations_fail() {
    let p = Phase::start().step(Event::Pool(true)).step(Event::MigrationFailed("bad".to_string()));
    assert_eq!(p, Phase::Aborted);
    assert!(!p.accepts_traffic());
}

#[test]
fn start_up_ignores_migrations_before_pool() {
    assert_eq!(Phase::start().step(Event::Migrated), Phase::Aborted);
}
