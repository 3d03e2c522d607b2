use diesel::sqlite::SqliteConnection;
use diesel::{Connection, RunQueryDsl};
use rustaceans::{NewRustacean, RepoError, Rustacean, RustaceanRepository};

fn store() -> SqliteConnection {
    let mut c = SqliteConnection::establish(":memory:").unwrap();
    diesel::sql_query(
        "CREATE TABLE rustaceans (id INTEGER PRIMARY KEY AUTOINCREMENT, name VARCHAR NOT NULL, \
         email VARCHAR NOT NULL, created_at TIMESTAMP NOT NULL DEFAULT CURRENT_TIMESTAMP)",
    )
    .execute(&mut c)
    .unwrap();
    c
}

fn new(name: &str, email: &str) -> NewRustacean {
    NewRustacean { name: name.to_string(), email: email.to_string() }
}

#[test]
fn create_returns_the_stored_row() {
    let mut c = store();
    let r = RustaceanRepository::create(&mut c, new("Ferris", "ferris@rust.org")).unwrap();
    assert_eq!(r.id, 1);
    assert_eq!(r.name, "Ferris");
    assert_eq!(r.email, "ferris@rust.org");
    assert!(!r.created_at.is_empty());
}

#[test]
fn create_assigns_fresh_ids() {
    let mut c = store();
    let a = RustaceanRepository::create(&mut c, new("A", "a@x.org")).unwrap();
    let b = RustaceanRepository::create(&mut c, new("B", "b@x.org")).unwrap();
    assert_ne!(a.id, b.id);
    assert!(b.id > a.id);
}

#[test]
fn find_after_create_gives_the_same_record() {
    let mut c = store();
    let a = RustaceanRepository::create(&mut c, new("Ferris", "ferris@rust.org")).unwrap();
    let f = RustaceanRepository::find(&mut c, a.id).unwrap();
    assert_eq!(a, f);
}

#[test]
fn find_missing_is_not_found() {
    let mut c = store();
    assert_eq!(RustaceanRepository::find(&mut c, 999), Err(RepoError::NotFound));
}

#[test]
fn update_changes_name_and_email_only() {
    let mut c = store();
    let a = RustaceanRepository::create(&mut c, new("Ferris", "ferris@rust.org")).unwrap();
    let patch = Rustacean {
        id: 42,
        name: "Ferris2".to_string(),
        email: "f2@rust.org".to_string(),
        created_at: "ignored".to_string(),
    };
    let u = RustaceanRepository::update(&mut c, a.id, patch).unwrap();
    assert_eq!(u.id, a.id);
    assert_eq!(u.name, "Ferris2");
    assert_eq!(u.email, "f2@rust.org");
    assert_eq!(u.created_at, a.created_at);
    assert_eq!(RustaceanRepository::find(&mut c, a.id).unwrap(), u);
}

#[test]
fn update_missing_is_not_found() {
    let mut c = store();
    let patch = Rustacean { id: 5, name: "n".to_string(), email: "e".to_string(), created_at: String::new() };
    assert_eq!(RustaceanRepository::update(&mut c, 5, patch), Err(RepoError::NotFound));
}

#[test]
fn delete_then_find_is_not_found() {
    let mut c = store();
    let a = RustaceanRepository::create(&mut c, new("Ferris", "ferris@rust.org")).unwrap();
    assert_eq!(RustaceanRepository::delete(&mut c, a.id), Ok(1));
    assert_eq!(RustaceanRepository::find(&mut c, a.id), Err(RepoError::NotFound));
}

#[test]
fn delete_missing_is_no_error() {
    let mut c = store();
    assert_eq!(RustaceanRepository::delete(&mut c, 7), Ok(0));
}

#[test]
fn find_multiple_caps_and_orders_newest_first() {
    let mut c = store();
    for i in 0..3 {
        RustaceanRepository::create(&mut c, new(&format!("n{}", i), "e@x.org")).unwrap();
    }
    let rows = RustaceanRepository::find_multiple(&mut c, 2).unwrap();
    assert_eq!(rows.len(), 2);
    assert_eq!(rows[0].id, 3);
    assert_eq!(rows[1].id, 2);
    let all = RustaceanRepository::find_multiple(&mut c, 1000).unwrap();
    assert_eq!(all.iter().map(|r| r.id).collect::<Vec<_>>(), vec![3, 2, 1]);
}

#[test]
fn find_multiple_on_empty_table_is_empty() {
    let mut c = store();
    assert_eq!(RustaceanRepository::find_multiple(&mut c, 10).unwrap(), vec![]);
    assert_eq!(RustaceanRepository::find_multiple(&mut c, 0).unwrap(), vec![]);
}

#[test]
fn serialized_creates_each_get_their_own_row() {
    let mut c = store();
    for i in 0..5 {
        let name = format!("user{}", i);
        let email = format!("user{}@rust.org", i);
        let r = RustaceanRepository::create(&mut c, new(&name, &email)).unwrap();
        let stored = RustaceanRepository::find(&mut c, r.id).unwrap();
        assert_eq!(stored.name, name);
        assert_eq!(stored.email, email);
    }
}

#[test]
fn missing_table_is_a_storage_failure() {
    let mut c = SqliteConnection::establish(":memory:").unwrap();
    assert!(matches!(RustaceanRepository::find(&mut c, 1), Err(RepoError::Storage(_))));
    assert!(matches!(RustaceanRepository::find_multiple(&mut c, 5), Err(RepoError::Storage(_))));
    assert!(matches!(RustaceanRepository::create(&mut c, new("a", "b")), Err(RepoError::Storage(_))));
}
