use rustaceans::{check_order, confirm_written, RepoError, Rustacean};

fn row(id: i32, name: &str, email: &str) -> Rustacean {
    Rustacean { id, name: name.to_string(), email: email.to_string(), created_at: "2024-01-01 00:00:00".to_string() }
}

#[test]
fn descending_rows_pass() {
    let rows = vec![row(3, "c", "c@x"), row(2, "b", "b@x"), row(1, "a", "a@x")];
    assert_eq!(check_order(rows.clone()), Ok(rows));
    assert_eq!(check_order(vec![]), Ok(vec![]));
}

#[test]
fn unordered_or_repeated_ids_fail() {
    let e = Err(RepoError::Storage("rows not in descending id order".to_string()));
    assert_eq!(check_order(vec![row(1, "a", "a@x"), row(2, "b", "b@x")]), e);
    assert_eq!(check_order(vec![row(2, "a", "a@x"), row(2, "b", "b@x")]), e);
}

#[test]
fn written_row_passes() {
    let r = row(1, "Ferris", "ferris@rust.org");
    assert_eq!(confirm_written(r.clone(), &"Ferris".to_string(), &"ferris@rust.org".to_string()), Ok(r));
}

#[test]
fn row_from_another_writer_fails() {
    let e = Err(RepoError::Storage("row changed by a concurrent writer".to_string()));
    let r = row(1, "Other", "ferris@rust.org");
    assert_eq!(confirm_written(r, &"Ferris".to_string(), &"ferris@rust.org".to_string()), e);
    let r = row(1, "Ferris", "other@rust.org");
    assert_eq!(confirm_written(r, &"Ferris".to_string(), &"ferris@rust.org".to_string()), e);
}
