//! The SQL statements the repository issues, each behind a thin wrapper over
//! diesel. The table is `rustaceans(id INTEGER PRIMARY KEY, name, email,
//! created_at)`, with `id` and `created_at` filled in by the store.
use crate::models::{RepoError, Rustacean};
use diesel::dsl::sql;
use diesel::result::Error as StoreError;
use diesel::sql_types::{BigInt, Integer, Text};
use diesel::sqlite::SqliteConnection;
use diesel::RunQueryDsl;
use vstd::prelude::*;

verus! {

#[verifier::external_type_specification]
#[verifier::external_body]
pub struct ExSqliteConnection(SqliteConnection);

#[verifier::external_type_specification]
#[verifier::external_body]
pub struct ExStoreError(StoreError);

/// Relies on diesel's `get_result` for `SELECT ... WHERE id = ?`: a row it
/// returns satisfies the filter, so it carries the requested id.
#[verifier::external_body]
pub(crate) fn select_by_id(c: &mut SqliteConnection, id: i32) -> (r: Result<Rustacean, StoreError>)
    ensures
        r matches Ok(row) ==> row.id == id,
{
    sql::<(Integer, Text, Text, Text)>(
        "SELECT id, name, email, created_at FROM rustaceans WHERE id = ",
    ).bind::<Integer, _>(id).get_result::<(i32, String, String, String)>(c).map(
        |(id, name, email, created_at)| Rustacean { id, name, email, created_at },
    )
}

/// Relies on diesel's `load` for `SELECT ... ORDER BY id DESC LIMIT ?`: at
/// most `limit` rows come back (a negative limit sets no bound in SQLite).
#[verifier::external_body]
pub(crate) fn select_newest(c: &mut SqliteConnection, limit: i64) -> (r: Result<Vec<Rustacean>, StoreError>)
    ensures
        r matches Ok(rows) ==> (limit >= 0 ==> rows.len() <= limit),
{
    sql::<(Integer, Text, Text, Text)>(
        "SELECT id, name, email, created_at FROM rustaceans ORDER BY id DESC LIMIT ",
    ).bind::<BigInt, _>(limit).load::<(i32, String, String, String)>(c).map(
        |rows| rows.into_iter().map(|(id, name, email, created_at)| Rustacean { id, name, email, created_at }).collect(),
    )
}

/// Relies on diesel's `get_result` for `INSERT INTO rustaceans (name, email)
/// VALUES (?, ?) RETURNING id`: the store assigns `id` and `created_at`, and
/// the key of the row this statement inserted comes back.
#[verifier::external_body]
pub(crate) fn insert_returning_id(c: &mut SqliteConnection, name: &str, email: &str) -> (r: Result<i32, StoreError>)
{
    sql::<Integer>("INSERT INTO rustaceans (name, email) VALUES (")
        .bind::<Text, _>(name)
        .sql(", ")
        .bind::<Text, _>(email)
        .sql(") RETURNING id")
        .get_result::<i32>(c)
}

/// Relies on diesel's `execute` for `UPDATE rustaceans SET name = ?, email = ?
/// WHERE id = ?`.
#[verifier::external_body]
pub(crate) fn update_row(c: &mut SqliteConnection, id: i32, name: &str, email: &str) -> (r: Result<usize, StoreError>)
{
    diesel::sql_query("UPDATE rustaceans SET name = ?, email = ? WHERE id = ?")
        .bind::<Text, _>(name)
        .bind::<Text, _>(email)
        .bind::<Integer, _>(id)
        .execute(c)
}

/// Relies on diesel's `execute` for `DELETE FROM rustaceans WHERE id = ?`:
/// `id` is the primary key, so at most one row is removed.
#[verifier::external_body]
pub(crate) fn delete_row(c: &mut SqliteConnection, id: i32) -> (r: Result<usize, StoreError>)
    ensures
        r matches Ok(n) ==> n <= 1,
{
    diesel::sql_query("DELETE FROM rustaceans WHERE id = ?").bind::<Integer, _>(id).execute(c)
}

/// Relies on diesel's `result::Error`: tells its `NotFound` variant apart from
/// the others, and keeps the `Display` text of any other failure.
#[verifier::external_body]
pub(crate) fn classify(e: StoreError) -> (r: RepoError)
{
    match e {
        StoreError::NotFound => RepoError::NotFound,
        other => RepoError::Storage(other.to_string()),
    }
}

} // verus!
