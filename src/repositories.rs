use crate::models::{newest_first, NewRustacean, RepoError, Rustacean};
use crate::store::{classify, delete_row, insert_returning_id, select_by_id, select_newest, update_row};
use diesel::sqlite::SqliteConnection;
use vstd::prelude::*;

verus! {

/// Text of the failure reported when a row read back after a write does not
/// hold what was written, i.e. another writer changed the row in between.
pub open spec fn concurrent_write_message() -> Seq<char> {
    "row changed by a concurrent writer"@
}

/// Text of the failure reported when a listing does not come back newest
/// first with distinct ids.
pub open spec fn out_of_order_message() -> Seq<char> {
    "rows not in descending id order"@
}

/// The data-access operations on the `rustaceans` table. Each runs on the
/// connection it is handed, once, without retrying.
pub struct RustaceanRepository;

impl RustaceanRepository {
    /// The row with the given id; `NotFound` when there is none.
    pub fn find(c: &mut SqliteConnection, id: i32) -> (r: Result<Rustacean, RepoError>)
        ensures
            r matches Ok(row) ==> row.id == id,
    {
        match select_by_id(c, id) {
            Ok(row) => Ok(row),
            Err(e) => Err(classify(e)),
        }
    }

    /// At most `limit` rows (for a non-negative `limit`), newest first. An
    /// empty table gives an empty list, never `NotFound`; rows that do not
    /// come back in strictly descending id order are a storage failure.
    pub fn find_multiple(c: &mut SqliteConnection, limit: i64) -> (r: Result<Vec<Rustacean>, RepoError>)
        ensures
            r matches Ok(rows) ==> (limit >= 0 ==> rows.len() <= limit) && newest_first(rows@),
            r matches Err(e) ==> e is Storage,
    {
        let rows = match select_newest(c, limit) {
            Ok(rows) => rows,
            Err(e) => {
                return match classify(e) {
                    RepoError::Storage(m) => Err(RepoError::Storage(m)),
                    RepoError::NotFound => Ok(Vec::new()),
                };
            },
        };
        check_order(rows)
    }

    /// Inserts a row from `new_rustacean` and returns the stored row. The
    /// insert hands back the key the store generated for it, and the row is
    /// read again by that key, so concurrent creates cannot swap rows. A row
    /// read back that does not hold the name and email written is reported as
    /// a storage failure rather than returned.
    pub fn create(c: &mut SqliteConnection, new_rustacean: NewRustacean) -> (r: Result<Rustacean, RepoError>)
        ensures
            r matches Ok(row) ==> row.name@ == new_rustacean.name@ && row.email@ == new_rustacean.email@,
    {
        let id = match insert_returning_id(c, new_rustacean.name.as_str(), new_rustacean.email.as_str()) {
            Ok(id) => id,
            Err(e) => {
                return Err(classify(e));
            },
        };
        let row = match Self::find(c, id) {
            Ok(row) => row,
            Err(e) => {
                return Err(e);
            },
        };
        confirm_written(row, &new_rustacean.name, &new_rustacean.email)
    }

    /// Overwrites `name` and `email` of the row at `id` with those of
    /// `rustacean` (its `id` and `created_at` are ignored), then returns the
    /// row as stored. `NotFound` when no row has that id.
    pub fn update(c: &mut SqliteConnection, id: i32, rustacean: Rustacean) -> (r: Result<Rustacean, RepoError>)
        ensures
            r matches Ok(row) ==> row.id == id && row.name@ == rustacean.name@ && row.email@ == rustacean.email@,
    {
        match update_row(c, id, rustacean.name.as_str(), rustacean.email.as_str()) {
            Ok(_) => {},
            Err(e) => {
                return Err(classify(e));
            },
        }
        let row = match Self::find(c, id) {
            Ok(row) => row,
            Err(e) => {
                return Err(e);
            },
        };
        confirm_written(row, &rustacean.name, &rustacean.email)
    }

    /// Removes the row at `id`, if there is one, and returns the number of
    /// rows removed. A missing row is no error.
    pub fn delete(c: &mut SqliteConnection, id: i32) -> (r: Result<usize, RepoError>)
        ensures
            r matches Ok(n) ==> n <= 1,
            r matches Err(e) ==> e is Storage,
    {
        match delete_row(c, id) {
            Ok(n) => Ok(n),
            Err(e) => match classify(e) {
                RepoError::Storage(m) => Err(RepoError::Storage(m)),
                RepoError::NotFound => Ok(0),
            },
        }
    }
}

/// Passes on rows read back from a listing when they are in strictly
/// descending id order, and reports a storage failure otherwise.
pub fn check_order(rows: Vec<Rustacean>) -> (r: Result<Vec<Rustacean>, RepoError>)
    ensures
        newest_first(rows@) ==> r == Ok::<Vec<Rustacean>, RepoError>(rows),
        !newest_first(rows@) ==> (r matches Err(RepoError::Storage(m)) && m@ == out_of_order_message()),
{
    let mut k: usize = 1;
    while k < rows.len()
        invariant
            1 <= k,
            forall|i: int, j: int| 0 <= i < j < k && j < rows@.len() ==> rows@[i].id > rows@[j].id,
        decreases rows@.len() - k,
    {
        if rows[k - 1].id <= rows[k].id {
            return Err(out_of_order());
        }
        k = k + 1;
    }
    Ok(rows)
}

/// Passes on a row read back after a write when it holds the name and email
/// that were written, and reports a storage failure otherwise: another writer
/// changed the table between the write and the read.
pub fn confirm_written(row: Rustacean, name: &String, email: &String) -> (r: Result<Rustacean, RepoError>)
    ensures
        row.name@ == name@ && row.email@ == email@ ==> r == Ok::<Rustacean, RepoError>(row),
        !(row.name@ == name@ && row.email@ == email@) ==> (r matches Err(RepoError::Storage(m)) && m@
            == concurrent_write_message()),
{
    if row.name == *name && row.email == *email {
        Ok(row)
    } else {
        Err(concurrent_write())
    }
}

fn out_of_order() -> (r: RepoError)
    ensures
        r matches RepoError::Storage(m) && m@ == out_of_order_message(),
{
    proof {
        reveal_strlit("rows not in descending id order");
    }
    RepoError::Storage("rows not in descending id order".to_owned())
}

fn concurrent_write() -> (r: RepoError)
    ensures
        r matches RepoError::Storage(m) && m@ == concurrent_write_message(),
{
    proof {
        reveal_strlit("row changed by a concurrent writer");
    }
    RepoError::Storage("row changed by a concurrent writer".to_owned())
}

} // verus!