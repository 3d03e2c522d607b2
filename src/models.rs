use vstd::prelude::*;

verus! {

/// A persisted record. `id` and `created_at` are assigned by the store.
#[derive(Clone, Debug, PartialEq, Eq)]
pub struct Rustacean {
    pub id: i32,
    pub name: String,
    pub email: String,
    pub created_at: String,
}

/// What a client supplies to create a record: no `id`, no `created_at`.
#[derive(Clone, Debug, PartialEq, Eq)]
pub struct NewRustacean {
    pub name: String,
    pub email: String,
}

/// The typed outcome of a failed repository operation.
#[derive(Clone, Debug, PartialEq, Eq)]
pub enum RepoError {
    /// No row matched the requested id.
    NotFound,
    /// Any other failure of the store, with its message.
    Storage(String),
}

} // verus!

verus! {

/// Records ordered by `id`, strictly descending (newest first).
pub open spec fn newest_first(v: Seq<Rustacean>) -> bool {
    forall|i: int, j: int| 0 <= i < j < v.len() ==> v[i].id > v[j].id
}

} // verus!
