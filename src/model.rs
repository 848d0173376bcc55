use vstd::prelude::*;

verus! {

/// One row of the user table, read whole: every field comes from the same row.
#[derive(Clone, Debug)]
pub struct User {
    pub user_id: i64,
    pub email_address: Option<String>,
    pub created_at: Option<i64>,
    pub deleted: Option<i64>,
    pub settings: Option<String>,
}

/// A validated user lookup.
#[derive(Clone, Copy, Debug, PartialEq, Eq)]
pub struct UserQuery {
    pub user_id: i64,
}

/// A validated object lookup: neither field is empty once it has been built by
/// `storage_query_from_params`.
#[derive(Clone, Debug)]
pub struct StorageQuery {
    pub bucket: String,
    pub object: String,
}

impl StorageQuery {
    /// Both keys are present; only such a query is handed to the blob store.
    pub open spec fn wf(self) -> bool {
        self.bucket@.len() > 0 && self.object@.len() > 0
    }
}

/// The text of a fetched object.
#[derive(Clone, Debug)]
pub struct StorageResponse {
    pub content: String,
}

/// A failure of either backend (connection lost, query failed, object missing),
/// with the message that the backend gave.
#[derive(Clone, Debug)]
pub struct StoreError {
    pub message: String,
}

} // verus!
