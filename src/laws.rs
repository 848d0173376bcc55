use vstd::prelude::*;

use crate::envelope::{STATUS_INTERNAL_SERVER_ERROR, STATUS_OK};
use crate::handlers::{
    storage_keys_valid, storage_outcome_body, storage_outcome_status, user_id_of,
    user_outcome_body, user_outcome_status,
};
use crate::model::{StoreError, User};

verus! {

/// A lookup that finds no row is a success: status 200 and a `null` body,
/// never a failure.
pub proof fn lemma_absent_user_is_success(outcome: Result<Option<User>, StoreError>)
    requires
        outcome == Ok::<Option<User>, StoreError>(None),
    ensures
        !(outcome is Err),
        user_outcome_status(outcome) == STATUS_OK,
        user_outcome_body(outcome) == "null"@,
{
}

/// Every backend failure of a user lookup goes out as a failure with status 500.
pub proof fn lemma_user_backend_failure_is_server_error(outcome: Result<Option<User>, StoreError>)
    requires
        outcome is Err,
    ensures
        user_outcome_status(outcome) == STATUS_INTERNAL_SERVER_ERROR,
        user_outcome_status(outcome) != STATUS_OK,
{
}

/// An object query with an empty bucket or an empty object name is refused at
/// validation, so it never yields a query for the blob store.
pub proof fn lemma_empty_key_refused(bucket: Seq<char>, object: Seq<char>)
    requires
        bucket.len() == 0 || object.len() == 0,
    ensures
        !storage_keys_valid(bucket, object),
{
}

/// The same query against an unchanged backend gives the same envelope, down
/// to the status and every character of the body: validation depends on the
/// raw parameters alone, and the envelope on the backend's outcome alone.
pub proof fn lemma_repeated_queries_identical(
    first_raw: Seq<char>,
    second_raw: Seq<char>,
    first_user: Result<Option<User>, StoreError>,
    second_user: Result<Option<User>, StoreError>,
    first_object: Result<Vec<u8>, StoreError>,
    second_object: Result<Vec<u8>, StoreError>,
)
    requires
        first_raw == second_raw,
        first_user == second_user,
        match (first_object, second_object) {
            (Ok(a), Ok(b)) => a@ == b@,
            (Err(a), Err(b)) => a == b,
            _ => false,
        },
    ensures
        user_id_of(first_raw) == user_id_of(second_raw),
        user_outcome_status(first_user) == user_outcome_status(second_user),
        user_outcome_body(first_user) == user_outcome_body(second_user),
        storage_outcome_status(first_object) == storage_outcome_status(second_object),
        storage_outcome_body(first_object) == storage_outcome_body(second_object),
{
}

} // verus!
