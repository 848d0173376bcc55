//! Request handling and response unification for a two-lookup HTTP gateway:
//! a user record fetched by identifier, and an object fetched by bucket and key.
//! Each outcome of a lookup is turned into one `ApiResponse`, which alone decides
//! the transport status and the JSON body that go out.
pub mod envelope;
pub mod handlers;
pub mod json;
pub mod laws;
pub mod model;
pub mod services;

pub use envelope::{ApiResponse, STATUS_BAD_REQUEST, STATUS_INTERNAL_SERVER_ERROR, STATUS_OK};
pub use model::{StorageQuery, StorageResponse, StoreError, User, UserQuery};
pub use services::StorageService;
pub use handlers::{parse_user_id, storage_query_from_params, storage_response, user_query_from_param, user_response};
