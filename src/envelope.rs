use vstd::prelude::*;
use vstd::string::*;

use crate::json::{content_json, content_json_text, json_text_of, push_json_text, user_json, user_json_text};
use crate::model::{StorageResponse, User};

verus! {

/// A payload was produced, or a lookup found nothing.
pub const STATUS_OK: u16 = 200;

/// The inbound query was malformed; no backend was asked.
pub const STATUS_BAD_REQUEST: u16 = 400;

/// A backend failed.
pub const STATUS_INTERNAL_SERVER_ERROR: u16 = 500;

/// The one outbound shape of both lookups. Exactly one variant per response,
/// and the variant alone fixes the transport status and the body.
#[derive(Clone, Debug)]
pub enum ApiResponse {
    /// A user lookup that succeeded; `None` when no row matched, which is no failure.
    UserResponse(Option<User>),
    /// An object fetch that succeeded.
    StorageResponse(StorageResponse),
    /// A backend failure, with the message to show.
    ErrorResponse(String),
    /// A malformed query, refused before any backend call.
    InvalidRequest(String),
}

impl ApiResponse {
    /// The variants that report a failure.
    pub open spec fn is_failure(self) -> bool {
        self is ErrorResponse || self is InvalidRequest
    }

    /// The status that goes out with each variant.
    pub open spec fn status(self) -> u16 {
        match self {
            ApiResponse::UserResponse(_) => STATUS_OK,
            ApiResponse::StorageResponse(_) => STATUS_OK,
            ApiResponse::ErrorResponse(_) => STATUS_INTERNAL_SERVER_ERROR,
            ApiResponse::InvalidRequest(_) => STATUS_BAD_REQUEST,
        }
    }

    /// The JSON body that goes out with each variant.
    pub open spec fn body_text(self) -> Seq<char> {
        match self {
            ApiResponse::UserResponse(Some(u)) => user_json(u),
            ApiResponse::UserResponse(None) => "null"@,
            ApiResponse::StorageResponse(s) => content_json(s.content@),
            ApiResponse::ErrorResponse(m) => json_text_of(m@),
            ApiResponse::InvalidRequest(m) => json_text_of(m@),
        }
    }

    /// The transport status to send with this response.
    pub fn status_code(&self) -> (r: u16)
        ensures
            r == self.status(),
    {
        match self {
            ApiResponse::UserResponse(_) => STATUS_OK,
            ApiResponse::StorageResponse(_) => STATUS_OK,
            ApiResponse::ErrorResponse(_) => STATUS_INTERNAL_SERVER_ERROR,
            ApiResponse::InvalidRequest(_) => STATUS_BAD_REQUEST,
        }
    }

    /// The JSON body to send with this response.
    pub fn body(&self) -> (r: String)
        ensures
            r@ == self.body_text(),
    {
        match self {
            ApiResponse::UserResponse(Some(u)) => user_json_text(u),
            ApiResponse::UserResponse(None) => String::from_str("null"),
            ApiResponse::StorageResponse(s) => content_json_text(s.content.as_str()),
            ApiResponse::ErrorResponse(m) => {
                let mut out = String::new();
                push_json_text(&mut out, m.as_str());
                assert(out@ =~= json_text_of(m@));
                out
            },
            ApiResponse::InvalidRequest(m) => {
                let mut out = String::new();
                push_json_text(&mut out, m.as_str());
                assert(out@ =~= json_text_of(m@));
                out
            },
        }
    }
}

/// A response is a failure exactly when its status is not the success status:
/// no failure ever goes out with 200, and no payload with an error status.
pub proof fn lemma_status_matches_variant(r: ApiResponse)
    ensures
        r.is_failure() <==> r.status() != STATUS_OK,
        r is ErrorResponse <==> r.status() == STATUS_INTERNAL_SERVER_ERROR,
        r is InvalidRequest <==> r.status() == STATUS_BAD_REQUEST,
{
}

} // verus!
