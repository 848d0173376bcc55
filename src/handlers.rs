use vstd::prelude::*;
use vstd::string::*;

use crate::envelope::{ApiResponse, STATUS_INTERNAL_SERVER_ERROR, STATUS_OK};
use crate::json::{content_json, json_text_of, user_json};
use crate::model::{StorageQuery, StorageResponse, StoreError, User, UserQuery};

verus! {

/// The message sent when a user lookup fails in the backend; the backend's own
/// text is not passed on.
pub const INTERNAL_ERROR_MESSAGE: &'static str = "Internal Server Error";

/// The message sent when `userId` is not a decimal integer in range.
pub const INVALID_USER_ID_MESSAGE: &'static str = "userId must be a decimal integer";

/// The message sent when the bucket name is empty.
pub const EMPTY_BUCKET_MESSAGE: &'static str = "bucket must not be empty";

/// The message sent when the object name is empty.
pub const EMPTY_OBJECT_MESSAGE: &'static str = "object must not be empty";

/// An ASCII decimal digit.
pub open spec fn is_digit(c: char) -> bool {
    '0' <= c && c <= '9'
}

/// A non-empty run of decimal digits.
pub open spec fn all_digits(s: Seq<char>) -> bool {
    s.len() > 0 && forall|i: int| 0 <= i < s.len() ==> is_digit(#[trigger] s[i])
}

/// The value of a run of decimal digits.
pub open spec fn digits_value(s: Seq<char>) -> int
    decreases s.len(),
{
    if s.len() == 0 {
        0
    } else {
        digits_value(s.drop_last()) * 10 + (s.last() as int - '0' as int)
    }
}

/// The integer that `s` writes in decimal: an optional `-` or `+`, then one or
/// more digits; `None` for any other text.
pub open spec fn decimal_value(s: Seq<char>) -> Option<int> {
    if s.len() > 0 && s[0] == '-' {
        if all_digits(s.skip(1)) {
            Some(-digits_value(s.skip(1)))
        } else {
            None
        }
    } else if s.len() > 0 && s[0] == '+' {
        if all_digits(s.skip(1)) {
            Some(digits_value(s.skip(1)))
        } else {
            None
        }
    } else if all_digits(s) {
        Some(digits_value(s))
    } else {
        None
    }
}

/// The user identifier that the raw parameter `s` denotes, if it is a decimal
/// integer that fits in 64 bits.
pub open spec fn user_id_of(s: Seq<char>) -> Option<i64> {
    match decimal_value(s) {
        Some(v) => if i64::MIN <= v <= i64::MAX {
            Some(v as i64)
        } else {
            None
        },
        None => None,
    }
}

/// A run of digits has a value of zero or more.
proof fn lemma_digits_value_nonneg(s: Seq<char>)
    requires
        forall|i: int| 0 <= i < s.len() ==> is_digit(#[trigger] s[i]),
    ensures
        digits_value(s) >= 0,
    decreases s.len(),
{
    if s.len() > 0 {
        lemma_digits_value_nonneg(s.drop_last());
    }
}

/// A prefix of a run of digits is worth no more than the whole run.
proof fn lemma_prefix_value_le(s: Seq<char>, k: int)
    requires
        forall|i: int| 0 <= i < s.len() ==> is_digit(#[trigger] s[i]),
        0 <= k <= s.len(),
    ensures
        digits_value(s.subrange(0, k)) <= digits_value(s),
    decreases s.len(),
{
    if k == s.len() {
        assert(s.subrange(0, k) =~= s);
    } else {
        let t = s.drop_last();
        lemma_prefix_value_le(t, k);
        lemma_digits_value_nonneg(t);
        assert(t.subrange(0, k) =~= s.subrange(0, k));
    }
}

/// Reads the `userId` parameter as a decimal integer.
pub fn parse_user_id(raw: &str) -> (r: Option<i64>)
    ensures
        r == user_id_of(raw@),
{
    let n = raw.unicode_len();
    if n == 0 {
        return None;
    }
    let first = raw.get_char(0);
    let negative = first == '-';
    let start: usize = if first == '-' || first == '+' {
        1
    } else {
        0
    };
    if start == n {
        assert(!all_digits(raw@.skip(1)));
        return None;
    }
    let ghost t = raw@.subrange(start as int, n as int);
    proof {
        if start == 1 {
            assert(raw@.skip(1) =~= t);
        } else {
            assert(raw@ =~= t);
        }
        assert(decimal_value(raw@) == (if all_digits(t) {
            Some(if negative { -digits_value(t) } else { digits_value(t) })
        } else {
            None::<int>
        }));
    }
    let mut acc: u64 = 0;
    let mut i: usize = start;
    while i < n
        invariant
            start <= i <= n,
            n == raw@.len(),
            start < n,
            t == raw@.subrange(start as int, n as int),
            forall|k: int| 0 <= k < i - start ==> is_digit(#[trigger] t[k]),
            acc as int == digits_value(t.subrange(0, i - start)),
            acc <= 9223372036854775808,
            decimal_value(raw@) == (if all_digits(t) {
                Some(if negative { -digits_value(t) } else { digits_value(t) })
            } else {
                None::<int>
            }),
        decreases n - i,
    {
        let c = raw.get_char(i);
        assert(c == t[i - start]);
        if !('0' <= c && c <= '9') {
            assert(!is_digit(t[i - start]));
            assert(!all_digits(t));
            return None;
        }
        let d: u64 = (c as u32 - '0' as u32) as u64;
        let ghost next_prefix = t.subrange(0, i + 1 - start);
        assert(next_prefix.drop_last() =~= t.subrange(0, i - start));
        assert(digits_value(next_prefix) == acc as int * 10 + d as int);
        if acc > 922337203685477580 || acc * 10 + d > 9223372036854775808 {
            proof {
                if all_digits(t) {
                    lemma_prefix_value_le(t, i + 1 - start);
                    assert(digits_value(t) > 9223372036854775808);
                }
            }
            return None;
        }
        acc = acc * 10 + d;
        i = i + 1;
    }
    assert(t.subrange(0, n - start) =~= t);
    if negative {
        if acc == 9223372036854775808 {
            Some(i64::MIN)
        } else {
            Some(-(acc as i64))
        }
    } else if acc > 9223372036854775807 {
        None
    } else {
        Some(acc as i64)
    }
}

/// The body that a user lookup with this outcome sends.
pub open spec fn user_outcome_body(outcome: Result<Option<User>, StoreError>) -> Seq<char> {
    match outcome {
        Ok(Some(u)) => user_json(u),
        Ok(None) => "null"@,
        Err(_) => json_text_of(INTERNAL_ERROR_MESSAGE@),
    }
}

/// The status that a user lookup with this outcome sends.
pub open spec fn user_outcome_status(outcome: Result<Option<User>, StoreError>) -> u16 {
    match outcome {
        Ok(_) => STATUS_OK,
        Err(_) => STATUS_INTERNAL_SERVER_ERROR,
    }
}

/// Turns the raw `userId` parameter into a query, or into the response that
/// refuses it before any backend call.
pub fn user_query_from_param(raw: &str) -> (r: Result<UserQuery, ApiResponse>)
    ensures
        r is Ok <==> user_id_of(raw@) is Some,
        match r {
            Ok(q) => user_id_of(raw@) == Some(q.user_id),
            Err(e) => e is InvalidRequest && e->InvalidRequest_0@ == INVALID_USER_ID_MESSAGE@,
        },
{
    match parse_user_id(raw) {
        Some(user_id) => Ok(UserQuery { user_id }),
        None => Err(ApiResponse::InvalidRequest(String::from_str(INVALID_USER_ID_MESSAGE))),
    }
}

/// Wraps the outcome of a user lookup. A missing row is a success with an
/// empty payload; only a backend failure is an error, and its text is not
/// passed on.
pub fn user_response(outcome: Result<Option<User>, StoreError>) -> (r: ApiResponse)
    ensures
        match outcome {
            Ok(user) => r == ApiResponse::UserResponse(user),
            Err(_) => r is ErrorResponse && r->ErrorResponse_0@ == INTERNAL_ERROR_MESSAGE@,
        },
        r.is_failure() <==> outcome is Err,
        r.status() == user_outcome_status(outcome),
        r.body_text() == user_outcome_body(outcome),
{
    match outcome {
        Ok(user) => ApiResponse::UserResponse(user),
        Err(_) => ApiResponse::ErrorResponse(String::from_str(INTERNAL_ERROR_MESSAGE)),
    }
}

/// Both keys of an object lookup are present.
pub open spec fn storage_keys_valid(bucket: Seq<char>, object: Seq<char>) -> bool {
    bucket.len() > 0 && object.len() > 0
}

/// Turns the raw `bucket` and `object` parameters into a query, or into the
/// response that refuses them; an empty key never reaches the blob store.
pub fn storage_query_from_params(bucket: String, object: String) -> (r: Result<
    StorageQuery,
    ApiResponse,
>)
    ensures
        r is Ok <==> storage_keys_valid(bucket@, object@),
        match r {
            Ok(q) => q.bucket == bucket && q.object == object && q.wf(),
            Err(e) => e is InvalidRequest && (bucket@.len() == 0 ==> e->InvalidRequest_0@
                == EMPTY_BUCKET_MESSAGE@) && (bucket@.len() > 0 ==> e->InvalidRequest_0@
                == EMPTY_OBJECT_MESSAGE@),
        },
{
    if bucket.as_str().is_empty() {
        return Err(ApiResponse::InvalidRequest(String::from_str(EMPTY_BUCKET_MESSAGE)));
    }
    if object.as_str().is_empty() {
        return Err(ApiResponse::InvalidRequest(String::from_str(EMPTY_OBJECT_MESSAGE)));
    }
    Ok(StorageQuery { bucket, object })
}

/// The text that `String::from_utf8_lossy` makes of the bytes `b`: each invalid
/// sequence becomes U+FFFD. It depends on `b` alone.
pub uninterp spec fn utf8_lossy_of(b: Seq<u8>) -> Seq<char>;

/// Relies on `String::from_utf8_lossy`: decodes UTF-8, replacing what is not.
#[verifier::external_body]
fn decode_lossy(b: &[u8]) -> (r: String)
    ensures
        r@ == utf8_lossy_of(b@),
{
    String::from_utf8_lossy(b).into_owned()
}

/// The body that an object fetch with this outcome sends.
pub open spec fn storage_outcome_body(outcome: Result<Vec<u8>, StoreError>) -> Seq<char> {
    match outcome {
        Ok(bytes) => content_json(utf8_lossy_of(bytes@)),
        Err(e) => json_text_of(e.message@),
    }
}

/// The status that an object fetch with this outcome sends.
pub open spec fn storage_outcome_status(outcome: Result<Vec<u8>, StoreError>) -> u16 {
    match outcome {
        Ok(_) => STATUS_OK,
        Err(_) => STATUS_INTERNAL_SERVER_ERROR,
    }
}

/// Wraps the outcome of an object fetch: the bytes as text, decoded lossily, or
/// the backend's message.
pub fn storage_response(outcome: Result<Vec<u8>, StoreError>) -> (r: ApiResponse)
    ensures
        match outcome {
            Ok(bytes) => r is StorageResponse && r->StorageResponse_0.content@ == utf8_lossy_of(
                bytes@,
            ),
            Err(e) => r == ApiResponse::ErrorResponse(e.message),
        },
        r.is_failure() <==> outcome is Err,
        r.status() == storage_outcome_status(outcome),
        r.body_text() == storage_outcome_body(outcome),
{
    match outcome {
        Ok(bytes) => {
            let content = decode_lossy(bytes.as_slice());
            ApiResponse::StorageResponse(StorageResponse { content })
        },
        Err(e) => ApiResponse::ErrorResponse(e.message),
    }
}

} // verus!
