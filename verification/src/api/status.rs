//! The HTTP status numbers of the REST answers, as axum has them.
use vstd::prelude::*;

verus! {

/// `axum::http::StatusCode::OK`, by its `as_u16`: the number is 200.
#[verifier::external_body]
pub(crate) fn ok_status() -> (r: u16)
    ensures
        r == 200,
{
    axum::http::StatusCode::OK.as_u16()
}

/// `axum::http::StatusCode::ACCEPTED`, by its `as_u16`: the number is 202.
#[verifier::external_body]
pub(crate) fn accepted_status() -> (r: u16)
    ensures
        r == 202,
{
    axum::http::StatusCode::ACCEPTED.as_u16()
}

/// `axum::http::StatusCode::FORBIDDEN`, by its `as_u16`: the number is 403.
#[verifier::external_body]
pub(crate) fn forbidden_status() -> (r: u16)
    ensures
        r == 403,
{
    axum::http::StatusCode::FORBIDDEN.as_u16()
}

/// `axum::http::StatusCode::NOT_FOUND`, by its `as_u16`: the number is 404.
#[verifier::external_body]
pub(crate) fn not_found_status() -> (r: u16)
    ensures
        r == 404,
{
    axum::http::StatusCode::NOT_FOUND.as_u16()
}

/// `axum::http::StatusCode::CONFLICT`, by its `as_u16`: the number is 409.
#[verifier::external_body]
pub(crate) fn conflict_status() -> (r: u16)
    ensures
        r == 409,
{
    axum::http::StatusCode::CONFLICT.as_u16()
}

/// `axum::http::StatusCode::UNPROCESSABLE_ENTITY`, by its `as_u16`: the number is 422.
#[verifier::external_body]
pub(crate) fn unprocessable_status() -> (r: u16)
    ensures
        r == 422,
{
    axum::http::StatusCode::UNPROCESSABLE_ENTITY.as_u16()
}

} // verus!
