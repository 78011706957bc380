//! The error taxonomy every endpoint surfaces to the client: authentication
//! failures, authorization failures, and persistence failures (missing
//! record, broken uniqueness constraint, exhausted machine range).

use vstd::prelude::*;

verus! {

/// An error returned by an endpoint instead of its success value.
#[derive(Clone, Copy, Debug, PartialEq, Eq, Structural)]
pub enum MyError {
    /// The request carried no token, an unknown token, or bad credentials.
    AuthError,
    /// The token resolved to a role below the endpoint's floor.
    ForbiddenError,
    /// The record a request names does not exist.
    NotFoundError,
    /// A uniqueness constraint (username, product code, tag name, binding)
    /// would break.
    DuplicateError,
    /// A stored quantity or an id counter would leave its machine range.
    ConstraintError,
}

impl MyError {
    /// The fixed human-readable message the HTTP layer sends for this error.
    pub fn message(&self) -> (r: &'static str)
        ensures
            *self is AuthError ==> r@ == "invalid token"@,
            *self is ForbiddenError ==> r@ == "you don't have permission"@,
            *self is NotFoundError ==> r@ == "not found"@,
            *self is DuplicateError ==> r@ == "already exists"@,
            *self is ConstraintError ==> r@ == "constraint violated"@,
    {
        match self {
            MyError::AuthError => "invalid token",
            MyError::ForbiddenError => "you don't have permission",
            MyError::NotFoundError => "not found",
            MyError::DuplicateError => "already exists",
            MyError::ConstraintError => "constraint violated",
        }
    }
}

} // verus!
