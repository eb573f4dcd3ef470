//! Telling a bearer of a session token from everyone else.

use vstd::prelude::*;
use crate::auth::models::Claims;
use crate::errors::AppError;
use crate::text::strip_prefix;

verus! {

/// A caller who showed a valid session token, with what the token says.
#[derive(Debug)]
pub struct AuthUser(pub Claims);

impl AuthUser {
    /// The token in an `Authorization` header: what follows `Bearer `. A
    /// missing header, or one that does not start so, is unauthorized.
    pub fn bearer_token<'a>(authorization: Option<&'a str>) -> (outcome: Result<&'a str, AppError>)
        ensures
            match authorization {
                Some(header) if "Bearer "@.is_prefix_of(header@) => outcome matches Ok(token)
                    && token@ == header@.skip("Bearer "@.len() as int),
                _ => outcome == Err::<&str, AppError>(AppError::Unauthorized),
            },
    {
        match authorization {
            Some(header) => match strip_prefix(header, "Bearer ") {
                Some(token) => Ok(token),
                None => Err(AppError::Unauthorized),
            },
            None => Err(AppError::Unauthorized),
        }
    }

    /// Lets in the bearer of a token that was checked: with its claims where
    /// the token stood the check, as unauthorized where it did not.
    pub fn from_checked(checked: Option<Claims>) -> (outcome: Result<AuthUser, AppError>)
        ensures
            match checked {
                Some(claims) => outcome matches Ok(user) && user.0 == claims,
                None => outcome == Err::<AuthUser, AppError>(AppError::Unauthorized),
            },
    {
        match checked {
            Some(claims) => Ok(AuthUser(claims)),
            None => Err(AppError::Unauthorized),
        }
    }
}

} // verus!
