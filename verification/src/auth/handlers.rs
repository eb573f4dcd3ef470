//! What signing in and changing a password decide, once the stored
//! administrator has been read and the password has been held against its
//! hash.

use vstd::prelude::*;
use crate::auth::models::{
    expiry_after,
    token_times_fit,
    AdminRow,
    ChangePasswordRequest,
    Claims,
};
use crate::errors::AppError;

verus! {

/// Decides a sign-in.
///
/// `row` is the administrator stored under the username, if there is one,
/// and `password_matches` says whether the password stood against the
/// stored hash. An unknown username and a wrong password are told apart
/// from nothing: both are invalid credentials. A served sign-in gives the
/// claims of a token issued at `now` for `expiry_hours` hours.
pub fn login(
    row: Option<&AdminRow>,
    password_matches: bool,
    now: i64,
    expiry_hours: i64,
) -> (outcome: Result<Claims, AppError>)
    ensures
        (row is None || !password_matches) ==> outcome == Err::<Claims, AppError>(
            AppError::InvalidCredentials,
        ),
        row matches Some(admin) ==> (password_matches ==> {
            let in_range = token_times_fit(now as int, expiry_hours as int);
            &&& in_range ==> (outcome matches Ok(claims) && {
                &&& claims.sub@ == admin.username@
                &&& claims.name@ == admin.name@
                &&& claims.role@ == admin.role@
                &&& claims.iat == now
                &&& claims.exp == expiry_after(now as int, expiry_hours as int)
            })
            &&& !in_range ==> outcome matches Err(AppError::Internal(_))
        }),
{
    let admin = match row {
        Some(admin) => admin,
        None => {
            return Err(AppError::InvalidCredentials);
        },
    };
    if !password_matches {
        return Err(AppError::InvalidCredentials);
    }
    match Claims::issue(admin, now, expiry_hours) {
        Some(claims) => Ok(claims),
        None => Err(AppError::Internal("Token lifetime is out of range".to_owned())),
    }
}

/// Checks the shape of a request to change the password: the new password
/// has at least eight bytes.
pub fn check_new_password(body: &ChangePasswordRequest) -> (outcome: Result<(), AppError>)
    ensures
        body.too_short() ==> (outcome matches Err(AppError::Validation(m)) && m@
            == "New password must be at least 8 characters"@),
        !body.too_short() ==> outcome is Ok,
{
    if body.new_password.as_str().len() < 8 {
        Err(AppError::Validation("New password must be at least 8 characters".to_owned()))
    } else {
        Ok(())
    }
}

/// Decides a change of password.
///
/// A new password that is too short is refused first. Then the
/// administrator must be known, and `current_matches` must say that the
/// current password stood against the stored hash.
pub fn change_password(
    body: &ChangePasswordRequest,
    row: Option<&AdminRow>,
    current_matches: bool,
) -> (outcome: Result<(), AppError>)
    ensures
        body.too_short() ==> (outcome matches Err(AppError::Validation(m)) && m@
            == "New password must be at least 8 characters"@),
        !body.too_short() && row is None ==> outcome == Err::<(), AppError>(AppError::NotFound),
        !body.too_short() && row is Some && !current_matches ==> outcome == Err::<(), AppError>(
            AppError::InvalidPassword,
        ),
        !body.too_short() && row is Some && current_matches ==> outcome is Ok,
{
    match check_new_password(body) {
        Err(error) => {
            return Err(error);
        },
        Ok(()) => {},
    }
    if row.is_none() {
        return Err(AppError::NotFound);
    }
    if !current_matches {
        return Err(AppError::InvalidPassword);
    }
    Ok(())
}

} // verus!
