//! What the lecturer operations decide before storage is asked.

use vstd::prelude::*;
use crate::errors::AppError;
use crate::lecturers::models::{CreateLecturerRequest, NewLecturer};
use crate::text::{contains_char, lowercase, to_lowercase, trim, trimmed};

verus! {

/// Checks a creation request and tidies what it holds: the name and the
/// department are trimmed, the email address is trimmed and put in
/// lowercase.
pub fn create(body: &CreateLecturerRequest) -> (outcome: Result<NewLecturer, AppError>)
    ensures
        body.defect() is Some ==> (outcome matches Err(AppError::Validation(m)) && Some(m@)
            == body.defect()),
        body.defect() is None ==> (outcome matches Ok(row) && {
            &&& row.name@ == trimmed(body.name@)
            &&& row.department@ == trimmed(body.department@)
            &&& row.email@ == lowercase(trimmed(body.email@))
        }),
{
    let name = trim(body.name.as_str());
    if name.is_empty() {
        return Err(AppError::Validation("Name required".to_owned()));
    }
    if !contains_char(body.email.as_str(), '@') {
        return Err(AppError::Validation("Invalid email".to_owned()));
    }
    Ok(
        NewLecturer {
            name: name.to_owned(),
            department: trim(body.department.as_str()).to_owned(),
            email: to_lowercase(trim(body.email.as_str())),
        },
    )
}

} // verus!
