//! What the lab operations decide before storage is asked.

use vstd::prelude::*;
use crate::delegations::models::{copy_text, text_of};
use crate::errors::AppError;
use crate::labs::models::{CreateLabRequest, NewLab};
use crate::text::{trim, trimmed};

verus! {

/// Checks a creation request and trims the name and the department.
pub fn create(body: &CreateLabRequest) -> (outcome: Result<NewLab, AppError>)
    ensures
        body.defect() is Some ==> (outcome matches Err(AppError::Validation(m)) && Some(m@)
            == body.defect()),
        body.defect() is None ==> (outcome matches Ok(row) && {
            &&& row.name@ == trimmed(body.name@)
            &&& text_of(row.location) == text_of(body.location)
            &&& row.department@ == trimmed(body.department@)
            &&& text_of(row.description) == text_of(body.description)
        }),
{
    let name = trim(body.name.as_str());
    if name.is_empty() {
        return Err(AppError::Validation("Lab name is required".to_owned()));
    }
    let department = trim(body.department.as_str());
    if department.is_empty() {
        return Err(AppError::Validation("Department is required".to_owned()));
    }
    Ok(
        NewLab {
            name: name.to_owned(),
            location: copy_text(&body.location),
            department: department.to_owned(),
            description: copy_text(&body.description),
        },
    )
}

} // verus!
