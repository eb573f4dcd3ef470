//! What is asked when a lecturer is created.

use vstd::prelude::*;
use crate::text::trimmed;

verus! {

/// What is asked when a lecturer is created.
#[derive(Debug)]
pub struct CreateLecturerRequest {
    pub name: String,
    pub department: String,
    pub email: String,
}

impl CreateLecturerRequest {
    /// Why the request is malformed, if it is: the name is blank, or the
    /// email address has no `@` in it.
    pub open spec fn defect(&self) -> Option<Seq<char>> {
        if trimmed(self.name@).len() == 0 {
            Some("Name required"@)
        } else if !self.email@.contains('@') {
            Some("Invalid email"@)
        } else {
            None
        }
    }
}

/// The row that a well-formed creation request asks to be stored.
#[derive(Debug)]
pub struct NewLecturer {
    pub name: String,
    pub department: String,
    pub email: String,
}

} // verus!
