//! What is asked when a lab is created.

use vstd::prelude::*;
use crate::text::trimmed;

verus! {

/// What is asked when a lab is created.
#[derive(Debug)]
pub struct CreateLabRequest {
    pub name: String,
    pub location: Option<String>,
    pub department: String,
    pub description: Option<String>,
}

impl CreateLabRequest {
    /// Why the request is malformed, if it is: the name or the department
    /// is blank.
    pub open spec fn defect(&self) -> Option<Seq<char>> {
        if trimmed(self.name@).len() == 0 {
            Some("Lab name is required"@)
        } else if trimmed(self.department@).len() == 0 {
            Some("Department is required"@)
        } else {
            None
        }
    }
}

/// The row that a well-formed creation request asks to be stored.
#[derive(Debug)]
pub struct NewLab {
    pub name: String,
    pub location: Option<String>,
    pub department: String,
    pub description: Option<String>,
}

} // verus!
