//! Student rows and what is asked of the student operations.

use vstd::prelude::*;
use crate::clock::Timestamp;
use crate::text::{lowercase, occurs_in, same_ignoring_ascii_case, text_eq, trimmed};

verus! {

/// Whether a student may borrow.
#[derive(Debug, Clone, Copy, PartialEq, Eq, Structural)]
pub enum AccountStatus {
    Active,
    Banned,
}

impl AccountStatus {
    /// The text under which the status is stored and sent.
    pub open spec fn label(self) -> Seq<char> {
        match self {
            AccountStatus::Active => "Active"@,
            AccountStatus::Banned => "Banned"@,
        }
    }

    /// The status a stored text stands for, if any.
    pub open spec fn of_label(text: Seq<char>) -> Option<AccountStatus> {
        if text == "Active"@ {
            Some(AccountStatus::Active)
        } else if text == "Banned"@ {
            Some(AccountStatus::Banned)
        } else {
            None
        }
    }

    pub fn as_str(&self) -> (text: &'static str)
        ensures
            text@ == self.label(),
    {
        match self {
            AccountStatus::Active => "Active",
            AccountStatus::Banned => "Banned",
        }
    }

    pub fn from_label(text: &str) -> (status: Option<AccountStatus>)
        ensures
            status == AccountStatus::of_label(text@),
    {
        if text_eq(text, "Active") {
            Some(AccountStatus::Active)
        } else if text_eq(text, "Banned") {
            Some(AccountStatus::Banned)
        } else {
            None
        }
    }

    /// Every status is found again from its stored text.
    pub proof fn label_round_trip(status: AccountStatus)
        ensures
            AccountStatus::of_label(status.label()) == Some(status),
    {
        reveal_strlit("Active");
        reveal_strlit("Banned");
        assert("Active"@[0] == 'A');
        assert("Banned"@[0] == 'B');
    }
}

/// What may accompany the settling of a lost tool by payment.
#[derive(Debug, Clone, Copy)]
pub struct PaidRequest {
    pub receipt_uploaded: Option<bool>,
}

/// One student.
#[derive(Debug)]
pub struct Student {
    pub student_id: String,
    pub name: String,
    pub class_name: Option<String>,
    pub department: String,
    pub email: String,
    pub account_status: AccountStatus,
    pub lost_tool_count: i32,
    pub units: Option<Vec<String>>,
    pub created_at: Timestamp,
}

/// What is asked when a student is created.
#[derive(Debug)]
pub struct CreateStudentRequest {
    pub student_id: String,
    pub name: String,
    pub class_name: Option<String>,
    pub department: String,
    pub email: String,
    pub units: Option<Vec<String>>,
}

impl CreateStudentRequest {
    /// Why the request is malformed, if it is: the id or the name is blank,
    /// or the email address has no `@` in it.
    pub open spec fn defect(&self) -> Option<Seq<char>> {
        if trimmed(self.student_id@).len() == 0 {
            Some("student_id required"@)
        } else if trimmed(self.name@).len() == 0 {
            Some("name required"@)
        } else if !self.email@.contains('@') {
            Some("Invalid email"@)
        } else {
            None
        }
    }
}

/// The row that a well-formed creation request asks to be stored.
#[derive(Debug)]
pub struct NewStudent {
    pub student_id: String,
    pub name: String,
    pub class_name: Option<String>,
    pub department: String,
    pub email: String,
    pub units: Option<Vec<String>>,
}

/// What narrows a listing of students.
#[derive(Debug)]
pub struct StudentFilters {
    pub status: Option<String>,
    pub search: Option<String>,
}

impl StudentFilters {
    /// Whether a student passes: the account status is the one asked for,
    /// ASCII case aside, and the name or the id holds the search text,
    /// without regard to case. A filter that is left out lets every student
    /// pass.
    pub open spec fn accepts(&self, student: &Student) -> bool {
        &&& (self.status matches Some(wanted) ==> same_ignoring_ascii_case(
            student.account_status.label(),
            wanted@,
        ))
        &&& (self.search matches Some(wanted) ==> (occurs_in(
            lowercase(wanted@),
            lowercase(student.name@),
        ) || occurs_in(lowercase(wanted@), lowercase(student.student_id@))))
    }
}

/// Which of the students pass the filters, position by position.
pub open spec fn students_kept(students: Seq<Student>, filters: StudentFilters) -> Seq<bool> {
    Seq::new(students.len(), |i: int| filters.accepts(&students[i]))
}

} // verus!
