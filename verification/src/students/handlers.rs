//! Recovery and payment, the two ways a lost tool is settled; and what the
//! other student operations decide before storage is asked.

use vstd::prelude::*;
use crate::delegations::models::{copy_text, copy_texts, text_of, texts_of, Resolution};
use crate::errors::{AppError, ErrorKind};
use crate::laws::{paid_keeps_invariants, recover_keeps_invariants};
use crate::ledger::{Ledger, LedgerState};
use crate::select::{is_selection, selection_grows};
use crate::students::models::{
    students_kept,
    AccountStatus,
    CreateStudentRequest,
    NewStudent,
    PaidRequest,
    Student,
    StudentFilters,
};
use crate::text::{
    contains,
    contains_char,
    eq_ignore_ascii_case,
    lowercase,
    to_lowercase,
    to_uppercase,
    trim,
    trimmed,
    uppercase,
};

verus! {

/// What the caller learns of a recovery.
#[derive(Debug, Clone, Copy)]
pub struct RecoverReceipt {
    pub new_lost_count: i32,
    pub account_status: AccountStatus,
    /// More units came back than the tool had out.
    pub stock_floored: bool,
    /// The student's count was at zero already.
    pub count_floored: bool,
}

impl RecoverReceipt {
    /// The sentence that goes with the receipt.
    pub fn message(&self) -> (text: &'static str)
        ensures
            text@ == "Tool marked as recovered"@,
    {
        "Tool marked as recovered"
    }
}

/// What the caller learns of a payment.
#[derive(Debug, Clone, Copy)]
pub struct PaidReceipt {
    pub resolution: Resolution,
    pub receipt_uploaded: bool,
    pub new_lost_count: i32,
    pub account_status: AccountStatus,
    /// The student's count was at zero already.
    pub count_floored: bool,
}

impl PaidReceipt {
    /// The sentence that goes with the receipt.
    pub fn message(&self) -> (text: &'static str)
        ensures
            text@ == "Tool marked as paid"@,
    {
        "Tool marked as paid"
    }
}

/// Whether a payment request says that a receipt was uploaded. No request,
/// or one that leaves the flag out, says that none was.
pub open spec fn receipt_flag(body: Option<PaidRequest>) -> bool {
    body matches Some(request) && request.receipt_uploaded == Some(true)
}

/// `after` and `receipt` are what the recovery of delegation `id` by its
/// student, served on `before`, leaves and tells.
pub open spec fn recovery_served(
    before: LedgerState,
    student_id: Seq<char>,
    id: i32,
    after: LedgerState,
    receipt: RecoverReceipt,
) -> bool {
    let delegation = before.delegation(id);
    &&& before.recover(student_id, id) == Ok::<LedgerState, ErrorKind>(after)
    &&& after.holds(id)
    &&& after.delegation(id) == delegation.settled(Resolution::Recovered)
    &&& receipt.new_lost_count == after.students[student_id].lost_tool_count
    &&& receipt.account_status == after.students[student_id].account_status
    &&& receipt.stock_floored == before.tools[delegation.tool_id].release_hits_floor(
        delegation.quantity,
    )
    &&& receipt.count_floored == before.students[student_id].adjustment_hits_floor(-1)
}

/// `after` and `receipt` are what the payment for delegation `id` by its
/// student, served on `before`, leaves and tells.
pub open spec fn payment_served(
    before: LedgerState,
    student_id: Seq<char>,
    id: i32,
    body: Option<PaidRequest>,
    after: LedgerState,
    receipt: PaidReceipt,
) -> bool {
    &&& before.pay(student_id, id) == Ok::<LedgerState, ErrorKind>(after)
    &&& after.holds(id)
    &&& after.delegation(id) == before.delegation(id).settled(Resolution::Paid)
    &&& receipt.resolution == Resolution::Paid
    &&& receipt.receipt_uploaded == receipt_flag(body)
    &&& receipt.new_lost_count == after.students[student_id].lost_tool_count
    &&& receipt.account_status == after.students[student_id].account_status
    &&& receipt.count_floored == before.students[student_id].adjustment_hits_floor(-1)
}

/// Settles a student's lost tool as recovered: the delegation is resolved,
/// its units go back into stock, and the student's lost-tool count falls by
/// one, which reactivates the account once the count is below the threshold.
/// A refusal leaves the ledger as it was.
pub fn recover_tool(
    ledger: &mut Ledger,
    student_id: &str,
    delegation_id: i32,
) -> (outcome: Result<RecoverReceipt, AppError>)
    requires
        old(ledger).wf(),
    ensures
        final(ledger).wf(),
        match outcome {
            Ok(receipt) => recovery_served(
                old(ledger)@,
                student_id@,
                delegation_id,
                final(ledger)@,
                receipt,
            ),
            Err(error) => {
                &&& error == AppError::NotFound
                &&& old(ledger)@.recover(student_id@, delegation_id) == Err::<
                    LedgerState,
                    ErrorKind,
                >(ErrorKind::NotFound)
                &&& final(ledger)@ == old(ledger)@
            },
        },
{
    let position: usize = match ledger.position_of(delegation_id) {
        Some(position) => position,
        None => {
            return Err(AppError::NotFound);
        },
    };
    let record = ledger.record_at(position);
    if !record.awaits_settlement(student_id) {
        return Err(AppError::NotFound);
    }
    let tool_id: i32 = record.tool_id;
    let quantity: i32 = record.quantity;
    let mut stock = match ledger.tool(tool_id) {
        Some(stock) => stock,
        None => {
            return Err(AppError::NotFound);
        },
    };
    let before = match ledger.student(student_id) {
        Some(standing) => standing,
        None => {
            return Err(AppError::NotFound);
        },
    };
    proof {
        recover_keeps_invariants(ledger@, student_id@, delegation_id);
        assert(ledger@.delegations[position as int].wf());
        assert(ledger@.students[student_id@].wf());
    }
    let stock_floored = stock.release(quantity);
    let count_floored = before.hits_floor(-1);
    let after = before.adjust(-1);
    ledger.put_tool(tool_id, stock);
    ledger.put_student(student_id, after);
    ledger.settled_at(position, student_id, Resolution::Recovered);
    Ok(
        RecoverReceipt {
            new_lost_count: after.lost_tool_count,
            account_status: after.account_status,
            stock_floored,
            count_floored,
        },
    )
}

/// Settles a student's lost tool as paid: the delegation is resolved and the
/// student's lost-tool count falls by one, which reactivates the account
/// once the count is below the threshold. Stock does not change: what was
/// paid for is written off. A refusal leaves the ledger as it was.
pub fn paid_tool(
    ledger: &mut Ledger,
    student_id: &str,
    delegation_id: i32,
    body: Option<PaidRequest>,
) -> (outcome: Result<PaidReceipt, AppError>)
    requires
        old(ledger).wf(),
    ensures
        final(ledger).wf(),
        match outcome {
            Ok(receipt) => payment_served(
                old(ledger)@,
                student_id@,
                delegation_id,
                body,
                final(ledger)@,
                receipt,
            ),
            Err(error) => {
                &&& error == AppError::NotFound
                &&& old(ledger)@.pay(student_id@, delegation_id) == Err::<LedgerState, ErrorKind>(
                    ErrorKind::NotFound,
                )
                &&& final(ledger)@ == old(ledger)@
            },
        },
{
    let position: usize = match ledger.position_of(delegation_id) {
        Some(position) => position,
        None => {
            return Err(AppError::NotFound);
        },
    };
    let record = ledger.record_at(position);
    if !record.awaits_settlement(student_id) {
        return Err(AppError::NotFound);
    }
    let before = match ledger.student(student_id) {
        Some(standing) => standing,
        None => {
            return Err(AppError::NotFound);
        },
    };
    proof {
        paid_keeps_invariants(ledger@, student_id@, delegation_id);
        assert(ledger@.students[student_id@].wf());
    }
    let count_floored = before.hits_floor(-1);
    let after = before.adjust(-1);
    ledger.put_student(student_id, after);
    ledger.settled_at(position, student_id, Resolution::Paid);
    let receipt_uploaded: bool = match body {
        Some(request) => match request.receipt_uploaded {
            Some(flag) => flag,
            None => false,
        },
        None => false,
    };
    Ok(
        PaidReceipt {
            resolution: Resolution::Paid,
            receipt_uploaded,
            new_lost_count: after.lost_tool_count,
            account_status: after.account_status,
            count_floored,
        },
    )
}

/// Checks a creation request and tidies what it holds: the id is trimmed
/// and put in capitals, the name and the department are trimmed, the email
/// address is trimmed and put in lowercase.
pub fn create(body: &CreateStudentRequest) -> (outcome: Result<NewStudent, AppError>)
    ensures
        body.defect() is Some ==> (outcome matches Err(AppError::Validation(m)) && Some(m@)
            == body.defect()),
        body.defect() is None ==> (outcome matches Ok(row) && {
            &&& row.student_id@ == uppercase(trimmed(body.student_id@))
            &&& row.name@ == trimmed(body.name@)
            &&& text_of(row.class_name) == text_of(body.class_name)
            &&& row.department@ == trimmed(body.department@)
            &&& row.email@ == lowercase(trimmed(body.email@))
            &&& texts_of(row.units) == texts_of(body.units)
        }),
{
    let student_id = trim(body.student_id.as_str());
    if student_id.is_empty() {
        return Err(AppError::Validation("student_id required".to_owned()));
    }
    let name = trim(body.name.as_str());
    if name.is_empty() {
        return Err(AppError::Validation("name required".to_owned()));
    }
    if !contains_char(body.email.as_str(), '@') {
        return Err(AppError::Validation("Invalid email".to_owned()));
    }
    Ok(
        NewStudent {
            student_id: to_uppercase(student_id),
            name: name.to_owned(),
            class_name: copy_text(&body.class_name),
            department: trim(body.department.as_str()).to_owned(),
            email: to_lowercase(trim(body.email.as_str())),
            units: copy_texts(&body.units),
        },
    )
}

/// Whether a student passes the filters.
pub fn passes(filters: &StudentFilters, student: &Student) -> (kept: bool)
    ensures
        kept == filters.accepts(student),
{
    match &filters.status {
        Some(wanted) => {
            if !eq_ignore_ascii_case(student.account_status.as_str(), wanted.as_str()) {
                return false;
            }
        },
        None => {},
    }
    match &filters.search {
        Some(wanted) => {
            let wanted = to_lowercase(wanted.as_str());
            let name = to_lowercase(student.name.as_str());
            let student_id = to_lowercase(student.student_id.as_str());
            if !contains(name.as_str(), wanted.as_str()) && !contains(
                student_id.as_str(),
                wanted.as_str(),
            ) {
                return false;
            }
        },
        None => {},
    }
    true
}

/// The positions of the students that pass the filters, in rising order.
pub fn list(students: &Vec<Student>, filters: &StudentFilters) -> (picked: Vec<usize>)
    ensures
        is_selection(picked@, students@.len(), students_kept(students@, *filters)),
{
    let mut picked: Vec<usize> = Vec::new();
    let total: usize = students.len();
    let mut position: usize = 0;
    while position < total
        invariant
            total == students@.len(),
            position <= total,
            is_selection(picked@, position as nat, students_kept(students@, *filters)),
        decreases total - position,
    {
        let ghost before = picked@;
        if passes(filters, &students[position]) {
            picked.push(position);
        }
        proof {
            selection_grows(before, picked@, position as nat, students_kept(students@, *filters));
        }
        position = position + 1;
    }
    picked
}

} // verus!
